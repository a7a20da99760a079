use termenv::env::{Environment, DEFAULT_READ_BYTE_LIMIT};
use termenv::env_dispatch::{
    allow_use_posix_spawn, guess_emoji_width, handle_change_ambiguous_width,
    handle_fish_cursor_selection_mode_change, handle_fish_history_change, handle_fish_trace,
    handle_fish_use_posix_spawn_change, handle_read_limit_change, handle_timezone,
    update_fish_color_support, update_wait_on_escape_ms, use_posix_spawn, CursorSelectionMode,
    EnvOp, Platform, ShellState,
};

fn env(pairs: &[(&str, &str)]) -> Environment {
    let mut e = Environment::new();
    for (name, value) in pairs {
        e.set(name.as_bytes().to_vec(), value.as_bytes().to_vec(), false);
    }
    e
}

fn emoji_width(pairs: &[(&str, &str)], system_width: i32) -> i32 {
    let mut state = ShellState::new();
    guess_emoji_width(&mut state, &env(pairs), system_width);
    state.emoji_width
}

fn ambiguous_width(pairs: &[(&str, &str)]) -> i32 {
    let mut state = ShellState::new();
    state.ambiguous_width = 7;
    handle_change_ambiguous_width(&mut state, &env(pairs));
    state.ambiguous_width
}

#[test]
fn fresh_state_has_the_defaults() {
    let state = ShellState::new();
    assert!(!state.use_posix_spawn);
    assert!(!use_posix_spawn(&state));
    assert!(!state.can_set_term_title);
    assert!(!state.term_has_xn);
    assert!(!state.curses_initialized);
    assert_eq!(state.read_byte_limit, DEFAULT_READ_BYTE_LIMIT);
    assert_eq!(state.color_support.bits(), 0);
    assert_eq!(state.emoji_width, 1);
    assert_eq!(state.ambiguous_width, 1);
}

#[test]
fn emoji_width_setting_is_clamped() {
    assert_eq!(emoji_width(&[("fish_emoji_width", "1")], 2), 1);
    assert_eq!(emoji_width(&[("fish_emoji_width", "2")], 1), 2);
    assert_eq!(emoji_width(&[("fish_emoji_width", "0")], 2), 1);
    assert_eq!(emoji_width(&[("fish_emoji_width", "3")], 1), 2);
    assert_eq!(emoji_width(&[("fish_emoji_width", "-4")], 2), 1);
    assert_eq!(emoji_width(&[("fish_emoji_width", "wide")], 2), 1);
    assert_eq!(emoji_width(&[("fish_emoji_width", "")], 2), 1);
    assert_eq!(emoji_width(&[("fish_emoji_width", "2"), ("TERM_PROGRAM", "iTerm.app")], 1), 2);
    assert_eq!(emoji_width(&[("fish_emoji_width", "1"), ("TERM_PROGRAM", "iTerm.app")], 2), 1);
}

#[test]
fn emoji_width_is_guessed_from_the_terminal_program() {
    let apple = |version: &str| {
        emoji_width(&[("TERM_PROGRAM", "Apple_Terminal"), ("TERM_PROGRAM_VERSION", version)], 1)
    };
    assert_eq!(apple("400"), 2);
    assert_eq!(apple("455"), 2);
    assert_eq!(apple("399"), 1);
    assert_eq!(apple("400.1"), 1);
    assert_eq!(apple(""), 1);
    assert_eq!(emoji_width(&[("TERM_PROGRAM", "Apple_Terminal")], 1), 1);
    assert_eq!(emoji_width(&[("TERM_PROGRAM", "iTerm.app")], 1), 2);
    assert_eq!(emoji_width(&[("TERM_PROGRAM", "iTerm.app"), ("TERM_PROGRAM_VERSION", "x")], 1), 2);
}

#[test]
fn emoji_width_falls_back_to_the_system() {
    assert_eq!(emoji_width(&[], 1), 1);
    assert_eq!(emoji_width(&[], 2), 2);
    assert_eq!(emoji_width(&[], 0), 1);
    assert_eq!(emoji_width(&[], -1), 1);
    assert_eq!(emoji_width(&[], 9), 2);
    assert_eq!(emoji_width(&[("TERM_PROGRAM", "WezTerm"), ("TERM_PROGRAM_VERSION", "500")], 2), 2);
}

#[test]
fn emoji_width_touches_nothing_else() {
    let mut state = ShellState::new();
    state.use_posix_spawn = true;
    state.read_byte_limit = 17;
    let before = state;
    guess_emoji_width(&mut state, &env(&[("fish_emoji_width", "2")]), 1);
    assert_eq!(state.emoji_width, 2);
    state.emoji_width = before.emoji_width;
    assert_eq!(state, before);
}

#[test]
fn ambiguous_width_setting_is_clamped() {
    assert_eq!(ambiguous_width(&[]), 1);
    assert_eq!(ambiguous_width(&[("fish_ambiguous_width", "1")]), 1);
    assert_eq!(ambiguous_width(&[("fish_ambiguous_width", "2")]), 2);
    assert_eq!(ambiguous_width(&[("fish_ambiguous_width", "0")]), 1);
    assert_eq!(ambiguous_width(&[("fish_ambiguous_width", "10")]), 2);
    assert_eq!(ambiguous_width(&[("fish_ambiguous_width", "two")]), 1);
    assert_eq!(ambiguous_width(&[("fish_ambiguous_width", "")]), 1);
}

#[test]
fn cursor_selection_mode_is_inclusive_on_request() {
    let mode = |pairs| handle_fish_cursor_selection_mode_change(&env(pairs));
    assert_eq!(mode(&[("fish_cursor_selection_mode", "inclusive")]), CursorSelectionMode::Inclusive);
    assert_eq!(mode(&[("fish_cursor_selection_mode", "exclusive")]), CursorSelectionMode::Exclusive);
    assert_eq!(mode(&[("fish_cursor_selection_mode", "Inclusive")]), CursorSelectionMode::Exclusive);
    assert_eq!(mode(&[("fish_cursor_selection_mode", "")]), CursorSelectionMode::Exclusive);
    assert_eq!(mode(&[]), CursorSelectionMode::Exclusive);
}

#[test]
fn posix_spawn_is_ruled_out_on_openbsd() {
    assert!(!allow_use_posix_spawn(Platform::OpenBsd));
    assert!(allow_use_posix_spawn(Platform::Linux));
    assert!(allow_use_posix_spawn(Platform::MacOs));
    assert!(allow_use_posix_spawn(Platform::Other));
    let mut state = ShellState::new();
    state.use_posix_spawn = true;
    handle_fish_use_posix_spawn_change(
        &mut state,
        &env(&[("fish_use_posix_spawn", "1")]),
        Platform::OpenBsd,
    );
    assert!(!use_posix_spawn(&state));
}

#[test]
fn posix_spawn_follows_the_setting() {
    let decide = |pairs, platform| {
        let mut state = ShellState::new();
        handle_fish_use_posix_spawn_change(&mut state, &env(pairs), platform);
        use_posix_spawn(&state)
    };
    assert!(decide(&[], Platform::Linux));
    assert!(decide(&[("fish_use_posix_spawn", "")], Platform::Linux));
    assert!(decide(&[("fish_use_posix_spawn", "1")], Platform::MacOs));
    assert!(decide(&[("fish_use_posix_spawn", "yes")], Platform::Other));
    assert!(!decide(&[("fish_use_posix_spawn", "0")], Platform::Linux));
    assert!(!decide(&[("fish_use_posix_spawn", "no")], Platform::Linux));
    assert!(!decide(&[], Platform::OpenBsd));
}

#[test]
fn read_limit_follows_the_setting() {
    let mut state = ShellState::new();
    assert!(!handle_read_limit_change(&mut state, &env(&[("fish_read_limit", "4096")])));
    assert_eq!(state.read_byte_limit, 4096);
    assert!(!handle_read_limit_change(&mut state, &env(&[("fish_read_limit", "0")])));
    assert_eq!(state.read_byte_limit, 0);
    assert!(!handle_read_limit_change(&mut state, &env(&[])));
    assert_eq!(state.read_byte_limit, DEFAULT_READ_BYTE_LIMIT);
    state.read_byte_limit = 5;
    assert!(!handle_read_limit_change(&mut state, &env(&[("fish_read_limit", "")])));
    assert_eq!(state.read_byte_limit, DEFAULT_READ_BYTE_LIMIT);
}

#[test]
fn invalid_read_limit_falls_back_to_the_default() {
    for bad in ["lots", "-1", "1k", " 12", "99999999999999999999999999"] {
        let mut state = ShellState::new();
        state.read_byte_limit = 5;
        assert!(handle_read_limit_change(&mut state, &env(&[("fish_read_limit", bad)])), "{}", bad);
        assert_eq!(state.read_byte_limit, DEFAULT_READ_BYTE_LIMIT, "{}", bad);
    }
}

#[test]
fn trace_is_on_when_set() {
    assert!(handle_fish_trace(&env(&[("fish_trace", "1")])));
    assert!(handle_fish_trace(&env(&[("fish_trace", "0")])));
    assert!(!handle_fish_trace(&env(&[("fish_trace", "")])));
    assert!(!handle_fish_trace(&env(&[])));
}

#[test]
fn time_zone_is_mirrored_exported_or_not() {
    let e = env(&[("TZ", "Europe/Berlin"), ("EMPTY", "")]);
    assert_eq!(
        handle_timezone(b"TZ", &e),
        EnvOp { name: b"TZ".to_vec(), value: Some(b"Europe/Berlin".to_vec()) }
    );
    assert_eq!(handle_timezone(b"EMPTY", &e), EnvOp { name: b"EMPTY".to_vec(), value: None });
    assert_eq!(handle_timezone(b"OTHER", &e), EnvOp { name: b"OTHER".to_vec(), value: None });
}

#[test]
fn escape_delay_and_history_are_read_as_text() {
    let e = env(&[("fish_escape_delay_ms", "30"), ("fish_history", "")]);
    assert_eq!(update_wait_on_escape_ms(&e), Some(&b"30"[..]));
    assert_eq!(handle_fish_history_change(&e), Some(&b""[..]));
    let e = env(&[("fish_escape_delay_ms", ""), ("fish_history", "work")]);
    assert_eq!(update_wait_on_escape_ms(&e), None);
    assert_eq!(handle_fish_history_change(&e), Some(&b"work"[..]));
    assert_eq!(handle_fish_history_change(&env(&[])), None);
}

#[test]
fn color_support_update_touches_nothing_else() {
    let mut state = ShellState::new();
    state.term_has_xn = true;
    let before = state;
    update_fish_color_support(&mut state, &env(&[("TERM", "xterm")]), Some(70000));
    assert_eq!(state.color_support.bits(), 3);
    state.color_support = before.color_support;
    assert_eq!(state, before);
}
