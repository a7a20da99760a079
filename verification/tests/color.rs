use termenv::color::{
    color_support, session_marker, supports_24bit, supports_256color, term_name, user_override,
};
use termenv::env::Environment;
use termenv::output::ColorSupport;

fn env(pairs: &[(&str, &str)]) -> Environment {
    let mut e = Environment::new();
    for (name, value) in pairs {
        e.set(name.as_bytes().to_vec(), value.as_bytes().to_vec(), true);
    }
    e
}

#[test]
fn xterm_256color_without_overrides() {
    let e = env(&[("TERM", "xterm-256color")]);
    let c = color_support(&e, None);
    assert!(c.term_256color);
    assert!(!c.term_24bit);
    assert_eq!(c.bits(), 1);
}

#[test]
fn colorterm_truecolor() {
    let e = env(&[("TERM", "vt220"), ("COLORTERM", "truecolor")]);
    assert!(supports_24bit(&e, None));
    assert!(!supports_256color(&e, None));
    assert_eq!(color_support(&e, None).bits(), 2);
}

#[test]
fn nothing_known_means_no_colour_support() {
    let e = env(&[]);
    assert_eq!(color_support(&e, None), ColorSupport::none());
    assert_eq!(color_support(&e, None).bits(), 0);
    assert_eq!(term_name(&e), b"");
}

#[test]
fn term256_override_wins_over_term_name() {
    let e = env(&[("TERM", "xterm-256color"), ("fish_term256", "0")]);
    assert!(!supports_256color(&e, Some(256)));
    let e = env(&[("TERM", "vt100"), ("fish_term256", "1")]);
    assert!(supports_256color(&e, Some(8)));
    let e = env(&[("TERM", "xterm"), ("fish_term256", "")]);
    assert!(!supports_256color(&e, Some(256)));
}

#[test]
fn term_name_decides_256_before_max_colors() {
    assert!(supports_256color(&env(&[("TERM", "rxvt-256color")]), Some(8)));
    assert!(supports_256color(&env(&[("TERM", "xterm")]), Some(8)));
    assert!(supports_256color(&env(&[("TERM", "nxterm")]), None));
}

#[test]
fn max_colors_decides_256_last() {
    let e = env(&[("TERM", "screen")]);
    assert!(supports_256color(&e, Some(256)));
    assert!(supports_256color(&e, Some(257)));
    assert!(!supports_256color(&e, Some(255)));
    assert!(!supports_256color(&e, Some(-5)));
    assert!(!supports_256color(&e, None));
}

#[test]
fn term24bit_override_wins_over_everything() {
    let e = env(&[("TERM", "xterm"), ("STY", "123.pts"), ("fish_term24bit", "1")]);
    assert!(supports_24bit(&e, None));
    let e = env(&[("TERM", "xterm"), ("COLORTERM", "truecolor"), ("fish_term24bit", "0")]);
    assert!(!supports_24bit(&e, Some(16777216)));
}

#[test]
fn screen_and_eterm_switch_24bit_off() {
    let e = env(&[("TERM", "xterm"), ("STY", ""), ("COLORTERM", "truecolor")]);
    assert!(!supports_24bit(&e, Some(16777216)));
    let e = env(&[("TERM", "eterm-color"), ("COLORTERM", "truecolor")]);
    assert!(!supports_24bit(&e, Some(16777216)));
    let e = env(&[("TERM", "xeterm"), ("COLORTERM", "truecolor")]);
    assert!(supports_24bit(&e, None));
}

#[test]
fn max_colors_above_32767_means_24bit() {
    let e = env(&[("TERM", "xterm-direct"), ("COLORTERM", "no")]);
    assert!(supports_24bit(&e, Some(32768)));
    assert!(!supports_24bit(&e, Some(32767)));
    assert!(!supports_24bit(&e, None));
}

#[test]
fn colorterm_decides_when_set() {
    assert!(supports_24bit(&env(&[("COLORTERM", "24bit")]), None));
    assert!(supports_24bit(&env(&[("COLORTERM", "truecolor")]), None));
    let e = env(&[("COLORTERM", "yes"), ("KONSOLE_VERSION", "220400"), ("TERM", "st-256color")]);
    assert!(!supports_24bit(&e, None));
    let e = env(&[("COLORTERM", ""), ("VTE_VERSION", "5000")]);
    assert!(!supports_24bit(&e, None));
    assert!(!supports_24bit(&env(&[("COLORTERM", "truecolors")]), None));
}

#[test]
fn session_markers_decide_next() {
    assert!(supports_24bit(&env(&[("KONSOLE_VERSION", "")]), None));
    assert!(supports_24bit(&env(&[("KONSOLE_PROFILE_NAME", "Shell")]), None));
    assert!(supports_24bit(&env(&[("ITERM_SESSION_ID", "w0t0p0")]), None));
    assert!(supports_24bit(&env(&[("ITERM_SESSION_ID", "w0t0p0:ABC")]), None));
    assert!(supports_24bit(&env(&[("ITERM_SESSION_ID", "")]), None));
    let e = env(&[("ITERM_SESSION_ID", "w0t0p0:ABC"), ("KONSOLE_VERSION", "1")]);
    assert!(supports_24bit(&e, None));
    assert_eq!(session_marker(&env(&[])), None);
    assert_eq!(session_marker(&env(&[("TERM", "xterm")])), None);
    assert_eq!(session_marker(&env(&[("ITERM_SESSION_ID", ":")])), Some(true));
    assert_eq!(session_marker(&env(&[("ITERM_SESSION_ID", "")])), Some(true));
    assert_eq!(session_marker(&env(&[("KONSOLE_VERSION", "220400")])), Some(true));
}

#[test]
fn iterm_session_with_colon_has_24bit() {
    let e = env(&[("TERM", "ansi"), ("ITERM_SESSION_ID", "w0t0p0:6B3E")]);
    assert!(supports_24bit(&e, None));
    assert!(!supports_256color(&e, None));
    assert_eq!(color_support(&e, None).bits(), 2);
}

#[test]
fn session_marker_yields_to_higher_rules() {
    let e = env(&[("ITERM_SESSION_ID", "w0t0p0:6B3E"), ("COLORTERM", "no")]);
    assert!(!supports_24bit(&e, None));
    let e = env(&[("ITERM_SESSION_ID", "w0t0p0:6B3E"), ("STY", "1.pts")]);
    assert!(!supports_24bit(&e, None));
    let e = env(&[("ITERM_SESSION_ID", "w0t0p0:6B3E"), ("fish_term24bit", "0")]);
    assert!(!supports_24bit(&e, None));
}

#[test]
fn st_prefix_and_vte_version_come_last() {
    assert!(supports_24bit(&env(&[("TERM", "st-256color")]), None));
    assert!(!supports_24bit(&env(&[("TERM", "st")]), None));
    assert!(supports_24bit(&env(&[("VTE_VERSION", "3601")]), None));
    assert!(!supports_24bit(&env(&[("VTE_VERSION", "3600")]), None));
    assert!(!supports_24bit(&env(&[("VTE_VERSION", "new")]), None));
    assert!(!supports_24bit(&env(&[("VTE_VERSION", "")]), None));
    assert!(supports_24bit(&env(&[("VTE_VERSION", " 5202")]), None));
    assert!(supports_24bit(&env(&[("TERM", "st-x"), ("VTE_VERSION", "1")]), None));
}

#[test]
fn both_flags_are_independent() {
    let e = env(&[("TERM", "xterm-256color"), ("COLORTERM", "truecolor")]);
    let c = color_support(&e, None);
    assert_eq!(c, ColorSupport::term_256color().union(ColorSupport::term_24bit()));
    assert_eq!(c.bits(), 3);
    let e = env(&[("TERM", "xterm-256color"), ("fish_term256", "no"), ("fish_term24bit", "yes")]);
    assert_eq!(color_support(&e, Some(256)).bits(), 2);
}

#[test]
fn result_is_the_same_for_the_same_inputs() {
    let e = env(&[("TERM", "tmux-256color"), ("VTE_VERSION", "6003")]);
    let first = color_support(&e, Some(256));
    for _ in 0..3 {
        assert_eq!(color_support(&e, Some(256)), first);
    }
    assert_eq!(first.bits(), 3);
}

#[test]
fn user_override_reads_truth_values() {
    let e = env(&[("fish_term256", "yes"), ("fish_term24bit", "off")]);
    assert_eq!(user_override(&e, b"fish_term256"), Some(true));
    assert_eq!(user_override(&e, b"fish_term24bit"), Some(false));
    assert_eq!(user_override(&e, b"fish_term"), None);
}

#[test]
fn color_support_bits_round_trip() {
    for bits in 0u8..4 {
        assert_eq!(ColorSupport::from_bits(bits).map(|c| c.bits()), Some(bits));
    }
    assert_eq!(ColorSupport::from_bits(4), None);
    assert_eq!(ColorSupport::from_bits(255), None);
    assert_eq!(ColorSupport::none().bits(), 0);
    assert_eq!(ColorSupport::term_256color().bits(), 1);
    assert_eq!(ColorSupport::term_24bit().bits(), 2);
}

#[test]
fn color_support_contains_and_union() {
    let both = ColorSupport::term_256color().union(ColorSupport::term_24bit());
    assert!(both.contains(ColorSupport::term_256color()));
    assert!(both.contains(ColorSupport::term_24bit()));
    assert!(both.contains(ColorSupport::none()));
    assert!(!ColorSupport::term_256color().contains(ColorSupport::term_24bit()));
    assert!(!ColorSupport::none().contains(both));
    assert!(ColorSupport::none().contains(ColorSupport::none()));
}
