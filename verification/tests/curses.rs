use termenv::curses::{
    eat_newline_glitch, enter_dim_mode, enter_italics_mode, exit_italics_mode, is_initialized,
    max_colors, reset, setup, term, Capability, Code, Flag, Number, Store, StringCap, Term,
};

#[test]
fn code_takes_the_first_two_bytes() {
    let c = Code::new("ZH");
    assert_eq!(c.first, b'Z');
    assert_eq!(c.second, b'H');
    assert_eq!(c.bytes(), [b'Z', b'H']);
    assert_eq!(Code::new("Colors"), Code::new("Co"));
}

#[test]
fn identifiers_compare_by_code() {
    assert_eq!(StringCap::new("ZH"), enter_italics_mode());
    assert_eq!(StringCap::new("ZR"), exit_italics_mode());
    assert_eq!(StringCap::new("mh"), enter_dim_mode());
    assert_eq!(Number::new("Co"), max_colors());
    assert_eq!(Flag::new("xn"), eat_newline_glitch());
    assert_ne!(enter_italics_mode(), exit_italics_mode());
    assert!(StringCap::new("ZH") < StringCap::new("ZR"));
    assert!(StringCap::new("ZR") < StringCap::new("mh"));
    assert!(StringCap::new("aZ") < StringCap::new("ba"));
}

#[test]
fn get_after_set_returns_the_override() {
    let mut t = Term::new();
    t.set(enter_italics_mode(), "\x1b[3m".to_string());
    assert_eq!(t.get(enter_italics_mode(), None), Some("\x1b[3m".to_string()));
    assert_eq!(
        t.get(enter_italics_mode(), Some("native".to_string())),
        Some("\x1b[3m".to_string())
    );
}

#[test]
fn override_survives_other_lookups_and_overrides() {
    let mut t = Term::new();
    t.set(exit_italics_mode(), "off".to_string());
    assert_eq!(t.get(enter_italics_mode(), Some("on".to_string())), Some("on".to_string()));
    assert_eq!(t.get(enter_dim_mode(), None), None);
    t.set(enter_dim_mode(), "dim".to_string());
    t.set(StringCap::new("AA"), "first".to_string());
    t.set(StringCap::new("zz"), "last".to_string());
    assert_eq!(t.get(max_colors(), 8), Some(8));
    assert!(t.get(eat_newline_glitch(), true));
    assert_eq!(t.get(exit_italics_mode(), None), Some("off".to_string()));
    assert_eq!(t.get(enter_dim_mode(), None), Some("dim".to_string()));
    assert_eq!(t.get(StringCap::new("AA"), None), Some("first".to_string()));
    assert_eq!(t.get(StringCap::new("zz"), None), Some("last".to_string()));
}

#[test]
fn set_replaces_an_override() {
    let mut t = Term::new();
    t.set(enter_dim_mode(), "one".to_string());
    t.set(enter_dim_mode(), "two".to_string());
    assert_eq!(t.get(enter_dim_mode(), None), Some("two".to_string()));
}

#[test]
fn native_answer_is_cached() {
    let mut t = Term::new();
    assert!(t.cached(enter_italics_mode()).is_none());
    assert_eq!(
        t.get(enter_italics_mode(), Some("from database".to_string())),
        Some("from database".to_string())
    );
    assert_eq!(t.cached(enter_italics_mode()), Some(&"from database".to_string()));
    assert_eq!(
        t.get(enter_italics_mode(), Some("asked again".to_string())),
        Some("from database".to_string())
    );
    assert_eq!(t.get(enter_italics_mode(), None), Some("from database".to_string()));
}

#[test]
fn undefined_string_is_none_and_stays_uncached() {
    let mut t = Term::new();
    assert_eq!(t.get(enter_italics_mode(), None), None);
    assert!(t.cached(enter_italics_mode()).is_none());
    assert_eq!(t.get(enter_italics_mode(), Some("later".to_string())), Some("later".to_string()));
}

#[test]
fn number_minus_one_is_undefined() {
    let mut t = Term::new();
    assert_eq!(t.get(max_colors(), -1), None);
    assert_eq!(t.get(max_colors(), 0), Some(0));
    assert_eq!(t.get(max_colors(), 256), Some(256));
    assert_eq!(t.get(max_colors(), -2), Some(-2));
    assert_eq!(max_colors().lookup(&mut t, 16777216), Some(16777216));
}

#[test]
fn flag_is_what_the_database_says() {
    let mut t = Term::new();
    assert!(t.get(eat_newline_glitch(), true));
    assert!(!t.get(eat_newline_glitch(), false));
    assert!(eat_newline_glitch().lookup(&mut t, true));
}

#[test]
fn many_overrides_stay_in_order() {
    let mut t = Term::new();
    let codes = ["mh", "ZH", "ab", "zz", "ZR", "AA", "k1", "kb", "Co", "xn"];
    for (i, code) in codes.iter().enumerate() {
        t.set(StringCap::new(code), format!("value {}", i));
    }
    for (i, code) in codes.iter().enumerate() {
        assert_eq!(t.get(StringCap::new(code), None), Some(format!("value {}", i)));
    }
    assert_eq!(t.get(StringCap::new("ac"), None), None);
}

#[test]
fn store_starts_without_session() {
    let mut store = Store::new();
    assert!(!is_initialized(&store));
    assert!(!store.has_term());
    assert!(!reset(&mut store));
}

#[test]
fn setup_installs_a_fresh_table() {
    let mut store = Store::new();
    assert!(setup(&mut store, true));
    assert!(is_initialized(&store));
    assert!(store.has_term());
    term(&mut store).set(enter_italics_mode(), "x".to_string());
    assert_eq!(term(&mut store).get(enter_italics_mode(), None), Some("x".to_string()));
    assert!(reset(&mut store));
    assert!(setup(&mut store, true));
    assert_eq!(term(&mut store).get(enter_italics_mode(), None), None);
}

#[test]
fn failed_setup_leaves_no_table() {
    let mut store = Store::new();
    assert!(setup(&mut store, true));
    assert!(reset(&mut store));
    assert!(!setup(&mut store, false));
    assert!(!is_initialized(&store));
    assert!(!store.has_term());
    assert!(setup(&mut store, true));
    assert!(store.has_term());
}

#[test]
fn reset_is_idempotent_and_keeps_overrides() {
    let mut store = Store::new();
    assert!(setup(&mut store, true));
    term(&mut store).set(enter_dim_mode(), "dim".to_string());
    assert!(reset(&mut store));
    assert!(!is_initialized(&store));
    assert!(!reset(&mut store));
    assert!(!is_initialized(&store));
    assert!(store.has_term());
    assert_eq!(term(&mut store).get(enter_dim_mode(), None), Some("dim".to_string()));
}

#[test]
fn glitch_flag_needs_no_override() {
    let mut store = Store::new();
    assert!(setup(&mut store, true));
    let xn: bool = term(&mut store).get(eat_newline_glitch(), true);
    assert!(xn);
    let xn: bool = term(&mut store).get(eat_newline_glitch(), false);
    assert!(!xn);
}
