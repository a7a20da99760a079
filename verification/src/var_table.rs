//! The variables that the shell observes, and the reaction that each of them
//! has.

use vstd::prelude::*;
use vstd::string::*;
use crate::env_dispatch::{Handler, VarDispatchTable};

verus! {

/// What tells the observed variables apart: the length of a name, its first
/// byte and its sixth, 0 standing for a byte that the name does not have.
pub open spec fn marks(name: Seq<u8>) -> (nat, u8, u8) {
    (
        name.len(),
        if name.len() > 0 {
            name[0]
        } else {
            0
        },
        if name.len() > 5 {
            name[5]
        } else {
            0
        },
    )
}

/// The marks of a name in ASCII are read off its characters.
proof fn lemma_marks(name: &str, len: nat, first: u8, sixth: u8)
    requires
        is_ascii(name),
        name@.len() == len,
        len > 0,
        name@[0] as u8 == first,
        sixth == if len > 5 {
            name@[5] as u8
        } else {
            0u8
        },
    ensures
        marks(name.spec_bytes()) == (len, first, sixth),
{
    is_ascii_spec_bytes(name);
}

/// The marks of the variables that decide the locale.
proof fn lemma_locale_marks()
    ensures
        marks("LANG".spec_bytes()) == (4nat, 76u8, 0u8),
        marks("LANGUAGE".spec_bytes()) == (8nat, 76u8, 65u8),
        marks("LC_ALL".spec_bytes()) == (6nat, 76u8, 76u8),
        marks("LC_COLLATE".spec_bytes()) == (10nat, 76u8, 76u8),
        marks("LC_CTYPE".spec_bytes()) == (8nat, 76u8, 89u8),
        marks("LC_MESSAGES".spec_bytes()) == (11nat, 76u8, 83u8),
        marks("LC_NUMERIC".spec_bytes()) == (10nat, 76u8, 77u8),
        marks("LC_TIME".spec_bytes()) == (7nat, 76u8, 77u8),
        marks("LOCPATH".spec_bytes()) == (7nat, 76u8, 84u8),
        marks("fish_allow_singlebyte_locale".spec_bytes()) == (28nat, 102u8, 97u8),
{
    reveal_strlit("LANG");
    lemma_marks("LANG", 4, 76, 0);
    reveal_strlit("LANGUAGE");
    lemma_marks("LANGUAGE", 8, 76, 65);
    reveal_strlit("LC_ALL");
    lemma_marks("LC_ALL", 6, 76, 76);
    reveal_strlit("LC_COLLATE");
    lemma_marks("LC_COLLATE", 10, 76, 76);
    reveal_strlit("LC_CTYPE");
    lemma_marks("LC_CTYPE", 8, 76, 89);
    reveal_strlit("LC_MESSAGES");
    lemma_marks("LC_MESSAGES", 11, 76, 83);
    reveal_strlit("LC_NUMERIC");
    lemma_marks("LC_NUMERIC", 10, 76, 77);
    reveal_strlit("LC_TIME");
    lemma_marks("LC_TIME", 7, 76, 77);
    reveal_strlit("LOCPATH");
    lemma_marks("LOCPATH", 7, 76, 84);
    reveal_strlit("fish_allow_singlebyte_locale");
    lemma_marks("fish_allow_singlebyte_locale", 28, 102, 97);
}

/// The marks of the variables of the terminal, and of the settings that
/// follow them in the table.
proof fn lemma_terminal_marks()
    ensures
        marks("TERM".spec_bytes()) == (4nat, 84u8, 0u8),
        marks("TERMINFO".spec_bytes()) == (8nat, 84u8, 78u8),
        marks("TERMINFO_DIRS".spec_bytes()) == (13nat, 84u8, 78u8),
        marks("fish_term256".spec_bytes()) == (12nat, 102u8, 116u8),
        marks("fish_term24bit".spec_bytes()) == (14nat, 102u8, 116u8),
        marks("fish_escape_delay_ms".spec_bytes()) == (20nat, 102u8, 101u8),
        marks("fish_emoji_width".spec_bytes()) == (16nat, 102u8, 101u8),
        marks("fish_ambiguous_width".spec_bytes()) == (20nat, 102u8, 97u8),
        marks("LINES".spec_bytes()) == (5nat, 76u8, 0u8),
{
    reveal_strlit("TERM");
    lemma_marks("TERM", 4, 84, 0);
    reveal_strlit("TERMINFO");
    lemma_marks("TERMINFO", 8, 84, 78);
    reveal_strlit("TERMINFO_DIRS");
    lemma_marks("TERMINFO_DIRS", 13, 84, 78);
    reveal_strlit("fish_term256");
    lemma_marks("fish_term256", 12, 102, 116);
    reveal_strlit("fish_term24bit");
    lemma_marks("fish_term24bit", 14, 102, 116);
    reveal_strlit("fish_escape_delay_ms");
    lemma_marks("fish_escape_delay_ms", 20, 102, 101);
    reveal_strlit("fish_emoji_width");
    lemma_marks("fish_emoji_width", 16, 102, 101);
    reveal_strlit("fish_ambiguous_width");
    lemma_marks("fish_ambiguous_width", 20, 102, 97);
    reveal_strlit("LINES");
    lemma_marks("LINES", 5, 76, 0);
}

/// The marks of the remaining settings.
proof fn lemma_setting_marks()
    ensures
        marks("COLUMNS".spec_bytes()) == (7nat, 67u8, 78u8),
        marks("fish_complete_path".spec_bytes()) == (18nat, 102u8, 99u8),
        marks("fish_function_path".spec_bytes()) == (18nat, 102u8, 102u8),
        marks("fish_read_limit".spec_bytes()) == (15nat, 102u8, 114u8),
        marks("fish_history".spec_bytes()) == (12nat, 102u8, 104u8),
        marks("fish_autosuggestion_enabled".spec_bytes()) == (27nat, 102u8, 97u8),
        marks("fish_use_posix_spawn".spec_bytes()) == (20nat, 102u8, 117u8),
        marks("fish_trace".spec_bytes()) == (10nat, 102u8, 116u8),
        marks("fish_cursor_selection_mode".spec_bytes()) == (26nat, 102u8, 99u8),
{
    reveal_strlit("COLUMNS");
    lemma_marks("COLUMNS", 7, 67, 78);
    reveal_strlit("fish_complete_path");
    lemma_marks("fish_complete_path", 18, 102, 99);
    reveal_strlit("fish_function_path");
    lemma_marks("fish_function_path", 18, 102, 102);
    reveal_strlit("fish_read_limit");
    lemma_marks("fish_read_limit", 15, 102, 114);
    reveal_strlit("fish_history");
    lemma_marks("fish_history", 12, 102, 104);
    reveal_strlit("fish_autosuggestion_enabled");
    lemma_marks("fish_autosuggestion_enabled", 27, 102, 97);
    reveal_strlit("fish_use_posix_spawn");
    lemma_marks("fish_use_posix_spawn", 20, 102, 117);
    reveal_strlit("fish_trace");
    lemma_marks("fish_trace", 10, 102, 116);
    reveal_strlit("fish_cursor_selection_mode");
    lemma_marks("fish_cursor_selection_mode", 26, 102, 99);
}

/// The named registrations of the shell: the time zone.
pub open spec fn observed_named() -> Map<Seq<u8>, Handler> {
    Map::<Seq<u8>, Handler>::empty().insert("TZ".spec_bytes(), Handler::TzChange)
}

/// The anonymous registrations of the shell.
pub open spec fn observed_anon() -> Map<Seq<u8>, Handler> {
    Map::<Seq<u8>, Handler>::empty().insert(
        "LANG".spec_bytes(),
        Handler::LocaleChange,
    ).insert(
        "LANGUAGE".spec_bytes(),
        Handler::LocaleChange,
    ).insert(
        "LC_ALL".spec_bytes(),
        Handler::LocaleChange,
    ).insert(
        "LC_COLLATE".spec_bytes(),
        Handler::LocaleChange,
    ).insert(
        "LC_CTYPE".spec_bytes(),
        Handler::LocaleChange,
    ).insert(
        "LC_MESSAGES".spec_bytes(),
        Handler::LocaleChange,
    ).insert(
        "LC_NUMERIC".spec_bytes(),
        Handler::LocaleChange,
    ).insert(
        "LC_TIME".spec_bytes(),
        Handler::LocaleChange,
    ).insert(
        "LOCPATH".spec_bytes(),
        Handler::LocaleChange,
    ).insert(
        "fish_allow_singlebyte_locale".spec_bytes(),
        Handler::LocaleChange,
    ).insert(
        "TERM".spec_bytes(),
        Handler::CursesChange,
    ).insert(
        "TERMINFO".spec_bytes(),
        Handler::CursesChange,
    ).insert(
        "TERMINFO_DIRS".spec_bytes(),
        Handler::CursesChange,
    ).insert(
        "fish_term256".spec_bytes(),
        Handler::FishTermChange,
    ).insert(
        "fish_term24bit".spec_bytes(),
        Handler::FishTermChange,
    ).insert(
        "fish_escape_delay_ms".spec_bytes(),
        Handler::EscapeDelayChange,
    ).insert(
        "fish_emoji_width".spec_bytes(),
        Handler::EmojiWidthChange,
    ).insert(
        "fish_ambiguous_width".spec_bytes(),
        Handler::AmbiguousWidthChange,
    ).insert(
        "LINES".spec_bytes(),
        Handler::TermSizeChange,
    ).insert(
        "COLUMNS".spec_bytes(),
        Handler::TermSizeChange,
    ).insert(
        "fish_complete_path".spec_bytes(),
        Handler::CompletePathChange,
    ).insert(
        "fish_function_path".spec_bytes(),
        Handler::FunctionPathChange,
    ).insert(
        "fish_read_limit".spec_bytes(),
        Handler::ReadLimitChange,
    ).insert(
        "fish_history".spec_bytes(),
        Handler::HistoryChange,
    ).insert(
        "fish_autosuggestion_enabled".spec_bytes(),
        Handler::AutosuggestionChange,
    ).insert(
        "fish_use_posix_spawn".spec_bytes(),
        Handler::UsePosixSpawnChange,
    ).insert(
        "fish_trace".spec_bytes(),
        Handler::TraceChange,
    ).insert(
        "fish_cursor_selection_mode".spec_bytes(),
        Handler::CursorSelectionModeChange,
    )
}

/// Each observed variable is bound to its own reaction: no two of the names
/// are the same.
pub proof fn lemma_observed_anon()
    ensures
        observed_anon().contains_key("LANG".spec_bytes()) && observed_anon()["LANG".spec_bytes()]
            == Handler::LocaleChange,
        observed_anon().contains_key("LANGUAGE".spec_bytes()) && observed_anon()["LANGUAGE".spec_bytes()]
            == Handler::LocaleChange,
        observed_anon().contains_key("LC_ALL".spec_bytes()) && observed_anon()["LC_ALL".spec_bytes()]
            == Handler::LocaleChange,
        observed_anon().contains_key("LC_COLLATE".spec_bytes()) && observed_anon()["LC_COLLATE".spec_bytes()]
            == Handler::LocaleChange,
        observed_anon().contains_key("LC_CTYPE".spec_bytes()) && observed_anon()["LC_CTYPE".spec_bytes()]
            == Handler::LocaleChange,
        observed_anon().contains_key("LC_MESSAGES".spec_bytes()) && observed_anon()["LC_MESSAGES".spec_bytes()]
            == Handler::LocaleChange,
        observed_anon().contains_key("LC_NUMERIC".spec_bytes()) && observed_anon()["LC_NUMERIC".spec_bytes()]
            == Handler::LocaleChange,
        observed_anon().contains_key("LC_TIME".spec_bytes()) && observed_anon()["LC_TIME".spec_bytes()]
            == Handler::LocaleChange,
        observed_anon().contains_key("LOCPATH".spec_bytes()) && observed_anon()["LOCPATH".spec_bytes()]
            == Handler::LocaleChange,
        observed_anon().contains_key("fish_allow_singlebyte_locale".spec_bytes()) && observed_anon()["fish_allow_singlebyte_locale".spec_bytes()]
            == Handler::LocaleChange,
        observed_anon().contains_key("TERM".spec_bytes()) && observed_anon()["TERM".spec_bytes()]
            == Handler::CursesChange,
        observed_anon().contains_key("TERMINFO".spec_bytes()) && observed_anon()["TERMINFO".spec_bytes()]
            == Handler::CursesChange,
        observed_anon().contains_key("TERMINFO_DIRS".spec_bytes()) && observed_anon()["TERMINFO_DIRS".spec_bytes()]
            == Handler::CursesChange,
        observed_anon().contains_key("fish_term256".spec_bytes()) && observed_anon()["fish_term256".spec_bytes()]
            == Handler::FishTermChange,
        observed_anon().contains_key("fish_term24bit".spec_bytes()) && observed_anon()["fish_term24bit".spec_bytes()]
            == Handler::FishTermChange,
        observed_anon().contains_key("fish_escape_delay_ms".spec_bytes()) && observed_anon()["fish_escape_delay_ms".spec_bytes()]
            == Handler::EscapeDelayChange,
        observed_anon().contains_key("fish_emoji_width".spec_bytes()) && observed_anon()["fish_emoji_width".spec_bytes()]
            == Handler::EmojiWidthChange,
        observed_anon().contains_key("fish_ambiguous_width".spec_bytes()) && observed_anon()["fish_ambiguous_width".spec_bytes()]
            == Handler::AmbiguousWidthChange,
        observed_anon().contains_key("LINES".spec_bytes()) && observed_anon()["LINES".spec_bytes()]
            == Handler::TermSizeChange,
        observed_anon().contains_key("COLUMNS".spec_bytes()) && observed_anon()["COLUMNS".spec_bytes()]
            == Handler::TermSizeChange,
        observed_anon().contains_key("fish_complete_path".spec_bytes()) && observed_anon()["fish_complete_path".spec_bytes()]
            == Handler::CompletePathChange,
        observed_anon().contains_key("fish_function_path".spec_bytes()) && observed_anon()["fish_function_path".spec_bytes()]
            == Handler::FunctionPathChange,
        observed_anon().contains_key("fish_read_limit".spec_bytes()) && observed_anon()["fish_read_limit".spec_bytes()]
            == Handler::ReadLimitChange,
        observed_anon().contains_key("fish_history".spec_bytes()) && observed_anon()["fish_history".spec_bytes()]
            == Handler::HistoryChange,
        observed_anon().contains_key("fish_autosuggestion_enabled".spec_bytes()) && observed_anon()["fish_autosuggestion_enabled".spec_bytes()]
            == Handler::AutosuggestionChange,
        observed_anon().contains_key("fish_use_posix_spawn".spec_bytes()) && observed_anon()["fish_use_posix_spawn".spec_bytes()]
            == Handler::UsePosixSpawnChange,
        observed_anon().contains_key("fish_trace".spec_bytes()) && observed_anon()["fish_trace".spec_bytes()]
            == Handler::TraceChange,
        observed_anon().contains_key("fish_cursor_selection_mode".spec_bytes()) && observed_anon()["fish_cursor_selection_mode".spec_bytes()]
            == Handler::CursorSelectionModeChange,
{
    lemma_locale_marks();
    lemma_terminal_marks();
    lemma_setting_marks();
}

/// The table of the shell: every observed variable with its reaction.
pub fn var_dispatch_table() -> (table: VarDispatchTable)
    ensures
        table.named() == observed_named(),
        table.anon() == observed_anon(),
{
    proof {
        lemma_locale_marks();
        lemma_terminal_marks();
        lemma_setting_marks();
    }
    let mut table = VarDispatchTable::new();
    table.add("TZ".as_bytes(), Handler::TzChange);
    table.add_anon("LANG".as_bytes(), Handler::LocaleChange);
    table.add_anon("LANGUAGE".as_bytes(), Handler::LocaleChange);
    table.add_anon("LC_ALL".as_bytes(), Handler::LocaleChange);
    table.add_anon("LC_COLLATE".as_bytes(), Handler::LocaleChange);
    table.add_anon("LC_CTYPE".as_bytes(), Handler::LocaleChange);
    table.add_anon("LC_MESSAGES".as_bytes(), Handler::LocaleChange);
    table.add_anon("LC_NUMERIC".as_bytes(), Handler::LocaleChange);
    table.add_anon("LC_TIME".as_bytes(), Handler::LocaleChange);
    table.add_anon("LOCPATH".as_bytes(), Handler::LocaleChange);
    table.add_anon("fish_allow_singlebyte_locale".as_bytes(), Handler::LocaleChange);
    table.add_anon("TERM".as_bytes(), Handler::CursesChange);
    table.add_anon("TERMINFO".as_bytes(), Handler::CursesChange);
    table.add_anon("TERMINFO_DIRS".as_bytes(), Handler::CursesChange);
    table.add_anon("fish_term256".as_bytes(), Handler::FishTermChange);
    table.add_anon("fish_term24bit".as_bytes(), Handler::FishTermChange);
    table.add_anon("fish_escape_delay_ms".as_bytes(), Handler::EscapeDelayChange);
    table.add_anon("fish_emoji_width".as_bytes(), Handler::EmojiWidthChange);
    table.add_anon("fish_ambiguous_width".as_bytes(), Handler::AmbiguousWidthChange);
    table.add_anon("LINES".as_bytes(), Handler::TermSizeChange);
    table.add_anon("COLUMNS".as_bytes(), Handler::TermSizeChange);
    table.add_anon("fish_complete_path".as_bytes(), Handler::CompletePathChange);
    table.add_anon("fish_function_path".as_bytes(), Handler::FunctionPathChange);
    table.add_anon("fish_read_limit".as_bytes(), Handler::ReadLimitChange);
    table.add_anon("fish_history".as_bytes(), Handler::HistoryChange);
    table.add_anon("fish_autosuggestion_enabled".as_bytes(), Handler::AutosuggestionChange);
    table.add_anon("fish_use_posix_spawn".as_bytes(), Handler::UsePosixSpawnChange);
    table.add_anon("fish_trace".as_bytes(), Handler::TraceChange);
    table.add_anon("fish_cursor_selection_mode".as_bytes(), Handler::CursorSelectionModeChange);
    table
}

} // verus!
