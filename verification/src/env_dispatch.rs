//! What has to happen when a variable of the shell changes: which
//! subsystems run again, and what each of them settles on.
//!
//! Each function here decides on plain values. Calls into the terminal
//! database, the locale and the process environment are left to the caller,
//! who tells these functions what came back.

use vstd::prelude::*;
use vstd::slice::slice_to_vec;
use vstd::string::*;
use crate::assoc::{assoc, lemma_assoc_absent, lemma_assoc_last};
use crate::color::{color_support, color_support_spec};
use crate::env::{
    exported_value_of, holds, nonempty_value_of, value_of, Bindings, Environment,
    DEFAULT_READ_BYTE_LIMIT,
};
use crate::output::ColorSupport;
use crate::text::{
    bool_from_string, bytes_eq, parse_i32, parse_i32_spec, parse_usize, parse_usize_spec, truthy,
    wcstoi, wcstoi_spec,
};

verus! {

/// The operating systems that the shell tells apart.
#[derive(Clone, Copy, Debug, PartialEq, Eq, Structural)]
pub enum Platform {
    Linux,
    MacOs,
    OpenBsd,
    Other,
}

/// What the rest of the shell reads without asking again: each value is
/// settled anew whenever the subsystem behind it runs.
#[derive(Clone, Copy, Debug, PartialEq, Eq, Structural)]
pub struct ShellState {
    /// Whether external commands are started with `posix_spawn`.
    pub use_posix_spawn: bool,
    /// Whether the terminal is taken to accept a title.
    pub can_set_term_title: bool,
    /// Whether the terminal ignores a line feed after the last column.
    pub term_has_xn: bool,
    /// Whether the terminal set-up has run to its end.
    pub curses_initialized: bool,
    /// How many bytes the `read` command takes at most.
    pub read_byte_limit: usize,
    /// The colours that the terminal is taken to support.
    pub color_support: ColorSupport,
    /// The width of an emoji in columns, 1 or 2.
    pub emoji_width: i32,
    /// The width of a character of ambiguous width in columns, 1 or 2.
    pub ambiguous_width: i32,
}

impl ShellState {
    /// The state before any subsystem has run.
    pub fn new() -> (s: ShellState)
        ensures
            s == (ShellState {
                use_posix_spawn: false,
                can_set_term_title: false,
                term_has_xn: false,
                curses_initialized: false,
                read_byte_limit: DEFAULT_READ_BYTE_LIMIT,
                color_support: ColorSupport { term_256color: false, term_24bit: false },
                emoji_width: 1,
                ambiguous_width: 1,
            }),
    {
        ShellState {
            use_posix_spawn: false,
            can_set_term_title: false,
            term_has_xn: false,
            curses_initialized: false,
            read_byte_limit: DEFAULT_READ_BYTE_LIMIT,
            color_support: ColorSupport::none(),
            emoji_width: 1,
            ambiguous_width: 1,
        }
    }
}

/// Whether external commands are started with `posix_spawn`.
pub fn use_posix_spawn(state: &ShellState) -> (r: bool)
    ensures
        r == state.use_posix_spawn,
{
    state.use_posix_spawn
}

/// Whether the terminal is taken to accept a title.
pub fn term_supports_setting_title(state: &ShellState) -> (r: bool)
    ensures
        r == state.can_set_term_title,
{
    state.can_set_term_title
}

/// A change to the process environment: `name` is set to the value, or
/// removed where there is none.
#[derive(Debug, PartialEq, Eq)]
pub struct EnvOp {
    pub name: Vec<u8>,
    pub value: Option<Vec<u8>>,
}

/// The bytes of an optional text.
pub open spec fn bytes_of(value: Option<Vec<u8>>) -> Option<Seq<u8>> {
    match value {
        Some(v) => Some(v@),
        None => None,
    }
}

/// Whether `op` makes the process environment agree with the shell on
/// `name`: set to the shell's value where that is not empty (and, with
/// `exported_only`, exported), removed otherwise.
pub open spec fn mirrors(op: EnvOp, env: Bindings, name: Seq<u8>, exported_only: bool) -> bool {
    op.name@ == name && bytes_of(op.value) == if exported_only {
        exported_value_of(env, name)
    } else {
        nonempty_value_of(env, name)
    }
}

fn copy_of(value: Option<&[u8]>) -> (r: Option<Vec<u8>>)
    ensures
        match value {
            Some(v) => bytes_of(r) == Some(v@),
            None => r is None,
        },
{
    match value {
        Some(v) => Some(slice_to_vec(v)),
        None => None,
    }
}

/// The names of a list of variables.
pub open spec fn names_of(names: Seq<&'static str>) -> Seq<Seq<u8>> {
    names.map_values(|s: &'static str| s.spec_bytes())
}

/// The change that brings one exported variable into the process
/// environment.
pub fn mirror_exported(vars: &Environment, name: &[u8]) -> (op: EnvOp)
    ensures
        mirrors(op, vars@, name@, true),
{
    EnvOp { name: slice_to_vec(name), value: copy_of(vars.get_exported_unless_empty(name)) }
}

/// The changes that bring the exported variables `names` into the process
/// environment, one change for each name, in order.
pub fn mirror_all(vars: &Environment, names: &Vec<&'static str>) -> (ops: Vec<EnvOp>)
    ensures
        ops@.len() == names@.len(),
        forall|i: int|
            0 <= i < ops@.len() ==> mirrors(#[trigger] ops@[i], vars@, names@[i].spec_bytes(), true),
{
    let mut ops: Vec<EnvOp> = Vec::new();
    let mut i: usize = 0;
    while i < names.len()
        invariant
            i <= names@.len(),
            ops@.len() == i,
            forall|k: int|
                0 <= k < i ==> mirrors(#[trigger] ops@[k], vars@, names@[k].spec_bytes(), true),
        decreases names@.len() - i,
    {
        let op = mirror_exported(vars, names[i].as_bytes());
        ops.push(op);
        i += 1;
    }
    ops
}

/// The change that brings the time zone variable `env_var_name` into the
/// process environment, exported or not.
pub fn handle_timezone(env_var_name: &[u8], vars: &Environment) -> (op: EnvOp)
    ensures
        mirrors(op, vars@, env_var_name@, false),
{
    EnvOp { name: slice_to_vec(env_var_name), value: copy_of(vars.get_unless_empty(env_var_name)) }
}

/// A width in columns, brought into the range from 1 to 2.
pub open spec fn clamp_width(w: i32) -> i32 {
    if w < 1 {
        1
    } else if w > 2 {
        2
    } else {
        w
    }
}

fn clamp(w: i32) -> (r: i32)
    ensures
        r == clamp_width(w),
{
    if w < 1 {
        1
    } else if w > 2 {
        2
    } else {
        w
    }
}

/// The number that a setting holds, or `default` where it holds none.
pub open spec fn number_or(parsed: Option<i32>, default: i32) -> i32 {
    match parsed {
        Some(n) => n,
        None => default,
    }
}

/// The version that the terminal program reports, 0 where it reports none
/// that is a number.
pub open spec fn term_program_version(env: Bindings) -> i32 {
    match value_of(env, "TERM_PROGRAM_VERSION".spec_bytes()) {
        Some(v) => number_or(parse_i32_spec(v), 0),
        None => 0,
    }
}

/// The width of an emoji. The user's setting decides where there is one: a
/// number is brought into range, anything else counts as 1. Without a
/// setting, Apple's terminal from version 400 and iTerm have width 2, and
/// elsewhere the width that the system gives is brought into range.
pub open spec fn emoji_width_spec(env: Bindings, system_width: i32) -> i32 {
    match value_of(env, "fish_emoji_width".spec_bytes()) {
        Some(w) => clamp_width(number_or(wcstoi_spec(w), 1)),
        None => if value_of(env, "TERM_PROGRAM".spec_bytes()) == Some(
            "Apple_Terminal".spec_bytes(),
        ) && term_program_version(env) >= 400 {
            2
        } else if value_of(env, "TERM_PROGRAM".spec_bytes()) == Some("iTerm.app".spec_bytes()) {
            2
        } else {
            clamp_width(system_width)
        },
    }
}

/// Whether a variable is set to exactly `text`.
pub fn value_is(value: Option<&[u8]>, text: &[u8]) -> (r: bool)
    ensures
        r == match value {
            Some(v) => v@ == text@,
            None => false,
        },
{
    match value {
        Some(v) => bytes_eq(v, text),
        None => false,
    }
}

/// Settles the width of an emoji; `system_width` is the width that the
/// system gives to one.
pub fn guess_emoji_width(state: &mut ShellState, vars: &Environment, system_width: i32)
    ensures
        *final(state) == (ShellState {
            emoji_width: emoji_width_spec(vars@, system_width),
            ..*old(state)
        }),
        1 <= final(state).emoji_width <= 2,
{
    if let Some(width_str) = vars.get("fish_emoji_width".as_bytes()) {
        let new_width = match wcstoi(width_str) {
            Some(n) => n,
            None => 1,
        };
        state.emoji_width = clamp(new_width);
        return ;
    }
    let term_program = vars.get("TERM_PROGRAM".as_bytes());
    let version = match vars.get("TERM_PROGRAM_VERSION".as_bytes()) {
        Some(v) => match parse_i32(v) {
            Some(n) => n,
            None => 0,
        },
        None => 0,
    };
    if value_is(term_program, "Apple_Terminal".as_bytes()) && version >= 400 {
        state.emoji_width = 2;
    } else if value_is(term_program, "iTerm.app".as_bytes()) {
        state.emoji_width = 2;
    } else {
        state.emoji_width = clamp(system_width);
    }
}

/// The width of a character of ambiguous width: the user's setting brought
/// into range, a setting that is no number counting as 0; 1 without a
/// setting.
pub open spec fn ambiguous_width_spec(env: Bindings) -> i32 {
    match value_of(env, "fish_ambiguous_width".spec_bytes()) {
        Some(w) => clamp_width(number_or(wcstoi_spec(w), 0)),
        None => 1,
    }
}

/// Settles the width of a character of ambiguous width.
pub fn handle_change_ambiguous_width(state: &mut ShellState, vars: &Environment)
    ensures
        *final(state) == (ShellState {
            ambiguous_width: ambiguous_width_spec(vars@),
            ..*old(state)
        }),
        1 <= final(state).ambiguous_width <= 2,
{
    let new_width = match vars.get("fish_ambiguous_width".as_bytes()) {
        Some(w) => match wcstoi(w) {
            Some(n) => n,
            None => 0,
        },
        None => 1,
    };
    state.ambiguous_width = clamp(new_width);
}

/// Whether a selection takes in the character under the cursor.
#[derive(Clone, Copy, Debug, PartialEq, Eq, Structural)]
pub enum CursorSelectionMode {
    Exclusive,
    Inclusive,
}

/// The selection mode that the user has set: inclusive exactly when the
/// setting reads `inclusive`.
pub fn handle_fish_cursor_selection_mode_change(vars: &Environment) -> (mode: CursorSelectionMode)
    ensures
        mode == if value_of(vars@, "fish_cursor_selection_mode".spec_bytes()) == Some(
            "inclusive".spec_bytes(),
        ) {
            CursorSelectionMode::Inclusive
        } else {
            CursorSelectionMode::Exclusive
        },
{
    if value_is(vars.get("fish_cursor_selection_mode".as_bytes()), "inclusive".as_bytes()) {
        CursorSelectionMode::Inclusive
    } else {
        CursorSelectionMode::Exclusive
    }
}

/// Whether `posix_spawn` may be used at all: everywhere but on OpenBSD.
pub fn allow_use_posix_spawn(platform: Platform) -> (r: bool)
    ensures
        r == (platform != Platform::OpenBsd),
{
    match platform {
        Platform::OpenBsd => false,
        _ => true,
    }
}

/// Whether external commands are started with `posix_spawn`: never where
/// the platform rules it out; else as the user's setting says, an empty
/// setting and none at all counting as yes.
pub open spec fn use_posix_spawn_spec(env: Bindings, platform: Platform) -> bool {
    platform != Platform::OpenBsd && match value_of(env, "fish_use_posix_spawn".spec_bytes()) {
        Some(v) => v.len() == 0 || truthy(v),
        None => true,
    }
}

/// Settles whether external commands are started with `posix_spawn`.
pub fn handle_fish_use_posix_spawn_change(
    state: &mut ShellState,
    vars: &Environment,
    platform: Platform,
)
    ensures
        *final(state) == (ShellState {
            use_posix_spawn: use_posix_spawn_spec(vars@, platform),
            ..*old(state)
        }),
{
    if !allow_use_posix_spawn(platform) {
        state.use_posix_spawn = false;
    } else if let Some(var) = vars.get("fish_use_posix_spawn".as_bytes()) {
        state.use_posix_spawn = var.len() == 0 || bool_from_string(var);
    } else {
        state.use_posix_spawn = true;
    }
}

/// The number that the setting for the `read` limit holds; `None` where it
/// is unset or empty, and where it is no number.
pub open spec fn read_limit_setting(env: Bindings) -> Option<usize> {
    match nonempty_value_of(env, "fish_read_limit".spec_bytes()) {
        Some(v) => parse_usize_spec(v),
        None => None,
    }
}

/// Settles the limit of the `read` command: the user's setting where it is
/// a number, the default otherwise. Returns whether a setting was there
/// and had to be ignored, of which an interactive session warns.
pub fn handle_read_limit_change(state: &mut ShellState, vars: &Environment) -> (ignored: bool)
    ensures
        *final(state) == (ShellState {
            read_byte_limit: match read_limit_setting(vars@) {
                Some(n) => n,
                None => DEFAULT_READ_BYTE_LIMIT,
            },
            ..*old(state)
        }),
        ignored == (nonempty_value_of(vars@, "fish_read_limit".spec_bytes()) is Some
            && read_limit_setting(vars@) is None),
{
    match vars.get_unless_empty("fish_read_limit".as_bytes()) {
        Some(v) => match parse_usize(v) {
            Some(n) => {
                state.read_byte_limit = n;
                false
            },
            None => {
                state.read_byte_limit = DEFAULT_READ_BYTE_LIMIT;
                true
            },
        },
        None => {
            state.read_byte_limit = DEFAULT_READ_BYTE_LIMIT;
            false
        },
    }
}

/// Whether tracing is on: exactly when its setting is not empty.
pub fn handle_fish_trace(vars: &Environment) -> (enabled: bool)
    ensures
        enabled == nonempty_value_of(vars@, "fish_trace".spec_bytes()) is Some,
{
    vars.get_unless_empty("fish_trace".as_bytes()).is_some()
}

/// The delay after an escape byte that the user has set, as the text of
/// the setting; `None` where it is unset or empty.
pub fn update_wait_on_escape_ms(vars: &Environment) -> (r: Option<&[u8]>)
    ensures
        holds(r, nonempty_value_of(vars@, "fish_escape_delay_ms".spec_bytes())),
{
    vars.get_unless_empty("fish_escape_delay_ms".as_bytes())
}

/// The name of the history session that the user has set, empty or not;
/// `None` where it is unset.
pub fn handle_fish_history_change(vars: &Environment) -> (r: Option<&[u8]>)
    ensures
        holds(r, value_of(vars@, "fish_history".spec_bytes())),
{
    vars.get("fish_history".as_bytes())
}

/// Settles the colour support; `max_colors` is the number of colours that
/// the terminal database gives, if it gives one.
pub fn update_fish_color_support(
    state: &mut ShellState,
    vars: &Environment,
    max_colors: Option<i32>,
)
    ensures
        *final(state) == (ShellState {
            color_support: color_support_spec(vars@, max_colors),
            ..*old(state)
        }),
{
    state.color_support = color_support(vars, max_colors);
}

/// A part of the shell that settles something anew after a change.
#[derive(Clone, Copy, Debug, PartialEq, Eq, Structural)]
pub enum Subsystem {
    Locale,
    Curses,
    EmojiWidth,
    Timezone,
    ColorSupport,
    PromptRepaint,
    EscapeDelay,
    AmbiguousWidth,
    TermSize,
    CompletePath,
    FunctionPath,
    ReadLimit,
    History,
    Autosuggestion,
    PosixSpawn,
    Trace,
    CursorSelectionMode,
}

/// A reaction to the change of a variable.
#[derive(Clone, Copy, Debug, PartialEq, Eq, Structural)]
pub enum Handler {
    LocaleChange,
    CursesChange,
    TzChange,
    FishTermChange,
    EscapeDelayChange,
    EmojiWidthChange,
    AmbiguousWidthChange,
    TermSizeChange,
    CompletePathChange,
    FunctionPathChange,
    ReadLimitChange,
    HistoryChange,
    AutosuggestionChange,
    UsePosixSpawnChange,
    TraceChange,
    CursorSelectionModeChange,
}

/// The subsystems that a reaction runs, in order. A change of the locale
/// also settles the width of an emoji anew, since the encoding may have
/// changed; a change of the terminal settles it before the terminal is set
/// up again; a change of a colour setting ends with the prompt redrawn.
pub open spec fn subsystems_of(handler: Handler) -> Seq<Subsystem> {
    match handler {
        Handler::LocaleChange => seq![Subsystem::Locale, Subsystem::EmojiWidth],
        Handler::CursesChange => seq![Subsystem::EmojiWidth, Subsystem::Curses],
        Handler::TzChange => seq![Subsystem::Timezone],
        Handler::FishTermChange => seq![Subsystem::ColorSupport, Subsystem::PromptRepaint],
        Handler::EscapeDelayChange => seq![Subsystem::EscapeDelay],
        Handler::EmojiWidthChange => seq![Subsystem::EmojiWidth],
        Handler::AmbiguousWidthChange => seq![Subsystem::AmbiguousWidth],
        Handler::TermSizeChange => seq![Subsystem::TermSize],
        Handler::CompletePathChange => seq![Subsystem::CompletePath],
        Handler::FunctionPathChange => seq![Subsystem::FunctionPath],
        Handler::ReadLimitChange => seq![Subsystem::ReadLimit],
        Handler::HistoryChange => seq![Subsystem::History],
        Handler::AutosuggestionChange => seq![Subsystem::Autosuggestion],
        Handler::UsePosixSpawnChange => seq![Subsystem::PosixSpawn],
        Handler::TraceChange => seq![Subsystem::Trace],
        Handler::CursorSelectionModeChange => seq![Subsystem::CursorSelectionMode],
    }
}

fn one(subsystem: Subsystem) -> (r: Vec<Subsystem>)
    ensures
        r@ == seq![subsystem],
{
    let mut r: Vec<Subsystem> = Vec::new();
    r.push(subsystem);
    r
}

fn two(first: Subsystem, second: Subsystem) -> (r: Vec<Subsystem>)
    ensures
        r@ == seq![first, second],
{
    let mut r: Vec<Subsystem> = Vec::new();
    r.push(first);
    r.push(second);
    r
}

impl Handler {
    /// The subsystems that the reaction runs, in order.
    pub fn subsystems(self) -> (r: Vec<Subsystem>)
        ensures
            r@ == subsystems_of(self),
    {
        match self {
            Handler::LocaleChange => two(Subsystem::Locale, Subsystem::EmojiWidth),
            Handler::CursesChange => two(Subsystem::EmojiWidth, Subsystem::Curses),
            Handler::TzChange => one(Subsystem::Timezone),
            Handler::FishTermChange => two(Subsystem::ColorSupport, Subsystem::PromptRepaint),
            Handler::EscapeDelayChange => one(Subsystem::EscapeDelay),
            Handler::EmojiWidthChange => one(Subsystem::EmojiWidth),
            Handler::AmbiguousWidthChange => one(Subsystem::AmbiguousWidth),
            Handler::TermSizeChange => one(Subsystem::TermSize),
            Handler::CompletePathChange => one(Subsystem::CompletePath),
            Handler::FunctionPathChange => one(Subsystem::FunctionPath),
            Handler::ReadLimitChange => one(Subsystem::ReadLimit),
            Handler::HistoryChange => one(Subsystem::History),
            Handler::AutosuggestionChange => one(Subsystem::Autosuggestion),
            Handler::UsePosixSpawnChange => one(Subsystem::PosixSpawn),
            Handler::TraceChange => one(Subsystem::Trace),
            Handler::CursorSelectionModeChange => one(Subsystem::CursorSelectionMode),
        }
    }
}

/// The subsystems that run once at start-up, in order.
pub open spec fn startup_subsystems() -> Seq<Subsystem> {
    seq![
        Subsystem::Locale,
        Subsystem::Curses,
        Subsystem::EmojiWidth,
        Subsystem::EscapeDelay,
        Subsystem::ReadLimit,
        Subsystem::PosixSpawn,
        Subsystem::Trace,
    ]
}

/// The subsystems that run before the first prompt, whatever the variables
/// hold, in the order in which they run.
pub fn run_inits() -> (r: Vec<Subsystem>)
    ensures
        r@ == startup_subsystems(),
{
    let mut r: Vec<Subsystem> = Vec::new();
    r.push(Subsystem::Locale);
    r.push(Subsystem::Curses);
    r.push(Subsystem::EmojiWidth);
    r.push(Subsystem::EscapeDelay);
    r.push(Subsystem::ReadLimit);
    r.push(Subsystem::PosixSpawn);
    r.push(Subsystem::Trace);
    assert(r@ =~= startup_subsystems());
    r
}

/// What start-up has to run, in order.
pub fn env_dispatch_init() -> (r: Vec<Subsystem>)
    ensures
        r@ == startup_subsystems(),
{
    run_inits()
}

/// The reactions to a change of `key`: the one registered by name first,
/// then the anonymous one; none for a variable that nothing is registered
/// for.
pub open spec fn dispatch_spec(
    named: Map<Seq<u8>, Handler>,
    anon: Map<Seq<u8>, Handler>,
    key: Seq<u8>,
) -> Seq<Handler> {
    (if named.contains_key(key) {
        seq![named[key]]
    } else {
        Seq::empty()
    }) + (if anon.contains_key(key) {
        seq![anon[key]]
    } else {
        Seq::empty()
    })
}

/// What a registration of `callback` for `name` makes of the registrations
/// of one kind; `None` where `name` has a registration of that kind
/// already, which is then refused.
pub open spec fn registered_with(
    table: Map<Seq<u8>, Handler>,
    name: Seq<u8>,
    callback: Handler,
) -> Option<Map<Seq<u8>, Handler>> {
    if table.contains_key(name) {
        None
    } else {
        Some(table.insert(name, callback))
    }
}

/// The error of a registration for a name that has one of the same kind.
#[derive(Clone, Copy, Debug, PartialEq, Eq, Structural)]
pub struct AlreadyObserving;

/// The reactions that are registered for each variable. There are two
/// kinds of registration: a named one, whose reaction is told which
/// variable changed, and an anonymous one. A variable has at most one
/// reaction of each kind.
pub struct VarDispatchTable {
    named_table: Vec<(Vec<u8>, Handler)>,
    anon_table: Vec<(Vec<u8>, Handler)>,
}

/// The registrations that a list holds.
pub open spec fn registrations(table: Seq<(Vec<u8>, Handler)>) -> Seq<(Seq<u8>, Handler)> {
    table.map_values(|e: (Vec<u8>, Handler)| (e.0@, e.1))
}

fn registered(table: &Vec<(Vec<u8>, Handler)>, key: &[u8]) -> (r: Option<Handler>)
    ensures
        match r {
            Some(h) => assoc(registrations(table@)).contains_key(key@) && assoc(
                registrations(table@),
            )[key@] == h,
            None => !assoc(registrations(table@)).contains_key(key@),
        },
{
    let ghost pairs = registrations(table@);
    let mut i: usize = table.len();
    while i > 0
        invariant
            i <= table@.len(),
            pairs == registrations(table@),
            forall|j: int| i <= j < pairs.len() ==> (#[trigger] pairs[j]).0 != key@,
        decreases i,
    {
        i -= 1;
        if bytes_eq(table[i].0.as_slice(), key) {
            proof {
                lemma_assoc_last(pairs, i as int);
            }
            return Some(table[i].1);
        }
    }
    proof {
        lemma_assoc_absent(pairs, key@);
    }
    None
}

fn register(table: &mut Vec<(Vec<u8>, Handler)>, name: &[u8], callback: Handler)
    ensures
        assoc(registrations(final(table)@)) == assoc(registrations(old(table)@)).insert(
            name@,
            callback,
        ),
{
    table.push((slice_to_vec(name), callback));
    proof {
        assert(registrations(table@).drop_last() == registrations(old(table)@));
    }
}

impl VarDispatchTable {
    /// The named registrations.
    pub closed spec fn named(&self) -> Map<Seq<u8>, Handler> {
        assoc(registrations(self.named_table@))
    }

    /// The anonymous registrations.
    pub closed spec fn anon(&self) -> Map<Seq<u8>, Handler> {
        assoc(registrations(self.anon_table@))
    }

    /// The table without registrations.
    pub fn new() -> (t: VarDispatchTable)
        ensures
            t.named() == Map::<Seq<u8>, Handler>::empty(),
            t.anon() == Map::<Seq<u8>, Handler>::empty(),
    {
        let t = VarDispatchTable { named_table: Vec::new(), anon_table: Vec::new() };
        assert(registrations(t.named_table@).len() == 0);
        assert(registrations(t.anon_table@).len() == 0);
        t
    }

    /// Whether `name` has a named registration.
    pub fn observes_named(&self, name: &[u8]) -> (r: bool)
        ensures
            r == self.named().contains_key(name@),
    {
        registered(&self.named_table, name).is_some()
    }

    /// Whether `name` has an anonymous registration.
    pub fn observes_anon(&self, name: &[u8]) -> (r: bool)
        ensures
            r == self.anon().contains_key(name@),
    {
        registered(&self.anon_table, name).is_some()
    }

    /// Whether `name` has a registration of either kind.
    pub fn observes_var(&self, name: &[u8]) -> (r: bool)
        ensures
            r == (self.named().contains_key(name@) || self.anon().contains_key(name@)),
    {
        self.observes_named(name) || self.observes_anon(name)
    }

    /// Registers `callback` by name for the variable `name`, which must
    /// have no named registration yet.
    pub fn add(&mut self, name: &[u8], callback: Handler)
        requires
            !old(self).named().contains_key(name@),
        ensures
            final(self).named() == old(self).named().insert(name@, callback),
            final(self).anon() == old(self).anon(),
    {
        register(&mut self.named_table, name, callback);
    }

    /// Registers `callback` anonymously for the variable `name`, which
    /// must have no anonymous registration yet.
    pub fn add_anon(&mut self, name: &[u8], callback: Handler)
        requires
            !old(self).anon().contains_key(name@),
        ensures
            final(self).anon() == old(self).anon().insert(name@, callback),
            final(self).named() == old(self).named(),
    {
        register(&mut self.anon_table, name, callback);
    }

    /// Registers `callback` by name for `name`, unless the name has a named
    /// registration already: then the table stays as it is, and the error
    /// says so.
    pub fn try_add(&mut self, name: &[u8], callback: Handler) -> (r: Result<(), AlreadyObserving>)
        ensures
            match registered_with(old(self).named(), name@, callback) {
                Some(named) => r is Ok && final(self).named() == named && final(self).anon()
                    == old(self).anon(),
                None => r is Err && *final(self) == *old(self),
            },
    {
        if self.observes_named(name) {
            return Err(AlreadyObserving);
        }
        self.add(name, callback);
        Ok(())
    }

    /// Registers `callback` anonymously for `name`, unless the name has an
    /// anonymous registration already: then the table stays as it is, and
    /// the error says so.
    pub fn try_add_anon(&mut self, name: &[u8], callback: Handler) -> (r: Result<
        (),
        AlreadyObserving,
    >)
        ensures
            match registered_with(old(self).anon(), name@, callback) {
                Some(anon) => r is Ok && final(self).anon() == anon && final(self).named()
                    == old(self).named(),
                None => r is Err && *final(self) == *old(self),
            },
    {
        if self.observes_anon(name) {
            return Err(AlreadyObserving);
        }
        self.add_anon(name, callback);
        Ok(())
    }

    /// The reactions to a change of `key`, in the order in which they run.
    pub fn dispatch(&self, key: &[u8]) -> (r: Vec<Handler>)
        ensures
            r@ == dispatch_spec(self.named(), self.anon(), key@),
    {
        let mut r: Vec<Handler> = Vec::new();
        if let Some(named) = registered(&self.named_table, key) {
            r.push(named);
        }
        if let Some(anon) = registered(&self.anon_table, key) {
            r.push(anon);
        }
        assert(r@ =~= dispatch_spec(self.named(), self.anon(), key@));
        r
    }
}

/// The reactions to a change of the variable `key`.
pub fn env_dispatch_var_change(table: &VarDispatchTable, key: &[u8]) -> (r: Vec<Handler>)
    ensures
        r@ == dispatch_spec(table.named(), table.anon(), key@),
{
    table.dispatch(key)
}

/// A change of a variable that nothing is registered for has no reaction.
pub proof fn law_unregistered_is_ignored(
    named: Map<Seq<u8>, Handler>,
    anon: Map<Seq<u8>, Handler>,
    key: Seq<u8>,
)
    requires
        !named.contains_key(key),
        !anon.contains_key(key),
    ensures
        dispatch_spec(named, anon, key) == Seq::<Handler>::empty(),
{
}

/// A registration changes nothing that was registered before: a name that
/// is new to its kind leaves every other name with the reaction it had.
pub proof fn law_registration_keeps_others(
    table: Map<Seq<u8>, Handler>,
    name: Seq<u8>,
    callback: Handler,
    other: Seq<u8>,
)
    requires
        !table.contains_key(name),
        table.contains_key(other),
    ensures
        table.insert(name, callback).contains_key(other),
        table.insert(name, callback)[other] == table[other],
        table.insert(name, callback)[name] == callback,
{
}

/// A name is registered once for each kind. Whatever the table holds, the
/// second of two registrations of one name is refused, and so is any
/// registration of a name that the table holds already; the reaction that
/// was registered first is the one that stays.
pub proof fn law_registering_twice_fails(
    table: Map<Seq<u8>, Handler>,
    name: Seq<u8>,
    first: Handler,
    second: Handler,
)
    ensures
        table.contains_key(name) ==> registered_with(table, name, second) is None,
        registered_with(table, name, first) matches Some(once) ==> registered_with(
            once,
            name,
            second,
        ) is None && once[name] == first,
{
}

} // verus!
