//! Setting up the terminal: what the process environment has to show to
//! the terminal database, which terminal types are tried when the shell's
//! own is unknown, which capabilities are patched, and what the shell
//! remembers of the terminal afterwards.

use vstd::prelude::*;
use vstd::string::*;
use crate::color::color_support_spec;
use crate::curses::{
    code_of, enter_dim_mode, enter_italics_mode, exit_italics_mode, is_initialized, string_after,
    string_answer, term, text_of, Overrides, Store, StringCap, Term,
};
use crate::env::{nonempty_value_of, value_of, Bindings, Environment};
use crate::env_dispatch::{
    mirror_all, mirrors, names_of, update_fish_color_support, value_is, EnvOp, Platform,
    ShellState,
};
use crate::text::{bytes_eq, contains, has_substring, is_prefix, starts_with};

verus! {

/// Whether a terminal type is known to accept a title: one of a few names,
/// or a name that begins with `xterm-`, `screen-` or `tmux-`.
pub open spec fn title_term(term: Seq<u8>) -> bool {
    ||| term == "xterm".spec_bytes()
    ||| term == "screen".spec_bytes()
    ||| term == "tmux".spec_bytes()
    ||| term == "nxterm".spec_bytes()
    ||| term == "rxvt".spec_bytes()
    ||| term == "alacritty".spec_bytes()
    ||| term == "wezterm".spec_bytes()
    ||| is_prefix("xterm-".spec_bytes(), term)
    ||| is_prefix("screen-".spec_bytes(), term)
    ||| is_prefix("tmux-".spec_bytes(), term)
}

/// Whether a terminal type is known for a console or a dumb terminal,
/// which take no title.
pub open spec fn console_term(term: Seq<u8>) -> bool {
    ||| term == "linux".spec_bytes()
    ||| term == "dumb".spec_bytes()
    ||| term == "vt100".spec_bytes()
    ||| term == "wsvt25".spec_bytes()
}

/// What the terminal type alone tells of titles; `None` where it tells
/// nothing and the name of the controlling terminal has to decide.
pub open spec fn title_by_name(term: Seq<u8>) -> Option<bool> {
    if title_term(term) {
        Some(true)
    } else if console_term(term) {
        Some(false)
    } else {
        None
    }
}

/// Whether the name of the controlling terminal speaks for a terminal that
/// takes a title: there is a name, and it holds neither `tty` nor `/vc/`.
pub open spec fn tty_allows_title(tty_name: Option<Seq<u8>>) -> bool {
    match tty_name {
        Some(name) => !has_substring(name, "tty".spec_bytes()) && !has_substring(
            name,
            "/vc/".spec_bytes(),
        ),
        None => false,
    }
}

/// Whether the terminal is taken to accept a title.
pub open spec fn title_support_spec(env: Bindings, tty_name: Option<Seq<u8>>) -> bool {
    match nonempty_value_of(env, "TERM".spec_bytes()) {
        Some(term) => match title_by_name(term) {
            Some(known) => known,
            None => tty_allows_title(tty_name),
        },
        None => false,
    }
}

/// The name of the controlling terminal, as far as a slice holds it.
pub open spec fn slice_text(s: Option<&[u8]>) -> Option<Seq<u8>> {
    match s {
        Some(v) => Some(v@),
        None => None,
    }
}

/// What the terminal type alone tells of titles. On `None` the caller
/// looks up the name of the controlling terminal.
pub fn title_support_by_name(term: &[u8]) -> (r: Option<bool>)
    ensures
        r == title_by_name(term@),
{
    let recognized = bytes_eq(term, "xterm".as_bytes()) || bytes_eq(term, "screen".as_bytes())
        || bytes_eq(term, "tmux".as_bytes()) || bytes_eq(term, "nxterm".as_bytes()) || bytes_eq(
        term,
        "rxvt".as_bytes(),
    ) || bytes_eq(term, "alacritty".as_bytes()) || bytes_eq(term, "wezterm".as_bytes())
        || starts_with(term, "xterm-".as_bytes()) || starts_with(term, "screen-".as_bytes())
        || starts_with(term, "tmux-".as_bytes());
    if recognized {
        return Some(true);
    }
    let console = bytes_eq(term, "linux".as_bytes()) || bytes_eq(term, "dumb".as_bytes())
        || bytes_eq(term, "vt100".as_bytes()) || bytes_eq(term, "wsvt25".as_bytes());
    if console {
        Some(false)
    } else {
        None
    }
}

/// Whether the name of the controlling terminal bears on the decision:
/// only for a terminal type that is set and tells nothing by itself.
/// Where it does not, the name need not be looked up.
pub fn title_needs_tty_name(vars: &Environment) -> (r: bool)
    ensures
        r == (nonempty_value_of(vars@, "TERM".spec_bytes()) matches Some(term) && title_by_name(
            term,
        ) is None),
        !r ==> forall|tty_name: Option<Seq<u8>>|
            #[trigger] title_support_spec(vars@, tty_name) == title_support_spec(vars@, None),
{
    match vars.get_unless_empty("TERM".as_bytes()) {
        Some(term) => title_support_by_name(term).is_none(),
        None => false,
    }
}

/// Decides whether the terminal accepts a title. `tty_name` is the name of
/// the controlling terminal, `None` where it could not be had.
pub fn does_term_support_setting_title(vars: &Environment, tty_name: Option<&[u8]>) -> (r: bool)
    ensures
        r == title_support_spec(vars@, slice_text(tty_name)),
{
    let term = match vars.get_unless_empty("TERM".as_bytes()) {
        Some(term) => term,
        None => {
            return false;
        },
    };
    match title_support_by_name(term) {
        Some(known) => known,
        None => match tty_name {
            Some(name) => !contains(name, "tty".as_bytes()) && !contains(name, "/vc/".as_bytes()),
            None => false,
        },
    }
}

/// The terminal types that are tried, in this order, where the terminal
/// type of the shell is not in the terminal database.
pub open spec fn fallbacks() -> Seq<Seq<u8>> {
    seq![
        "xterm-256color".spec_bytes(),
        "xterm".spec_bytes(),
        "ansi".spec_bytes(),
        "dumb".spec_bytes(),
    ]
}

/// The first fallback from index `from` on that is not `term`.
pub open spec fn next_candidate(term: Seq<u8>, from: int) -> Option<int>
    decreases 4 - from,
{
    if from < 0 || from >= 4 {
        None
    } else if fallbacks()[from] != term {
        Some(from)
    } else {
        next_candidate(term, from + 1)
    }
}

/// The terminal type that failed: that of the shell, empty where it has
/// none.
pub open spec fn failed_term(env: Bindings) -> Seq<u8> {
    match nonempty_value_of(env, "TERM".spec_bytes()) {
        Some(t) => t,
        None => Seq::empty(),
    }
}

/// The fallback to try next. `previous` is the fallback tried last and
/// whether it was found in the terminal database; `None` before the first.
pub open spec fn next_fallback_spec(env: Bindings, previous: Option<(usize, bool)>) -> Option<int> {
    match previous {
        None => next_candidate(failed_term(env), 0),
        Some((_, true)) => None,
        Some((last, false)) => next_candidate(failed_term(env), last + 1),
    }
}

/// A fallback terminal type to try.
#[derive(Clone, Copy, Debug, PartialEq, Eq)]
pub struct Fallback {
    /// Its place among the fallbacks.
    pub index: usize,
    /// The terminal type.
    pub name: &'static str,
}

fn fallback_name(index: usize) -> (name: &'static str)
    requires
        index < 4,
    ensures
        name.spec_bytes() == fallbacks()[index as int],
{
    if index == 0 {
        "xterm-256color"
    } else if index == 1 {
        "xterm"
    } else if index == 2 {
        "ansi"
    } else {
        "dumb"
    }
}

/// Says which fallback terminal type to try next, after the terminal type
/// of the shell has failed. A fallback equal to that terminal type is
/// passed over, and after a fallback that was found no other is tried.
/// `previous` is the fallback tried last and whether it was found, `None`
/// before the first attempt.
pub fn initialize_curses_using_fallbacks(vars: &Environment, previous: Option<(usize, bool)>) -> (r:
    Option<Fallback>)
    ensures
        match r {
            Some(f) => next_fallback_spec(vars@, previous) == Some(f.index as int) && f.index < 4
                && f.name.spec_bytes() == fallbacks()[f.index as int],
            None => next_fallback_spec(vars@, previous) is None,
        },
        r matches Some(f) ==> f.name.spec_bytes() != failed_term(vars@),
        previous matches Some((_, true)) ==> r is None,
{
    let termstr: &[u8] = match vars.get_unless_empty("TERM".as_bytes()) {
        Some(t) => t,
        None => {
            let empty: &[u8] = &[];
            assert(empty@ == Seq::<u8>::empty());
            empty
        },
    };
    let mut index: usize = match previous {
        None => 0,
        Some((_, true)) => {
            return None;
        },
        Some((last, false)) => {
            if last >= 3 {
                return None;
            }
            last + 1
        },
    };
    while index < 4
        invariant
            index <= 4,
            termstr@ == failed_term(vars@),
            next_fallback_spec(vars@, previous) == next_candidate(termstr@, index as int),
        decreases 4 - index,
    {
        let name = fallback_name(index);
        if !bytes_eq(termstr, name.as_bytes()) {
            return Some(Fallback { index, name });
        }
        index += 1;
    }
    None
}

/// A fallback that is tried differs from the terminal type that failed, and
/// every fallback passed over on the way to it is that terminal type.
pub proof fn law_fallback_differs(term: Seq<u8>, from: int)
    requires
        0 <= from,
    ensures
        match next_candidate(term, from) {
            Some(k) => from <= k < 4 && fallbacks()[k] != term && forall|j: int|
                from <= j < k ==> fallbacks()[j] == term,
            None => forall|j: int| from <= j < 4 ==> fallbacks()[j] == term,
        },
    decreases 4 - from,
{
    if from < 4 && fallbacks()[from] == term {
        law_fallback_differs(term, from + 1);
    }
}

/// The variables that decide which terminal the terminal database is asked
/// about, and where it is looked for.
pub open spec fn curses_variables() -> Seq<Seq<u8>> {
    seq!["TERM".spec_bytes(), "TERMINFO".spec_bytes(), "TERMINFO_DIRS".spec_bytes()]
}

/// The variables that the terminal database reads.
pub fn curses_variable_names() -> (names: Vec<&'static str>)
    ensures
        names_of(names@) == curses_variables(),
{
    let mut names: Vec<&'static str> = Vec::new();
    names.push("TERM");
    names.push("TERMINFO");
    names.push("TERMINFO_DIRS");
    assert(names_of(names@) =~= curses_variables());
    names
}

/// Plans the set-up of the terminal: what of the shell's variables the
/// process environment has to show before the terminal database is asked.
pub fn curses_exports(vars: &Environment) -> (exports: Vec<EnvOp>)
    ensures
        exports@.len() == curses_variables().len(),
        forall|i: int|
            0 <= i < exports@.len() ==> mirrors(
                #[trigger] exports@[i],
                vars@,
                curses_variables()[i],
                true,
            ),
{
    let names = curses_variable_names();
    let exports = mirror_all(vars, &names);
    proof {
        assert forall|i: int| 0 <= i < exports@.len() implies mirrors(
            #[trigger] exports@[i],
            vars@,
            curses_variables()[i],
            true,
        ) by {
            assert(names_of(names@)[i] == names@[i].spec_bytes());
        }
    }
    exports
}

/// The file descriptor of the standard output, on which the session with
/// the terminal database is set up.
pub const STDOUT_FILENO: i32 = 1;

/// An attempt at a session with the terminal database: the first one, for
/// the terminal type that the process environment names, or one for the
/// fallback at the given place among the [`fallbacks`].
#[derive(Clone, Copy, Debug, PartialEq, Eq, Structural)]
pub enum Attempt {
    Primary,
    Fallback(usize),
}

/// How far the set-up of the session has come: nothing done yet; the
/// process environment brought up to date; or an attempt made, with
/// whether the terminal database had an entry.
#[derive(Clone, Copy, Debug, PartialEq, Eq, Structural)]
pub enum Progress {
    Start,
    Exported,
    Attempted(Attempt, bool),
}

/// A native set-up to make: for the terminal type `term`, or with no name,
/// which leaves the choice to the process environment, on the file
/// descriptor `fd`.
#[derive(Clone, Copy, Debug, PartialEq, Eq)]
pub struct SetupRequest {
    pub attempt: Attempt,
    pub term: Option<&'static str>,
    pub fd: i32,
}

/// What the caller has to do next to get a session.
#[derive(Debug, PartialEq, Eq)]
pub enum CursesStep {
    /// Make these changes to the process environment.
    Export(Vec<EnvOp>),
    /// Make this attempt.
    Setup(SetupRequest),
}

/// Whether `ops` bring the variables of the terminal into the process
/// environment, one change for each of the [`curses_variables`], in order.
pub open spec fn exports_curses(ops: Vec<EnvOp>, env: Bindings) -> bool {
    &&& ops@.len() == curses_variables().len()
    &&& forall|i: int|
        0 <= i < ops@.len() ==> mirrors(#[trigger] ops@[i], env, curses_variables()[i], true)
}

/// Whether `request` is the first attempt: it names no terminal type and
/// is made on the standard output.
pub open spec fn is_primary(request: SetupRequest) -> bool {
    request.attempt == Attempt::Primary && request.term is None && request.fd == STDOUT_FILENO
}

/// Whether `request` is the attempt for the fallback at place `k`, made on
/// the standard output.
pub open spec fn is_fallback(request: SetupRequest, k: int) -> bool {
    &&& 0 <= k < 4
    &&& request.attempt == Attempt::Fallback(k as usize)
    &&& request.fd == STDOUT_FILENO
    &&& match request.term {
        Some(name) => name.spec_bytes() == fallbacks()[k],
        None => false,
    }
}

/// Whether `step` is the attempt for the fallback `candidate`, or no step
/// at all where there is no candidate.
pub open spec fn tries_fallback(step: Option<CursesStep>, candidate: Option<int>) -> bool {
    match candidate {
        Some(k) => match step {
            Some(CursesStep::Setup(request)) => is_fallback(request, k),
            _ => false,
        },
        None => step is None,
    }
}

/// Whether `step` is what follows `progress`. The process environment is
/// brought up to date first. The first attempt names no terminal type and
/// is made on the standard output. After an attempt that found an entry
/// nothing follows. After one that found none, the next fallback that
/// differs from the terminal type of the shell is tried, and nothing once
/// the fallbacks are used up.
pub open spec fn follows(step: Option<CursesStep>, env: Bindings, progress: Progress) -> bool {
    match progress {
        Progress::Start => match step {
            Some(CursesStep::Export(ops)) => exports_curses(ops, env),
            _ => false,
        },
        Progress::Exported => match step {
            Some(CursesStep::Setup(request)) => is_primary(request),
            _ => false,
        },
        Progress::Attempted(_, true) => step is None,
        Progress::Attempted(Attempt::Primary, false) => tries_fallback(
            step,
            next_candidate(failed_term(env), 0),
        ),
        Progress::Attempted(Attempt::Fallback(last), false) => tries_fallback(
            step,
            next_candidate(failed_term(env), last + 1),
        ),
    }
}

/// The terminal type that a step names, if it is an attempt that names one.
pub open spec fn named_term(step: Option<CursesStep>) -> Option<Seq<u8>> {
    match step {
        Some(CursesStep::Setup(request)) => match request.term {
            Some(name) => Some(name.spec_bytes()),
            None => None,
        },
        _ => None,
    }
}

/// Says what to do next to get a session with the terminal database, from
/// how far the set-up has come. The caller makes the step, takes note of
/// the outcome in `progress` and asks again, until there is no step left.
pub fn next_curses_step(vars: &Environment, progress: Progress) -> (step: Option<CursesStep>)
    ensures
        follows(step, vars@, progress),
        progress matches Progress::Attempted(_, true) ==> step is None,
        named_term(step) != Some(failed_term(vars@)),
{
    let previous = match progress {
        Progress::Start => {
            return Some(CursesStep::Export(curses_exports(vars)));
        },
        Progress::Exported => {
            return Some(
                CursesStep::Setup(
                    SetupRequest { attempt: Attempt::Primary, term: None, fd: STDOUT_FILENO },
                ),
            );
        },
        Progress::Attempted(_, true) => {
            return None;
        },
        Progress::Attempted(Attempt::Primary, false) => None,
        Progress::Attempted(Attempt::Fallback(last), false) => Some((last, false)),
    };
    match initialize_curses_using_fallbacks(vars, previous) {
        Some(fallback) => Some(
            CursesStep::Setup(
                SetupRequest {
                    attempt: Attempt::Fallback(fallback.index),
                    term: Some(fallback.name),
                    fd: STDOUT_FILENO,
                },
            ),
        ),
        None => None,
    }
}

/// Ends the set-up of the terminal, once the terminal database has been
/// asked: settles whether the terminal accepts a title, whether it has the
/// line feed glitch, and the colour support, and marks the set-up as done.
///
/// `initialized` says whether a session with the terminal database came
/// about; `eat_newline_glitch` and `max_colors` are its answers, read only
/// where it did; `tty_name` is the name of the controlling terminal.
pub fn init_curses(
    state: &mut ShellState,
    vars: &Environment,
    initialized: bool,
    eat_newline_glitch: bool,
    max_colors: Option<i32>,
    tty_name: Option<&[u8]>,
)
    ensures
        *final(state) == (ShellState {
            can_set_term_title: title_support_spec(vars@, slice_text(tty_name)),
            term_has_xn: if initialized {
                eat_newline_glitch
            } else {
                old(state).term_has_xn
            },
            color_support: color_support_spec(
                vars@,
                if initialized {
                    max_colors
                } else {
                    None
                },
            ),
            curses_initialized: true,
            ..*old(state)
        }),
{
    state.can_set_term_title = does_term_support_setting_title(vars, tty_name);
    if initialized {
        state.term_has_xn = eat_newline_glitch;
        update_fish_color_support(state, vars, max_colors);
    } else {
        update_fish_color_support(state, vars, None);
    }
    state.curses_initialized = true;
}

/// What the terminal database answers for the three capabilities that may
/// have to be patched.
pub struct StyleAnswers {
    pub enter_italics: Option<String>,
    pub exit_italics: Option<String>,
    pub enter_dim: Option<String>,
}

/// Whether the terminal is one whose database entry leaves out italics and
/// dim text though the terminal has them: on macOS, Apple's terminal and
/// iTerm, with the terminal type `xterm-256color`.
pub open spec fn needs_style_patches(env: Bindings, platform: Platform) -> bool {
    &&& platform == Platform::MacOs
    &&& (value_of(env, "TERM_PROGRAM".spec_bytes()) == Some("Apple_Terminal".spec_bytes())
        || value_of(env, "TERM_PROGRAM".spec_bytes()) == Some("iTerm.app".spec_bytes()))
    &&& value_of(env, "TERM".spec_bytes()) == Some("xterm-256color".spec_bytes())
}

/// Whether the terminal is one that gets the patches. Where it is not, the
/// terminal database need not be asked for the three capabilities.
pub fn wants_style_patches(vars: &Environment, platform: Platform) -> (r: bool)
    ensures
        r == needs_style_patches(vars@, platform),
{
    let on_macos = match platform {
        Platform::MacOs => true,
        _ => false,
    };
    if !on_macos {
        return false;
    }
    let term_prog = vars.get("TERM_PROGRAM".as_bytes());
    (value_is(term_prog, "Apple_Terminal".as_bytes()) || value_is(
        term_prog,
        "iTerm.app".as_bytes(),
    )) && value_is(vars.get("TERM".as_bytes()), "xterm-256color".as_bytes())
}

/// The overrides after a capability has been looked up and, where neither
/// an override nor the terminal database had a value for it, bound to
/// `escape`.
pub open spec fn patched(
    overrides: Overrides,
    id: StringCap,
    native: Option<Seq<char>>,
    escape: Seq<char>,
) -> Overrides {
    if string_answer(overrides, id, native) is Some {
        string_after(overrides, id, native)
    } else {
        overrides.insert(id, escape)
    }
}

/// The overrides after the three patches.
pub open spec fn style_patched(overrides: Overrides, native: StyleAnswers) -> Overrides {
    patched(
        patched(
            patched(
                overrides,
                StringCap(code_of("ZH".spec_bytes())),
                text_of(native.enter_italics),
                "\x1B[3m"@,
            ),
            StringCap(code_of("ZR".spec_bytes())),
            text_of(native.exit_italics),
            "\x1B[23m"@,
        ),
        StringCap(code_of("mh".spec_bytes())),
        text_of(native.enter_dim),
        "\x1B[2m"@,
    )
}

/// Looks `id` up and binds it to `escape` where it has no value.
pub fn patch_missing(term: &mut Term, id: StringCap, native: Option<String>, escape: &str)
    ensures
        final(term)@ == patched(old(term)@, id, text_of(native), escape@),
{
    if term.get(id, native).is_none() {
        term.set(id, escape.to_owned());
    }
}

/// Whether a file manager runs the shell that reads the last line of the
/// prompt: exactly when `MC_SID` is set.
pub fn midnight_commander_hack(vars: &Environment) -> (r: bool)
    ensures
        r == vars@.contains_key("MC_SID".spec_bytes()),
{
    vars.get("MC_SID".as_bytes()).is_some()
}

/// Patches the session for terminals whose database entry is known to be
/// incomplete. With a live session on such a terminal, italics and dim
/// text get their usual sequences where they have no value; otherwise
/// nothing changes. `native` holds what the terminal database answers for
/// the three capabilities. Returns whether the prompt has to be drawn in
/// the way that suits Midnight Commander.
pub fn apply_term_hacks(
    vars: &Environment,
    store: &mut Store,
    platform: Platform,
    native: StyleAnswers,
) -> (midnight_commander: bool)
    ensures
        midnight_commander == vars@.contains_key("MC_SID".spec_bytes()),
        final(store).active() == old(store).active(),
        final(store).overrides() == if old(store).active() && needs_style_patches(vars@, platform) {
            Some(style_patched(old(store).overrides()->0, native))
        } else {
            old(store).overrides()
        },
{
    let midnight_commander = midnight_commander_hack(vars);
    if !is_initialized(store) {
        return midnight_commander;
    }
    if wants_style_patches(vars, platform) {
        let t = term(store);
        patch_missing(t, enter_italics_mode(), native.enter_italics, "\x1B[3m");
        patch_missing(t, exit_italics_mode(), native.exit_italics, "\x1B[23m");
        patch_missing(t, enter_dim_mode(), native.enter_dim, "\x1B[2m");
    }
    midnight_commander
}

} // verus!
