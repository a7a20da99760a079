//! The terminal capability store: typed capability identifiers, the table
//! of overrides that takes precedence over the terminal database, and the
//! lifecycle of the one session with that database.
//!
//! The terminal database itself is not reached from here. Whoever holds the
//! native session asks it and hands the answer to [`Term::get`]; what the
//! store does with the answer is decided here.

use vstd::prelude::*;
use vstd::string::*;
use crate::assoc::{assoc, lemma_assoc_absent, lemma_assoc_insert, lemma_assoc_last, lemma_assoc_update};

verus! {

/// The two-character code of a terminal capability.
#[derive(Copy, Clone, Debug, PartialEq, Eq, PartialOrd, Ord, Hash, Structural)]
pub struct Code {
    pub first: u8,
    pub second: u8,
}

/// The code that the first two bytes of `text` spell.
pub open spec fn code_of(text: Seq<u8>) -> Code {
    Code { first: text[0], second: text[1] }
}

impl Code {
    /// The place of the code in the order of all codes: by the first byte,
    /// then by the second.
    pub open spec fn rank(self) -> int {
        self.first * 256 + self.second
    }

    /// The code that `code` begins with.
    pub fn new(code: &str) -> (r: Code)
        requires
            code.spec_bytes().len() >= 2,
        ensures
            r == code_of(code.spec_bytes()),
    {
        let bytes = code.as_bytes();
        Code { first: bytes[0], second: bytes[1] }
    }

    /// The two bytes of the code.
    pub fn bytes(&self) -> (r: [u8; 2])
        ensures
            r[0] == self.first,
            r[1] == self.second,
    {
        [self.first, self.second]
    }

    fn rank_of(&self) -> (r: u16)
        ensures
            r == self.rank(),
    {
        (self.first as u16) * 256 + (self.second as u16)
    }
}

/// A capability whose value is a string, such as an escape sequence.
#[derive(Copy, Clone, Debug, PartialEq, Eq, PartialOrd, Ord, Hash, Structural)]
pub struct StringCap(pub Code);

/// A capability whose value is a number.
#[derive(Copy, Clone, Debug, PartialEq, Eq, PartialOrd, Ord, Hash, Structural)]
pub struct Number(pub Code);

/// A capability that the terminal has or lacks.
#[derive(Copy, Clone, Debug, PartialEq, Eq, PartialOrd, Ord, Hash, Structural)]
pub struct Flag(pub Code);

impl StringCap {
    pub fn new(code: &str) -> (r: StringCap)
        requires
            code.spec_bytes().len() >= 2,
        ensures
            r == StringCap(code_of(code.spec_bytes())),
    {
        StringCap(Code::new(code))
    }
}

impl Number {
    pub fn new(code: &str) -> (r: Number)
        requires
            code.spec_bytes().len() >= 2,
        ensures
            r == Number(code_of(code.spec_bytes())),
    {
        Number(Code::new(code))
    }
}

impl Flag {
    pub fn new(code: &str) -> (r: Flag)
        requires
            code.spec_bytes().len() >= 2,
        ensures
            r == Flag(code_of(code.spec_bytes())),
    {
        Flag(Code::new(code))
    }
}

proof fn lemma_two_letters(code: &str)
    requires
        code@.len() == 2,
        is_ascii(code),
    ensures
        code.spec_bytes().len() == 2,
{
    is_ascii_spec_bytes(code);
}

/// The sequence that switches italics on: `ZH`.
pub fn enter_italics_mode() -> (r: StringCap)
    ensures
        r == StringCap(code_of("ZH".spec_bytes())),
{
    proof {
        reveal_strlit("ZH");
        lemma_two_letters("ZH");
    }
    StringCap::new("ZH")
}

/// The sequence that switches italics off: `ZR`.
pub fn exit_italics_mode() -> (r: StringCap)
    ensures
        r == StringCap(code_of("ZR".spec_bytes())),
{
    proof {
        reveal_strlit("ZR");
        lemma_two_letters("ZR");
    }
    StringCap::new("ZR")
}

/// The sequence that switches dim text on: `mh`.
pub fn enter_dim_mode() -> (r: StringCap)
    ensures
        r == StringCap(code_of("mh".spec_bytes())),
{
    proof {
        reveal_strlit("mh");
        lemma_two_letters("mh");
    }
    StringCap::new("mh")
}

/// The number of colours: `Co`.
pub fn max_colors() -> (r: Number)
    ensures
        r == Number(code_of("Co".spec_bytes())),
{
    proof {
        reveal_strlit("Co");
        lemma_two_letters("Co");
    }
    Number::new("Co")
}

/// Whether the terminal ignores a line feed after a write in the last
/// column: `xn`.
pub fn eat_newline_glitch() -> (r: Flag)
    ensures
        r == Flag(code_of("xn".spec_bytes())),
{
    proof {
        reveal_strlit("xn");
        lemma_two_letters("xn");
    }
    Flag::new("xn")
}

/// The overrides of a store: what each overridden string capability is
/// bound to.
pub type Overrides = Map<StringCap, Seq<char>>;

/// What a string capability resolves to: its override where it has one,
/// else what the terminal database answered.
pub open spec fn string_answer(overrides: Overrides, id: StringCap, native: Option<Seq<char>>) -> Option<
    Seq<char>,
> {
    if overrides.contains_key(id) {
        Some(overrides[id])
    } else {
        native
    }
}

/// The overrides after a string capability has been resolved: an answer of
/// the terminal database is kept as an override, so that the database is
/// asked once.
pub open spec fn string_after(overrides: Overrides, id: StringCap, native: Option<Seq<char>>) -> Overrides {
    if overrides.contains_key(id) {
        overrides
    } else {
        match native {
            Some(v) => overrides.insert(id, v),
            None => overrides,
        }
    }
}

/// The text of an optional string.
pub open spec fn text_of(s: Option<String>) -> Option<Seq<char>> {
    match s {
        Some(v) => Some(v@),
        None => None,
    }
}

/// What a number capability resolves to: the terminal database says -1 for
/// a capability that the terminal does not define.
pub open spec fn number_answer(native: i32) -> Option<i32> {
    if native == -1 {
        None
    } else {
        Some(native)
    }
}

/// A kind of capability, and how a capability of that kind is resolved.
pub trait Capability: Sized {
    /// What the terminal database answers for this kind.
    type Native;

    /// What a lookup of this kind returns.
    type Result;

    /// The overrides after a lookup.
    spec fn after(&self, overrides: Overrides, native: Self::Native) -> Overrides;

    /// Whether `result` is what a lookup returns.
    spec fn answers(&self, overrides: Overrides, native: Self::Native, result: Self::Result) -> bool;

    /// Resolves the capability against `term`, given the answer `native`
    /// of the terminal database.
    fn lookup(&self, term: &mut Term, native: Self::Native) -> (result: Self::Result)
        ensures
            final(term)@ == self.after(old(term)@, native),
            self.answers(old(term)@, native, result),
    ;
}

/// The overrides of the current session with the terminal database.
pub struct Term {
    overrides: Vec<(StringCap, String)>,
}

impl View for Term {
    type V = Overrides;

    closed spec fn view(&self) -> Overrides {
        assoc(self.pairs())
    }
}

impl Term {
    closed spec fn pairs(&self) -> Seq<(StringCap, Seq<char>)> {
        self.overrides@.map_values(|e: (StringCap, String)| (e.0, e.1@))
    }

    /// The overrides are kept in the order of their codes, each code once.
    #[verifier::type_invariant]
    spec fn sorted(&self) -> bool {
        forall|i: int, j: int|
            0 <= i < j < self.overrides@.len() ==> (#[trigger] self.overrides@[i]).0.0.rank() < (
            #[trigger] self.overrides@[j]).0.0.rank()
    }

    /// A store without overrides.
    pub fn new() -> (t: Term)
        ensures
            t@ == Map::<StringCap, Seq<char>>::empty(),
    {
        let t = Term { overrides: Vec::new() };
        assert(t.pairs().len() == 0);
        t
    }

    /// Where `id` stands among the overrides, or where it would be put.
    fn search(&self, id: StringCap) -> (r: Result<usize, usize>)
        ensures
            match r {
                Ok(i) => i < self.overrides@.len() && self.overrides@[i as int].0 == id,
                Err(i) => {
                    &&& i <= self.overrides@.len()
                    &&& forall|j: int|
                        0 <= j < self.overrides@.len() ==> (#[trigger] self.overrides@[j]).0 != id
                    &&& forall|j: int|
                        0 <= j < i ==> (#[trigger] self.overrides@[j]).0.0.rank() < id.0.rank()
                    &&& forall|j: int|
                        i <= j < self.overrides@.len() ==> (
                        #[trigger] self.overrides@[j]).0.0.rank() > id.0.rank()
                },
            },
    {
        proof {
            use_type_invariant(self);
        }
        let wanted = id.0.rank_of();
        let mut low: usize = 0;
        let mut high: usize = self.overrides.len();
        while low < high
            invariant
                self.sorted(),
                wanted == id.0.rank(),
                low <= high <= self.overrides@.len(),
                forall|j: int| 0 <= j < low ==> (#[trigger] self.overrides@[j]).0.0.rank() < wanted,
                forall|j: int|
                    high <= j < self.overrides@.len() ==> (#[trigger] self.overrides@[j]).0.0.rank()
                        > wanted,
            decreases high - low,
        {
            let mid = low + (high - low) / 2;
            let here = self.overrides[mid].0.0.rank_of();
            if here == wanted {
                return Ok(mid);
            } else if here < wanted {
                low = mid + 1;
            } else {
                high = mid;
            }
        }
        Err(low)
    }

    /// The override of `id`, if it has one. `None` says that only the
    /// terminal database can tell.
    pub fn cached(&self, id: StringCap) -> (r: Option<&String>)
        ensures
            match r {
                Some(v) => self@.contains_key(id) && self@[id] == v@,
                None => !self@.contains_key(id),
            },
    {
        let ghost pairs = self.pairs();
        proof {
            use_type_invariant(self);
        }
        match self.search(id) {
            Ok(i) => {
                proof {
                    assert forall|j: int| i < j < pairs.len() implies (#[trigger] pairs[j]).0
                        != pairs[i as int].0 by {
                        assert(self.overrides@[i as int].0.0.rank() < self.overrides@[j].0.0.rank());
                    }
                    lemma_assoc_last(pairs, i as int);
                }
                Some(&self.overrides[i].1)
            },
            Err(_) => {
                proof {
                    assert forall|j: int| 0 <= j < pairs.len() implies (#[trigger] pairs[j]).0
                        != id by {
                        assert(self.overrides@[j].0 != id);
                    }
                    lemma_assoc_absent(pairs, id);
                }
                None
            },
        }
    }

    /// Resolves `capability`, given the answer `native` of the terminal
    /// database for it.
    pub fn get<C: Capability>(&mut self, capability: C, native: C::Native) -> (result: C::Result)
        ensures
            final(self)@ == capability.after(old(self)@, native),
            capability.answers(old(self)@, native, result),
    {
        capability.lookup(self, native)
    }

    /// Overrides the value of `id`: from now on `id` resolves to `value`,
    /// whatever the terminal database holds.
    pub fn set(&mut self, id: StringCap, value: String)
        ensures
            final(self)@ == old(self)@.insert(id, value@),
    {
        let ghost before = self.pairs();
        let ghost text = value@;
        proof {
            use_type_invariant(&*self);
        }
        let place = self.search(id);
        let mut entries: Vec<(StringCap, String)> = Vec::new();
        std::mem::swap(&mut self.overrides, &mut entries);
        match place {
            Ok(i) => {
                entries.set(i, (id, value));
                proof {
                    assert forall|j: int| i < j < before.len() implies (#[trigger] before[j]).0
                        != before[i as int].0 by {
                        assert(old(self).overrides@[i as int].0.0.rank() < old(
                            self,
                        ).overrides@[j].0.0.rank());
                    }
                    lemma_assoc_update(before, i as int, text);
                    assert(entries@.map_values(|e: (StringCap, String)| (e.0, e.1@))
                        == before.update(i as int, (id, text)));
                }
            },
            Err(i) => {
                entries.insert(i, (id, value));
                proof {
                    assert forall|j: int| 0 <= j < before.len() implies (#[trigger] before[j]).0
                        != id by {
                        assert(old(self).overrides@[j].0 != id);
                    }
                    lemma_assoc_insert(before, i as int, id, text);
                    assert(entries@.map_values(|e: (StringCap, String)| (e.0, e.1@))
                        == before.insert(i as int, (id, text)));
                }
            },
        }
        proof {
            assert forall|a: int, b: int| 0 <= a < b < entries@.len() implies (
            #[trigger] entries@[a]).0.0.rank() < (#[trigger] entries@[b]).0.0.rank() by {
                match place {
                    Ok(i) => {
                        assert(entries@[a].0 == old(self).overrides@[a].0);
                        assert(entries@[b].0 == old(self).overrides@[b].0);
                    },
                    Err(i) => {
                        let before_a = if a < i { a } else { a - 1 };
                        let before_b = if b < i { b } else { b - 1 };
                        if a != i {
                            assert(entries@[a] == old(self).overrides@[before_a]);
                        }
                        if b != i {
                            assert(entries@[b] == old(self).overrides@[before_b]);
                        }
                    },
                }
            }
        }
        std::mem::swap(&mut self.overrides, &mut entries);
    }
}

/// The one session with the terminal database, as far as the library
/// tracks it: whether a native handle is live, and the overrides that
/// belong to the session.
pub struct Store {
    term: Option<Term>,
    active: bool,
}

impl Store {
    /// Whether a native handle is live. A live handle has a table of
    /// overrides.
    pub closed spec fn active(&self) -> bool {
        self.active && self.term is Some
    }

    /// The overrides of the session; `None` where no session was set up or
    /// the last attempt failed.
    pub closed spec fn overrides(&self) -> Option<Overrides> {
        match self.term {
            Some(t) => Some(t@),
            None => None,
        }
    }

    /// The state before any session: no handle, no overrides.
    pub fn new() -> (s: Store)
        ensures
            !s.active(),
            s.overrides() is None,
    {
        Store { term: None, active: false }
    }

    /// Whether capabilities can be asked for.
    pub fn has_term(&self) -> (r: bool)
        ensures
            r == self.overrides() is Some,
    {
        self.term.is_some()
    }
}

/// Whether a native handle is live.
pub fn is_initialized(store: &Store) -> (r: bool)
    ensures
        r == store.active(),
        r ==> store.overrides() is Some,
{
    store.active && store.term.is_some()
}

/// Gives up the native handle. Returns whether there was one, which the
/// caller then has to free. The overrides stay as they are.
pub fn reset(store: &mut Store) -> (free: bool)
    ensures
        free == old(store).active(),
        !final(store).active(),
        final(store).overrides() == old(store).overrides(),
{
    let free = is_initialized(store);
    store.active = false;
    free
}

/// Takes note of how the native initialisation ended: `found` says whether
/// the terminal database has an entry for the terminal. Where it has, a
/// fresh table without overrides takes the place of the old one; where it
/// has not, no table is left. The handle of the session before must have
/// been given up, see [`reset`].
pub fn setup(store: &mut Store, found: bool) -> (r: bool)
    requires
        !old(store).active(),
    ensures
        r == found,
        final(store).active() == found,
        final(store).overrides() == if found {
            Some(Map::<StringCap, Seq<char>>::empty())
        } else {
            None
        },
{
    if found {
        store.term = Some(Term::new());
        store.active = true;
        true
    } else {
        store.term = None;
        store.active = false;
        false
    }
}

/// The overrides of the session, to ask and to change.
pub fn term(store: &mut Store) -> (t: &mut Term)
    requires
        old(store).overrides() is Some,
    ensures
        Some(t@) == old(store).overrides(),
        final(store).active() == old(store).active(),
        final(store).overrides() == Some(final(t)@),
{
    match &mut store.term {
        Some(t) => t,
        None => vstd::pervasive::unreached(),
    }
}

impl Capability for StringCap {
    type Native = Option<String>;

    type Result = Option<String>;

    open spec fn after(&self, overrides: Overrides, native: Option<String>) -> Overrides {
        string_after(overrides, *self, text_of(native))
    }

    open spec fn answers(&self, overrides: Overrides, native: Option<String>, result: Option<String>) -> bool {
        text_of(result) == string_answer(overrides, *self, text_of(native))
    }

    fn lookup(&self, term: &mut Term, native: Option<String>) -> (result: Option<String>) {
        match term.cached(*self) {
            Some(v) => Some(v.clone()),
            None => match native {
                Some(v) => {
                    let copy = v.clone();
                    term.set(*self, v);
                    Some(copy)
                },
                None => None,
            },
        }
    }
}

impl Capability for Number {
    type Native = i32;

    type Result = Option<i32>;

    open spec fn after(&self, overrides: Overrides, native: i32) -> Overrides {
        overrides
    }

    open spec fn answers(&self, overrides: Overrides, native: i32, result: Option<i32>) -> bool {
        result == number_answer(native)
    }

    fn lookup(&self, term: &mut Term, native: i32) -> (result: Option<i32>) {
        if native == -1 {
            None
        } else {
            Some(native)
        }
    }
}

impl Capability for Flag {
    type Native = bool;

    type Result = bool;

    open spec fn after(&self, overrides: Overrides, native: bool) -> Overrides {
        overrides
    }

    open spec fn answers(&self, overrides: Overrides, native: bool, result: bool) -> bool {
        result == native
    }

    fn lookup(&self, term: &mut Term, native: bool) -> (result: bool) {
        native
    }
}

} // verus!

verus! {

/// An override is what its capability resolves to, whatever the terminal
/// database answers, and resolving the capability leaves the override as it
/// is.
pub proof fn law_override_wins(
    overrides: Overrides,
    id: StringCap,
    value: Seq<char>,
    native: Option<Seq<char>>,
)
    ensures
        string_answer(overrides.insert(id, value), id, native) == Some(value),
        string_after(overrides.insert(id, value), id, native) == overrides.insert(id, value),
{
}

/// An override stays in place while other capabilities are resolved or
/// overridden: only a new session or an override of the same capability
/// ends it.
pub proof fn law_override_stays(
    overrides: Overrides,
    id: StringCap,
    other: StringCap,
    native: Option<Seq<char>>,
    value: Seq<char>,
)
    requires
        overrides.contains_key(id),
    ensures
        string_after(overrides, other, native).contains_key(id),
        string_after(overrides, other, native)[id] == overrides[id],
        other != id ==> overrides.insert(other, value).contains_key(id) && overrides.insert(
            other,
            value,
        )[id] == overrides[id],
{
}

/// In a fresh session, which holds no overrides, every string capability
/// resolves to what the terminal database answers.
pub proof fn law_fresh_session_has_no_overrides(id: StringCap, native: Option<Seq<char>>)
    ensures
        string_answer(Map::<StringCap, Seq<char>>::empty(), id, native) == native,
{
}

} // verus!
