//! Setting up the locale: what the process environment has to show before
//! the locale is read from it, and how a single-byte encoding is replaced.

use vstd::prelude::*;
use vstd::string::*;
use crate::env::{nonempty_value_of, Bindings, Environment};
use crate::env_dispatch::{mirror_all, mirrors, names_of, EnvOp};
use crate::text::{bool_from_string, bytes_eq, truthy};

verus! {

/// The variables that decide the locale.
pub open spec fn locale_variables() -> Seq<Seq<u8>> {
    seq![
        "LANG".spec_bytes(),
        "LANGUAGE".spec_bytes(),
        "LC_ALL".spec_bytes(),
        "LC_COLLATE".spec_bytes(),
        "LC_CTYPE".spec_bytes(),
        "LC_MESSAGES".spec_bytes(),
        "LC_NUMERIC".spec_bytes(),
        "LC_TIME".spec_bytes(),
        "LOCPATH".spec_bytes(),
        "fish_allow_singlebyte_locale".spec_bytes(),
    ]
}

/// The variables that decide the locale.
pub fn locale_variable_names() -> (names: Vec<&'static str>)
    ensures
        names_of(names@) == locale_variables(),
{
    let mut names: Vec<&'static str> = Vec::new();
    names.push("LANG");
    names.push("LANGUAGE");
    names.push("LC_ALL");
    names.push("LC_COLLATE");
    names.push("LC_CTYPE");
    names.push("LC_MESSAGES");
    names.push("LC_NUMERIC");
    names.push("LC_TIME");
    names.push("LOCPATH");
    names.push("fish_allow_singlebyte_locale");
    assert(names_of(names@) =~= locale_variables());
    names
}

/// Whether a locale with a single-byte encoding is to be replaced: yes,
/// unless the user has said that such a locale is welcome.
pub open spec fn fix_locale_spec(env: Bindings) -> bool {
    match nonempty_value_of(env, "fish_allow_singlebyte_locale".spec_bytes()) {
        Some(allow) => !truthy(allow),
        None => true,
    }
}

/// What setting up the locale starts with and ends with.
#[derive(Debug, PartialEq, Eq)]
pub struct LocalePlan {
    /// The changes to the process environment, one for each variable that
    /// decides the locale, in the order of [`locale_variables`]. They are
    /// made before the locale is read from the process environment.
    pub exports: Vec<EnvOp>,
    /// Whether a single-byte encoding is to be replaced.
    pub fix_locale: bool,
    /// The locale that numbers are formatted in, whatever the variables
    /// say: it is put in force last, so that the decimal separator is a
    /// full stop.
    pub numeric_locale: &'static str,
}

/// Plans the set-up of the locale: what of the shell's variables the
/// process environment has to show before the locale is read from it, and
/// whether a single-byte encoding is to be replaced afterwards (see
/// [`next_utf8_locale`]).
pub fn init_locale(vars: &Environment) -> (plan: LocalePlan)
    ensures
        plan.exports@.len() == locale_variables().len(),
        forall|i: int|
            0 <= i < plan.exports@.len() ==> mirrors(
                #[trigger] plan.exports@[i],
                vars@,
                locale_variables()[i],
                true,
            ),
        plan.fix_locale == fix_locale_spec(vars@),
        plan.numeric_locale@ == "C"@,
{
    let names = locale_variable_names();
    let exports = mirror_all(vars, &names);
    proof {
        assert forall|i: int| 0 <= i < exports@.len() implies mirrors(
            #[trigger] exports@[i],
            vars@,
            locale_variables()[i],
            true,
        ) by {
            assert(names_of(names@)[i] == names@[i].spec_bytes());
        }
    }
    let fix_locale = match vars.get_unless_empty("fish_allow_singlebyte_locale".as_bytes()) {
        Some(allow) => !bool_from_string(allow),
        None => true,
    };
    LocalePlan { exports, fix_locale, numeric_locale: "C" }
}

/// The locales that are tried, in this order, to get away from a
/// single-byte encoding.
pub open spec fn utf8_locales() -> Seq<Seq<char>> {
    seq!["C.UTF-8"@, "en_US.UTF-8"@, "en_GB.UTF-8"@, "de_DE.UTF-8"@, "C.utf8"@, "UTF-8"@]
}

/// Whether another locale is tried, after `attempts` locales have been.
/// `mb_cur_max` is the greatest number of bytes in a character of the
/// encoding now in force. The first locale is tried where that number is 1,
/// and each further one as long as it has not become greater than 1.
pub open spec fn probes_again(fix_locale: bool, attempts: int, mb_cur_max: int) -> bool {
    fix_locale && 0 <= attempts < 6 && mb_cur_max <= 1 && (attempts == 0 ==> mb_cur_max == 1)
}

/// Says which locale to try next for the character type, if any.
pub fn next_utf8_locale(fix_locale: bool, attempts: usize, mb_cur_max: usize) -> (r: Option<
    &'static str,
>)
    ensures
        match r {
            Some(locale) => probes_again(fix_locale, attempts as int, mb_cur_max as int)
                && locale@ == utf8_locales()[attempts as int],
            None => !probes_again(fix_locale, attempts as int, mb_cur_max as int),
        },
        mb_cur_max > 1 ==> r is None,
{
    if !fix_locale || mb_cur_max > 1 || (attempts == 0 && mb_cur_max != 1) {
        return None;
    }
    if attempts == 0 {
        Some("C.UTF-8")
    } else if attempts == 1 {
        Some("en_US.UTF-8")
    } else if attempts == 2 {
        Some("en_GB.UTF-8")
    } else if attempts == 3 {
        Some("de_DE.UTF-8")
    } else if attempts == 4 {
        Some("C.utf8")
    } else if attempts == 5 {
        Some("UTF-8")
    } else {
        None
    }
}

/// With a multi-byte encoding in force no locale is tried, however many
/// were tried before and whatever the user has set.
pub proof fn law_multibyte_is_left_alone(fix_locale: bool, attempts: int, mb_cur_max: int)
    requires
        mb_cur_max > 1,
    ensures
        !probes_again(fix_locale, attempts, mb_cur_max),
{
}

/// Whether the message catalogues that are cached have to go: exactly when the
/// locale for messages is not what it was.
pub fn message_locale_changed(old_msg_locale: &[u8], new_msg_locale: &[u8]) -> (r: bool)
    ensures
        r == (old_msg_locale@ != new_msg_locale@),
{
    !bytes_eq(old_msg_locale, new_msg_locale)
}

} // verus!
