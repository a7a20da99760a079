//! How colour support is decided: two cascades of rules, each read from the
//! top, the first rule that applies giving the answer.

use vstd::prelude::*;
use vstd::string::*;
use crate::env::{Bindings, Environment, value_of};
use crate::output::ColorSupport;
use crate::text::{
    bool_from_string, bytes_eq, contains, has_substring, is_prefix, starts_with,
    truthy, wcstoi, wcstoi_spec,
};

verus! {

/// The terminal type that a snapshot names; empty where it names none.
pub open spec fn term_of(env: Bindings) -> Seq<u8> {
    match value_of(env, "TERM".spec_bytes()) {
        Some(t) => t,
        None => Seq::empty(),
    }
}

/// The first verdict of `a` and `b`, in that order.
pub open spec fn or_else(a: Option<bool>, b: Option<bool>) -> Option<bool> {
    if a is Some {
        a
    } else {
        b
    }
}

/// A truth value that the user has set for `name` decides.
pub open spec fn override_rule(env: Bindings, name: Seq<u8>) -> Option<bool> {
    match value_of(env, name) {
        Some(v) => Some(truthy(v)),
        None => None,
    }
}

/// A terminal type that holds `256color`, or else `xterm`, has 256 colours.
pub open spec fn term_name_256_rule(env: Bindings) -> Option<bool> {
    if has_substring(term_of(env), "256color".spec_bytes()) || has_substring(
        term_of(env),
        "xterm".spec_bytes(),
    ) {
        Some(true)
    } else {
        None
    }
}

/// Where the terminal database gives a number of colours, 256 or more of
/// them decide for, fewer against.
pub open spec fn max_colors_256_rule(max_colors: Option<i32>) -> Option<bool> {
    match max_colors {
        Some(n) => Some(n >= 256),
        None => None,
    }
}

/// Whether the terminal is taken to support 256 colours.
pub open spec fn supports_256color_spec(env: Bindings, max_colors: Option<i32>) -> bool {
    match or_else(
        override_rule(env, "fish_term256".spec_bytes()),
        or_else(term_name_256_rule(env), max_colors_256_rule(max_colors)),
    ) {
        Some(b) => b,
        None => false,
    }
}

/// A screen multiplexer, and a terminal type that begins with `eterm`,
/// swallow 24-bit colour sequences.
pub open spec fn multiplexer_rule(env: Bindings) -> Option<bool> {
    if env.contains_key("STY".spec_bytes()) || is_prefix("eterm".spec_bytes(), term_of(env)) {
        Some(false)
    } else {
        None
    }
}

/// More than 32767 colours in the terminal database mean 24-bit colour.
pub open spec fn max_colors_24bit_rule(max_colors: Option<i32>) -> Option<bool> {
    match max_colors {
        Some(n) if n > 32767 => Some(true),
        _ => None,
    }
}

/// Where `COLORTERM` is set, it decides: for 24-bit colour exactly when it
/// reads `truecolor` or `24bit`.
pub open spec fn colorterm_rule(env: Bindings) -> Option<bool> {
    match value_of(env, "COLORTERM".spec_bytes()) {
        Some(ct) => Some(ct == "truecolor".spec_bytes() || ct == "24bit".spec_bytes()),
        None => None,
    }
}

/// Session markers of terminal emulators that are known to show 24-bit
/// colour: where Konsole's version or profile name, or an iTerm session
/// identifier, is set, there is 24-bit colour, whatever the marker holds.
pub open spec fn session_marker_rule(env: Bindings) -> Option<bool> {
    if env.contains_key("KONSOLE_VERSION".spec_bytes()) || env.contains_key(
        "KONSOLE_PROFILE_NAME".spec_bytes(),
    ) || env.contains_key("ITERM_SESSION_ID".spec_bytes()) {
        Some(true)
    } else {
        None
    }
}

/// A terminal type that begins with `st-` has 24-bit colour.
pub open spec fn term_prefix_rule(env: Bindings) -> Option<bool> {
    if is_prefix("st-".spec_bytes(), term_of(env)) {
        Some(true)
    } else {
        None
    }
}

/// Where `VTE_VERSION` is set, it decides: for 24-bit colour exactly when
/// it is a number above 3600.
pub open spec fn vte_version_rule(env: Bindings) -> Option<bool> {
    match value_of(env, "VTE_VERSION".spec_bytes()) {
        Some(v) => Some(
            match wcstoi_spec(v) {
                Some(n) => n > 3600,
                None => false,
            },
        ),
        None => None,
    }
}

/// Whether the terminal is taken to support 24-bit colour.
pub open spec fn supports_24bit_spec(env: Bindings, max_colors: Option<i32>) -> bool {
    match or_else(
        override_rule(env, "fish_term24bit".spec_bytes()),
        or_else(
            multiplexer_rule(env),
            or_else(
                max_colors_24bit_rule(max_colors),
                or_else(
                    colorterm_rule(env),
                    or_else(
                        session_marker_rule(env),
                        or_else(term_prefix_rule(env), vte_version_rule(env)),
                    ),
                ),
            ),
        ),
    ) {
        Some(b) => b,
        None => false,
    }
}

/// The colour support that a snapshot of the variables and the terminal
/// database's number of colours amount to.
pub open spec fn color_support_spec(env: Bindings, max_colors: Option<i32>) -> ColorSupport {
    ColorSupport {
        term_256color: supports_256color_spec(env, max_colors),
        term_24bit: supports_24bit_spec(env, max_colors),
    }
}

/// The terminal type that `vars` names, empty where it names none.
pub fn term_name(vars: &Environment) -> (r: &[u8])
    ensures
        r@ == term_of(vars@),
{
    match vars.get("TERM".as_bytes()) {
        Some(t) => t,
        None => {
            let empty: &[u8] = &[];
            assert(empty@.len() == 0);
            assert(empty@ == Seq::<u8>::empty());
            empty
        },
    }
}

/// Reads the user's own setting `name`, if there is one.
pub fn user_override(vars: &Environment, name: &[u8]) -> (r: Option<bool>)
    ensures
        r == override_rule(vars@, name@),
{
    match vars.get(name) {
        Some(v) => Some(bool_from_string(v)),
        None => None,
    }
}

/// Decides on 256 colours.
pub fn supports_256color(vars: &Environment, max_colors: Option<i32>) -> (r: bool)
    ensures
        r == supports_256color_spec(vars@, max_colors),
{
    let term = term_name(vars);
    if let Some(b) = user_override(vars, "fish_term256".as_bytes()) {
        b
    } else if contains(term, "256color".as_bytes()) {
        true
    } else if contains(term, "xterm".as_bytes()) {
        true
    } else if let Some(n) = max_colors {
        n >= 256
    } else {
        false
    }
}

/// Decides by the session markers of terminal emulators.
pub fn session_marker(vars: &Environment) -> (r: Option<bool>)
    ensures
        r == session_marker_rule(vars@),
{
    if vars.get("KONSOLE_VERSION".as_bytes()).is_some() || vars.get(
        "KONSOLE_PROFILE_NAME".as_bytes(),
    ).is_some() || vars.get("ITERM_SESSION_ID".as_bytes()).is_some() {
        Some(true)
    } else {
        None
    }
}

/// Decides on 24-bit colour.
pub fn supports_24bit(vars: &Environment, max_colors: Option<i32>) -> (r: bool)
    ensures
        r == supports_24bit_spec(vars@, max_colors),
{
    let term = term_name(vars);
    if let Some(b) = user_override(vars, "fish_term24bit".as_bytes()) {
        return b;
    }
    if vars.get("STY".as_bytes()).is_some() || starts_with(term, "eterm".as_bytes()) {
        return false;
    }
    if let Some(n) = max_colors {
        if n > 32767 {
            return true;
        }
    }
    if let Some(ct) = vars.get("COLORTERM".as_bytes()) {
        return bytes_eq(ct, "truecolor".as_bytes()) || bytes_eq(ct, "24bit".as_bytes());
    }
    if let Some(b) = session_marker(vars) {
        return b;
    }
    if starts_with(term, "st-".as_bytes()) {
        return true;
    }
    if let Some(v) = vars.get("VTE_VERSION".as_bytes()) {
        return match wcstoi(v) {
            Some(n) => n > 3600,
            None => false,
        };
    }
    false
}

/// Decides on both abilities.
pub fn color_support(vars: &Environment, max_colors: Option<i32>) -> (r: ColorSupport)
    ensures
        r == color_support_spec(vars@, max_colors),
{
    let low = if supports_256color(vars, max_colors) {
        ColorSupport::term_256color()
    } else {
        ColorSupport::none()
    };
    let high = if supports_24bit(vars, max_colors) {
        ColorSupport::term_24bit()
    } else {
        ColorSupport::none()
    };
    low.union(high)
}

} // verus!

verus! {

/// The rules for 256 colours apply in their order: the user's setting
/// before the terminal type, the terminal type before the number of
/// colours, and without any of them there are no 256 colours.
pub proof fn law_256color_order(env: Bindings, max_colors: Option<i32>)
    ensures
        override_rule(env, "fish_term256".spec_bytes()) matches Some(b)
            ==> supports_256color_spec(env, max_colors) == b,
        override_rule(env, "fish_term256".spec_bytes()) is None && term_name_256_rule(env) is Some
            ==> supports_256color_spec(env, max_colors),
        override_rule(env, "fish_term256".spec_bytes()) is None && term_name_256_rule(env) is None
            ==> supports_256color_spec(env, max_colors) == (max_colors matches Some(n) && n
            >= 256),
{
}

/// The rules for 24-bit colour apply in their order, and each rule decides
/// only where every rule before it has nothing to say.
pub proof fn law_24bit_order(env: Bindings, max_colors: Option<i32>)
    ensures
        override_rule(env, "fish_term24bit".spec_bytes()) matches Some(b) ==> supports_24bit_spec(
            env,
            max_colors,
        ) == b,
        override_rule(env, "fish_term24bit".spec_bytes()) is None ==> {
            &&& multiplexer_rule(env) is Some ==> !supports_24bit_spec(env, max_colors)
            &&& multiplexer_rule(env) is None ==> {
                &&& max_colors_24bit_rule(max_colors) is Some ==> supports_24bit_spec(
                    env,
                    max_colors,
                )
                &&& max_colors_24bit_rule(max_colors) is None ==> {
                    &&& colorterm_rule(env) matches Some(b) ==> supports_24bit_spec(
                        env,
                        max_colors,
                    ) == b
                    &&& colorterm_rule(env) is None ==> {
                        &&& session_marker_rule(env) matches Some(b) ==> supports_24bit_spec(
                            env,
                            max_colors,
                        ) == b
                        &&& session_marker_rule(env) is None ==> {
                            &&& term_prefix_rule(env) is Some ==> supports_24bit_spec(
                                env,
                                max_colors,
                            )
                            &&& term_prefix_rule(env) is None ==> {
                                &&& vte_version_rule(env) matches Some(b) ==> supports_24bit_spec(
                                    env,
                                    max_colors,
                                ) == b
                                &&& vte_version_rule(env) is None ==> !supports_24bit_spec(
                                    env,
                                    max_colors,
                                )
                            }
                        }
                    }
                }
            }
        },
{
}

/// The two abilities are decided apart: what the result says of one is what
/// its own cascade says.
pub proof fn law_flags_are_independent(env: Bindings, max_colors: Option<i32>)
    ensures
        color_support_spec(env, max_colors).term_256color == supports_256color_spec(
            env,
            max_colors,
        ),
        color_support_spec(env, max_colors).term_24bit == supports_24bit_spec(env, max_colors),
        color_support_spec(env, max_colors).packed() == (if supports_256color_spec(
            env,
            max_colors,
        ) {
            1int
        } else {
            0int
        }) + (if supports_24bit_spec(env, max_colors) {
            2int
        } else {
            0int
        }),
{
}

} // verus!
