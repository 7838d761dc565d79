//! Environment lookups that are suppressed while secure execution is active.
//!
//! Under secure execution the environment was inherited across a privilege
//! boundary and may be chosen by an attacker, so it is treated as empty. The
//! "not present" outcome is the same whether the variable is unset or the
//! lookup was blocked, so a caller cannot tell the two apart.

use vstd::prelude::*;

verus! {

/// The outcome of a gated lookup (see `gated_lookup`) whose collaborator
/// gives `looked_up`: `absent` while secure execution is active, otherwise
/// the collaborator's own outcome.
pub open spec fn gated<T>(secure: bool, absent: T, looked_up: T) -> T {
    if secure {
        absent
    } else {
        looked_up
    }
}

/// Runs `lookup` only when `secure` is false and returns its outcome; while
/// `secure` is true, returns `absent` without looking anything up.
///
/// `absent` is the collaborator's own "not present" outcome
/// (`Err(VarError::NotPresent)` for a string lookup, `None` for a raw one).
pub fn gated_lookup<T, F: FnOnce() -> T>(secure: bool, absent: T, lookup: F) -> (r: T)
    requires
        !secure ==> lookup.requires(()),
    ensures
        secure ==> r == absent,
        !secure ==> lookup.ensures((), r),
{
    if secure {
        absent
    } else {
        lookup()
    }
}

/// The string and the raw gated lookups of one key agree on presence under
/// the same secure-execution state, provided the two collaborator lookups
/// agree on it (a variable is present as text exactly when it is present as
/// raw bytes).
pub proof fn lemma_raw_string_agree<S, R>(
    secure: bool,
    text_absent: S,
    text: S,
    raw_absent: R,
    raw: R,
)
    requires
        (text == text_absent) == (raw == raw_absent),
    ensures
        (gated(secure, text_absent, text) == text_absent) == (gated(secure, raw_absent, raw)
            == raw_absent),
{
}

} // verus!
