//! The privileged mutation rules for the mode override: a bearer token must
//! match the configured key exactly, otherwise nothing changes and the caller
//! is told it was unauthorized.

use vstd::prelude::*;

use crate::state::{Light, Mode, State};

verus! {

/// What a privileged mutation request came to.
#[derive(Debug, PartialEq, Eq, Copy, Clone, Structural)]
pub enum SetOutcome {
    /// The token matched; the change was applied.
    Accepted,
    /// The token did not match; nothing changed.
    Unauthorized,
}

/// Sets the reporting mode when the bearer token matches the configured key;
/// a mismatch leaves the state untouched and reports `Unauthorized`.
pub fn set_mode(state: &mut State, token: &String, key: &String, mode: Mode) -> (r: SetOutcome)
    ensures
        token@ == key@ ==> *final(state) == (State { mode, custom: old(state).custom })
            && r == SetOutcome::Accepted,
        token@ != key@ ==> *final(state) == *old(state) && r == SetOutcome::Unauthorized,
{
    if !token.eq(key) {
        return SetOutcome::Unauthorized;
    }
    state.mode = mode;
    SetOutcome::Accepted
}

/// Sets the custom light when the bearer token matches the configured key;
/// a mismatch leaves the state untouched and reports `Unauthorized`.
pub fn set_light(state: &mut State, token: &String, key: &String, light: Light) -> (r: SetOutcome)
    ensures
        token@ == key@ ==> *final(state) == (State { mode: old(state).mode, custom: light })
            && r == SetOutcome::Accepted,
        token@ != key@ ==> *final(state) == *old(state) && r == SetOutcome::Unauthorized,
{
    if !token.eq(key) {
        return SetOutcome::Unauthorized;
    }
    state.custom = light;
    SetOutcome::Accepted
}

} // verus!
