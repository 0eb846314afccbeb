//! The relay-facing form of the engine's output: the earlier revision of the
//! light interface, which encodes the five derived states straight to the
//! 3-bit lamp code instead of going through the lamp-combination enumeration.

use vstd::prelude::*;

pub use crate::schedule::Options;
use crate::schedule::{state_light, LightState};
use crate::state::light_code;

verus! {

/// The five states the engine can derive, encoded directly for the relay.
#[derive(Debug, PartialEq, Eq, Copy, Clone, Structural)]
pub enum State {
    Empty,
    Break,
    BeforeLesson,
    Lesson,
    BeforeBreak,
}

/// The fixed 3-bit lamp code of each derived state: bit 0 is red, bit 1 is
/// amber, bit 2 is green.
pub open spec fn state_code(state: State) -> u8 {
    match state {
        State::Empty => 0b000,
        State::Break => 0b100,
        State::BeforeLesson => 0b010,
        State::Lesson => 0b001,
        State::BeforeBreak => 0b011,
    }
}

impl State {
    /// The 3-bit lamp code this state drives on the relay.
    pub fn light(self) -> (r: u8)
        ensures
            r == state_code(self),
            r < 8,
    {
        match self {
            Self::Empty => 0b000,
            Self::Break => 0b100,
            Self::BeforeLesson => 0b010,
            Self::Lesson => 0b001,
            Self::BeforeBreak => 0b011,
        }
    }
}

/// The relay-facing state that stands for each derived light state.
pub open spec fn state_of(light_state: LightState) -> State {
    match light_state {
        LightState::Empty => State::Empty,
        LightState::Break => State::Break,
        LightState::BeforeLesson => State::BeforeLesson,
        LightState::Lesson => State::Lesson,
        LightState::BeforeBreak => State::BeforeBreak,
    }
}

/// Law: the direct 3-bit encoding agrees with going through the lamp
/// combination — for every derived state, encoding its relay-facing form
/// equals the code of the lamp combination it drives.
pub proof fn lemma_state_code_agrees(light_state: LightState)
    ensures
        state_code(state_of(light_state)) == light_code(state_light(light_state)),
{
}

} // verus!
