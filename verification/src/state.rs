//! Mode override state and the device-facing lamp encoding.
//!
//! `Light` is the 8-value lamp-combination enumeration with a total,
//! bidirectional mapping to a 3-bit code. `Mode` selects whether the status
//! endpoint reports the schedule-derived light, a fixed custom light, or a
//! random one. `State` is the guarded pair of both.

use vstd::prelude::*;

verus! {

/// How the status endpoint picks the light it reports.
#[derive(Debug, PartialEq, Eq, Clone, Copy, Hash, Structural)]
pub enum Mode {
    /// Derive the light from the timetable.
    Bakalari,
    /// Report the configured custom light.
    Static,
    /// Report a random light.
    Random,
}

impl Default for Mode {
    fn default() -> (r: Self)
        ensures
            r == Mode::Bakalari,
    {
        Mode::Bakalari
    }
}

/// One combination of the three physical lamps (red, amber, green).
#[derive(Debug, PartialEq, Eq, Clone, Copy, Hash, Structural)]
pub enum Light {
    Off,
    Red,
    Amber,
    RedAmber,
    Green,
    RedGreen,
    AmberGreen,
    RedAmberGreen,
}

impl Default for Light {
    fn default() -> (r: Self)
        ensures
            r == Light::RedAmberGreen,
    {
        Light::RedAmberGreen
    }
}

/// The fixed 3-bit code of each lamp combination: bit 0 is red, bit 1 is
/// amber, bit 2 is green.
pub open spec fn light_code(light: Light) -> u8 {
    match light {
        Light::Off => 0b000,
        Light::Red => 0b001,
        Light::Amber => 0b010,
        Light::RedAmber => 0b011,
        Light::Green => 0b100,
        Light::RedGreen => 0b101,
        Light::AmberGreen => 0b110,
        Light::RedAmberGreen => 0b111,
    }
}

/// The lamp combination of a 3-bit code; every value outside `1..=7` decodes
/// to `Off`.
pub open spec fn light_of_code(val: u8) -> Light {
    match val {
        0b001 => Light::Red,
        0b010 => Light::Amber,
        0b011 => Light::RedAmber,
        0b100 => Light::Green,
        0b101 => Light::RedGreen,
        0b110 => Light::AmberGreen,
        0b111 => Light::RedAmberGreen,
        _ => Light::Off,
    }
}

impl Light {
    /// Encode this lamp combination as its 3-bit code.
    pub fn to_val(self) -> (r: u8)
        ensures
            r == light_code(self),
            r < 8,
    {
        match self {
            Self::Off => 0b000,
            Self::Red => 0b001,
            Self::Amber => 0b010,
            Self::RedAmber => 0b011,
            Self::Green => 0b100,
            Self::RedGreen => 0b101,
            Self::AmberGreen => 0b110,
            Self::RedAmberGreen => 0b111,
        }
    }

    /// Decode a 3-bit code back to its lamp combination; codes outside the
    /// table fall back to `Off`.
    pub fn from_val(val: u8) -> (r: Self)
        ensures
            r == light_of_code(val),
    {
        match val {
            0b001 => Self::Red,
            0b010 => Self::Amber,
            0b011 => Self::RedAmber,
            0b100 => Self::Green,
            0b101 => Self::RedGreen,
            0b110 => Self::AmberGreen,
            0b111 => Self::RedAmberGreen,
            _ => Self::Off,
        }
    }
}

/// Law: decoding the code of any lamp combination gives that combination
/// back — the table is injective and total on the lights.
pub proof fn lemma_light_code_round_trip(light: Light)
    ensures
        light_of_code(light_code(light)) == light,
{
}

/// Law: encoding the lamp combination of any in-range 3-bit code gives that
/// code back — the table is a bijection on `0..8`.
pub proof fn lemma_light_code_onto(val: u8)
    requires
        val < 8,
    ensures
        light_code(light_of_code(val)) == val,
{
}

/// The guarded override pair: the reporting mode and the custom light used
/// while the mode is `Static`.
#[derive(Debug, PartialEq, Eq, Clone, Copy, Hash, Structural)]
pub struct State {
    pub mode: Mode,
    pub custom: Light,
}

impl Default for State {
    fn default() -> (r: Self)
        ensures
            r == (State { mode: Mode::Bakalari, custom: Light::RedAmberGreen }),
    {
        State { mode: Mode::Bakalari, custom: Light::RedAmberGreen }
    }
}

} // verus!
