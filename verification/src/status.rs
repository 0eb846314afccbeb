//! The status endpoint's value: which light is reported under each mode, and
//! its integer encoding with the marker bit that tells downstream relay
//! hardware a valid payload from a dead line.

use vstd::prelude::*;

use crate::state::{light_code, light_of_code, Light, Mode, State};

verus! {

/// The light the status endpoint reports: the custom light under `Static`,
/// the schedule-derived one under `Bakalari`, a random one under `Random`.
pub open spec fn selected_light(state: State, derived: Light, random: Light) -> Light {
    match state.mode {
        Mode::Static => state.custom,
        Mode::Bakalari => derived,
        Mode::Random => random,
    }
}

/// Picks the light to report for the current mode. `derived` is the
/// schedule-derived light and `random` a freshly drawn one; each is read
/// only when its mode selects it.
pub fn select_light(state: &State, derived: Light, random: Light) -> (r: Light)
    ensures
        r == selected_light(*state, derived, random),
{
    match state.mode {
        Mode::Static => state.custom,
        Mode::Bakalari => derived,
        Mode::Random => random,
    }
}

/// Law (mode override): while the mode is `Static`, the reported light is
/// the custom one, whatever the timetable derived and whatever was drawn.
pub proof fn lemma_mode_override(state: State, derived: Light, random: Light)
    requires
        state.mode == Mode::Static,
    ensures
        selected_light(state, derived, random) == state.custom,
{
}

/// The wire encoding of a reported light: its 3-bit code with the valid-
/// payload marker bit above it, so the value is always in `8..=15`.
pub open spec fn live_code(light: Light) -> u8 {
    (light_code(light) + 8) as u8
}

/// Encodes the reported light for the wire: the 3-bit lamp code plus the
/// marker bit.
pub fn live_value(light: Light) -> (r: u8)
    ensures
        r == live_code(light),
        8 <= r < 16,
{
    light.to_val() + 8
}

/// The decimal text of the wire encoding of each light.
pub open spec fn live_text(light: Light) -> Seq<char> {
    match light {
        Light::Off => seq!['8'],
        Light::Red => seq!['9'],
        Light::Amber => seq!['1', '0'],
        Light::RedAmber => seq!['1', '1'],
        Light::Green => seq!['1', '2'],
        Light::RedGreen => seq!['1', '3'],
        Light::AmberGreen => seq!['1', '4'],
        Light::RedAmberGreen => seq!['1', '5'],
    }
}

/// Law: the decimal text of each light is the decimal representation of its
/// wire encoding — one digit for values below ten, two digits above.
pub proof fn lemma_live_text_decimal(light: Light)
    ensures
        live_code(light) < 10 ==> live_text(light).len() == 1 && live_text(light)[0] as int == '0'
            as int + live_code(light),
        live_code(light) >= 10 ==> live_text(light).len() == 2 && live_text(light)[0] == '1'
            && live_text(light)[1] as int == '0' as int + live_code(light) - 10,
{
}

/// The status endpoint's body: the wire encoding of the reported light in
/// decimal text.
pub fn live_string(light: Light) -> (r: String)
    ensures
        r@ == live_text(light),
{
    match light {
        Light::Off => {
            let s = "8";
            proof {
                reveal_strlit("8");
                assert(s@ =~= live_text(light));
            }
            s.to_owned()
        },
        Light::Red => {
            let s = "9";
            proof {
                reveal_strlit("9");
                assert(s@ =~= live_text(light));
            }
            s.to_owned()
        },
        Light::Amber => {
            let s = "10";
            proof {
                reveal_strlit("10");
                assert(s@ =~= live_text(light));
            }
            s.to_owned()
        },
        Light::RedAmber => {
            let s = "11";
            proof {
                reveal_strlit("11");
                assert(s@ =~= live_text(light));
            }
            s.to_owned()
        },
        Light::Green => {
            let s = "12";
            proof {
                reveal_strlit("12");
                assert(s@ =~= live_text(light));
            }
            s.to_owned()
        },
        Light::RedGreen => {
            let s = "13";
            proof {
                reveal_strlit("13");
                assert(s@ =~= live_text(light));
            }
            s.to_owned()
        },
        Light::AmberGreen => {
            let s = "14";
            proof {
                reveal_strlit("14");
                assert(s@ =~= live_text(light));
            }
            s.to_owned()
        },
        Light::RedAmberGreen => {
            let s = "15";
            proof {
                reveal_strlit("15");
                assert(s@ =~= live_text(light));
            }
            s.to_owned()
        },
    }
}

/// Relies on rand::Rng::gen_range on rand::thread_rng over `0..=7`: the
/// drawn value lies in that range; nothing else holds of it.
#[verifier::external_body]
fn random_code() -> (r: u8)
    ensures
        r < 8,
{
    rand::Rng::gen_range(&mut rand::thread_rng(), 0..=7)
}

/// Draws a uniformly random lamp combination for the `Random` mode. Nothing
/// is pinned about which one comes back, only that every draw decodes some
/// in-range 3-bit code.
pub fn random_light() -> (r: Light)
    ensures
        exists|v: u8| v < 8 && r == light_of_code(v),
{
    let code = random_code();
    Light::from_val(code)
}

} // verus!
