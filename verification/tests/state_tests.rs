//! Tests for the lamp encoding tables, the mode override, the status value,
//! and the credential parser.

use semafor::bakalari;
use semafor::config::{parse_auth, AuthError};
use semafor::control::{set_light, set_mode, SetOutcome};
use semafor::schedule::LightState;
use semafor::state::{Light, Mode, State};
use semafor::status::{live_string, live_value, random_light, select_light};

const ALL_LIGHTS: [Light; 8] = [
    Light::Off,
    Light::Red,
    Light::Amber,
    Light::RedAmber,
    Light::Green,
    Light::RedGreen,
    Light::AmberGreen,
    Light::RedAmberGreen,
];

#[test]
fn light_codes_are_the_fixed_table() {
    assert_eq!(Light::Off.to_val(), 0b000);
    assert_eq!(Light::Red.to_val(), 0b001);
    assert_eq!(Light::Amber.to_val(), 0b010);
    assert_eq!(Light::RedAmber.to_val(), 0b011);
    assert_eq!(Light::Green.to_val(), 0b100);
    assert_eq!(Light::RedGreen.to_val(), 0b101);
    assert_eq!(Light::AmberGreen.to_val(), 0b110);
    assert_eq!(Light::RedAmberGreen.to_val(), 0b111);
}

#[test]
fn light_code_round_trip() {
    for light in ALL_LIGHTS {
        assert_eq!(Light::from_val(light.to_val()), light);
    }
    for val in 0u8..8 {
        assert_eq!(Light::from_val(val).to_val(), val);
    }
}

#[test]
fn out_of_range_codes_decode_to_off() {
    for val in [8u8, 9, 100, 255] {
        assert_eq!(Light::from_val(val), Light::Off);
    }
}

#[test]
fn defaults() {
    let st = State::default();
    assert_eq!(st.mode, Mode::Bakalari);
    assert_eq!(st.custom, Light::RedAmberGreen);
}

#[test]
fn relay_state_codes() {
    assert_eq!(bakalari::State::Empty.light(), 0b000);
    assert_eq!(bakalari::State::Break.light(), 0b100);
    assert_eq!(bakalari::State::BeforeLesson.light(), 0b010);
    assert_eq!(bakalari::State::Lesson.light(), 0b001);
    assert_eq!(bakalari::State::BeforeBreak.light(), 0b011);
}

#[test]
fn relay_codes_agree_with_lamp_codes() {
    let pairs = [
        (bakalari::State::Empty, LightState::Empty),
        (bakalari::State::Break, LightState::Break),
        (bakalari::State::BeforeLesson, LightState::BeforeLesson),
        (bakalari::State::Lesson, LightState::Lesson),
        (bakalari::State::BeforeBreak, LightState::BeforeBreak),
    ];
    for (relay, derived) in pairs {
        assert_eq!(relay.light(), derived.light().to_val());
    }
}

#[test]
fn static_mode_overrides_the_schedule() {
    let st = State { mode: Mode::Static, custom: Light::Red };
    // Whatever the engine derived, the custom light is reported.
    for derived in ALL_LIGHTS {
        assert_eq!(select_light(&st, derived, Light::Green), Light::Red);
    }
    assert_eq!(live_value(Light::Red), 0b1001);
    assert_eq!(live_string(Light::Red), "9");
}

#[test]
fn bakalari_mode_reports_the_derived_light() {
    let st = State { mode: Mode::Bakalari, custom: Light::Red };
    for derived in ALL_LIGHTS {
        assert_eq!(select_light(&st, derived, Light::Green), derived);
    }
}

#[test]
fn random_mode_reports_the_drawn_light() {
    let st = State { mode: Mode::Random, custom: Light::Red };
    assert_eq!(select_light(&st, Light::Off, Light::AmberGreen), Light::AmberGreen);
    // Every draw is a valid lamp combination.
    for _ in 0..64 {
        let drawn = random_light();
        assert!(drawn.to_val() < 8);
    }
}

#[test]
fn live_values_carry_the_marker_bit() {
    for light in ALL_LIGHTS {
        let v = live_value(light);
        assert_eq!(v, light.to_val() | 0b1000);
        assert_eq!(live_string(light), format!("{v}"));
    }
}

#[test]
fn authorized_mutations_apply() {
    let key = String::from("sesam");
    let mut st = State::default();
    let r = set_mode(&mut st, &key.clone(), &key, Mode::Static);
    assert_eq!(r, SetOutcome::Accepted);
    assert_eq!(st.mode, Mode::Static);
    assert_eq!(st.custom, Light::RedAmberGreen);
    let r = set_light(&mut st, &key.clone(), &key, Light::Red);
    assert_eq!(r, SetOutcome::Accepted);
    assert_eq!(st, State { mode: Mode::Static, custom: Light::Red });
}

#[test]
fn unauthorized_mutations_change_nothing() {
    let key = String::from("sesam");
    let wrong = String::from("not-the-key");
    let mut st = State { mode: Mode::Bakalari, custom: Light::Green };
    let r = set_mode(&mut st, &wrong, &key, Mode::Static);
    assert_eq!(r, SetOutcome::Unauthorized);
    let r = set_light(&mut st, &wrong, &key, Light::Red);
    assert_eq!(r, SetOutcome::Unauthorized);
    assert_eq!(st, State { mode: Mode::Bakalari, custom: Light::Green });
}

#[test]
fn parse_auth_splits_at_the_first_colon() {
    // "user:pass"
    let r = parse_auth("dXNlcjpwYXNz").unwrap();
    assert_eq!(r.0, "user");
    assert_eq!(r.1, "pass");
    // "a:b:c" splits at the first colon only.
    let r = parse_auth("YTpiOmM=").unwrap();
    assert_eq!(r.0, "a");
    assert_eq!(r.1, "b:c");
    // ":pw" gives an empty user.
    let r = parse_auth("OnB3").unwrap();
    assert_eq!(r.0, "");
    assert_eq!(r.1, "pw");
}

#[test]
fn parse_auth_rejects_bad_input() {
    assert_eq!(parse_auth("!!!"), Err(AuthError::InvalidBase64));
    // Valid base64 of the lone byte 0xFF, which is not UTF-8.
    assert_eq!(parse_auth("/w=="), Err(AuthError::InvalidUtf8));
    // "nocolon"
    assert_eq!(parse_auth("bm9jb2xvbg=="), Err(AuthError::MissingSeparator));
}
