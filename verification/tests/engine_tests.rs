//! Scenario tests for the schedule state engine: day lookup, active-schedule
//! filtering, and every boundary of the warm-up, pre-lesson, lesson,
//! pre-break and cool-down windows.

use semafor::schedule::{
    derive_state, validate, Day, Hour, LessonKind, LightState, Moment, Options, Snapshot,
};
use semafor::state::Light;

fn offsets() -> Options {
    Options { lights_on: 1800, lights_off: 600, before_break: 60, before_lesson: 60 }
}

/// A snapshot with one day (day number 739000) holding one lesson
/// 08:00-08:45 in its only slot.
fn one_lesson_snapshot() -> Snapshot {
    Snapshot {
        hours: vec![Hour { start: 8 * 3600, duration: 45 }],
        days: vec![Day { date: Some(739000), lessons: vec![vec![LessonKind::Regular]] }],
    }
}

fn at(time: u32) -> Moment {
    Moment { date: 739000, time }
}

#[test]
fn day_lookup_miss_yields_empty() {
    let snap = one_lesson_snapshot();
    let st = derive_state(&snap, Moment { date: 739001, time: 8 * 3600 }, &offsets());
    assert_eq!(st, LightState::Empty);
}

#[test]
fn day_without_date_never_matches() {
    let snap = Snapshot {
        hours: vec![Hour { start: 8 * 3600, duration: 45 }],
        days: vec![Day { date: None, lessons: vec![vec![LessonKind::Regular]] }],
    };
    let st = derive_state(&snap, at(8 * 3600), &offsets());
    assert_eq!(st, LightState::Empty);
}

#[test]
fn no_active_lessons_yields_empty() {
    let snap = Snapshot {
        hours: vec![
            Hour { start: 8 * 3600, duration: 45 },
            Hour { start: 9 * 3600, duration: 45 },
            Hour { start: 10 * 3600, duration: 45 },
        ],
        days: vec![Day {
            date: Some(739000),
            lessons: vec![vec![], vec![LessonKind::Canceled], vec![LessonKind::Absent]],
        }],
    };
    // Empty slots and non-occupying variants at every time of day.
    assert_eq!(derive_state(&snap, at(8 * 3600), &offsets()), LightState::Empty);
    assert_eq!(derive_state(&snap, at(9 * 3600 + 600), &offsets()), LightState::Empty);
    assert_eq!(derive_state(&snap, at(12 * 3600), &offsets()), LightState::Empty);
}

#[test]
fn warm_up_boundary() {
    let snap = one_lesson_snapshot();
    // lights_on = 30 min before the 08:00 lesson: boundary at 07:30.
    assert_eq!(derive_state(&snap, at(7 * 3600 + 29 * 60), &offsets()), LightState::Empty);
    assert_eq!(derive_state(&snap, at(7 * 3600 + 31 * 60), &offsets()), LightState::Break);
}

#[test]
fn lesson_window_boundaries() {
    let snap = one_lesson_snapshot();
    let o = offsets();
    // 07:58, before the 07:59 pre-lesson window opens.
    assert_eq!(derive_state(&snap, at(7 * 3600 + 58 * 60), &o), LightState::Break);
    // 07:59:30, inside the pre-lesson window.
    assert_eq!(derive_state(&snap, at(7 * 3600 + 59 * 60 + 30), &o), LightState::BeforeLesson);
    // 08:00, the lesson starts.
    assert_eq!(derive_state(&snap, at(8 * 3600), &o), LightState::Lesson);
    // 08:43, still inside the lesson.
    assert_eq!(derive_state(&snap, at(8 * 3600 + 43 * 60), &o), LightState::Lesson);
    // 08:44, the pre-break minute opens (the comparison is strict).
    assert_eq!(derive_state(&snap, at(8 * 3600 + 44 * 60), &o), LightState::BeforeBreak);
    // 08:44:30, inside the pre-break window.
    assert_eq!(derive_state(&snap, at(8 * 3600 + 44 * 60 + 30), &o), LightState::BeforeBreak);
    // 08:45, the last lesson ended: cool-down window of 10 min.
    assert_eq!(derive_state(&snap, at(8 * 3600 + 45 * 60), &o), LightState::Break);
    // 08:56, past the cool-down window.
    assert_eq!(derive_state(&snap, at(8 * 3600 + 56 * 60), &o), LightState::Empty);
}

#[test]
fn second_slot_reached_through_the_gap() {
    let snap = Snapshot {
        hours: vec![
            Hour { start: 8 * 3600, duration: 45 },
            Hour { start: 9 * 3600, duration: 45 },
        ],
        days: vec![Day {
            date: Some(739000),
            lessons: vec![vec![LessonKind::Regular], vec![LessonKind::Substitution]],
        }],
    };
    let o = offsets();
    // 08:50, in the gap between the lessons.
    assert_eq!(derive_state(&snap, at(8 * 3600 + 50 * 60), &o), LightState::Break);
    // 08:59:30, in the second lesson's pre-lesson window.
    assert_eq!(derive_state(&snap, at(8 * 3600 + 59 * 60 + 30), &o), LightState::BeforeLesson);
    // 09:30, inside the second lesson.
    assert_eq!(derive_state(&snap, at(9 * 3600 + 30 * 60), &o), LightState::Lesson);
    // 09:46, in the cool-down window after the second (last) lesson.
    assert_eq!(derive_state(&snap, at(9 * 3600 + 46 * 60), &o), LightState::Break);
}

#[test]
fn inactive_slots_are_skipped() {
    // The first slot's list starts with a cancelled entry, so the day's
    // active schedule is only the 09:00 lesson.
    let snap = Snapshot {
        hours: vec![
            Hour { start: 8 * 3600, duration: 45 },
            Hour { start: 9 * 3600, duration: 45 },
        ],
        days: vec![Day {
            date: Some(739000),
            lessons: vec![vec![LessonKind::Canceled], vec![LessonKind::Regular]],
        }],
    };
    let o = offsets();
    // 08:20 would be inside the first slot were it active; instead it falls
    // before the 08:30 warm-up boundary of the 09:00 lesson.
    assert_eq!(derive_state(&snap, at(8 * 3600 + 20 * 60), &o), LightState::Empty);
    // 08:31 is inside the warm-up window of the 09:00 lesson.
    assert_eq!(derive_state(&snap, at(8 * 3600 + 31 * 60), &o), LightState::Break);
    // 09:30 is inside the one active lesson.
    assert_eq!(derive_state(&snap, at(9 * 3600 + 30 * 60), &o), LightState::Lesson);
}

#[test]
fn validate_checks_slot_counts() {
    let good = one_lesson_snapshot();
    assert!(validate(&good));
    let bad = Snapshot {
        hours: vec![Hour { start: 8 * 3600, duration: 45 }],
        days: vec![Day { date: Some(739000), lessons: vec![] }],
    };
    assert!(!validate(&bad));
    let empty = Snapshot { hours: vec![], days: vec![] };
    assert!(validate(&empty));
}

#[test]
fn light_state_to_lamp_combination() {
    assert_eq!(LightState::Empty.light(), Light::Off);
    assert_eq!(LightState::Break.light(), Light::Green);
    assert_eq!(LightState::BeforeLesson.light(), Light::Amber);
    assert_eq!(LightState::Lesson.light(), Light::Red);
    assert_eq!(LightState::BeforeBreak.light(), Light::RedAmber);
}
