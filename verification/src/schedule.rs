//! The schedule state engine: a pure derivation from a timetable snapshot,
//! a point in time and the configured timing offsets to one of five light
//! states.
//!
//! The timetable snapshot is held as plain values: an hour is a start time in
//! seconds since midnight plus a duration in minutes, a day is an optional
//! civil date (as a day number) plus one lesson list per hour slot, and a
//! point in time is a day number plus seconds since midnight, both in the
//! reference timezone.

use vstd::prelude::*;

use crate::state::Light;

verus! {

/// The five states the engine can derive for the indicator light.
#[derive(Debug, PartialEq, Eq, Copy, Clone, Structural)]
pub enum LightState {
    /// No lesson anywhere near: light off.
    Empty,
    /// Between lessons, or inside the warm-up / cool-down window.
    Break,
    /// Inside the short window right before a lesson starts.
    BeforeLesson,
    /// A lesson is running.
    Lesson,
    /// Inside the short window right before a lesson ends.
    BeforeBreak,
}

/// The fixed lamp combination shown for each derived state.
pub open spec fn state_light(state: LightState) -> Light {
    match state {
        LightState::Empty => Light::Off,
        LightState::Break => Light::Green,
        LightState::BeforeLesson => Light::Amber,
        LightState::Lesson => Light::Red,
        LightState::BeforeBreak => Light::RedAmber,
    }
}

impl LightState {
    /// The lamp combination that this derived state drives.
    pub fn light(self) -> (r: Light)
        ensures
            r == state_light(self),
    {
        match self {
            Self::Empty => Light::Off,
            Self::Break => Light::Green,
            Self::BeforeLesson => Light::Amber,
            Self::Lesson => Light::Red,
            Self::BeforeBreak => Light::RedAmber,
        }
    }
}

/// The four timing offsets, in seconds, fixed at startup.
#[derive(Debug, PartialEq, Eq, Copy, Clone, Structural)]
pub struct Options {
    /// How long before the first lesson the light turns on.
    pub lights_on: u32,
    /// How long after the last lesson the light stays on.
    pub lights_off: u32,
    /// How long before a lesson's end the warning shows.
    pub before_break: u32,
    /// How long before a lesson's start the warning shows.
    pub before_lesson: u32,
}

/// One timetable slot header: when the slot starts and how long it lasts.
#[derive(Debug, PartialEq, Eq, Copy, Clone, Structural)]
pub struct Hour {
    /// Start of the slot, in seconds since midnight.
    pub start: u32,
    /// Length of the slot, in minutes.
    pub duration: u32,
}

/// The variant of one lesson entry; only `Regular` and `Substitution` mark a
/// slot as occupied.
#[derive(Debug, PartialEq, Eq, Copy, Clone, Structural)]
pub enum LessonKind {
    Regular,
    Substitution,
    Canceled,
    Absent,
}

/// One day of the timetable: its date, if the source gave one, and one list
/// of lesson entries per hour slot.
#[derive(Debug, PartialEq, Eq, Clone)]
pub struct Day {
    /// The day's civil date as a day number, in the reference timezone.
    pub date: Option<u32>,
    /// One (possibly empty) list of lesson entries per hour slot.
    pub lessons: Vec<Vec<LessonKind>>,
}

/// An immutable timetable snapshot: the shared hour headers and the days.
#[derive(Debug, PartialEq, Eq, Clone)]
pub struct Snapshot {
    pub hours: Vec<Hour>,
    pub days: Vec<Day>,
}

/// A point in time: a civil day number and the seconds since midnight, both
/// in the reference timezone.
#[derive(Debug, PartialEq, Eq, Copy, Clone, Structural)]
pub struct Moment {
    pub date: u32,
    pub time: u32,
}

impl Snapshot {
    /// A snapshot is well formed when every day has exactly one lesson list
    /// per hour slot.
    pub open spec fn wf(self) -> bool {
        forall|i: int|
            0 <= i < self.days@.len() ==> (#[trigger] self.days@[i]).lessons@.len()
                == self.hours@.len()
    }
}

/// Checks the data-consistency invariant of a snapshot: every day must have
/// exactly one lesson list per hour slot. A snapshot that fails this check is
/// corrupt and must not be admitted into the cache.
pub fn validate(snapshot: &Snapshot) -> (r: bool)
    ensures
        r == snapshot.wf(),
{
    let n = snapshot.hours.len();
    let mut i: usize = 0;
    while i < snapshot.days.len()
        invariant
            i <= snapshot.days@.len(),
            forall|j: int|
                0 <= j < i ==> (#[trigger] snapshot.days@[j]).lessons@.len()
                    == snapshot.hours@.len(),
            n == snapshot.hours@.len(),
        decreases snapshot.days@.len() - i,
    {
        if snapshot.days[i].lessons.len() != n {
            return false;
        }
        i += 1;
    }
    true
}

/// Whether a slot's lesson list marks the slot as occupied: it must be
/// non-empty and its first entry must be a real lesson.
pub open spec fn slot_active(entry: Seq<LessonKind>) -> bool {
    entry.len() > 0 && (entry[0] is Regular || entry[0] is Substitution)
}

/// The day's active schedule: the hour headers of the occupied slots, in
/// slot order.
pub open spec fn active_hours(hours: Seq<Hour>, lessons: Seq<Vec<LessonKind>>) -> Seq<Hour>
    decreases hours.len(),
{
    if hours.len() == 0 || lessons.len() == 0 {
        Seq::empty()
    } else {
        let prefix = active_hours(hours.drop_last(), lessons.drop_last());
        if slot_active(lessons.last()@) {
            prefix.push(hours.last())
        } else {
            prefix
        }
    }
}

/// The first day in the list whose date equals the given one, if any.
pub open spec fn find_day(days: Seq<Day>, date: u32) -> Option<Day>
    decreases days.len(),
{
    if days.len() == 0 {
        Option::None
    } else if days[0].date == Option::Some(date) {
        Option::Some(days[0])
    } else {
        find_day(days.drop_first(), date)
    }
}

/// Classifies a time of day `t` (seconds since midnight) against a non-empty
/// active schedule, scanning the slots in order exactly as the engine does.
pub open spec fn scan_state(active: Seq<Hour>, t: int, options: Options) -> LightState
    decreases active.len(),
{
    if active.len() == 0 {
        LightState::Empty
    } else {
        let start = active[0].start as int;
        let end = start + active[0].duration as int * 60;
        if t < start - options.before_lesson {
            LightState::Break
        } else if t < start {
            LightState::BeforeLesson
        } else if t < end - options.before_break {
            LightState::Lesson
        } else if t < end {
            LightState::BeforeBreak
        } else if active.len() > 1 {
            scan_state(active.drop_first(), t, options)
        } else if t < end + options.lights_off {
            LightState::Break
        } else {
            LightState::Empty
        }
    }
}

/// What the engine derives: `Empty` when the date matches no day, when the
/// matched day has no occupied slot, or when the warm-up window of the first
/// occupied slot has not begun; otherwise the scan's classification.
pub open spec fn derived_state(snapshot: Snapshot, now: Moment, options: Options) -> LightState {
    match find_day(snapshot.days@, now.date) {
        Option::None => LightState::Empty,
        Option::Some(day) => {
            let active = active_hours(snapshot.hours@, day.lessons@);
            if active.len() == 0 {
                LightState::Empty
            } else if (now.time as int) < active[0].start - options.lights_on {
                LightState::Empty
            } else {
                scan_state(active, now.time as int, options)
            }
        },
    }
}

proof fn lemma_find_day_none(days: Seq<Day>, date: u32)
    requires
        forall|i: int| 0 <= i < days.len() ==> (#[trigger] days[i]).date != Option::Some(date),
    ensures
        find_day(days, date) is None,
    decreases days.len(),
{
    if days.len() > 0 {
        assert(days[0].date != Option::Some(date));
        let rest = days.drop_first();
        assert forall|i: int| 0 <= i < rest.len() implies (#[trigger] rest[i]).date
            != Option::Some(date) by {
            assert(rest[i] == days[i + 1]);
        }
        lemma_find_day_none(rest, date);
    }
}

/// Law: when `now`'s date matches no day of the snapshot, the engine derives
/// `Empty`, whatever the offsets and the timetable's content.
pub proof fn lemma_day_miss_empty(snapshot: Snapshot, now: Moment, options: Options)
    requires
        forall|i: int|
            0 <= i < snapshot.days@.len() ==> (#[trigger] snapshot.days@[i]).date != Option::Some(
                now.date,
            ),
    ensures
        derived_state(snapshot, now, options) == LightState::Empty,
{
    lemma_find_day_none(snapshot.days@, now.date);
}

proof fn lemma_active_hours_empty(hours: Seq<Hour>, lessons: Seq<Vec<LessonKind>>)
    requires
        forall|j: int| 0 <= j < lessons.len() ==> !slot_active((#[trigger] lessons[j])@),
    ensures
        active_hours(hours, lessons).len() == 0,
    decreases hours.len(),
{
    if hours.len() != 0 && lessons.len() != 0 {
        assert(!slot_active(lessons.last()@));
        assert forall|j: int| 0 <= j < lessons.drop_last().len() implies !slot_active(
            (#[trigger] lessons.drop_last()[j])@,
        ) by {
            assert(lessons.drop_last()[j] == lessons[j]);
        }
        lemma_active_hours_empty(hours.drop_last(), lessons.drop_last());
    }
}

/// Law: when the matched day has no occupied slot — every slot's lesson list
/// is empty or starts with a cancelled or absence entry — the engine derives
/// `Empty`, whatever the time and the offsets.
pub proof fn lemma_no_active_lessons_empty(
    snapshot: Snapshot,
    now: Moment,
    options: Options,
    day: Day,
)
    requires
        find_day(snapshot.days@, now.date) == Option::Some(day),
        forall|j: int| 0 <= j < day.lessons@.len() ==> !slot_active((#[trigger] day.lessons@[j])@),
    ensures
        derived_state(snapshot, now, options) == LightState::Empty,
{
    lemma_active_hours_empty(snapshot.hours@, day.lessons@);
}

/// Finds the index of the first day whose date matches, mirroring `find_day`.
fn find_day_index(days: &Vec<Day>, date: u32) -> (r: Option<usize>)
    ensures
        match r {
            Option::Some(i) => i < days@.len() && find_day(days@, date) == Option::Some(days@[i as int]),
            Option::None => find_day(days@, date) is None,
        },
{
    let mut i: usize = 0;
    proof {
        assert(days@.skip(0) =~= days@);
    }
    while i < days.len()
        invariant
            i <= days@.len(),
            find_day(days@, date) == find_day(days@.skip(i as int), date),
        decreases days@.len() - i,
    {
        let matches_date = match days[i].date {
            Option::Some(d) => d == date,
            Option::None => false,
        };
        proof {
            assert(days@.skip(i as int)[0] == days@[i as int]);
        }
        if matches_date {
            return Option::Some(i);
        }
        proof {
            assert(days@.skip(i as int).drop_first() =~= days@.skip(i as int + 1));
        }
        i += 1;
    }
    proof {
        assert(days@.skip(i as int).len() == 0);
    }
    Option::None
}

/// Collects the day's active schedule, mirroring `active_hours`.
fn collect_active(hours: &Vec<Hour>, lessons: &Vec<Vec<LessonKind>>) -> (r: Vec<Hour>)
    requires
        hours@.len() == lessons@.len(),
    ensures
        r@ == active_hours(hours@, lessons@),
{
    let mut active: Vec<Hour> = Vec::new();
    let mut i: usize = 0;
    proof {
        assert(hours@.take(0) =~= Seq::<Hour>::empty());
        assert(lessons@.take(0) =~= Seq::<Vec<LessonKind>>::empty());
    }
    while i < hours.len()
        invariant
            i <= hours@.len(),
            hours@.len() == lessons@.len(),
            active@ == active_hours(hours@.take(i as int), lessons@.take(i as int)),
        decreases hours@.len() - i,
    {
        let entry = &lessons[i];
        let occupied = if entry.len() == 0 {
            false
        } else {
            match entry[0] {
                LessonKind::Regular => true,
                LessonKind::Substitution => true,
                _ => false,
            }
        };
        proof {
            let hs = hours@.take(i as int + 1);
            let ls = lessons@.take(i as int + 1);
            assert(hs.drop_last() =~= hours@.take(i as int));
            assert(ls.drop_last() =~= lessons@.take(i as int));
            assert(hs.last() == hours@[i as int]);
            assert(ls.last() == lessons@[i as int]);
        }
        if occupied {
            active.push(hours[i]);
        }
        i += 1;
    }
    proof {
        assert(hours@.take(i as int) =~= hours@);
        assert(lessons@.take(i as int) =~= lessons@);
    }
    active
}

/// Derives the light state for `now` from a well-formed snapshot, scanning
/// the matched day's active schedule in slot order.
pub fn derive_state(snapshot: &Snapshot, now: Moment, options: &Options) -> (r: LightState)
    requires
        snapshot.wf(),
    ensures
        r == derived_state(*snapshot, now, *options),
{
    let day_index = match find_day_index(&snapshot.days, now.date) {
        Option::Some(i) => i,
        Option::None => {
            return LightState::Empty;
        },
    };
    let day = &snapshot.days[day_index];
    let active = collect_active(&snapshot.hours, &day.lessons);
    if active.len() == 0 {
        return LightState::Empty;
    }
    let t: i64 = now.time as i64;
    let first_start: i64 = active[0].start as i64;
    if t < first_start - options.lights_on as i64 {
        return LightState::Empty;
    }
    let mut i: usize = 0;
    proof {
        assert(active@.skip(0) =~= active@);
    }
    while i < active.len()
        invariant
            i < active@.len(),
            t == now.time as int,
            scan_state(active@.skip(i as int), t as int, *options) == scan_state(
                active@,
                t as int,
                *options,
            ),
            derived_state(*snapshot, now, *options) == scan_state(active@, t as int, *options),
        decreases active@.len() - i,
    {
        let h = active[i];
        let start: i64 = h.start as i64;
        let end: i64 = start + h.duration as i64 * 60;
        proof {
            assert(active@.skip(i as int)[0] == active@[i as int]);
        }
        if t < start - options.before_lesson as i64 {
            return LightState::Break;
        }
        if t < start {
            return LightState::BeforeLesson;
        }
        if t < end - options.before_break as i64 {
            return LightState::Lesson;
        }
        if t < end {
            return LightState::BeforeBreak;
        }
        if i + 1 < active.len() {
            proof {
                assert(active@.skip(i as int).drop_first() =~= active@.skip(i as int + 1));
            }
            i += 1;
        } else {
            if t < end + options.lights_off as i64 {
                return LightState::Break;
            }
            return LightState::Empty;
        }
    }
    // The scan always returns from inside the loop: the last slot's branch
    // returns on every path, so this point contradicts the loop invariant.
    LightState::Empty
}

} // verus!
