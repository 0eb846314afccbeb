//! Drives a multi-state indicator light from a class timetable: a freshness
//! cache for the fetched timetable and a pure engine that derives the light
//! state from the schedule and the current time.

pub mod bakalari;
pub mod cache;
pub mod config;
pub mod control;
pub mod schedule;
pub mod state;
pub mod status;

