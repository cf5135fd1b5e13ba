//! Data model for one poll of the remote schedule: event summaries, shows and
//! digital files, together with the process-wide switching configuration.
//!
//! Timestamps are unix seconds in the channel's local zone; the controller
//! only ever compares and subtracts them, so a plain `i64` carries them.

use vstd::prelude::*;

verus! {

/// One scheduled event: a show airing on a channel at a location between
/// `start` and `end` (unix seconds).
#[derive(Clone, Copy, PartialEq, Eq, Structural)]
pub struct EventSummary {
    pub location: i64,
    pub channel: i64,
    pub show: i64,
    pub start: i64,
    pub end: i64,
}

/// A show record: the title and air date feed the overlay template, the
/// project tells whose content stream the show belongs to.
pub struct Show {
    pub id: i64,
    pub cg_title: String,
    pub project: Option<i64>,
    pub event_date: i64,
}

/// The digital file backing a show; `aspect_ratio` encodes the authored
/// frame shape (code 1 means a narrow, 4:3 frame).
#[derive(Clone, Copy, PartialEq, Eq, Structural)]
pub struct DigitalFile {
    pub show: i64,
    pub aspect_ratio: i64,
}

/// The immutable result of one schedule poll.
pub struct ScheduleSnapshot {
    pub event_summaries: Vec<EventSummary>,
    pub shows: Vec<Show>,
    pub digital_files: Vec<DigitalFile>,
}

/// Process-wide configuration, loaded once at startup and immutable after.
pub struct SwitchConfig {
    pub decklink_input: Option<String>,
    pub decklink_output: Option<String>,
    pub location: i64,
    pub channel: i64,
    pub output: i64,
    pub device: i64,
    pub project: i64,
    pub username: String,
    pub password: String,
}

} // verus!
