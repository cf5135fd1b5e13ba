//! Program resolution: given one schedule snapshot and the configured
//! (location, channel, project) identity, pick the single current/next
//! program, or say exactly why none can be picked.

use vstd::prelude::*;
use crate::schedule::{DigitalFile, EventSummary, ScheduleSnapshot, Show, SwitchConfig};

verus! {

/// Why a snapshot yields no program for the configured identity.
#[derive(Clone, Copy, PartialEq, Eq, Structural, Debug)]
pub enum ResolveError {
    /// No event summary matches the configured (location, channel).
    EventSummaryMissing,
    /// The matching event names a show that the snapshot does not carry.
    ShowMissing,
    /// The show has no digital file in the snapshot.
    DigitalFileMissing,
    /// The show belongs to another project: the caller should hold fallback
    /// rather than retry aggressively.
    OutOfScopeProject,
}

/// The program selected from one snapshot; derived per poll cycle and
/// discarded after the cycle's decision is made.
pub struct ResolvedProgram<'a> {
    pub summary: EventSummary,
    pub show: &'a Show,
    pub digital_file: DigitalFile,
    /// Holds exactly when the digital file's aspect-ratio code is 1.
    pub is_narrow_aspect: bool,
}

/// An event summary airs on the configured location and channel.
pub open spec fn summary_matches(e: EventSummary, location: i64, channel: i64) -> bool {
    e.location == location && e.channel == channel
}

/// The first event summary matching (location, channel), in snapshot order.
pub open spec fn first_matching_summary(
    events: Seq<EventSummary>,
    location: i64,
    channel: i64,
) -> Option<EventSummary>
    decreases events.len(),
{
    if events.len() == 0 {
        None
    } else if summary_matches(events[0], location, channel) {
        Some(events[0])
    } else {
        first_matching_summary(events.drop_first(), location, channel)
    }
}

/// The first show whose id is `id`, in snapshot order.
pub open spec fn first_show_with_id(shows: Seq<Show>, id: i64) -> Option<Show>
    decreases shows.len(),
{
    if shows.len() == 0 {
        None
    } else if shows[0].id == id {
        Some(shows[0])
    } else {
        first_show_with_id(shows.drop_first(), id)
    }
}

/// The first digital file attached to show `show_id`, in snapshot order.
pub open spec fn first_file_for_show(files: Seq<DigitalFile>, show_id: i64) -> Option<DigitalFile>
    decreases files.len(),
{
    if files.len() == 0 {
        None
    } else if files[0].show == show_id {
        Some(files[0])
    } else {
        first_file_for_show(files.drop_first(), show_id)
    }
}

/// A snapshot with no event summary for (location, channel) resolves to
/// nothing: `first_matching_summary` is `None` exactly when no element
/// matches, so by `resolve`'s contract such a snapshot always yields
/// `ResolveError::EventSummaryMissing`.
pub proof fn lemma_event_summary_missing(events: Seq<EventSummary>, location: i64, channel: i64)
    ensures
        first_matching_summary(events, location, channel) is None <==> (forall|i: int|
            0 <= i < events.len() ==> !summary_matches(#[trigger] events[i], location, channel)),
    decreases events.len(),
{
    if events.len() > 0 {
        let rest = events.drop_first();
        lemma_event_summary_missing(rest, location, channel);
        if !summary_matches(events[0], location, channel) {
            if first_matching_summary(events, location, channel) is None {
                assert forall|i: int|
                    0 <= i < events.len() implies !summary_matches(
                    #[trigger] events[i],
                    location,
                    channel,
                ) by {
                    if i > 0 {
                        assert(events[i] == rest[i - 1]);
                    }
                }
            } else {
                let j = choose|j: int|
                    0 <= j < rest.len() && summary_matches(#[trigger] rest[j], location, channel);
                assert(events[j + 1] == rest[j]);
            }
        }
    }
}

proof fn lemma_first_summary_found(
    events: Seq<EventSummary>,
    location: i64,
    channel: i64,
    i: int,
)
    requires
        0 <= i < events.len(),
        summary_matches(events[i], location, channel),
        forall|j: int| 0 <= j < i ==> !summary_matches(#[trigger] events[j], location, channel),
    ensures
        first_matching_summary(events, location, channel) == Some(events[i]),
    decreases i,
{
    if i > 0 {
        lemma_first_summary_found(events.drop_first(), location, channel, i - 1);
    }
}

proof fn lemma_first_show_found(shows: Seq<Show>, id: i64, i: int)
    requires
        0 <= i < shows.len(),
        shows[i].id == id,
        forall|j: int| 0 <= j < i ==> (#[trigger] shows[j]).id != id,
    ensures
        first_show_with_id(shows, id) == Some(shows[i]),
    decreases i,
{
    if i > 0 {
        lemma_first_show_found(shows.drop_first(), id, i - 1);
    }
}

proof fn lemma_no_show(shows: Seq<Show>, id: i64)
    requires
        forall|j: int| 0 <= j < shows.len() ==> (#[trigger] shows[j]).id != id,
    ensures
        first_show_with_id(shows, id) is None,
    decreases shows.len(),
{
    if shows.len() > 0 {
        lemma_no_show(shows.drop_first(), id);
    }
}

proof fn lemma_first_file_found(files: Seq<DigitalFile>, show_id: i64, i: int)
    requires
        0 <= i < files.len(),
        files[i].show == show_id,
        forall|j: int| 0 <= j < i ==> (#[trigger] files[j]).show != show_id,
    ensures
        first_file_for_show(files, show_id) == Some(files[i]),
    decreases i,
{
    if i > 0 {
        lemma_first_file_found(files.drop_first(), show_id, i - 1);
    }
}

proof fn lemma_no_file(files: Seq<DigitalFile>, show_id: i64)
    requires
        forall|j: int| 0 <= j < files.len() ==> (#[trigger] files[j]).show != show_id,
    ensures
        first_file_for_show(files, show_id) is None,
    decreases files.len(),
{
    if files.len() > 0 {
        lemma_no_file(files.drop_first(), show_id);
    }
}

fn find_summary(events: &Vec<EventSummary>, location: i64, channel: i64) -> (r: Option<
    EventSummary,
>)
    ensures
        r == first_matching_summary(events@, location, channel),
{
    let mut i: usize = 0;
    while i < events.len()
        invariant
            0 <= i <= events@.len(),
            forall|j: int| 0 <= j < i ==> !summary_matches(#[trigger] events@[j], location, channel),
        decreases events@.len() - i,
    {
        let e = events[i];
        if e.location == location && e.channel == channel {
            proof {
                lemma_first_summary_found(events@, location, channel, i as int);
            }
            return Some(e);
        }
        i = i + 1;
    }
    proof {
        lemma_event_summary_missing(events@, location, channel);
    }
    None
}

fn find_show<'a>(shows: &'a Vec<Show>, id: i64) -> (r: Option<&'a Show>)
    ensures
        match r {
            Some(s) => first_show_with_id(shows@, id) == Some(*s),
            None => first_show_with_id(shows@, id) is None,
        },
{
    let mut i: usize = 0;
    while i < shows.len()
        invariant
            0 <= i <= shows@.len(),
            forall|j: int| 0 <= j < i ==> (#[trigger] shows@[j]).id != id,
        decreases shows@.len() - i,
    {
        if shows[i].id == id {
            proof {
                lemma_first_show_found(shows@, id, i as int);
            }
            return Some(&shows[i]);
        }
        i = i + 1;
    }
    proof {
        lemma_no_show(shows@, id);
    }
    None
}

fn find_file(files: &Vec<DigitalFile>, show_id: i64) -> (r: Option<DigitalFile>)
    ensures
        r == first_file_for_show(files@, show_id),
{
    let mut i: usize = 0;
    while i < files.len()
        invariant
            0 <= i <= files@.len(),
            forall|j: int| 0 <= j < i ==> (#[trigger] files@[j]).show != show_id,
        decreases files@.len() - i,
    {
        let f = files[i];
        if f.show == show_id {
            proof {
                lemma_first_file_found(files@, show_id, i as int);
            }
            return Some(f);
        }
        i = i + 1;
    }
    proof {
        lemma_no_file(files@, show_id);
    }
    None
}

/// Select the program for the configured identity from one snapshot.
///
/// The first matching event summary names the show; the show must carry the
/// configured project; the show's first digital file settles the aspect
/// class. Each way this can fail is reported by its own error, exactly when
/// its condition holds.
pub fn resolve<'a>(snapshot: &'a ScheduleSnapshot, config: &SwitchConfig) -> (r: Result<
    ResolvedProgram<'a>,
    ResolveError,
>)
    ensures
        ({
            let sum = first_matching_summary(
                snapshot.event_summaries@,
                config.location,
                config.channel,
            );
            match r {
                Err(ResolveError::EventSummaryMissing) => sum is None,
                Err(ResolveError::ShowMissing) => sum matches Some(s) && first_show_with_id(
                    snapshot.shows@,
                    s.show,
                ) is None,
                Err(ResolveError::DigitalFileMissing) => sum matches Some(s)
                    && first_show_with_id(snapshot.shows@, s.show) is Some && first_file_for_show(
                    snapshot.digital_files@,
                    s.show,
                ) is None,
                Err(ResolveError::OutOfScopeProject) => sum matches Some(s)
                    && first_show_with_id(snapshot.shows@, s.show) matches Some(sh)
                    && first_file_for_show(snapshot.digital_files@, s.show) is Some && sh.project
                    != Some(config.project),
                Ok(p) => sum == Some(p.summary) && first_show_with_id(
                    snapshot.shows@,
                    p.summary.show,
                ) == Some(*p.show) && first_file_for_show(snapshot.digital_files@, p.summary.show)
                    == Some(p.digital_file) && p.show.project == Some(config.project)
                    && p.is_narrow_aspect == (p.digital_file.aspect_ratio == 1),
            }
        }),
{
    let summary = match find_summary(&snapshot.event_summaries, config.location, config.channel) {
        Some(s) => s,
        None => {
            return Err(ResolveError::EventSummaryMissing);
        },
    };
    let show = match find_show(&snapshot.shows, summary.show) {
        Some(s) => s,
        None => {
            return Err(ResolveError::ShowMissing);
        },
    };
    let file = match find_file(&snapshot.digital_files, summary.show) {
        Some(f) => f,
        None => {
            return Err(ResolveError::DigitalFileMissing);
        },
    };
    let in_scope = match show.project {
        Some(p) => p == config.project,
        None => false,
    };
    if !in_scope {
        return Err(ResolveError::OutOfScopeProject);
    }
    Ok(
        ResolvedProgram {
            summary,
            show,
            digital_file: file,
            is_narrow_aspect: file.aspect_ratio == 1,
        },
    )
}

} // verus!

