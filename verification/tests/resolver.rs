use scissors::{
    DigitalFile, EventSummary, ResolveError, ScheduleSnapshot, Show, SwitchConfig,
};

fn config() -> SwitchConfig {
    SwitchConfig {
        decklink_input: None,
        decklink_output: None,
        location: 2,
        channel: 13,
        output: 3,
        device: 4,
        project: 5,
        username: "user".to_string(),
        password: "pass".to_string(),
    }
}

fn event(location: i64, channel: i64, show: i64, start: i64, end: i64) -> EventSummary {
    EventSummary { location, channel, show, start, end }
}

fn show(id: i64, project: Option<i64>) -> Show {
    Show { id, cg_title: format!("Show {}", id), project, event_date: 1_600_000_000 }
}

#[test]
fn resolve_reports_event_summary_missing() {
    let snapshot = ScheduleSnapshot {
        event_summaries: vec![event(9, 9, 7, 100, 200), event(2, 9, 8, 100, 200)],
        shows: vec![show(7, Some(5))],
        digital_files: vec![DigitalFile { show: 7, aspect_ratio: 1 }],
    };
    let r = scissors::resolve(&snapshot, &config());
    assert_eq!(r.err().unwrap(), ResolveError::EventSummaryMissing);
}

#[test]
fn resolve_reports_event_summary_missing_on_empty_snapshot() {
    let snapshot =
        ScheduleSnapshot { event_summaries: vec![], shows: vec![], digital_files: vec![] };
    let r = scissors::resolve(&snapshot, &config());
    assert_eq!(r.err().unwrap(), ResolveError::EventSummaryMissing);
}

#[test]
fn resolve_reports_show_missing() {
    let snapshot = ScheduleSnapshot {
        event_summaries: vec![event(2, 13, 7, 100, 200)],
        shows: vec![show(8, Some(5))],
        digital_files: vec![DigitalFile { show: 7, aspect_ratio: 1 }],
    };
    let r = scissors::resolve(&snapshot, &config());
    assert_eq!(r.err().unwrap(), ResolveError::ShowMissing);
}

#[test]
fn resolve_reports_digital_file_missing() {
    let snapshot = ScheduleSnapshot {
        event_summaries: vec![event(2, 13, 7, 100, 200)],
        shows: vec![show(7, Some(5))],
        digital_files: vec![DigitalFile { show: 8, aspect_ratio: 1 }],
    };
    let r = scissors::resolve(&snapshot, &config());
    assert_eq!(r.err().unwrap(), ResolveError::DigitalFileMissing);
}

#[test]
fn resolve_reports_out_of_scope_project() {
    let snapshot = ScheduleSnapshot {
        event_summaries: vec![event(2, 13, 7, 100, 200)],
        shows: vec![show(7, Some(6))],
        digital_files: vec![DigitalFile { show: 7, aspect_ratio: 1 }],
    };
    let r = scissors::resolve(&snapshot, &config());
    assert_eq!(r.err().unwrap(), ResolveError::OutOfScopeProject);
}

#[test]
fn resolve_reports_out_of_scope_on_project_none() {
    let snapshot = ScheduleSnapshot {
        event_summaries: vec![event(2, 13, 7, 100, 200)],
        shows: vec![show(7, None)],
        digital_files: vec![DigitalFile { show: 7, aspect_ratio: 1 }],
    };
    let r = scissors::resolve(&snapshot, &config());
    assert_eq!(r.err().unwrap(), ResolveError::OutOfScopeProject);
}

#[test]
fn resolve_picks_the_matching_event_and_its_records() {
    let snapshot = ScheduleSnapshot {
        event_summaries: vec![
            event(2, 9, 6, 50, 80),
            event(2, 13, 7, 100, 200),
            event(2, 13, 8, 300, 400),
        ],
        shows: vec![show(6, Some(5)), show(7, Some(5)), show(8, Some(5))],
        digital_files: vec![
            DigitalFile { show: 6, aspect_ratio: 1 },
            DigitalFile { show: 7, aspect_ratio: 1 },
            DigitalFile { show: 8, aspect_ratio: 3 },
        ],
    };
    let r = scissors::resolve(&snapshot, &config()).ok().unwrap();
    assert_eq!(r.summary.show, 7);
    assert_eq!(r.summary.start, 100);
    assert_eq!(r.summary.end, 200);
    assert_eq!(r.show.id, 7);
    assert_eq!(r.show.cg_title, "Show 7");
    assert_eq!(r.digital_file.show, 7);
    assert!(r.is_narrow_aspect);
}

#[test]
fn resolve_narrow_aspect_only_for_code_one() {
    for (code, narrow) in [(0i64, false), (1, true), (2, false), (-1, false), (16, false)] {
        let snapshot = ScheduleSnapshot {
            event_summaries: vec![event(2, 13, 7, 100, 200)],
            shows: vec![show(7, Some(5))],
            digital_files: vec![DigitalFile { show: 7, aspect_ratio: code }],
        };
        let r = scissors::resolve(&snapshot, &config()).ok().unwrap();
        assert_eq!(r.is_narrow_aspect, narrow);
    }
}

#[test]
fn resolve_takes_the_first_of_two_matching_events() {
    let snapshot = ScheduleSnapshot {
        event_summaries: vec![event(2, 13, 7, 100, 200), event(2, 13, 8, 300, 400)],
        shows: vec![show(7, Some(5)), show(8, Some(5))],
        digital_files: vec![
            DigitalFile { show: 7, aspect_ratio: 0 },
            DigitalFile { show: 8, aspect_ratio: 1 },
        ],
    };
    let r = scissors::resolve(&snapshot, &config()).ok().unwrap();
    assert_eq!(r.summary.show, 7);
    assert_eq!(r.digital_file.show, 7);
    assert!(!r.is_narrow_aspect);
}
