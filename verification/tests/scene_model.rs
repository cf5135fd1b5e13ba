use scissors::{
    plan_cycle, Data, DigitalFile, Display, EventSummary, Output, PipelineError, PollDecision,
    ResolveError, Scale, Scene, SceneItem, ScheduleSnapshot, SettingValue, Show, Source,
    SwitchConfig,
};

#[test]
fn data_records_entries_in_order() {
    let mut d = Data::new();
    d.set_bool("is_local_file", true);
    d.set_string("local_file", "/tmp/page.html");
    d.set_int("width", 1920);
    assert_eq!(d.entries.len(), 3);
    assert_eq!(d.entries[0].key, "is_local_file");
    assert!(matches!(d.entries[0].value, SettingValue::Flag(true)));
    assert_eq!(d.entries[1].key, "local_file");
    match &d.entries[1].value {
        SettingValue::Text(t) => assert_eq!(t, "/tmp/page.html"),
        _ => panic!("local_file is not text"),
    }
    assert_eq!(d.entries[2].key, "width");
    assert!(matches!(d.entries[2].value, SettingValue::Int(1920)));
}

#[test]
fn data_duplicate_copies_every_entry() {
    let mut d = Data::new();
    d.set_string("device_hash", "hash-a");
    d.set_int("mode_id", -1);
    let c = d.duplicate();
    assert_eq!(c.entries.len(), 2);
    assert_eq!(c.entries[0].key, "device_hash");
    match &c.entries[0].value {
        SettingValue::Text(t) => assert_eq!(t, "hash-a"),
        _ => panic!("device_hash is not text"),
    }
    assert_eq!(c.entries[1].key, "mode_id");
    assert!(matches!(c.entries[1].value, SettingValue::Int(-1)));
}

#[test]
fn source_duplicate_keeps_identity_and_settings() {
    let mut d = Data::new();
    d.set_string("file", "a.jpg");
    let s = Source::new("image_source", "video", Some(d));
    let c = s.duplicate();
    assert_eq!(c.id, "image_source");
    assert_eq!(c.name, "video");
    assert_eq!(c.settings.unwrap().entries.len(), 1);
}

#[test]
fn scene_adds_items_on_top() {
    let mut scene = Scene::new("main scene");
    let a = scene.add(SceneItem::new(Source::new("browser_source", "background", None)));
    let b = scene.add(SceneItem::new(Source::new("decklink-input", "video", None)));
    assert_eq!((a, b), (0, 1));
    assert_eq!(scene.items.len(), 2);
    assert_eq!(scene.items[0].source.name, "background");
    assert_eq!(scene.items[1].source.name, "video");
}

#[test]
fn scene_item_setters_change_only_their_field() {
    let mut item = SceneItem::new(Source::new("decklink-input", "video", None));
    assert_eq!(item.scale, Scale { x_num: 1, x_den: 1, y_num: 1, y_den: 1 });
    assert!(item.visible);
    item.set_scale(Scale { x_num: 960, x_den: 1440, y_num: 540, y_den: 1080 });
    item.set_pos(100, 200);
    item.set_crop(240, 0, 240, 0);
    item.set_visible(false);
    assert_eq!(item.scale, Scale { x_num: 960, x_den: 1440, y_num: 540, y_den: 1080 });
    assert_eq!((item.pos_x, item.pos_y), (100, 200));
    let crop = item.crop.unwrap();
    assert_eq!((crop.left, crop.top, crop.right, crop.bottom), (240, 0, 240, 0));
    assert!(!item.visible);
}

#[test]
fn output_configures_and_starts() {
    let mut o = Output::new("decklink_output", "decklink output", None);
    assert!(!o.started);
    let d = scissors::playout_output_settings("hash-b");
    o.update(d);
    assert!(o.start());
    assert!(o.started);
    assert_eq!(o.settings.unwrap().entries.len(), 3);
}

#[test]
fn display_fits_the_frame_into_the_window() {
    // Exactly 16:9 keeps the full frame.
    assert_eq!(scissors::fit_window(1600, 900), (1920, 1080));
    // A wider window widens the surface at full height.
    assert_eq!(scissors::fit_window(2000, 900), (2400, 1080));
    // A taller window deepens the surface at full width.
    assert_eq!(scissors::fit_window(1000, 1000), (1920, 1920));
    let mut display = Display::new(1920, 1080);
    display.fit_to_window(2000, 900);
    assert_eq!((display.width, display.height), (2400, 1080));
    display.resize(1920, 1080);
    assert_eq!((display.width, display.height), (1920, 1080));
}

#[test]
fn plan_cycle_times_a_resolved_program() {
    let config = SwitchConfig {
        decklink_input: None,
        decklink_output: None,
        location: 2,
        channel: 13,
        output: 3,
        device: 4,
        project: 5,
        username: "user".to_string(),
        password: "pass".to_string(),
    };
    let snapshot = ScheduleSnapshot {
        event_summaries: vec![EventSummary { location: 2, channel: 13, show: 7, start: 1_031, end: 2_000 }],
        shows: vec![Show { id: 7, cg_title: "Show 7".to_string(), project: Some(5), event_date: 0 }],
        digital_files: vec![DigitalFile { show: 7, aspect_ratio: 1 }],
    };
    let resolution = scissors::resolve(&snapshot, &config);
    assert_eq!(plan_cycle(1_000, &resolution).ok().unwrap(), PollDecision::PreRoll { sleep_seconds: 11 });

    let wrong_project = ScheduleSnapshot {
        event_summaries: vec![EventSummary { location: 2, channel: 13, show: 7, start: 1_030, end: 2_000 }],
        shows: vec![Show { id: 7, cg_title: "Show 7".to_string(), project: Some(6), event_date: 0 }],
        digital_files: vec![DigitalFile { show: 7, aspect_ratio: 1 }],
    };
    let resolution = scissors::resolve(&wrong_project, &config);
    assert_eq!(plan_cycle(1_000, &resolution).ok().unwrap(), PollDecision::Blocked { sleep_seconds: 300 });

    let empty = ScheduleSnapshot { event_summaries: vec![], shows: vec![], digital_files: vec![] };
    let resolution = scissors::resolve(&empty, &config);
    assert_eq!(
        plan_cycle(1_000, &resolution).err().unwrap(),
        PipelineError::Resolution(ResolveError::EventSummaryMissing)
    );
}
