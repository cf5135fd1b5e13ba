use scissors::{
    build_program, compose_program_scene, extract_video_rect, fallback, render_template,
    template_folder, Scale, SettingValue, Show, Source, TemplateFiles, VideoRect,
};

fn live_source() -> Source {
    Source::new("decklink-input", "video", None)
}

#[test]
fn fallback_scene_holds_the_bare_live_source() {
    let live = live_source();
    let scene = fallback(&live);
    assert_eq!(scene.name, "fallback scene");
    assert_eq!(scene.items.len(), 1);
    let item = &scene.items[0];
    assert_eq!(item.source.id, "decklink-input");
    assert_eq!(item.source.name, "video");
    assert_eq!(item.scale, Scale { x_num: 1, x_den: 1, y_num: 1, y_den: 1 });
    assert_eq!(item.pos_x, 0);
    assert_eq!(item.pos_y, 0);
    assert!(item.crop.is_none());
    assert!(item.visible);
}

#[test]
fn fallback_is_idempotent() {
    // Two fallback scenes built for the same live source present identical
    // transforms.
    let live = live_source();
    let a = fallback(&live);
    let b = fallback(&live);
    assert_eq!(a.items[0].scale, b.items[0].scale);
    assert_eq!((a.items[0].pos_x, a.items[0].pos_y), (b.items[0].pos_x, b.items[0].pos_y));
    assert_eq!(a.items[0].scale, Scale { x_num: 1, x_den: 1, y_num: 1, y_den: 1 });
    assert_eq!((a.items[0].pos_x, a.items[0].pos_y), (0, 0));
    assert_eq!(a.items[0].crop, b.items[0].crop);
    assert!(a.items[0].crop.is_none());
}

fn assert_background(scene: &scissors::Scene, path: &str) {
    let bg = &scene.items[0];
    assert_eq!(bg.source.id, "browser_source");
    assert_eq!(bg.source.name, "background");
    let settings = bg.source.settings.as_ref().unwrap();
    assert_eq!(settings.entries.len(), 4);
    assert_eq!(settings.entries[0].key, "is_local_file");
    assert!(matches!(settings.entries[0].value, SettingValue::Flag(true)));
    assert_eq!(settings.entries[1].key, "local_file");
    match &settings.entries[1].value {
        SettingValue::Text(t) => assert_eq!(t, path),
        _ => panic!("local_file is not text"),
    }
    assert_eq!(settings.entries[2].key, "width");
    assert!(matches!(settings.entries[2].value, SettingValue::Int(1920)));
    assert_eq!(settings.entries[3].key, "height");
    assert!(matches!(settings.entries[3].value, SettingValue::Int(1080)));
    assert_eq!(bg.scale, Scale { x_num: 1, x_den: 1, y_num: 1, y_den: 1 });
    assert_eq!((bg.pos_x, bg.pos_y), (0, 0));
    assert!(bg.crop.is_none());
}

#[test]
fn program_scene_narrow_crops_and_scales_against_1440() {
    let live = live_source();
    let rect = VideoRect { x: 100, y: 200, width: 960, height: 540 };
    let scene = build_program(&live, "/tmp/template.html", &rect, true);
    assert_eq!(scene.name, "main scene");
    assert_eq!(scene.items.len(), 2);
    assert_background(&scene, "/tmp/template.html");
    let item = &scene.items[1];
    assert_eq!(item.source.id, "decklink-input");
    assert_eq!(item.scale, Scale { x_num: 960, x_den: 1440, y_num: 540, y_den: 1080 });
    assert_eq!((item.pos_x, item.pos_y), (100, 200));
    let crop = item.crop.unwrap();
    assert_eq!((crop.left, crop.top, crop.right, crop.bottom), (240, 0, 240, 0));
}

#[test]
fn program_scene_wide_is_uncropped_against_1920() {
    let live = live_source();
    let rect = VideoRect { x: 0, y: 0, width: 1920, height: 1080 };
    let scene = build_program(&live, "/tmp/template.html", &rect, false);
    let item = &scene.items[1];
    assert_eq!(item.scale, Scale { x_num: 1920, x_den: 1920, y_num: 1080, y_den: 1080 });
    assert!(item.crop.is_none());
}

#[test]
fn extract_video_rect_reads_the_video_element() {
    let svg = "<svg><rect id=\"VIDEO\" x=\"10\" y=\"20\" width=\"960\" height=\"540\"/></svg>";
    let rect = extract_video_rect(svg);
    assert_eq!(rect, VideoRect { x: 10, y: 20, width: 960, height: 540 });
}

#[test]
fn extract_video_rect_defaults_to_zero_without_the_element() {
    let svg = "<svg><rect id=\"OTHER\" x=\"10\" y=\"20\" width=\"960\" height=\"540\"/></svg>";
    let rect = extract_video_rect(svg);
    assert_eq!(rect, VideoRect { x: 0, y: 0, width: 0, height: 0 });
}

#[test]
fn render_template_substitutes_both_variables() {
    let page = render_template(
        "<h1>{{cg_title}}</h1><p>{{event_date}}</p>",
        "Evening News",
        "June 15, 2025",
    );
    assert_eq!(page, "<h1>Evening News</h1><p>June 15, 2025</p>");
}

#[test]
fn render_overlay_substitutes_title_and_date() {
    let show = Show {
        id: 7,
        cg_title: "Evening News".to_string(),
        project: Some(5),
        event_date: 1_750_000_000,
    };
    let page = scissors::render_overlay("<h1>{{cg_title}}</h1><p>{{event_date}}</p>", &show)
        .unwrap();
    assert!(page.contains("Evening News"));
    // 1_750_000_000 falls in mid-June 2025, so the formatted date names the
    // year in every zone.
    assert!(page.contains("2025"));
    assert!(!page.contains("{{cg_title}}"));
    assert!(!page.contains("{{event_date}}"));
}

#[test]
fn template_folder_names_the_aspect_class() {
    assert_eq!(template_folder(true), "default-4x3");
    assert_eq!(template_folder(false), "default-16x9");
}

#[test]
fn compose_program_scene_falls_back_without_a_template() {
    let live = live_source();
    let scene = compose_program_scene(&live, None, true);
    assert_eq!(scene.name, "fallback scene");
    assert_eq!(scene.items.len(), 1);
}

#[test]
fn compose_program_scene_builds_the_overlay_with_a_template() {
    let live = live_source();
    let template = TemplateFiles {
        local_path: "/tmp/out/template.html".to_string(),
        svg: "<svg><rect id=\"VIDEO\" x=\"5\" y=\"6\" width=\"1280\" height=\"720\"/></svg>"
            .to_string(),
    };
    let scene = compose_program_scene(&live, Some(&template), false);
    assert_eq!(scene.name, "main scene");
    assert_eq!(scene.items.len(), 2);
    assert_background(&scene, "/tmp/out/template.html");
    let item = &scene.items[1];
    assert_eq!(item.scale, Scale { x_num: 1280, x_den: 1920, y_num: 720, y_den: 1080 });
    assert_eq!((item.pos_x, item.pos_y), (5, 6));
}
