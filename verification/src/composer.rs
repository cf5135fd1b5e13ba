//! Scene composition: the fallback scene (live feed only) and the program
//! scene (templated overlay with the live feed placed in the template's
//! video rectangle). The overlay template is an HTML page plus an SVG whose
//! element with id `VIDEO` gives that rectangle.

use vstd::prelude::*;
use crate::scene::{CropBox, Data, Scale, Scene, SceneItem, SettingV, SettingValueV, Source, SourceV, scale_one};
use crate::schedule::Show;

verus! {

/// The rectangle, in template pixels, where the live video sits.
#[derive(Clone, Copy, PartialEq, Eq, Structural, Debug)]
pub struct VideoRect {
    pub x: i64,
    pub y: i64,
    pub width: i64,
    pub height: i64,
}

/// The overlay template as resolved on disk: the path of the substituted
/// HTML page, and the text of the SVG that carries the video rectangle.
pub struct TemplateFiles {
    pub local_path: String,
    pub svg: String,
}

/// What `str::replace` returns for the given text, pattern and replacement.
pub uninterp spec fn replaced(s: Seq<char>, from: Seq<char>, to: Seq<char>) -> Seq<char>;

/// Relies on str::replace: every occurrence of `from` in `s` becomes `to`,
/// and the result is a function of the three strings alone.
#[verifier::external_body]
fn replace_all(s: &str, from: &str, to: &str) -> (r: String)
    ensures
        r@ == replaced(s@, from@, to@),
{
    s.replace(from, to)
}

/// The x, y, width and height attributes of the element with id `VIDEO`
/// in the given SVG text, if the element exists and all four parse as whole
/// numbers.
pub uninterp spec fn svg_video_rect(svg: Seq<char>) -> Option<(i64, i64, i64, i64)>;

/// Relies on scraper's Html::parse_fragment, Selector::parse and
/// ElementRef::attr: parses the SVG text and reads the video element's
/// placement attributes; parsing is a pure function of the markup text.
#[verifier::external_body]
fn find_video_rect(svg: &str) -> (r: Option<(i64, i64, i64, i64)>)
    ensures
        r == svg_video_rect(svg@),
{
    let document = scraper::Html::parse_fragment(svg);
    let selector = scraper::Selector::parse("#VIDEO").ok()?;
    let element = document.select(&selector).next()?;
    let x = element.value().attr("x")?.parse::<i64>().ok()?;
    let y = element.value().attr("y")?.parse::<i64>().ok()?;
    let width = element.value().attr("width")?.parse::<i64>().ok()?;
    let height = element.value().attr("height")?.parse::<i64>().ok()?;
    Some((x, y, width, height))
}

/// Relies on chrono's TimeZone::timestamp_opt for the machine's local zone
/// and DateTime::format with "%B %d, %Y": the long-form date text the
/// overlay displays. The local zone belongs to the machine, so nothing is
/// claimed of the text itself; `None` comes only of a timestamp the local
/// calendar cannot place.
#[verifier::external_body]
fn format_event_date(ts: i64) -> (r: Option<String>)
{
    match chrono::TimeZone::timestamp_opt(&chrono::Local, ts, 0).single() {
        Some(d) => Some(d.format("%B %d, %Y").to_string()),
        None => None,
    }
}

/// The video rectangle the composer uses: the SVG's, or a degenerate empty
/// rectangle at the origin when the SVG names none.
pub open spec fn video_rect_of(svg: Seq<char>) -> VideoRect {
    match svg_video_rect(svg) {
        Some(t) => VideoRect { x: t.0, y: t.1, width: t.2, height: t.3 },
        None => VideoRect { x: 0, y: 0, width: 0, height: 0 },
    }
}

/// Read the video rectangle out of the template's SVG text.
pub fn extract_video_rect(svg: &str) -> (r: VideoRect)
    ensures
        r == video_rect_of(svg@),
{
    match find_video_rect(svg) {
        Some(t) => VideoRect { x: t.0, y: t.1, width: t.2, height: t.3 },
        None => VideoRect { x: 0, y: 0, width: 0, height: 0 },
    }
}

/// The template page with the show's variables substituted: the title for
/// `{{cg_title}}`, then the air-date text for `{{event_date}}`.
pub open spec fn substituted_page(
    html: Seq<char>,
    cg_title: Seq<char>,
    event_date_text: Seq<char>,
) -> Seq<char> {
    replaced(replaced(html, "{{cg_title}}"@, cg_title), "{{event_date}}"@, event_date_text)
}

/// Substitute the show's variables into the template page.
pub fn render_template(html: &str, cg_title: &str, event_date_text: &str) -> (r: String)
    ensures
        r@ == substituted_page(html@, cg_title@, event_date_text@),
{
    let titled = replace_all(html, "{{cg_title}}", cg_title);
    replace_all(titled.as_str(), "{{event_date}}", event_date_text)
}

/// Substitute a show's own title and formatted air date into the template
/// page. `None` only when the local calendar cannot place the air date.
pub fn render_overlay(html: &str, show: &Show) -> (r: Option<String>)
    ensures
        r matches Some(page) ==> exists|date_text: Seq<char>|
            page@ == substituted_page(html@, show.cg_title@, date_text),
{
    match format_event_date(show.event_date) {
        Some(date_text) => {
            let page = render_template(html, show.cg_title.as_str(), date_text.as_str());
            Some(page)
        },
        None => None,
    }
}

/// The directory (and base file name) of the overlay template for each
/// aspect class.
pub fn template_folder(is_narrow: bool) -> (s: &'static str)
    ensures
        is_narrow ==> s@ == "default-4x3"@,
        !is_narrow ==> s@ == "default-16x9"@,
{
    if is_narrow {
        "default-4x3"
    } else {
        "default-16x9"
    }
}

/// The fallback composition: the bare live source, unscaled, at the origin.
pub open spec fn fallback_scene_shape(scene: Scene, live: SourceV) -> bool {
    &&& scene.name@ == "fallback scene"@
    &&& scene.items@.len() == 1
    &&& scene.items@[0].source@ == live
    &&& scene.items@[0].scale == scale_one()
    &&& scene.items@[0].pos_x == 0
    &&& scene.items@[0].pos_y == 0
    &&& scene.items@[0].crop is None
    &&& scene.items@[0].visible
}

/// The settings the overlay's browser source is created with: the local
/// substituted page, rendered at full frame.
pub open spec fn background_settings(path: Seq<char>) -> Seq<SettingV> {
    seq![
        SettingV { key: "is_local_file"@, value: SettingValueV::Flag(true) },
        SettingV { key: "local_file"@, value: SettingValueV::Text(path) },
        SettingV { key: "width"@, value: SettingValueV::Int(1920) },
        SettingV { key: "height"@, value: SettingValueV::Int(1080) },
    ]
}

/// The scale that fits the live source into the template's rectangle:
/// narrow-aspect content is authored 1440 wide once its pillarboxing is
/// cropped away, all other content 1920, and every frame is 1080 tall.
pub open spec fn program_scale(rect: VideoRect, narrow: bool) -> Scale {
    Scale {
        x_num: rect.width,
        x_den: if narrow { 1440 } else { 1920 },
        y_num: rect.height,
        y_den: 1080,
    }
}

/// The program composition: the overlay page full-frame at the back, the
/// live source scaled and positioned into the template's rectangle, with
/// narrow-aspect content symmetrically cropped by 240 pixels to shed its
/// pillarboxing.
pub open spec fn program_scene_shape(
    scene: Scene,
    live: SourceV,
    path: Seq<char>,
    rect: VideoRect,
    narrow: bool,
) -> bool {
    &&& scene.name@ == "main scene"@
    &&& scene.items@.len() == 2
    &&& scene.items@[0].source@.id == "browser_source"@
    &&& scene.items@[0].source@.name == "background"@
    &&& scene.items@[0].source@.settings == Some(background_settings(path))
    &&& scene.items@[0].scale == scale_one()
    &&& scene.items@[0].pos_x == 0
    &&& scene.items@[0].pos_y == 0
    &&& scene.items@[0].crop is None
    &&& scene.items@[1].source@ == live
    &&& scene.items@[1].scale == program_scale(rect, narrow)
    &&& scene.items@[1].pos_x == rect.x
    &&& scene.items@[1].pos_y == rect.y
    &&& scene.items@[1].crop == (if narrow {
        Some(CropBox { left: 240, top: 0, right: 240, bottom: 0 })
    } else {
        None::<CropBox>
    })
}

/// Build the fallback scene for the live source.
pub fn fallback(vi_source: &Source) -> (scene: Scene)
    ensures
        fallback_scene_shape(scene, vi_source@),
{
    let mut scene = Scene::new("fallback scene");
    let item = SceneItem::new(vi_source.duplicate());
    scene.add(item);
    scene
}

/// Two fallback scenes built for the same live source present the same
/// transform: the identity scale at the origin, uncropped. Building the
/// fallback is idempotent.
pub proof fn lemma_fallback_idempotent(a: Scene, b: Scene, live: SourceV)
    requires
        fallback_scene_shape(a, live),
        fallback_scene_shape(b, live),
    ensures
        a.items@[0].source@ == b.items@[0].source@,
        a.items@[0].scale == b.items@[0].scale,
        a.items@[0].scale == scale_one(),
        a.items@[0].pos_x == b.items@[0].pos_x,
        a.items@[0].pos_y == b.items@[0].pos_y,
        a.items@[0].pos_x == 0 && a.items@[0].pos_y == 0,
        a.items@[0].crop == b.items@[0].crop,
{
}

/// Build the program scene: the substituted overlay page at `local_path`
/// behind the live source, placed into `rect`.
pub fn build_program(
    vi_source: &Source,
    local_path: &str,
    rect: &VideoRect,
    is_narrow: bool,
) -> (scene: Scene)
    ensures
        program_scene_shape(scene, vi_source@, local_path@, *rect, is_narrow),
{
    let mut scene = Scene::new("main scene");

    let mut settings = Data::new();
    settings.set_bool("is_local_file", true);
    settings.set_string("local_file", local_path);
    settings.set_int("width", 1920);
    settings.set_int("height", 1080);
    proof {
        assert(settings@ =~= background_settings(local_path@));
    }
    let bg_source = Source::new("browser_source", "background", Some(settings));
    let bg_item = SceneItem::new(bg_source);
    scene.add(bg_item);

    let mut live_item = SceneItem::new(vi_source.duplicate());
    let x_den: i64 = if is_narrow {
        1440
    } else {
        1920
    };
    live_item.set_scale(Scale { x_num: rect.width, x_den, y_num: rect.height, y_den: 1080 });
    live_item.set_pos(rect.x, rect.y);
    if is_narrow {
        live_item.set_crop(240, 0, 240, 0);
    }
    scene.add(live_item);

    scene
}

/// Compose the on-air scene for a live cycle: the program scene when the
/// template could be resolved, the fallback otherwise.
pub fn compose_program_scene(
    vi_source: &Source,
    template: Option<&TemplateFiles>,
    is_narrow: bool,
) -> (scene: Scene)
    ensures
        match template {
            Some(t) => program_scene_shape(
                scene,
                vi_source@,
                t.local_path@,
                video_rect_of(t.svg@),
                is_narrow,
            ),
            None => fallback_scene_shape(scene, vi_source@),
        },
{
    match template {
        Some(t) => {
            let rect = extract_video_rect(t.svg.as_str());
            build_program(vi_source, t.local_path.as_str(), &rect, is_narrow)
        },
        None => fallback(vi_source),
    }
}

/// The aspect boundary: code 1 and only code 1 is the narrow class, and the
/// narrow class and only it crops 240 pixels from either side and scales
/// against a 1440-wide frame; every other code leaves the live item
/// uncropped against the full 1920.
pub proof fn lemma_aspect_boundary(scene: Scene, live: SourceV, path: Seq<char>, rect: VideoRect, aspect_ratio_code: i64)
    requires
        program_scene_shape(scene, live, path, rect, aspect_ratio_code == 1),
    ensures
        aspect_ratio_code == 1 ==> scene.items@[1].crop == Some(
            CropBox { left: 240, top: 0, right: 240, bottom: 0 },
        ) && scene.items@[1].scale.x_den == 1440,
        aspect_ratio_code != 1 ==> scene.items@[1].crop is None && scene.items@[1].scale.x_den
            == 1920,
{
}

} // verus!
