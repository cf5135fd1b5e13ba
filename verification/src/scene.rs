//! A value model of the media engine's composition objects. The engine
//! itself is an outside collaborator; the library builds complete
//! descriptions of scenes — sources with their settings, placed items with
//! scale, position and crop — and the host hands them to the engine.
//!
//! Scales are exact rationals (numerator over denominator), since every
//! scale this controller uses is a ratio of whole pixel sizes.

use vstd::prelude::*;

verus! {

/// One settings value: the engine stores strings, whole numbers and flags.
pub enum SettingValue {
    Text(String),
    Int(i64),
    Flag(bool),
}

/// The mathematical value of a `SettingValue`.
#[verifier::ext_equal]
pub enum SettingValueV {
    Text(Seq<char>),
    Int(int),
    Flag(bool),
}

impl View for SettingValue {
    type V = SettingValueV;

    open spec fn view(&self) -> SettingValueV {
        match self {
            SettingValue::Text(s) => SettingValueV::Text(s@),
            SettingValue::Int(i) => SettingValueV::Int(*i as int),
            SettingValue::Flag(b) => SettingValueV::Flag(*b),
        }
    }
}

/// One keyed settings entry.
pub struct Setting {
    pub key: String,
    pub value: SettingValue,
}

/// The mathematical value of a `Setting`.
#[verifier::ext_equal]
pub struct SettingV {
    pub key: Seq<char>,
    pub value: SettingValueV,
}

impl View for Setting {
    type V = SettingV;

    open spec fn view(&self) -> SettingV {
        SettingV { key: self.key@, value: self.value@ }
    }
}

/// An ordered settings collection, as handed to the engine when a source is
/// created. Later entries for a key take effect over earlier ones, so a
/// plain ordered list models it.
pub struct Data {
    pub entries: Vec<Setting>,
}

impl View for Data {
    type V = Seq<SettingV>;

    open spec fn view(&self) -> Seq<SettingV> {
        self.entries@.map_values(|s: Setting| s@)
    }
}

impl Data {
    /// A fresh, empty settings collection.
    pub fn new() -> (d: Data)
        ensures
            d@ == Seq::<SettingV>::empty(),
    {
        let d = Data { entries: Vec::new() };
        proof {
            assert(d@ =~= Seq::<SettingV>::empty());
        }
        d
    }

    /// Append a string-valued entry.
    pub fn set_string(&mut self, key: &str, value: &str)
        ensures
            final(self)@ == old(self)@.push(
                SettingV { key: key@, value: SettingValueV::Text(value@) },
            ),
    {
        self.entries.push(Setting { key: key.to_owned(), value: SettingValue::Text(value.to_owned()) });
        proof {
            assert(self@ =~= old(self)@.push(
                SettingV { key: key@, value: SettingValueV::Text(value@) },
            ));
        }
    }

    /// Append a whole-number entry.
    pub fn set_int(&mut self, key: &str, value: i64)
        ensures
            final(self)@ == old(self)@.push(
                SettingV { key: key@, value: SettingValueV::Int(value as int) },
            ),
    {
        self.entries.push(Setting { key: key.to_owned(), value: SettingValue::Int(value) });
        proof {
            assert(self@ =~= old(self)@.push(
                SettingV { key: key@, value: SettingValueV::Int(value as int) },
            ));
        }
    }

    /// Append a flag entry.
    pub fn set_bool(&mut self, key: &str, value: bool)
        ensures
            final(self)@ == old(self)@.push(
                SettingV { key: key@, value: SettingValueV::Flag(value) },
            ),
    {
        self.entries.push(Setting { key: key.to_owned(), value: SettingValue::Flag(value) });
        proof {
            assert(self@ =~= old(self)@.push(
                SettingV { key: key@, value: SettingValueV::Flag(value) },
            ));
        }
    }

    /// An equal, independently owned copy.
    pub fn duplicate(&self) -> (d: Data)
        ensures
            d@ == self@,
    {
        let mut entries: Vec<Setting> = Vec::new();
        let mut i: usize = 0;
        while i < self.entries.len()
            invariant
                0 <= i <= self.entries@.len(),
                entries@.len() == i,
                forall|j: int| 0 <= j < i ==> entries@[j]@ == self.entries@[j]@,
            decreases self.entries@.len() - i,
        {
            let s = &self.entries[i];
            let value = match &s.value {
                SettingValue::Text(t) => SettingValue::Text(t.clone()),
                SettingValue::Int(n) => SettingValue::Int(*n),
                SettingValue::Flag(b) => SettingValue::Flag(*b),
            };
            entries.push(Setting { key: s.key.clone(), value });
            i = i + 1;
        }
        let d = Data { entries };
        proof {
            assert(d@ =~= self@);
        }
        d
    }
}

/// A source the engine can show: a live input, a static image, or a browser
/// page rendering the overlay template.
pub struct Source {
    pub id: String,
    pub name: String,
    pub settings: Option<Data>,
}

/// The mathematical value of a `Source`.
#[verifier::ext_equal]
pub struct SourceV {
    pub id: Seq<char>,
    pub name: Seq<char>,
    pub settings: Option<Seq<SettingV>>,
}

impl View for Source {
    type V = SourceV;

    open spec fn view(&self) -> SourceV {
        SourceV {
            id: self.id@,
            name: self.name@,
            settings: match &self.settings {
                Some(d) => Some(d@),
                None => None,
            },
        }
    }
}

impl Source {
    /// Describe a source of kind `id`, named `name`, with its creation
    /// settings.
    pub fn new(id: &str, name: &str, settings: Option<Data>) -> (s: Source)
        ensures
            s@.id == id@,
            s@.name == name@,
            s@.settings == match settings {
                Some(d) => Some(d@),
                None => None::<Seq<SettingV>>,
            },
    {
        Source { id: id.to_owned(), name: name.to_owned(), settings }
    }

    /// An equal, independently owned copy.
    pub fn duplicate(&self) -> (s: Source)
        ensures
            s@ == self@,
    {
        let settings = match &self.settings {
            Some(d) => Some(d.duplicate()),
            None => None,
        };
        let s = Source { id: self.id.clone(), name: self.name.clone(), settings };
        proof {
            assert(s@ =~= self@);
        }
        s
    }
}

/// An exact scale factor for each axis: `x_num / x_den` horizontally,
/// `y_num / y_den` vertically.
#[derive(Clone, Copy, PartialEq, Eq, Structural, Debug)]
pub struct Scale {
    pub x_num: i64,
    pub x_den: i64,
    pub y_num: i64,
    pub y_den: i64,
}

/// The identity scale, one to one on both axes.
pub open spec fn scale_one() -> Scale {
    Scale { x_num: 1, x_den: 1, y_num: 1, y_den: 1 }
}

/// A symmetric pixel crop applied to an item before scaling.
#[derive(Clone, Copy, PartialEq, Eq, Structural, Debug)]
pub struct CropBox {
    pub left: i64,
    pub top: i64,
    pub right: i64,
    pub bottom: i64,
}

/// One source placed in a scene, with its transform.
pub struct SceneItem {
    pub source: Source,
    pub scale: Scale,
    pub pos_x: i64,
    pub pos_y: i64,
    pub crop: Option<CropBox>,
    pub visible: bool,
}

impl SceneItem {
    /// A freshly added item: unscaled, at the origin, uncropped, visible.
    pub fn new(source: Source) -> (item: SceneItem)
        ensures
            item.source == source,
            item.scale == scale_one(),
            item.pos_x == 0,
            item.pos_y == 0,
            item.crop is None,
            item.visible,
    {
        SceneItem {
            source,
            scale: Scale { x_num: 1, x_den: 1, y_num: 1, y_den: 1 },
            pos_x: 0,
            pos_y: 0,
            crop: None,
            visible: true,
        }
    }

    /// Set the item's scale.
    pub fn set_scale(&mut self, scale: Scale)
        ensures
            final(self).scale == scale,
            final(self).source == old(self).source,
            final(self).pos_x == old(self).pos_x,
            final(self).pos_y == old(self).pos_y,
            final(self).crop == old(self).crop,
            final(self).visible == old(self).visible,
    {
        self.scale = scale;
    }

    /// Move the item.
    pub fn set_pos(&mut self, x: i64, y: i64)
        ensures
            final(self).pos_x == x,
            final(self).pos_y == y,
            final(self).source == old(self).source,
            final(self).scale == old(self).scale,
            final(self).crop == old(self).crop,
            final(self).visible == old(self).visible,
    {
        self.pos_x = x;
        self.pos_y = y;
    }

    /// Crop the item's edges.
    pub fn set_crop(&mut self, left: i64, top: i64, right: i64, bottom: i64)
        ensures
            final(self).crop == Some(CropBox { left, top, right, bottom }),
            final(self).source == old(self).source,
            final(self).scale == old(self).scale,
            final(self).pos_x == old(self).pos_x,
            final(self).pos_y == old(self).pos_y,
            final(self).visible == old(self).visible,
    {
        self.crop = Some(CropBox { left, top, right, bottom });
    }

    /// Show or hide the item.
    pub fn set_visible(&mut self, visible: bool)
        ensures
            final(self).visible == visible,
            final(self).source == old(self).source,
            final(self).scale == old(self).scale,
            final(self).pos_x == old(self).pos_x,
            final(self).pos_y == old(self).pos_y,
            final(self).crop == old(self).crop,
    {
        self.visible = visible;
    }
}

/// A complete composition: an ordered list of placed items under one name.
/// The composer always builds a scene fully before the host binds it to the
/// output, so a swap is atomic from the engine's point of view.
pub struct Scene {
    pub name: String,
    pub items: Vec<SceneItem>,
}

impl Scene {
    /// A fresh, empty scene.
    pub fn new(name: &str) -> (scene: Scene)
        ensures
            scene.name@ == name@,
            scene.items@ == Seq::<SceneItem>::empty(),
    {
        Scene { name: name.to_owned(), items: Vec::new() }
    }

    /// Add an item on top of the existing ones; returns its index.
    pub fn add(&mut self, item: SceneItem) -> (idx: usize)
        ensures
            final(self).items@ == old(self).items@.push(item),
            final(self).name == old(self).name,
            idx == old(self).items@.len(),
    {
        let idx = self.items.len();
        self.items.push(item);
        idx
    }
}

/// A hardware output of the engine (the playout card), configured once at
/// startup and then started.
pub struct Output {
    pub id: String,
    pub name: String,
    pub settings: Option<Data>,
    pub started: bool,
}

impl Output {
    /// Describe an output of kind `id`, named `name`, not yet started.
    pub fn new(id: &str, name: &str, settings: Option<Data>) -> (o: Output)
        ensures
            o.id@ == id@,
            o.name@ == name@,
            o.settings == settings,
            !o.started,
    {
        Output { id: id.to_owned(), name: name.to_owned(), settings, started: false }
    }

    /// Replace the output's settings (the device routing and video mode).
    pub fn update(&mut self, settings: Data)
        ensures
            final(self).settings == Some(settings),
            final(self).id == old(self).id,
            final(self).name == old(self).name,
            final(self).started == old(self).started,
    {
        self.settings = Some(settings);
    }

    /// Mark the output running.
    pub fn start(&mut self) -> (r: bool)
        ensures
            final(self).started,
            r,
            final(self).id == old(self).id,
            final(self).name == old(self).name,
            final(self).settings == old(self).settings,
    {
        self.started = true;
        true
    }
}

} // verus!
