//! Choosing the live input and the playout output at startup: a pure
//! decision over the configuration and the result of probing the capture
//! hardware, fixed once before the supervisor loop starts.

use vstd::prelude::*;
use crate::scene::{Data, SettingV, SettingValueV, Source};

verus! {

/// The engine answered a lookup with nothing where a value was owed.
#[derive(Clone, Copy, PartialEq, Eq, Structural, Debug)]
pub struct NullError;

/// One entry of an enumerable device property: a display name and the
/// device hash behind it.
pub struct PropertyItem {
    pub name: String,
    pub value: String,
}

/// An enumerable property of a probed source — here, the capture card's
/// `device_hash` list.
pub struct Property {
    pub items: Vec<PropertyItem>,
}

impl Property {
    /// How many entries the property lists.
    pub fn list_item_count(&self) -> (n: usize)
        ensures
            n == self.items@.len(),
    {
        self.items.len()
    }

    /// The display name of entry `index`.
    pub fn list_item_name(&self, index: usize) -> (r: Result<&String, NullError>)
        ensures
            match r {
                Ok(name) => index < self.items@.len() && name@ == self.items@[index as int].name@,
                Err(NullError) => index >= self.items@.len(),
            },
    {
        if index < self.items.len() {
            Ok(&self.items[index].name)
        } else {
            Err(NullError)
        }
    }

    /// The device hash of entry `index`.
    pub fn list_item_string(&self, index: usize) -> (r: Result<&String, NullError>)
        ensures
            match r {
                Ok(value) => index < self.items@.len() && value@ == self.items@[index as int].value@,
                Err(NullError) => index >= self.items@.len(),
            },
    {
        if index < self.items.len() {
            Ok(&self.items[index].value)
        } else {
            Err(NullError)
        }
    }
}

/// One named, enumerable property in a probe's answer.
pub struct NamedProperty {
    pub name: String,
    pub property: Property,
}

/// Everything a source probe answers with: the named properties of the
/// probed source, in the engine's order.
pub struct Properties {
    pub entries: Vec<NamedProperty>,
}

/// The first property named `key`, in probe order.
pub open spec fn first_property(entries: Seq<NamedProperty>, key: Seq<char>) -> Option<
    NamedProperty,
>
    decreases entries.len(),
{
    if entries.len() == 0 {
        None
    } else if entries[0].name@ == key {
        Some(entries[0])
    } else {
        first_property(entries.drop_first(), key)
    }
}

proof fn lemma_first_property_found(entries: Seq<NamedProperty>, key: Seq<char>, i: int)
    requires
        0 <= i < entries.len(),
        entries[i].name@ == key,
        forall|j: int| 0 <= j < i ==> (#[trigger] entries[j]).name@ != key,
    ensures
        first_property(entries, key) == Some(entries[i]),
    decreases i,
{
    if i > 0 {
        lemma_first_property_found(entries.drop_first(), key, i - 1);
    }
}

proof fn lemma_no_property(entries: Seq<NamedProperty>, key: Seq<char>)
    requires
        forall|j: int| 0 <= j < entries.len() ==> (#[trigger] entries[j]).name@ != key,
    ensures
        first_property(entries, key) is None,
    decreases entries.len(),
{
    if entries.len() > 0 {
        lemma_no_property(entries.drop_first(), key);
    }
}

impl Properties {
    /// Look a property up by name; the engine answers nothing when the
    /// probed source has no such property.
    pub fn get(&self, key: &str) -> (r: Result<&Property, NullError>)
        ensures
            match r {
                Ok(p) => first_property(self.entries@, key@) matches Some(e) && e.property == *p,
                Err(NullError) => first_property(self.entries@, key@) is None,
            },
    {
        let wanted: String = key.to_owned();
        let mut i: usize = 0;
        while i < self.entries.len()
            invariant
                0 <= i <= self.entries@.len(),
                wanted@ == key@,
                forall|j: int| 0 <= j < i ==> (#[trigger] self.entries@[j]).name@ != key@,
            decreases self.entries@.len() - i,
        {
            if self.entries[i].name == wanted {
                proof {
                    lemma_first_property_found(self.entries@, key@, i as int);
                }
                return Ok(&self.entries[i].property);
            }
            i = i + 1;
        }
        proof {
            lemma_no_property(self.entries@, key@);
        }
        Err(NullError)
    }
}

/// Where the live feed comes from: a capture device, or the static
/// stand-in frame when no usable device exists.
pub enum InputSource {
    Hardware { device_hash: String },
    StaticImage { path: String },
}

/// The file shown when no capture device is usable.
pub fn static_image_path() -> (s: &'static str)
    ensures
        s@ == "../../../1080img.jpg"@,
{
    "../../../1080img.jpg"
}

/// Choose the live input. A probe that enumerates a single device hash is
/// the engine's placeholder, so the static image stands in; none at all is
/// an engine fault. Otherwise the configured override wins, else the probe's
/// second entry (the first real device).
pub fn select_input(probe: Option<&Property>, override_input: &Option<String>) -> (r: Result<
    InputSource,
    NullError,
>)
    ensures
        match r {
            Ok(InputSource::StaticImage { path }) => path@ == "../../../1080img.jpg"@ && (
            probe is None || (probe matches Some(p) && p.items@.len() == 1)),
            Ok(InputSource::Hardware { device_hash }) => probe matches Some(p) && p.items@.len()
                >= 2 && (match override_input {
                Some(o) => device_hash@ == o@,
                None => device_hash@ == p.items@[1].value@,
            }),
            Err(NullError) => probe matches Some(p) && p.items@.len() == 0,
        },
{
    match probe {
        None => Ok(InputSource::StaticImage { path: static_image_path().to_owned() }),
        Some(p) => {
            let count = p.list_item_count();
            if count == 1 {
                Ok(InputSource::StaticImage { path: static_image_path().to_owned() })
            } else {
                let probed = match p.list_item_string(1) {
                    Ok(v) => v.clone(),
                    Err(e) => {
                        return Err(e);
                    },
                };
                let device_hash = match override_input {
                    Some(o) => o.clone(),
                    None => probed,
                };
                Ok(InputSource::Hardware { device_hash })
            }
        },
    }
}

/// Choose the playout output's device hash. No probe means no output is
/// configured; an empty enumeration is an engine fault; otherwise the
/// configured override wins, else the probe's last entry.
pub fn select_output(probe: Option<&Property>, override_output: &Option<String>) -> (r: Result<
    Option<String>,
    NullError,
>)
    ensures
        match r {
            Ok(None) => probe is None,
            Ok(Some(device_hash)) => probe matches Some(p) && p.items@.len() >= 1 && (
            match override_output {
                Some(o) => device_hash@ == o@,
                None => device_hash@ == p.items@[p.items@.len() - 1].value@,
            }),
            Err(NullError) => probe matches Some(p) && p.items@.len() == 0,
        },
{
    match probe {
        None => Ok(None),
        Some(p) => {
            let count = p.list_item_count();
            if count == 0 {
                return Err(NullError);
            }
            let probed = match p.list_item_string(count - 1) {
                Ok(v) => v.clone(),
                Err(e) => {
                    return Err(e);
                },
            };
            let device_hash = match override_output {
                Some(o) => o.clone(),
                None => probed,
            };
            Ok(Some(device_hash))
        },
    }
}

/// The settings a capture-device source is configured with: the chosen
/// device, automatic mode detection, and the first audio and video
/// connections.
pub open spec fn hardware_input_settings_spec(device_hash: Seq<char>) -> Seq<SettingV> {
    seq![
        SettingV { key: "device_hash"@, value: SettingValueV::Text(device_hash) },
        SettingV { key: "mode_name"@, value: SettingValueV::Text("Auto"@) },
        SettingV { key: "mode_id"@, value: SettingValueV::Int(-1) },
        SettingV { key: "audio_connection"@, value: SettingValueV::Int(1) },
        SettingV { key: "video_connection"@, value: SettingValueV::Int(1) },
    ]
}

/// The settings the static stand-in image is created with.
pub open spec fn static_image_settings_spec(path: Seq<char>) -> Seq<SettingV> {
    seq![SettingV { key: "file"@, value: SettingValueV::Text(path) }]
}

/// The settings the playout output is configured with: the chosen device
/// and the fixed interlaced broadcast mode.
pub open spec fn playout_output_settings_spec(device_hash: Seq<char>) -> Seq<SettingV> {
    seq![
        SettingV { key: "device_hash"@, value: SettingValueV::Text(device_hash) },
        SettingV { key: "mode_name"@, value: SettingValueV::Text("1080i59.94"@) },
        SettingV { key: "mode_id"@, value: SettingValueV::Int(12) },
    ]
}

/// Build the settings for the playout output bound to `device_hash`.
pub fn playout_output_settings(device_hash: &str) -> (d: Data)
    ensures
        d@ == playout_output_settings_spec(device_hash@),
{
    let mut d = Data::new();
    d.set_string("device_hash", device_hash);
    d.set_string("mode_name", "1080i59.94");
    d.set_int("mode_id", 12);
    proof {
        assert(d@ =~= playout_output_settings_spec(device_hash@));
    }
    d
}

/// Describe the live source for the chosen input: the capture device with
/// its settings, or the static image source.
pub fn input_source_for(selection: &InputSource) -> (s: Source)
    ensures
        match selection {
            InputSource::Hardware { device_hash } => s@.id == "decklink-input"@ && s@.name
                == "video"@ && s@.settings == Some(hardware_input_settings_spec(device_hash@)),
            InputSource::StaticImage { path } => s@.id == "image_source"@ && s@.name == "video"@
                && s@.settings == Some(static_image_settings_spec(path@)),
        },
{
    match selection {
        InputSource::Hardware { device_hash } => {
            let mut d = Data::new();
            d.set_string("device_hash", device_hash.as_str());
            d.set_string("mode_name", "Auto");
            d.set_int("mode_id", -1);
            d.set_int("audio_connection", 1);
            d.set_int("video_connection", 1);
            proof {
                assert(d@ =~= hardware_input_settings_spec(device_hash@));
            }
            Source::new("decklink-input", "video", Some(d))
        },
        InputSource::StaticImage { path } => {
            let mut d = Data::new();
            d.set_string("file", path.as_str());
            proof {
                assert(d@ =~= static_image_settings_spec(path@));
            }
            Source::new("image_source", "video", Some(d))
        },
    }
}

} // verus!
