//! What a device is made of: its capabilities, the descriptor that it
//! announced, and its state. Each of the three has a patch, a second type
//! with every field optional, and a merge that lays a patch over it.

use crate::color::{ColorType, Rgb, WhiteStaticType, WhiteTunableType, WhiteType, WhiteVariableType};
use crate::intensity::{ColorTempSpace, Intensity};
use crate::overlay::{overlay, spec_overlay, spec_overlay_opt};
use crate::scene::Scenes;
use http::Uri;
use macaddr::MacAddr6;
use uuid::Uuid;
use vstd::prelude::*;

verus! {

/// The kinds of device.
#[derive(Debug, Clone, Copy, PartialEq, Eq, Structural)]
pub enum DeviceType {
    BulbTW,
    BulbDW,
    BulbRGB,
    Socket,
}

impl DeviceType {
    /// A device of this kind cannot be without a range of colour
    /// temperatures.
    pub open spec fn spec_needs_color_temp(&self) -> bool {
        *self == DeviceType::BulbRGB || *self == DeviceType::BulbTW
    }

    /// Whether a device of this kind cannot be without a range of colour
    /// temperatures.
    pub fn needs_color_temp(&self) -> (r: bool)
        ensures
            r == self.spec_needs_color_temp(),
    {
        match self {
            DeviceType::BulbRGB | DeviceType::BulbTW => true,
            DeviceType::BulbDW | DeviceType::Socket => false,
        }
    }
}

/// The words that tell the kind of a device in its module name.
#[derive(Debug, Clone, Copy)]
pub struct DeviceOptions {
    pub rgb: &'static str,
    pub dimmable_white: &'static str,
    pub tunable_white: &'static str,
    pub dual_head: &'static str,
    pub single_head: &'static str,
    pub socket: &'static str,
}

impl DeviceOptions {
    /// The words in use.
    pub open spec fn spec_standard() -> DeviceOptions {
        DeviceOptions {
            rgb: "RGB",
            dimmable_white: "DW",
            tunable_white: "TW",
            dual_head: "DH",
            single_head: "SH",
            socket: "SOCKET",
        }
    }

    /// The words in use.
    pub fn standard() -> (r: Self)
        ensures
            r == Self::spec_standard(),
    {
        DeviceOptions {
            rgb: "RGB",
            dimmable_white: "DW",
            tunable_white: "TW",
            dual_head: "DH",
            single_head: "SH",
            socket: "SOCKET",
        }
    }
}

/// The kinds of device that a type index can name, in the order of the
/// index.
pub open spec fn spec_known_type_ids() -> Seq<DeviceType> {
    seq![DeviceType::BulbDW]
}

/// The kind of device that a type index names, if it names one.
pub fn known_type(index: usize) -> (r: Option<DeviceType>)
    ensures
        r == if index < spec_known_type_ids().len() {
            Some(spec_known_type_ids()[index as int])
        } else {
            None
        },
{
    if index == 0 {
        Some(DeviceType::BulbDW)
    } else {
        None
    }
}

/// Whether a device answers, as far as is known.
#[derive(Debug, Clone, Copy, PartialEq, Eq, Structural)]
pub enum DeviceState {
    Enabled,
    Disabled,
    Unknown,
}

/// What a device can do.
#[derive(Debug, Clone, Copy, PartialEq, Eq, Structural)]
pub struct DeviceFeatures {
    pub hue: bool,
    pub color_temp: bool,
    pub effects: bool,
    pub dimming: bool,
    pub dual_head: bool,
}

/// A patch for [`DeviceFeatures`].
#[derive(Debug, Clone, Copy, PartialEq, Eq, Structural)]
pub struct OptionalDeviceFeatures {
    pub hue: Option<bool>,
    pub color_temp: Option<bool>,
    pub effects: Option<bool>,
    pub dimming: Option<bool>,
    pub dual_head: Option<bool>,
}

impl OptionalDeviceFeatures {
    /// The patch that changes nothing.
    pub open spec fn spec_empty() -> OptionalDeviceFeatures {
        OptionalDeviceFeatures {
            hue: None,
            color_temp: None,
            effects: None,
            dimming: None,
            dual_head: None,
        }
    }

    /// The patch that changes nothing.
    pub fn empty() -> (r: Self)
        ensures
            r == Self::spec_empty(),
    {
        OptionalDeviceFeatures {
            hue: None,
            color_temp: None,
            effects: None,
            dimming: None,
            dual_head: None,
        }
    }
}

impl DeviceFeatures {
    /// What a device of the given kind can do when nothing else is known.
    pub open spec fn spec_default_for(device_type: DeviceType) -> DeviceFeatures {
        match device_type {
            DeviceType::BulbTW => DeviceFeatures {
                hue: false,
                color_temp: true,
                effects: true,
                dimming: true,
                dual_head: false,
            },
            DeviceType::BulbDW => DeviceFeatures {
                hue: false,
                color_temp: false,
                effects: false,
                dimming: true,
                dual_head: false,
            },
            DeviceType::BulbRGB => DeviceFeatures {
                hue: true,
                color_temp: true,
                effects: true,
                dimming: true,
                dual_head: false,
            },
            DeviceType::Socket => DeviceFeatures {
                hue: false,
                color_temp: false,
                effects: false,
                dimming: false,
                dual_head: false,
            },
        }
    }

    /// The capabilities with the fields of `patch` laid over them.
    pub open spec fn spec_merged(&self, patch: OptionalDeviceFeatures) -> DeviceFeatures {
        DeviceFeatures {
            hue: spec_overlay(self.hue, patch.hue),
            color_temp: spec_overlay(self.color_temp, patch.color_temp),
            effects: spec_overlay(self.effects, patch.effects),
            dimming: spec_overlay(self.dimming, patch.dimming),
            dual_head: spec_overlay(self.dual_head, patch.dual_head),
        }
    }

    /// What a device of the given kind can do when nothing else is known.
    pub fn default_for(device_type: DeviceType) -> (r: Self)
        ensures
            r == Self::spec_default_for(device_type),
    {
        match device_type {
            DeviceType::BulbTW => DeviceFeatures {
                hue: false,
                color_temp: true,
                effects: true,
                dimming: true,
                dual_head: false,
            },
            DeviceType::BulbDW => DeviceFeatures {
                hue: false,
                color_temp: false,
                effects: false,
                dimming: true,
                dual_head: false,
            },
            DeviceType::BulbRGB => DeviceFeatures {
                hue: true,
                color_temp: true,
                effects: true,
                dimming: true,
                dual_head: false,
            },
            DeviceType::Socket => DeviceFeatures {
                hue: false,
                color_temp: false,
                effects: false,
                dimming: false,
                dual_head: false,
            },
        }
    }

    /// Lays the fields of `patch` over these capabilities.
    pub fn apply_options(&mut self, patch: OptionalDeviceFeatures)
        ensures
            *final(self) == old(self).spec_merged(patch),
    {
        self.hue = overlay(self.hue, patch.hue);
        self.color_temp = overlay(self.color_temp, patch.color_temp);
        self.effects = overlay(self.effects, patch.effects);
        self.dimming = overlay(self.dimming, patch.dimming);
        self.dual_head = overlay(self.dual_head, patch.dual_head);
    }
}

/// A copy of a text that may be absent.
fn copy_of_text(text: &Option<String>) -> (copy: Option<String>)
    ensures
        copy == *text,
{
    match text {
        Some(t) => Some(t.clone()),
        None => None,
    }
}

/// What a device announced of itself. It is read once, to tell the kind of
/// the device, and its fields are taken as they come.
#[derive(Debug)]
pub struct DeviceDescriptor {
    pub module_name: Option<String>,
    pub color_temp: Option<ColorTempSpace>,
    pub firmware_version: Option<String>,
    pub white_channels: Option<u16>,
    pub white_to_color_ratio: Option<u16>,
    pub type_id_index: Option<usize>,
}

/// A patch for a [`DeviceDescriptor`].
#[derive(Debug)]
pub struct OptionalDeviceDescriptor {
    pub module_name: Option<String>,
    pub color_temp: Option<ColorTempSpace>,
    pub firmware_version: Option<String>,
    pub white_channels: Option<u16>,
    pub white_to_color_ratio: Option<u16>,
    pub type_id_index: Option<usize>,
}

impl Clone for DeviceDescriptor {
    fn clone(&self) -> (copy: Self)
        ensures
            copy == *self,
    {
        DeviceDescriptor {
            module_name: copy_of_text(&self.module_name),
            color_temp: self.color_temp,
            firmware_version: copy_of_text(&self.firmware_version),
            white_channels: self.white_channels,
            white_to_color_ratio: self.white_to_color_ratio,
            type_id_index: self.type_id_index,
        }
    }
}

impl Clone for OptionalDeviceDescriptor {
    fn clone(&self) -> (copy: Self)
        ensures
            copy == *self,
    {
        OptionalDeviceDescriptor {
            module_name: copy_of_text(&self.module_name),
            color_temp: self.color_temp,
            firmware_version: copy_of_text(&self.firmware_version),
            white_channels: self.white_channels,
            white_to_color_ratio: self.white_to_color_ratio,
            type_id_index: self.type_id_index,
        }
    }
}

impl OptionalDeviceDescriptor {
    /// The patch that changes nothing.
    pub open spec fn spec_empty() -> OptionalDeviceDescriptor {
        OptionalDeviceDescriptor {
            module_name: None,
            color_temp: None,
            firmware_version: None,
            white_channels: None,
            white_to_color_ratio: None,
            type_id_index: None,
        }
    }

    /// The patch that changes nothing.
    pub fn empty() -> (r: Self)
        ensures
            r == Self::spec_empty(),
    {
        OptionalDeviceDescriptor {
            module_name: None,
            color_temp: None,
            firmware_version: None,
            white_channels: None,
            white_to_color_ratio: None,
            type_id_index: None,
        }
    }
}

impl DeviceDescriptor {
    /// The descriptor that says nothing.
    pub open spec fn spec_empty() -> DeviceDescriptor {
        DeviceDescriptor {
            module_name: None,
            color_temp: None,
            firmware_version: None,
            white_channels: None,
            white_to_color_ratio: None,
            type_id_index: None,
        }
    }

    /// The descriptor with the fields of `patch` laid over it.
    pub open spec fn spec_merged(&self, patch: OptionalDeviceDescriptor) -> DeviceDescriptor {
        DeviceDescriptor {
            module_name: spec_overlay_opt(self.module_name, patch.module_name),
            color_temp: spec_overlay_opt(self.color_temp, patch.color_temp),
            firmware_version: spec_overlay_opt(self.firmware_version, patch.firmware_version),
            white_channels: spec_overlay_opt(self.white_channels, patch.white_channels),
            white_to_color_ratio: spec_overlay_opt(
                self.white_to_color_ratio,
                patch.white_to_color_ratio,
            ),
            type_id_index: spec_overlay_opt(self.type_id_index, patch.type_id_index),
        }
    }

    /// The descriptor that says nothing.
    pub fn empty() -> (r: Self)
        ensures
            r == Self::spec_empty(),
    {
        DeviceDescriptor {
            module_name: None,
            color_temp: None,
            firmware_version: None,
            white_channels: None,
            white_to_color_ratio: None,
            type_id_index: None,
        }
    }

    /// Lays the fields of `patch` over this descriptor. A field that the
    /// patch lacks stays as it was.
    pub fn apply_options(&mut self, patch: OptionalDeviceDescriptor)
        ensures
            *final(self) == old(self).spec_merged(patch),
    {
        if patch.module_name.is_some() {
            self.module_name = patch.module_name;
        }
        if patch.color_temp.is_some() {
            self.color_temp = patch.color_temp;
        }
        if patch.firmware_version.is_some() {
            self.firmware_version = patch.firmware_version;
        }
        if patch.white_channels.is_some() {
            self.white_channels = patch.white_channels;
        }
        if patch.white_to_color_ratio.is_some() {
            self.white_to_color_ratio = patch.white_to_color_ratio;
        }
        if patch.type_id_index.is_some() {
            self.type_id_index = patch.type_id_index;
        }
    }
}

/// The state and identity of a device.
#[derive(Debug)]
pub struct DeviceConfig {
    pub address: Option<Uri>,
    pub mac: Option<MacAddr6>,
    pub name: Option<String>,
    pub id: Option<Uuid>,
    pub state: DeviceState,
    pub speed: Option<u32>,
    pub scene: Option<Scenes>,
    pub total_intensity: Option<Intensity>,
    pub color_data: Option<ColorType>,
}

/// A patch for a [`DeviceConfig`].
#[derive(Debug)]
pub struct OptionalDeviceConfig {
    pub address: Option<Uri>,
    pub mac: Option<MacAddr6>,
    pub name: Option<String>,
    pub id: Option<Uuid>,
    pub state: Option<DeviceState>,
    pub speed: Option<u32>,
    pub scene: Option<Scenes>,
    pub total_intensity: Option<Intensity>,
    pub color_data: Option<ColorType>,
}

/// A copy of an address that may be absent.
fn copy_of_address(address: &Option<Uri>) -> (copy: Option<Uri>)
    ensures
        copy == *address,
{
    match address {
        Some(a) => Some(a.clone()),
        None => None,
    }
}

impl Clone for DeviceConfig {
    fn clone(&self) -> (copy: Self)
        ensures
            copy == *self,
    {
        DeviceConfig {
            address: copy_of_address(&self.address),
            mac: self.mac,
            name: copy_of_text(&self.name),
            id: self.id,
            state: self.state,
            speed: self.speed,
            scene: self.scene,
            total_intensity: self.total_intensity,
            color_data: self.color_data,
        }
    }
}

impl Clone for OptionalDeviceConfig {
    fn clone(&self) -> (copy: Self)
        ensures
            copy == *self,
    {
        OptionalDeviceConfig {
            address: copy_of_address(&self.address),
            mac: self.mac,
            name: copy_of_text(&self.name),
            id: self.id,
            state: self.state,
            speed: self.speed,
            scene: self.scene,
            total_intensity: self.total_intensity,
            color_data: self.color_data,
        }
    }
}

impl OptionalDeviceConfig {
    /// The patch that changes nothing.
    pub open spec fn spec_empty() -> OptionalDeviceConfig {
        OptionalDeviceConfig {
            address: None,
            mac: None,
            name: None,
            id: None,
            state: None,
            speed: None,
            scene: None,
            total_intensity: None,
            color_data: None,
        }
    }

    /// The patch that changes nothing.
    pub fn empty() -> (r: Self)
        ensures
            r == Self::spec_empty(),
    {
        OptionalDeviceConfig {
            address: None,
            mac: None,
            name: None,
            id: None,
            state: None,
            speed: None,
            scene: None,
            total_intensity: None,
            color_data: None,
        }
    }
}

impl DeviceConfig {
    /// The colour state that a new device of the given kind starts in: dark,
    /// and none for a socket, which has no light.
    pub open spec fn spec_default_color(device_type: DeviceType) -> Option<ColorType> {
        match device_type {
            DeviceType::BulbTW => Some(
                ColorType::White(
                    WhiteType::Tunable(
                        WhiteTunableType::spec_new(
                            ColorTempSpace { min_temp: 1500, max_temp: 8000 },
                        ),
                    ),
                ),
            ),
            DeviceType::BulbDW => Some(
                ColorType::White(
                    WhiteType::Variable(
                        WhiteVariableType {
                            current: WhiteStaticType::Mixed,
                            ratio: 50,
                            intensity: Intensity::spec_from_percent(0),
                        },
                    ),
                ),
            ),
            DeviceType::BulbRGB => Some(
                ColorType::Rgb(
                    Rgb {
                        red: Intensity::spec_from_percent(0),
                        green: Intensity::spec_from_percent(0),
                        blue: Intensity::spec_from_percent(0),
                    },
                ),
            ),
            DeviceType::Socket => None,
        }
    }

    /// The state that a new device of the given kind starts in, under the
    /// identifier `id`: disabled, without address or name, and dark.
    pub open spec fn spec_default_for(device_type: DeviceType, id: Uuid) -> DeviceConfig {
        DeviceConfig {
            address: None,
            mac: None,
            name: None,
            id: Some(id),
            state: DeviceState::Disabled,
            speed: None,
            scene: None,
            total_intensity: if device_type == DeviceType::Socket {
                None
            } else {
                Some(Intensity::spec_from_percent(0))
            },
            color_data: Self::spec_default_color(device_type),
        }
    }

    /// The state with the fields of `patch` laid over it.
    pub open spec fn spec_merged(&self, patch: OptionalDeviceConfig) -> DeviceConfig {
        DeviceConfig {
            address: spec_overlay_opt(self.address, patch.address),
            mac: spec_overlay_opt(self.mac, patch.mac),
            name: spec_overlay_opt(self.name, patch.name),
            id: spec_overlay_opt(self.id, patch.id),
            state: spec_overlay(self.state, patch.state),
            speed: spec_overlay_opt(self.speed, patch.speed),
            scene: spec_overlay_opt(self.scene, patch.scene),
            total_intensity: spec_overlay_opt(self.total_intensity, patch.total_intensity),
            color_data: spec_overlay_opt(self.color_data, patch.color_data),
        }
    }

    /// The state that a new device of the given kind starts in, under the
    /// identifier `id`.
    pub fn default_for(device_type: DeviceType, id: Uuid) -> (r: Self)
        ensures
            r == Self::spec_default_for(device_type, id),
    {
        let dark = Intensity::from_percent(0);
        let (total_intensity, color_data) = match device_type {
            DeviceType::BulbTW => (
                Some(dark),
                Some(
                    ColorType::White(
                        WhiteType::Tunable(
                            WhiteTunableType::new(
                                ColorTempSpace { min_temp: 1500, max_temp: 8000 },
                            ),
                        ),
                    ),
                ),
            ),
            DeviceType::BulbDW => (
                Some(dark),
                Some(
                    ColorType::White(
                        WhiteType::Variable(
                            WhiteVariableType {
                                current: WhiteStaticType::Mixed,
                                ratio: 50,
                                intensity: dark,
                            },
                        ),
                    ),
                ),
            ),
            DeviceType::BulbRGB => (
                Some(dark),
                Some(ColorType::Rgb(Rgb { red: dark, green: dark, blue: dark })),
            ),
            DeviceType::Socket => (None, None),
        };
        DeviceConfig {
            address: None,
            mac: None,
            name: None,
            id: Some(id),
            state: DeviceState::Disabled,
            speed: None,
            scene: None,
            total_intensity,
            color_data,
        }
    }

    /// Lays the fields of `patch` over this state. A field that the patch
    /// lacks stays as it was.
    pub fn apply_options(&mut self, patch: OptionalDeviceConfig)
        ensures
            *final(self) == old(self).spec_merged(patch),
    {
        if patch.address.is_some() {
            self.address = patch.address;
        }
        if patch.mac.is_some() {
            self.mac = patch.mac;
        }
        if patch.name.is_some() {
            self.name = patch.name;
        }
        if patch.id.is_some() {
            self.id = patch.id;
        }
        self.state = overlay(self.state, patch.state);
        if patch.speed.is_some() {
            self.speed = patch.speed;
        }
        if patch.scene.is_some() {
            self.scene = patch.scene;
        }
        if patch.total_intensity.is_some() {
            self.total_intensity = patch.total_intensity;
        }
        if patch.color_data.is_some() {
            self.color_data = patch.color_data;
        }
    }
}

/// A device in full: what it can do, what it announced, and its state.
#[derive(Debug)]
pub struct DeviceDefinition {
    pub features: DeviceFeatures,
    pub descriptor: DeviceDescriptor,
    pub config: DeviceConfig,
}

impl Clone for DeviceDefinition {
    fn clone(&self) -> (copy: Self)
        ensures
            copy == *self,
    {
        DeviceDefinition {
            features: self.features,
            descriptor: self.descriptor.clone(),
            config: self.config.clone(),
        }
    }
}

/// A light bulb, by the kind of light that it gives.
#[derive(Debug)]
pub enum Bulb {
    TunableWhite(DeviceDefinition),
    DimmableWhite(DeviceDefinition),
    Rgb(DeviceDefinition),
}

impl Clone for Bulb {
    fn clone(&self) -> (copy: Self)
        ensures
            copy == *self,
    {
        match self {
            Bulb::TunableWhite(definition) => Bulb::TunableWhite(definition.clone()),
            Bulb::DimmableWhite(definition) => Bulb::DimmableWhite(definition.clone()),
            Bulb::Rgb(definition) => Bulb::Rgb(definition.clone()),
        }
    }
}

} // verus!
