//! A device, and how one is told from its descriptor.
//!
//! A device is a socket or a bulb of one of three kinds, and holds its
//! definition. There is one way to make a device, from a kind and a
//! definition, and every change to a device takes it apart and makes it
//! anew: the kind of a device and the variant that holds it cannot part.

use crate::definition::{
    known_type, spec_known_type_ids, Bulb, DeviceConfig, DeviceDefinition, DeviceDescriptor,
    DeviceFeatures, DeviceOptions, DeviceType, OptionalDeviceConfig, OptionalDeviceDescriptor,
    OptionalDeviceFeatures,
};
use crate::errors::{DeviceError, ParseError};
use crate::outside::fresh_uuid;
use crate::text::{chars_of, contains_text, has_text, identifier, identifier_of};
use uuid::Uuid;
use vstd::prelude::*;

verus! {

/// A device.
#[derive(Debug)]
pub enum Device {
    Bulb(Bulb),
    Socket(DeviceDefinition),
}

impl Clone for Device {
    fn clone(&self) -> (copy: Self)
        ensures
            copy == *self,
    {
        match self {
            Device::Bulb(bulb) => Device::Bulb(bulb.clone()),
            Device::Socket(definition) => Device::Socket(definition.clone()),
        }
    }
}

/// The kind of device that an identifier tells. Where it holds the words of
/// several kinds, colour comes before tunable white, and that before a
/// socket; an identifier with none of the three is a dimmable white bulb.
pub open spec fn spec_type_of_identifier(identifier: Seq<char>) -> DeviceType {
    let words = DeviceOptions::spec_standard();
    if contains_text(identifier, words.rgb@) {
        DeviceType::BulbRGB
    } else if contains_text(identifier, words.tunable_white@) {
        DeviceType::BulbTW
    } else if contains_text(identifier, words.socket@) {
        DeviceType::Socket
    } else {
        DeviceType::BulbDW
    }
}

/// What a device with the given identifier can do: what its kind can do,
/// and for a dimmable white bulb the identifier also tells whether it has
/// effects (a single or a dual head) and whether its head is dual.
pub open spec fn spec_features_of_identifier(identifier: Seq<char>) -> DeviceFeatures {
    let words = DeviceOptions::spec_standard();
    let device_type = spec_type_of_identifier(identifier);
    let base = DeviceFeatures::spec_default_for(device_type);
    if device_type == DeviceType::BulbDW {
        DeviceFeatures {
            effects: contains_text(identifier, words.dual_head@) || contains_text(
                identifier,
                words.single_head@,
            ),
            dual_head: contains_text(identifier, words.dual_head@),
            ..base
        }
    } else {
        base
    }
}

/// The kind and the capabilities that a descriptor tells, or `None` where it
/// does not tell the kind.
///
/// A module name decides alone, by its identifier, and tells nothing where
/// it has none. Without a module name the type index decides, and tells
/// nothing where it names no known kind; a device told by its index always
/// has effects. A descriptor with neither is a dimmable white bulb.
pub open spec fn spec_classified(descriptor: DeviceDescriptor) -> Option<
    (DeviceType, DeviceFeatures),
> {
    match descriptor.module_name {
        Some(name) => match identifier_of(name@) {
            Some(identifier) => Some(
                (spec_type_of_identifier(identifier), spec_features_of_identifier(identifier)),
            ),
            None => None,
        },
        None => match descriptor.type_id_index {
            Some(index) => if index < spec_known_type_ids().len() {
                let device_type = spec_known_type_ids()[index as int];
                Some(
                    (
                        device_type,
                        DeviceFeatures {
                            effects: true,
                            ..DeviceFeatures::spec_default_for(device_type)
                        },
                    ),
                )
            } else {
                None
            },
            None => Some(
                (DeviceType::BulbDW, DeviceFeatures::spec_default_for(DeviceType::BulbDW)),
            ),
        },
    }
}

/// Why no device can be made from a descriptor, or `None` where one can.
pub open spec fn spec_classification_error(descriptor: DeviceDescriptor) -> Option<DeviceError> {
    match spec_classified(descriptor) {
        None => Some(DeviceError::Parse(ParseError::UndefinedType(descriptor))),
        Some((device_type, _)) => if descriptor.color_temp is None
            && device_type.spec_needs_color_temp() {
            Some(DeviceError::Parse(ParseError::ColorTemp(DeviceDescriptor::spec_empty())))
        } else {
            None
        },
    }
}

/// The kind of device that an identifier tells.
pub fn type_of_identifier(identifier: &Vec<char>) -> (r: DeviceType)
    ensures
        r == spec_type_of_identifier(identifier@),
{
    let words = DeviceOptions::standard();
    if has_text(identifier, &chars_of(words.rgb)) {
        DeviceType::BulbRGB
    } else if has_text(identifier, &chars_of(words.tunable_white)) {
        DeviceType::BulbTW
    } else if has_text(identifier, &chars_of(words.socket)) {
        DeviceType::Socket
    } else {
        DeviceType::BulbDW
    }
}

/// What a device with the given identifier can do.
pub fn features_of_identifier(identifier: &Vec<char>) -> (r: DeviceFeatures)
    ensures
        r == spec_features_of_identifier(identifier@),
{
    let words = DeviceOptions::standard();
    let device_type = type_of_identifier(identifier);
    let mut features = DeviceFeatures::default_for(device_type);
    if device_type == DeviceType::BulbDW {
        let dual_head = has_text(identifier, &chars_of(words.dual_head));
        let effects = dual_head || has_text(identifier, &chars_of(words.single_head));
        let mut patch = OptionalDeviceFeatures::empty();
        patch.effects = Some(effects);
        patch.dual_head = Some(dual_head);
        features.apply_options(patch);
    }
    features
}

/// The kind and the capabilities that a descriptor tells, if it tells the
/// kind.
pub fn classified(descriptor: &DeviceDescriptor) -> (r: Option<(DeviceType, DeviceFeatures)>)
    ensures
        r == spec_classified(*descriptor),
{
    match &descriptor.module_name {
        Some(name) => {
            let text = chars_of(name.as_str());
            match identifier(&text) {
                Some(token) => Some((type_of_identifier(&token), features_of_identifier(&token))),
                None => None,
            }
        },
        None => match descriptor.type_id_index {
            Some(index) => match known_type(index) {
                Some(device_type) => {
                    let mut features = DeviceFeatures::default_for(device_type);
                    let mut patch = OptionalDeviceFeatures::empty();
                    patch.effects = Some(true);
                    features.apply_options(patch);
                    Some((device_type, features))
                },
                None => None,
            },
            None => Some((DeviceType::BulbDW, DeviceFeatures::default_for(DeviceType::BulbDW))),
        },
    }
}

impl Device {
    /// The kind of the device.
    pub open spec fn spec_type(&self) -> DeviceType {
        match self {
            Device::Socket(_) => DeviceType::Socket,
            Device::Bulb(Bulb::TunableWhite(_)) => DeviceType::BulbTW,
            Device::Bulb(Bulb::DimmableWhite(_)) => DeviceType::BulbDW,
            Device::Bulb(Bulb::Rgb(_)) => DeviceType::BulbRGB,
        }
    }

    /// The definition of the device.
    pub open spec fn spec_definition(&self) -> DeviceDefinition {
        match self {
            Device::Socket(definition) => *definition,
            Device::Bulb(Bulb::TunableWhite(definition)) => *definition,
            Device::Bulb(Bulb::DimmableWhite(definition)) => *definition,
            Device::Bulb(Bulb::Rgb(definition)) => *definition,
        }
    }

    /// The device of the given kind with the given definition.
    pub open spec fn spec_assemble(device_type: DeviceType, definition: DeviceDefinition) -> Device {
        match device_type {
            DeviceType::BulbTW => Device::Bulb(Bulb::TunableWhite(definition)),
            DeviceType::BulbDW => Device::Bulb(Bulb::DimmableWhite(definition)),
            DeviceType::BulbRGB => Device::Bulb(Bulb::Rgb(definition)),
            DeviceType::Socket => Device::Socket(definition),
        }
    }

    /// The device of the given kind in which each part that is not given has
    /// the value that the kind starts with. The state of such a device holds
    /// `id` as its identifier.
    pub open spec fn spec_new(
        device_type: DeviceType,
        features: Option<DeviceFeatures>,
        descriptor: Option<DeviceDescriptor>,
        config: Option<DeviceConfig>,
        id: Uuid,
    ) -> Device {
        Self::spec_assemble(
            device_type,
            DeviceDefinition {
                features: match features {
                    Some(f) => f,
                    None => DeviceFeatures::spec_default_for(device_type),
                },
                descriptor: match descriptor {
                    Some(d) => d,
                    None => DeviceDescriptor::spec_empty(),
                },
                config: match config {
                    Some(c) => c,
                    None => DeviceConfig::spec_default_for(device_type, id),
                },
            },
        )
    }

    /// What reading a descriptor gives, where `id` is the identifier that a
    /// new device gets: the failure, or the device of the kind and with the
    /// capabilities that the descriptor tells. Its descriptor holds the range
    /// of colour temperatures that was read, and nothing else; its state is
    /// the one that its kind starts with.
    pub open spec fn spec_from_descriptor(descriptor: DeviceDescriptor, id: Uuid) -> Result<
        Device,
        DeviceError,
    > {
        match spec_classification_error(descriptor) {
            Some(e) => Err(e),
            None => {
                let (device_type, features) = spec_classified(descriptor)->0;
                Ok(
                    Self::spec_assemble(
                        device_type,
                        DeviceDefinition {
                            features,
                            descriptor: DeviceDescriptor {
                                color_temp: descriptor.color_temp,
                                ..DeviceDescriptor::spec_empty()
                            },
                            config: DeviceConfig::spec_default_for(device_type, id),
                        },
                    ),
                )
            },
        }
    }

    /// Makes the device of the given kind with the given definition.
    pub fn assemble(device_type: DeviceType, definition: DeviceDefinition) -> (r: Self)
        ensures
            r == Self::spec_assemble(device_type, definition),
            r.spec_type() == device_type,
            r.spec_definition() == definition,
    {
        match device_type {
            DeviceType::BulbTW => Device::Bulb(Bulb::TunableWhite(definition)),
            DeviceType::BulbDW => Device::Bulb(Bulb::DimmableWhite(definition)),
            DeviceType::BulbRGB => Device::Bulb(Bulb::Rgb(definition)),
            DeviceType::Socket => Device::Socket(definition),
        }
    }

    /// Takes the device apart into its kind and its definition.
    pub fn into_parts(self) -> (r: (DeviceType, DeviceDefinition))
        ensures
            r.0 == self.spec_type(),
            r.1 == self.spec_definition(),
            self == Self::spec_assemble(r.0, r.1),
    {
        match self {
            Device::Socket(definition) => (DeviceType::Socket, definition),
            Device::Bulb(Bulb::TunableWhite(definition)) => (DeviceType::BulbTW, definition),
            Device::Bulb(Bulb::DimmableWhite(definition)) => (DeviceType::BulbDW, definition),
            Device::Bulb(Bulb::Rgb(definition)) => (DeviceType::BulbRGB, definition),
        }
    }

    /// Makes a device of the given kind. Each part that is not given gets the
    /// value that the kind starts with; a state that is not given holds `id`
    /// as its identifier.
    pub fn with_id(
        device_type: DeviceType,
        features: Option<DeviceFeatures>,
        descriptor: Option<DeviceDescriptor>,
        config: Option<DeviceConfig>,
        id: Uuid,
    ) -> (r: Self)
        ensures
            r == Self::spec_new(device_type, features, descriptor, config, id),
            r.spec_type() == device_type,
    {
        let features = match features {
            Some(f) => f,
            None => DeviceFeatures::default_for(device_type),
        };
        let descriptor = match descriptor {
            Some(d) => d,
            None => DeviceDescriptor::empty(),
        };
        let config = match config {
            Some(c) => c,
            None => DeviceConfig::default_for(device_type, id),
        };
        Self::assemble(device_type, DeviceDefinition { features, descriptor, config })
    }

    /// Makes a device of the given kind. Each part that is not given gets the
    /// value that the kind starts with; a state that is not given holds a
    /// fresh identifier.
    pub fn new(
        device_type: DeviceType,
        features: Option<DeviceFeatures>,
        descriptor: Option<DeviceDescriptor>,
        config: Option<DeviceConfig>,
    ) -> (r: Self)
        ensures
            r.spec_type() == device_type,
            config is Some ==> forall|id: Uuid|
                r == Self::spec_new(device_type, features, descriptor, config, id),
            config is None ==> r.spec_definition().config.id is Some && r == Self::spec_new(
                device_type,
                features,
                descriptor,
                config,
                r.spec_definition().config.id->0,
            ),
    {
        Self::with_id(device_type, features, descriptor, config, fresh_uuid())
    }

    /// Reads a descriptor and makes the device that it tells, with `id` as
    /// the identifier of the new device.
    pub fn classify(descriptor: DeviceDescriptor, id: Uuid) -> (r: Result<Self, DeviceError>)
        ensures
            r == Self::spec_from_descriptor(descriptor, id),
            r is Err <==> spec_classification_error(descriptor) is Some,
    {
        match classified(&descriptor) {
            None => Err(DeviceError::Parse(ParseError::UndefinedType(descriptor))),
            Some((device_type, features)) => {
                if descriptor.color_temp.is_none() && device_type.needs_color_temp() {
                    return Err(DeviceError::Parse(ParseError::ColorTemp(DeviceDescriptor::empty())));
                }
                let device = Self::with_id(device_type, Some(features), None, None, id);
                let mut patch = OptionalDeviceDescriptor::empty();
                patch.color_temp = descriptor.color_temp;
                Ok(device.patch_descriptor(patch))
            },
        }
    }

    /// Reads a descriptor and makes the device that it tells, under a fresh
    /// identifier. Whether this fails, and with what, depends on the
    /// descriptor alone.
    pub fn from_descriptor(descriptor: DeviceDescriptor) -> (r: Result<Self, DeviceError>)
        ensures
            match spec_classification_error(descriptor) {
                Some(e) => r == Err::<Device, DeviceError>(e),
                None => {
                    &&& r is Ok
                    &&& r->Ok_0.spec_definition().config.id is Some
                    &&& r == Self::spec_from_descriptor(
                        descriptor,
                        r->Ok_0.spec_definition().config.id->0,
                    )
                },
            },
    {
        Self::classify(descriptor, fresh_uuid())
    }

    /// Lays a patch over the descriptor of the device and makes the device
    /// anew. Its kind stays.
    pub fn patch_descriptor(self, descriptor: OptionalDeviceDescriptor) -> (r: Self)
        ensures
            r.spec_type() == self.spec_type(),
            r.spec_definition() == (DeviceDefinition {
                descriptor: self.spec_definition().descriptor.spec_merged(descriptor),
                ..self.spec_definition()
            }),
            r == Self::spec_assemble(r.spec_type(), r.spec_definition()),
    {
        let (device_type, mut definition) = self.into_parts();
        definition.descriptor.apply_options(descriptor);
        Self::assemble(device_type, definition)
    }

    /// Lays a patch over the capabilities of the device and makes the device
    /// anew. Its kind stays.
    pub fn patch_features(self, features: OptionalDeviceFeatures) -> (r: Self)
        ensures
            r.spec_type() == self.spec_type(),
            r.spec_definition() == (DeviceDefinition {
                features: self.spec_definition().features.spec_merged(features),
                ..self.spec_definition()
            }),
            r == Self::spec_assemble(r.spec_type(), r.spec_definition()),
    {
        let (device_type, mut definition) = self.into_parts();
        definition.features.apply_options(features);
        Self::assemble(device_type, definition)
    }

    /// Lays a patch over the state of the device and makes the device anew.
    /// Its kind stays.
    pub fn patch_config(self, config: OptionalDeviceConfig) -> (r: Self)
        ensures
            r.spec_type() == self.spec_type(),
            r.spec_definition() == (DeviceDefinition {
                config: self.spec_definition().config.spec_merged(config),
                ..self.spec_definition()
            }),
            r == Self::spec_assemble(r.spec_type(), r.spec_definition()),
    {
        let (device_type, mut definition) = self.into_parts();
        definition.config.apply_options(config);
        Self::assemble(device_type, definition)
    }

    /// A copy of the definition of the device.
    pub fn get_definition(&self) -> (r: DeviceDefinition)
        ensures
            r == self.spec_definition(),
    {
        match self {
            Device::Socket(definition) => definition.clone(),
            Device::Bulb(Bulb::DimmableWhite(definition)) => definition.clone(),
            Device::Bulb(Bulb::TunableWhite(definition)) => definition.clone(),
            Device::Bulb(Bulb::Rgb(definition)) => definition.clone(),
        }
    }

    /// The kind of the device.
    pub fn get_type(&self) -> (r: DeviceType)
        ensures
            r == self.spec_type(),
    {
        match self {
            Device::Socket(_) => DeviceType::Socket,
            Device::Bulb(Bulb::TunableWhite(_)) => DeviceType::BulbTW,
            Device::Bulb(Bulb::DimmableWhite(_)) => DeviceType::BulbDW,
            Device::Bulb(Bulb::Rgb(_)) => DeviceType::BulbRGB,
        }
    }
}

/// A device is the one that its kind and its definition make, and the two
/// can be read back from what they make.
pub proof fn lemma_assemble_round_trip(device: Device, device_type: DeviceType, definition: DeviceDefinition)
    ensures
        Device::spec_assemble(device.spec_type(), device.spec_definition()) == device,
        Device::spec_assemble(device_type, definition).spec_type() == device_type,
        Device::spec_assemble(device_type, definition).spec_definition() == definition,
{
}

/// No patch changes the kind of a device: neither one of its capabilities,
/// nor one of its descriptor, nor one of its state.
pub proof fn lemma_patch_keeps_type(
    device: Device,
    features: OptionalDeviceFeatures,
    descriptor: OptionalDeviceDescriptor,
    config: OptionalDeviceConfig,
)
    ensures
        Device::spec_assemble(
            device.spec_type(),
            DeviceDefinition {
                features: device.spec_definition().features.spec_merged(features),
                ..device.spec_definition()
            },
        ).spec_type() == device.spec_type(),
        Device::spec_assemble(
            device.spec_type(),
            DeviceDefinition {
                descriptor: device.spec_definition().descriptor.spec_merged(descriptor),
                ..device.spec_definition()
            },
        ).spec_type() == device.spec_type(),
        Device::spec_assemble(
            device.spec_type(),
            DeviceDefinition {
                config: device.spec_definition().config.spec_merged(config),
                ..device.spec_definition()
            },
        ).spec_type() == device.spec_type(),
{
}

} // verus!
