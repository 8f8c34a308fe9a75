//! The device taxonomy: a closed set of device kinds, each carrying its
//! features and descriptor, built through one constructor so that the kind
//! never drifts while the content is patched.
use vstd::prelude::*;

use crate::values::{
    ApplyOptions, DeviceDescriptor, DeviceFeatures, OptionalDeviceDescriptor,
    OptionalDeviceFeatures,
};

verus! {

/// The kind of a device.
#[derive(Debug, Clone, Copy, PartialEq, Eq, Structural)]
pub enum DeviceType {
    BulbTW,
    BulbDW,
    BulbRGB,
    Socket,
}

/// What a device can do, and what is known of it.
#[derive(Debug)]
pub struct DeviceDefinition {
    pub features: DeviceFeatures,
    pub descriptor: DeviceDescriptor,
}

/// A device of one of the known kinds.
#[derive(Debug)]
pub enum Device {
    Bulb(Bulb),
    Socket(DeviceDefinition),
}

/// The three kinds of bulb.
#[derive(Debug)]
pub enum Bulb {
    TunableWhite(DeviceDefinition),
    DimmableWhite(DeviceDefinition),
    Rgb(DeviceDefinition),
}

/// The features that a device of kind `t` has unless told otherwise.
pub open spec fn default_features(t: DeviceType) -> DeviceFeatures {
    match t {
        DeviceType::BulbTW => DeviceFeatures {
            hue: false,
            color_temp: true,
            effects: true,
            dimming: true,
            dual_head: false,
        },
        DeviceType::BulbDW => DeviceFeatures {
            hue: false,
            color_temp: false,
            effects: false,
            dimming: true,
            dual_head: false,
        },
        DeviceType::BulbRGB => DeviceFeatures {
            hue: true,
            color_temp: true,
            effects: true,
            dimming: true,
            dual_head: false,
        },
        DeviceType::Socket => DeviceFeatures {
            hue: false,
            color_temp: false,
            effects: false,
            dimming: false,
            dual_head: false,
        },
    }
}

/// The features that a device of kind `t` has unless told otherwise.
pub fn features_for(t: DeviceType) -> (r: DeviceFeatures)
    ensures
        r == default_features(t),
{
    match t {
        DeviceType::BulbTW => DeviceFeatures {
            hue: false,
            color_temp: true,
            effects: true,
            dimming: true,
            dual_head: false,
        },
        DeviceType::BulbDW => DeviceFeatures {
            hue: false,
            color_temp: false,
            effects: false,
            dimming: true,
            dual_head: false,
        },
        DeviceType::BulbRGB => DeviceFeatures {
            hue: true,
            color_temp: true,
            effects: true,
            dimming: true,
            dual_head: false,
        },
        DeviceType::Socket => DeviceFeatures {
            hue: false,
            color_temp: false,
            effects: false,
            dimming: false,
            dual_head: false,
        },
    }
}

impl Clone for DeviceDefinition {
    fn clone(&self) -> (r: Self)
        ensures
            r == *self,
    {
        DeviceDefinition { features: self.features, descriptor: self.descriptor.clone() }
    }
}

impl Clone for Device {
    fn clone(&self) -> (r: Self)
        ensures
            r == *self,
    {
        let definition = self.get_definition();
        Device::new(self.get_type(), Some(definition.features), Some(definition.descriptor))
    }
}

impl Device {
    /// The device of kind `t` that carries `definition`.
    pub open spec fn build(t: DeviceType, definition: DeviceDefinition) -> Device {
        match t {
            DeviceType::BulbTW => Device::Bulb(Bulb::TunableWhite(definition)),
            DeviceType::BulbDW => Device::Bulb(Bulb::DimmableWhite(definition)),
            DeviceType::BulbRGB => Device::Bulb(Bulb::Rgb(definition)),
            DeviceType::Socket => Device::Socket(definition),
        }
    }

    /// The kind that the device's variant stands for.
    pub open spec fn spec_type(self) -> DeviceType {
        match self {
            Device::Socket(_) => DeviceType::Socket,
            Device::Bulb(Bulb::TunableWhite(_)) => DeviceType::BulbTW,
            Device::Bulb(Bulb::DimmableWhite(_)) => DeviceType::BulbDW,
            Device::Bulb(Bulb::Rgb(_)) => DeviceType::BulbRGB,
        }
    }

    /// The definition that the device's variant carries.
    pub open spec fn spec_definition(self) -> DeviceDefinition {
        match self {
            Device::Socket(d) => d,
            Device::Bulb(Bulb::TunableWhite(d)) => d,
            Device::Bulb(Bulb::DimmableWhite(d)) => d,
            Device::Bulb(Bulb::Rgb(d)) => d,
        }
    }

    /// The device after its features are overlaid with `over`.
    pub open spec fn spec_patch_features(self, over: OptionalDeviceFeatures) -> Device {
        Device::build(
            self.spec_type(),
            DeviceDefinition {
                features: self.spec_definition().features.applied(over),
                descriptor: self.spec_definition().descriptor,
            },
        )
    }

    /// The device after its descriptor is overlaid with `over`.
    pub open spec fn spec_patch_descriptor(self, over: OptionalDeviceDescriptor) -> Device {
        Device::build(
            self.spec_type(),
            DeviceDefinition {
                features: self.spec_definition().features,
                descriptor: self.spec_definition().descriptor.applied(over),
            },
        )
    }

    /// A device of kind `device_type`, with the kind's default features and an
    /// unknown descriptor where none is given.
    pub fn new(
        device_type: DeviceType,
        features: Option<DeviceFeatures>,
        descriptor: Option<DeviceDescriptor>,
    ) -> (r: Self)
        ensures
            r.spec_type() == device_type,
            r == Device::build(
                device_type,
                DeviceDefinition {
                    features: match features {
                        Some(f) => f,
                        None => default_features(device_type),
                    },
                    descriptor: match descriptor {
                        Some(d) => d,
                        None => DeviceDescriptor::spec_unknown(),
                    },
                },
            ),
    {
        let features = match features {
            Some(features) => features,
            None => features_for(device_type),
        };
        let descriptor = match descriptor {
            Some(descriptor) => descriptor,
            None => DeviceDescriptor::unknown(),
        };
        let definition = DeviceDefinition { features, descriptor };
        match device_type {
            DeviceType::BulbTW => Device::Bulb(Bulb::TunableWhite(definition)),
            DeviceType::BulbDW => Device::Bulb(Bulb::DimmableWhite(definition)),
            DeviceType::BulbRGB => Device::Bulb(Bulb::Rgb(definition)),
            DeviceType::Socket => Device::Socket(definition),
        }
    }

    /// The same device with its descriptor overlaid by `descriptor`; the kind stays.
    pub fn patch_descriptor(self, descriptor: OptionalDeviceDescriptor) -> (r: Self)
        ensures
            r == self.spec_patch_descriptor(descriptor),
            r.spec_type() == self.spec_type(),
    {
        let mut definition = self.get_definition();
        let device_type = self.get_type();
        definition.descriptor.apply_options(descriptor);
        Device::new(device_type, Some(definition.features), Some(definition.descriptor))
    }

    /// The same device with its features overlaid by `features`; the kind stays.
    pub fn patch_features(self, features: OptionalDeviceFeatures) -> (r: Self)
        ensures
            r == self.spec_patch_features(features),
            r.spec_type() == self.spec_type(),
    {
        let mut definition = self.get_definition();
        let device_type = self.get_type();
        definition.features.apply_options(features);
        Device::new(device_type, Some(definition.features), Some(definition.descriptor))
    }

    /// The features and descriptor that the device carries.
    pub fn get_definition(&self) -> (r: DeviceDefinition)
        ensures
            r == self.spec_definition(),
    {
        match self {
            Device::Socket(definition) => definition.clone(),
            Device::Bulb(bulb) => match bulb {
                Bulb::DimmableWhite(definition) => definition.clone(),
                Bulb::TunableWhite(definition) => definition.clone(),
                Bulb::Rgb(definition) => definition.clone(),
            },
        }
    }

    /// The device's kind.
    pub fn get_type(&self) -> (r: DeviceType)
        ensures
            r == self.spec_type(),
    {
        match self {
            Device::Socket(_) => DeviceType::Socket,
            Device::Bulb(bulb) => match bulb {
                Bulb::TunableWhite(_) => DeviceType::BulbTW,
                Bulb::DimmableWhite(_) => DeviceType::BulbDW,
                Bulb::Rgb(_) => DeviceType::BulbRGB,
            },
        }
    }
}

/// The kind that a device is built with is the kind it reports, and its
/// definition is the one it was built with.
pub proof fn lemma_build_parts(t: DeviceType, definition: DeviceDefinition)
    ensures
        Device::build(t, definition).spec_type() == t,
        Device::build(t, definition).spec_definition() == definition,
{
}

/// An overlay that holds no field leaves a device as it was.
pub proof fn lemma_blank_patch_keeps_device(
    d: Device,
    features: OptionalDeviceFeatures,
    descriptor: OptionalDeviceDescriptor,
)
    requires
        features.is_blank(),
        descriptor.is_blank(),
    ensures
        d.spec_patch_features(features) == d,
        d.spec_patch_descriptor(descriptor) == d,
{
    assert(d.spec_definition().features.applied(features) == d.spec_definition().features);
    assert(d.spec_definition().descriptor.applied(descriptor) == d.spec_definition().descriptor);
}

/// Applying the same overlay twice gives what applying it once gives.
pub proof fn lemma_patch_twice_is_once(
    d: Device,
    features: OptionalDeviceFeatures,
    descriptor: OptionalDeviceDescriptor,
)
    ensures
        d.spec_patch_features(features).spec_patch_features(features) == d.spec_patch_features(
            features,
        ),
        d.spec_patch_descriptor(descriptor).spec_patch_descriptor(descriptor)
            == d.spec_patch_descriptor(descriptor),
{
    let f = d.spec_definition().features.applied(features);
    assert(f.applied(features) == f);
    let e = d.spec_definition().descriptor.applied(descriptor);
    assert(e.applied(descriptor) == e);
}

/// A patch of either half never changes a device's kind.
pub proof fn lemma_patch_keeps_type(
    d: Device,
    features: OptionalDeviceFeatures,
    descriptor: OptionalDeviceDescriptor,
)
    ensures
        d.spec_patch_features(features).spec_type() == d.spec_type(),
        d.spec_patch_descriptor(descriptor).spec_type() == d.spec_type(),
{
}

} // verus!
