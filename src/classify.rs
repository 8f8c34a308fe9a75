//! Classification: which kind of device a raw descriptor names, and with
//! which features, read from the module name's identifier or from a numeric
//! type index.
use vstd::prelude::*;

use crate::device::{default_features, Device, DeviceDefinition, DeviceType};
use crate::error::ModelError;
use crate::text::{chars_of, contains_text, second_segment, second_segment_of, seq_contains};
use crate::values::{
    ColorTempSpace, DeviceDescriptor, OptionalDeviceDescriptor, OptionalDeviceFeatures,
};

verus! {

/// The tags that an identifier may hold, each naming a kind or a trait of device.
#[derive(Debug, Clone, Copy)]
pub struct DeviceOptions {
    rgb: &'static str,
    dimmable_white: &'static str,
    tunable_white: &'static str,
    dual_head: &'static str,
    single_head: &'static str,
    socket: &'static str,
}

fn device_options() -> (r: DeviceOptions)
    ensures
        r.rgb@ == "RGB"@,
        r.dimmable_white@ == "DW"@,
        r.tunable_white@ == "TW"@,
        r.dual_head@ == "DH"@,
        r.single_head@ == "SH"@,
        r.socket@ == "SOCKET"@,
{
    DeviceOptions {
        rgb: "RGB",
        dimmable_white: "DW",
        tunable_white: "TW",
        dual_head: "DH",
        single_head: "SH",
        socket: "SOCKET",
    }
}

/// What a module name without an identifier fails with.
pub const NO_IDENTIFIER_DETAILS: &'static str = "Failed to find an identifier in the descriptor.";

/// What an unknown type index fails with.
pub const UNKNOWN_TYPE_ID_DETAILS: &'static str = "Failed finding a known type ID in the descriptor";

/// What a bulb without a color-temperature range fails with.
pub const NO_COLOR_TEMP_DETAILS: &'static str =
    "Bulb type should include color temp data in the descriptor.";

/// The device kinds that a numeric type index names, by index.
pub open spec fn spec_known_type_ids() -> Seq<DeviceType> {
    seq![DeviceType::BulbDW]
}

/// The device kinds that a numeric type index names, by index.
pub fn known_type_ids() -> (r: Vec<DeviceType>)
    ensures
        r@ == spec_known_type_ids(),
{
    let r = vec![DeviceType::BulbDW];
    assert(r@ == spec_known_type_ids());
    r
}

/// A device of kind `t` with the kind's default features and nothing known of it.
pub open spec fn plain_device(t: DeviceType) -> Device {
    Device::build(
        t,
        DeviceDefinition {
            features: default_features(t),
            descriptor: DeviceDescriptor::spec_unknown(),
        },
    )
}

/// An overlay that sets `effects` and `dual_head` where given, and nothing else.
pub open spec fn head_overlay(effects: Option<bool>, dual_head: Option<bool>) -> OptionalDeviceFeatures {
    OptionalDeviceFeatures {
        hue: None,
        color_temp: None,
        effects: effects,
        dimming: None,
        dual_head: dual_head,
    }
}

/// An overlay that sets the color-temperature range and nothing else.
pub open spec fn color_temp_overlay(c: ColorTempSpace) -> OptionalDeviceDescriptor {
    OptionalDeviceDescriptor {
        module_name: None,
        color_temp: Some(c),
        firmware_version: None,
        white_channels: None,
        white_to_color_ratio: None,
        type_id_index: None,
    }
}

/// The device that a module name's identifier names: the first of the tags
/// RGB, TW and SOCKET that it holds decides the kind; without any of them it
/// stays a dimmable-white bulb whose head tags DH and SH decide its effects
/// and whether it has two heads.
pub open spec fn device_of_identifier(id: Seq<char>) -> Device {
    if seq_contains(id, "RGB"@) {
        plain_device(DeviceType::BulbRGB)
    } else if seq_contains(id, "TW"@) {
        plain_device(DeviceType::BulbTW)
    } else if seq_contains(id, "SOCKET"@) {
        plain_device(DeviceType::Socket)
    } else {
        plain_device(DeviceType::BulbDW).spec_patch_features(
            head_overlay(
                Some(seq_contains(id, "DH"@) || seq_contains(id, "SH"@)),
                Some(seq_contains(id, "DH"@)),
            ),
        )
    }
}

/// The device that a descriptor names before its color-temperature range is
/// considered, or `None` where no kind can be read from it.
pub open spec fn resolved_kind(d: DeviceDescriptor) -> Option<Device> {
    match d.module_name {
        Some(name) => match second_segment(name@) {
            Some(id) => Some(device_of_identifier(id)),
            None => None,
        },
        None => match d.type_id_index {
            Some(i) => if i < spec_known_type_ids().len() {
                Some(
                    plain_device(spec_known_type_ids()[i as int]).spec_patch_features(
                        head_overlay(Some(true), None),
                    ),
                )
            } else {
                None
            },
            None => Some(plain_device(DeviceType::BulbDW)),
        },
    }
}

/// Whether a device of kind `t` must come with a color-temperature range.
pub open spec fn needs_color_temp(t: DeviceType) -> bool {
    t == DeviceType::BulbRGB || t == DeviceType::BulbTW
}

impl Device {
    /// Classifies a raw descriptor, and carries its color-temperature range over
    /// to the result. Fails where no kind can be read from it, or where a bulb
    /// that needs a color-temperature range comes without one.
    pub fn from_descriptor(descriptor: DeviceDescriptor) -> (r: Result<Device, ModelError>)
        ensures
            match resolved_kind(descriptor) {
                None => r matches Err(ModelError::DeviceTypeParse { data, details })
                    && data == descriptor
                    && details@ == (if descriptor.module_name is Some {
                        NO_IDENTIFIER_DETAILS@
                    } else {
                        UNKNOWN_TYPE_ID_DETAILS@
                    }),
                Some(dev) => match descriptor.color_temp {
                    Some(c) => r matches Ok(out) && out == dev.spec_patch_descriptor(
                        color_temp_overlay(c),
                    ),
                    None => if needs_color_temp(dev.spec_type()) {
                        r matches Err(ModelError::DeviceColorTempParse { data, details })
                            && data == dev.spec_definition().descriptor
                            && details@ == NO_COLOR_TEMP_DETAILS@
                    } else {
                        r matches Ok(out) && out == dev
                    },
                },
            },
    {
        let opts = device_options();
        let original = descriptor.clone();
        let mut device = Device::new(DeviceType::BulbDW, None, None);
        if let Some(name) = &descriptor.module_name {
            let name_chars = chars_of(name.as_str());
            let identifier = match second_segment_of(name_chars.as_slice()) {
                Some(identifier) => identifier,
                None => {
                    return Err(
                        ModelError::DeviceTypeParse {
                            data: original,
                            details: String::from_str(NO_IDENTIFIER_DETAILS),
                        },
                    );
                },
            };
            let id = identifier.as_slice();
            if contains_text(id, chars_of(opts.rgb).as_slice()) {
                device = Device::new(DeviceType::BulbRGB, None, None);
            } else if contains_text(id, chars_of(opts.tunable_white).as_slice()) {
                device = Device::new(DeviceType::BulbTW, None, None);
            } else if contains_text(id, chars_of(opts.socket).as_slice()) {
                device = Device::new(DeviceType::Socket, None, None);
            } else {
                let dual_head = contains_text(id, chars_of(opts.dual_head).as_slice());
                let effects = dual_head || contains_text(id, chars_of(opts.single_head).as_slice());
                let patch = OptionalDeviceFeatures {
                    hue: None,
                    color_temp: None,
                    effects: Some(effects),
                    dimming: None,
                    dual_head: Some(dual_head),
                };
                device = device.patch_features(patch);
            }
        } else if let Some(type_id_index) = descriptor.type_id_index {
            let known = known_type_ids();
            if type_id_index >= known.len() {
                return Err(
                    ModelError::DeviceTypeParse {
                        data: original,
                        details: String::from_str(UNKNOWN_TYPE_ID_DETAILS),
                    },
                );
            }
            device = Device::new(known[type_id_index], None, None);
            let patch = OptionalDeviceFeatures {
                hue: None,
                color_temp: None,
                effects: Some(true),
                dimming: None,
                dual_head: None,
            };
            device = device.patch_features(patch);
        }
        if let Some(color_temp) = descriptor.color_temp {
            let patch = OptionalDeviceDescriptor {
                module_name: None,
                color_temp: Some(color_temp),
                firmware_version: None,
                white_channels: None,
                white_to_color_ratio: None,
                type_id_index: None,
            };
            device = device.patch_descriptor(patch);
        } else if device.get_type() == DeviceType::BulbRGB || device.get_type()
            == DeviceType::BulbTW {
            return Err(
                ModelError::DeviceColorTempParse {
                    data: device.get_definition().descriptor,
                    details: String::from_str(NO_COLOR_TEMP_DETAILS),
                },
            );
        }
        Ok(device)
    }
}

} // verus!
