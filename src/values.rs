//! The value objects that describe a device, and their overlay counterparts:
//! an overlay replaces exactly the fields that it holds.
use vstd::prelude::*;

verus! {

/// A range of color temperatures, in Kelvin.
#[derive(Debug, Clone, Copy, PartialEq, Eq, Structural)]
pub struct ColorTempSpace {
    pub min_temp: u16,
    pub max_temp: u16,
}

/// What a device can do.
#[derive(Debug, Clone, Copy, PartialEq, Eq, Structural)]
pub struct DeviceFeatures {
    pub hue: bool,
    pub color_temp: bool,
    pub effects: bool,
    pub dimming: bool,
    pub dual_head: bool,
}

/// An overlay of `DeviceFeatures`: each field that is present replaces the base's.
#[derive(Debug, Clone, Copy, PartialEq, Eq, Structural)]
pub struct OptionalDeviceFeatures {
    pub hue: Option<bool>,
    pub color_temp: Option<bool>,
    pub effects: Option<bool>,
    pub dimming: Option<bool>,
    pub dual_head: Option<bool>,
}

/// What is known of a device; an absent field is unknown.
#[derive(Debug)]
pub struct DeviceDescriptor {
    pub module_name: Option<String>,
    pub color_temp: Option<ColorTempSpace>,
    pub firmware_version: Option<String>,
    pub white_channels: Option<u16>,
    pub white_to_color_ratio: Option<u16>,
    pub type_id_index: Option<usize>,
}

/// An overlay of `DeviceDescriptor`: each field that is present replaces the base's.
#[derive(Debug)]
pub struct OptionalDeviceDescriptor {
    pub module_name: Option<String>,
    pub color_temp: Option<ColorTempSpace>,
    pub firmware_version: Option<String>,
    pub white_channels: Option<u16>,
    pub white_to_color_ratio: Option<u16>,
    pub type_id_index: Option<usize>,
}

/// The value of a plain field after an overlay: the overlay's when present.
pub open spec fn merged<T>(base: T, over: Option<T>) -> T {
    match over {
        Some(v) => v,
        None => base,
    }
}

/// The value of an optional field after an overlay: the overlay's when present.
pub open spec fn merged_option<T>(base: Option<T>, over: Option<T>) -> Option<T> {
    match over {
        Some(v) => Some(v),
        None => base,
    }
}

/// Merges one plain field.
pub fn merge_field<T>(base: T, over: Option<T>) -> (r: T)
    ensures
        r == merged(base, over),
{
    match over {
        Some(v) => v,
        None => base,
    }
}

/// Merges one optional field.
pub fn merge_option<T>(base: Option<T>, over: Option<T>) -> (r: Option<T>)
    ensures
        r == merged_option(base, over),
{
    match over {
        Some(v) => Some(v),
        None => base,
    }
}

/// A value object with an overlay counterpart `O`.
pub trait ApplyOptions<O>: Sized {
    /// The value after `over` is applied to `self`.
    spec fn applied(self, over: O) -> Self;

    /// Replaces the fields that `over` holds, and leaves the others.
    fn apply_options(&mut self, over: O)
        ensures
            *final(self) == old(self).applied(over),
    ;
}

impl ApplyOptions<OptionalDeviceFeatures> for DeviceFeatures {
    open spec fn applied(self, over: OptionalDeviceFeatures) -> DeviceFeatures {
        DeviceFeatures {
            hue: merged(self.hue, over.hue),
            color_temp: merged(self.color_temp, over.color_temp),
            effects: merged(self.effects, over.effects),
            dimming: merged(self.dimming, over.dimming),
            dual_head: merged(self.dual_head, over.dual_head),
        }
    }

    fn apply_options(&mut self, over: OptionalDeviceFeatures) {
        self.hue = merge_field(self.hue, over.hue);
        self.color_temp = merge_field(self.color_temp, over.color_temp);
        self.effects = merge_field(self.effects, over.effects);
        self.dimming = merge_field(self.dimming, over.dimming);
        self.dual_head = merge_field(self.dual_head, over.dual_head);
    }
}

impl ApplyOptions<OptionalDeviceDescriptor> for DeviceDescriptor {
    open spec fn applied(self, over: OptionalDeviceDescriptor) -> DeviceDescriptor {
        DeviceDescriptor {
            module_name: merged_option(self.module_name, over.module_name),
            color_temp: merged_option(self.color_temp, over.color_temp),
            firmware_version: merged_option(self.firmware_version, over.firmware_version),
            white_channels: merged_option(self.white_channels, over.white_channels),
            white_to_color_ratio: merged_option(self.white_to_color_ratio, over.white_to_color_ratio),
            type_id_index: merged_option(self.type_id_index, over.type_id_index),
        }
    }

    fn apply_options(&mut self, over: OptionalDeviceDescriptor) {
        let module_name = self.module_name.take();
        self.module_name = merge_option(module_name, over.module_name);
        self.color_temp = merge_option(self.color_temp, over.color_temp);
        let firmware_version = self.firmware_version.take();
        self.firmware_version = merge_option(firmware_version, over.firmware_version);
        self.white_channels = merge_option(self.white_channels, over.white_channels);
        self.white_to_color_ratio = merge_option(self.white_to_color_ratio, over.white_to_color_ratio);
        self.type_id_index = merge_option(self.type_id_index, over.type_id_index);
    }
}

impl OptionalDeviceFeatures {
    /// Whether the overlay holds no field.
    pub open spec fn is_blank(self) -> bool {
        &&& self.hue is None
        &&& self.color_temp is None
        &&& self.effects is None
        &&& self.dimming is None
        &&& self.dual_head is None
    }
}

impl OptionalDeviceDescriptor {
    /// Whether the overlay holds no field.
    pub open spec fn is_blank(self) -> bool {
        &&& self.module_name is None
        &&& self.color_temp is None
        &&& self.firmware_version is None
        &&& self.white_channels is None
        &&& self.white_to_color_ratio is None
        &&& self.type_id_index is None
    }
}

impl DeviceDescriptor {
    /// The descriptor that knows nothing.
    pub open spec fn spec_unknown() -> DeviceDescriptor {
        DeviceDescriptor {
            module_name: None,
            color_temp: None,
            firmware_version: None,
            white_channels: None,
            white_to_color_ratio: None,
            type_id_index: None,
        }
    }

    /// The descriptor that knows nothing.
    pub fn unknown() -> (r: DeviceDescriptor)
        ensures
            r == DeviceDescriptor::spec_unknown(),
    {
        DeviceDescriptor {
            module_name: None,
            color_temp: None,
            firmware_version: None,
            white_channels: None,
            white_to_color_ratio: None,
            type_id_index: None,
        }
    }
}

fn clone_text(s: &Option<String>) -> (r: Option<String>)
    ensures
        r == *s,
{
    match s {
        Some(t) => Some(t.clone()),
        None => None,
    }
}

impl Clone for DeviceDescriptor {
    fn clone(&self) -> (r: Self)
        ensures
            r == *self,
    {
        DeviceDescriptor {
            module_name: clone_text(&self.module_name),
            color_temp: self.color_temp,
            firmware_version: clone_text(&self.firmware_version),
            white_channels: self.white_channels,
            white_to_color_ratio: self.white_to_color_ratio,
            type_id_index: self.type_id_index,
        }
    }
}

impl Clone for OptionalDeviceDescriptor {
    fn clone(&self) -> (r: Self)
        ensures
            r == *self,
    {
        OptionalDeviceDescriptor {
            module_name: clone_text(&self.module_name),
            color_temp: self.color_temp,
            firmware_version: clone_text(&self.firmware_version),
            white_channels: self.white_channels,
            white_to_color_ratio: self.white_to_color_ratio,
            type_id_index: self.type_id_index,
        }
    }
}

} // verus!
