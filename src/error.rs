//! The failures of the catalog and of classification, each with what a
//! caller needs to explain it.
use vstd::prelude::*;

use crate::values::DeviceDescriptor;

verus! {

/// Why a lookup in the catalog or a classification failed.
#[derive(Debug)]
pub enum ModelError {
    /// The id names no scene.
    SceneId { given_id: u32, details: String },
    /// The name is no scene's display name.
    SceneName { given_name: String, details: String },
    /// No device type could be read from the descriptor, which is carried whole.
    DeviceTypeParse { data: DeviceDescriptor, details: String },
    /// A bulb that needs a color-temperature range has none; carries the resolved descriptor.
    DeviceColorTempParse { data: DeviceDescriptor, details: String },
}

} // verus!
