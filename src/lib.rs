//! A classification and configuration model for smart-lighting devices, and
//! a catalog of the lighting scenes they can play.
use vstd::prelude::*;

pub mod classify;
pub mod device;
pub mod error;
pub mod scenes;
pub mod text;
pub mod values;

verus! {

} // verus!
