//! What the operations of this crate fail with.
//!
//! Every failure hands back the input that caused it.

use crate::definition::DeviceDescriptor;
use crate::network::{Params, ParamsFilter};
use vstd::prelude::*;

verus! {

/// A scene was asked for that the catalogue lacks.
#[derive(Debug)]
pub enum SceneError {
    /// No scene has this number.
    IDError(u32),
    /// No scene has this display name.
    NameError(String),
}

/// A descriptor did not tell what a device is.
#[derive(Debug)]
pub enum ParseError {
    /// The kind of the device cannot be told. Holds the descriptor that was
    /// read.
    UndefinedType(DeviceDescriptor),
    /// The kind of the device needs a range of colour temperatures, and the
    /// descriptor gives none. Holds the descriptor that the device would
    /// have had.
    ColorTemp(DeviceDescriptor),
}

/// A device could not be made.
#[derive(Debug)]
pub enum DeviceError {
    Parse(ParseError),
}

/// A command could not be made.
#[derive(Debug)]
pub enum QueryError {
    /// The method requires a parameter that is absent. Holds the parameters
    /// that were given and the mask of the method.
    FilterError { params: Params, filter: ParamsFilter },
}

} // verus!
