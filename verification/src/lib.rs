//! Capability model for network-controllable lighting devices.
//!
//! The crate classifies a device from the descriptor it announces, keeps its
//! brightness and colour state in a canonical form, overlays partial updates
//! on a device, and checks the parameters of a remote command against the
//! fields that the command requires.

pub mod color;
pub mod definition;
pub mod device;
pub mod errors;
pub mod group;
pub mod intensity;
pub mod network;
pub mod outside;
pub mod overlay;
pub mod scene;
pub mod text;
