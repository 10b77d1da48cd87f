//! Verified core of a side-chain ducker: parameter storage, engine state
//! machine, stream configuration choice, device selection and the integer
//! bookkeeping of the audio callbacks.

pub mod params;
pub mod config;
pub mod settings;
pub mod stats;
pub mod engine;
pub mod routing;
pub mod devices;
pub mod trigger;
pub mod gate;
