//! Safe host-side layer over a USB software-defined-radio tuner driver.
//!
//! The native driver is reached by the embedding program; this library holds
//! everything that decides: how native status codes become errors, how
//! configuration values are encoded for the driver and decoded from it, how
//! text buffers are read, how a streaming session proceeds, and how the
//! device handle is owned and released.
pub mod error;
pub mod text;
pub mod modes;
pub mod device;
pub mod stream;

pub use error::{Error, to_success};
pub use modes::{DirectSampling, Tuner};
pub use device::{Device, USBStrings};
