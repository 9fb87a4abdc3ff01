//! HydraSDR RFOne receiver logic: configuration, vendor requests, receive
//! streams and their state, with every rule stated as a contract.
//!
//! The library performs no input or output. A driver sends the requests that
//! the library hands it, hands the replies and the completed USB transfers
//! back, and runs the sample arithmetic.

pub mod active_state;
pub mod commands;
pub mod config;
pub mod constants;
pub mod converter;
pub mod device;
pub mod direct;
pub mod discovery;
pub mod errors;
pub mod high_level;
pub mod opening;
pub mod owned;
mod private;
pub mod reading;
pub mod rfone;
pub mod rx_stream;
pub mod streaming;
pub mod text;
pub mod types;
pub mod usb;

pub use active_state::{ActiveState, GainStage};
pub use config::{
    Bandwidth, Config, ConfigBuilder, ConfigData, F32Iq, GainConfig, GainPreset, IntoGain, RawAdc,
    RfPort, SampleFormat, SampleMode, StageGain,
};
pub use constants::MAX_F32_IQ_SAMPLES_PER_TRANSFER;
pub use discovery::DeviceDescriptor;
pub use errors::{Error, ErrorKind, Result};
pub use high_level::{Device, DeviceBuilder, SampleBlock};
pub use rx_stream::RxStream;
pub use streaming::StreamingStats;
pub use types::{DecimationMode, DeviceInfo, RfPortInfo};
