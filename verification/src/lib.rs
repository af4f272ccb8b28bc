//! Data marshaling layer for a software-defined-radio control library.
//!
//! The native hardware library reports results through signed return codes,
//! numeric enumeration values, and fixed-size character buffers.  This crate
//! holds the translation rules for all of those: error-code tables, channel
//! and loopback code maps, return-code sign checks, and serial-string
//! extraction.  Every function here carries a contract that pins its result
//! down exactly; the raw foreign calls themselves live outside this crate.

pub mod channel;
pub mod config;
pub mod error;
pub mod info;
pub mod loopback;
pub mod status;

pub use channel::BladeRFChannel;
pub use config::BladeRFConfig;
pub use config::BladeRFModuleConfig;
pub use error::BladeRfError;
pub use info::DevInfo;
pub use info::Metadata;
pub use info::QuickTune;
pub use info::RationalRate;
pub use info::Version;
pub use loopback::BladeRFLoopback;
