//! Configuration types of a WebRTC peer connection: ICE servers, media
//! capabilities and the transport settings, with a builder.

pub mod config;

pub use config::{IceCredentialType, IceServer, RtcConfiguration, RtcConfigurationBuilder};
