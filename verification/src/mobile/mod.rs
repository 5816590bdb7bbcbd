//! The layer that mobile applications bind to: their events, errors,
//! proxy settings and the Android notification ids.
pub mod android;
pub mod errors;
pub mod events;
pub mod notify;
pub mod proton;
pub mod proxy;
pub mod service;
pub mod yhm;
