//! You Have Mail: the account, backend, observer and notification logic of an
//! application that tells you when new mail has arrived in your accounts.
pub mod api;
pub mod encryption;
pub mod event;
pub mod label;
pub mod mobile;
pub mod proxy;
pub mod text;

pub use proxy::{Proxy, ProxyAuth, ProxyProtocol};
pub mod backend;
pub mod config;
pub mod account;
pub mod observer;
