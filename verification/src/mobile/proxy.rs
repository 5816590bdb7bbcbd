//! Proxy settings as the mobile applications exchange them.
use vstd::prelude::*;

verus! {

/// Proxy protocol.
#[derive(Debug, Copy, Clone, PartialEq, Eq, Structural)]
pub enum Protocol {
    Http,
    Socks5,
}

/// Proxy authentication.
#[derive(Debug)]
pub struct Auth {
    pub user: String,
    pub password: String,
}

/// Proxy configuration.
#[derive(Debug)]
pub struct Proxy {
    /// Protocol.
    pub protocol: Protocol,
    /// Host.
    pub host: String,
    /// Port.
    pub port: u16,
    pub auth: Option<Auth>,
}

} // verus!
