//! Proxy settings applied to the connections of an account.
use vstd::prelude::*;

verus! {

/// Protocol spoken with the proxy.
#[derive(Debug, Copy, Clone, PartialEq, Eq, Structural)]
pub enum ProxyProtocol {
    Https,
    Socks5,
}

/// Credentials presented to the proxy.
#[derive(Debug)]
pub struct ProxyAuth {
    pub username: String,
    pub password: String,
}

/// A proxy through which the requests of an account are sent.
#[derive(Debug)]
pub struct Proxy {
    pub protocol: ProxyProtocol,
    pub auth: Option<ProxyAuth>,
    pub url: String,
    pub port: u16,
}

/// Mathematical value of a [`ProxyAuth`]: user name and password.
pub type ProxyAuthView = (Seq<char>, Seq<char>);

/// Mathematical value of a [`Proxy`].
pub struct ProxyView {
    pub protocol: ProxyProtocol,
    pub auth: Option<ProxyAuthView>,
    pub url: Seq<char>,
    pub port: u16,
}

impl View for ProxyAuth {
    type V = ProxyAuthView;

    open spec fn view(&self) -> ProxyAuthView {
        (self.username@, self.password@)
    }
}

/// The value of an optional credential.
pub open spec fn auth_view(auth: Option<ProxyAuth>) -> Option<ProxyAuthView> {
    match auth {
        Some(a) => Some(a@),
        None => None,
    }
}

impl View for Proxy {
    type V = ProxyView;

    open spec fn view(&self) -> ProxyView {
        ProxyView { protocol: self.protocol, auth: auth_view(self.auth), url: self.url@, port: self.port }
    }
}

/// The value of an optional borrowed proxy.
pub open spec fn proxy_ref_view(p: Option<&Proxy>) -> Option<ProxyView> {
    match p {
        Some(p) => Some(p@),
        None => None,
    }
}

/// The value of an optional proxy.
pub open spec fn proxy_opt_view(p: Option<Proxy>) -> Option<ProxyView> {
    match p {
        Some(p) => Some(p@),
        None => None,
    }
}

impl PartialEq for ProxyAuth {
    fn eq(&self, other: &Self) -> (r: bool) {
        self.username == other.username && self.password == other.password
    }
}

impl vstd::std_specs::cmp::PartialEqSpecImpl for ProxyAuth {
    open spec fn obeys_eq_spec() -> bool {
        true
    }

    open spec fn eq_spec(&self, other: &ProxyAuth) -> bool {
        self@ == other@
    }
}

impl Eq for ProxyAuth {}

impl Clone for ProxyAuth {
    fn clone(&self) -> (r: Self)
        ensures
            r@ == self@,
    {
        ProxyAuth { username: self.username.clone(), password: self.password.clone() }
    }
}

/// Whether two optional credentials are equal.
pub fn auth_eq(a: &Option<ProxyAuth>, b: &Option<ProxyAuth>) -> (r: bool)
    ensures
        r == (auth_view(*a) == auth_view(*b)),
{
    match (a, b) {
        (None, None) => true,
        (Some(x), Some(y)) => x.username == y.username && x.password == y.password,
        _ => false,
    }
}

impl PartialEq for Proxy {
    fn eq(&self, other: &Self) -> (r: bool) {
        self.protocol == other.protocol && auth_eq(&self.auth, &other.auth) && self.url == other.url
            && self.port == other.port
    }
}

impl vstd::std_specs::cmp::PartialEqSpecImpl for Proxy {
    open spec fn obeys_eq_spec() -> bool {
        true
    }

    open spec fn eq_spec(&self, other: &Proxy) -> bool {
        self@ == other@
    }
}

impl Eq for Proxy {}

impl Clone for Proxy {
    fn clone(&self) -> (r: Self)
        ensures
            r@ == self@,
    {
        let auth = match &self.auth {
            Some(a) => Some(a.clone()),
            None => None,
        };
        Proxy { protocol: self.protocol, auth, url: self.url.clone(), port: self.port }
    }
}

/// A copy of an optional proxy.
pub fn clone_proxy_opt(p: Option<&Proxy>) -> (r: Option<Proxy>)
    ensures
        proxy_opt_view(r) == proxy_ref_view(p),
{
    match p {
        Some(x) => Some(x.clone()),
        None => None,
    }
}

/// Whether two optional proxies are equal.
pub fn proxy_opt_eq(a: Option<&Proxy>, b: Option<&Proxy>) -> (r: bool)
    ensures
        r == (proxy_ref_view(a) == proxy_ref_view(b)),
{
    match (a, b) {
        (None, None) => true,
        (Some(x), Some(y)) => x == y,
        _ => false,
    }
}

} // verus!
