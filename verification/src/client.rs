//! An account's configuration and the outbound route that follows from it.

use crate::text::{decimal, has_prefix, join, render_decimal};
use vstd::prelude::*;
use vstd::string::*;

verus! {

/// One account: its credential and, if its traffic goes through a proxy, the
/// proxy's address.
#[derive(Debug, Clone, PartialEq, Eq)]
pub struct Config {
    pub token: String,
    pub proxy: Option<String>,
}

/// Mathematical value of a [`Config`].
pub struct ConfigView {
    pub token: Seq<char>,
    pub proxy: Option<Seq<char>>,
}

impl View for Config {
    type V = ConfigView;

    open spec fn view(&self) -> ConfigView {
        ConfigView {
            token: self.token@,
            proxy: self.proxy.deep_view(),
        }
    }
}

/// A user name and a password.
#[derive(Debug, PartialEq, Eq)]
pub struct Credentials {
    pub username: String,
    pub password: String,
}

/// How an account's requests leave the machine.
#[derive(Debug, PartialEq, Eq)]
pub enum Outbound {
    /// Without a proxy.
    Direct,
    /// Every request goes through the proxy at this address.
    All(String),
    /// Requests to `http` targets go through the proxy at this address.
    Http(String),
    /// Requests to `https` targets go through the proxy at this address, with
    /// basic authentication if credentials are given.
    Https { address: String, credentials: Option<Credentials> },
}

/// Mathematical value of an [`Outbound`].
pub enum OutboundView {
    Direct,
    All(Seq<char>),
    Http(Seq<char>),
    Https { address: Seq<char>, credentials: Option<(Seq<char>, Seq<char>)> },
}

impl View for Credentials {
    type V = (Seq<char>, Seq<char>);

    open spec fn view(&self) -> (Seq<char>, Seq<char>) {
        (self.username@, self.password@)
    }
}

impl Clone for Credentials {
    fn clone(&self) -> (copy: Credentials)
        ensures
            copy@ == self@,
    {
        Credentials { username: self.username.clone(), password: self.password.clone() }
    }
}

impl View for Outbound {
    type V = OutboundView;

    open spec fn view(&self) -> OutboundView {
        match self {
            Outbound::Direct => OutboundView::Direct,
            Outbound::All(address) => OutboundView::All(address@),
            Outbound::Http(address) => OutboundView::Http(address@),
            Outbound::Https { address, credentials } => OutboundView::Https {
                address: address@,
                credentials: match credentials {
                    Some(credentials) => Some(credentials@),
                    None => None,
                },
            },
        }
    }
}

impl Clone for Outbound {
    fn clone(&self) -> (copy: Outbound)
        ensures
            copy@ == self@,
    {
        match self {
            Outbound::Direct => Outbound::Direct,
            Outbound::All(address) => Outbound::All(address.clone()),
            Outbound::Http(address) => Outbound::Http(address.clone()),
            Outbound::Https { address, credentials } => Outbound::Https {
                address: address.clone(),
                credentials: match credentials {
                    Some(credentials) => Some(credentials.clone()),
                    None => None,
                },
            },
        }
    }
}

/// The route for a proxy setting as it is written in the configuration:
/// a `socks` address serves every request, an `http` address serves plain
/// HTTP, and an address without either prefix is taken as `http://` and the
/// address.
pub open spec fn route_of(proxy: Option<Seq<char>>) -> OutboundView {
    match proxy {
        None => OutboundView::Direct,
        Some(address) => if "socks"@.is_prefix_of(address) {
            OutboundView::All(address)
        } else if "http"@.is_prefix_of(address) {
            OutboundView::Http(address)
        } else {
            OutboundView::Http("http://"@ + address)
        },
    }
}

impl Config {
    /// The route that this account's requests take.
    pub fn route(&self) -> (outbound: Outbound)
        ensures
            outbound@ == route_of(self@.proxy),
    {
        match &self.proxy {
            None => Outbound::Direct,
            Some(address) => {
                if has_prefix(address.as_str(), "socks") {
                    Outbound::All(address.clone())
                } else if has_prefix(address.as_str(), "http") {
                    Outbound::Http(address.clone())
                } else {
                    Outbound::Http(join("http://", address.as_str()))
                }
            },
        }
    }

    /// Whether the address that the outside sees must be found out before the
    /// account's nodes are supervised: it must whenever a proxy is set.
    pub fn needs_address(&self) -> (needed: bool)
        ensures
            needed == self@.proxy is Some,
    {
        self.proxy.is_some()
    }
}

/// The parts of a proxy URL that the route is built from.
#[derive(Debug, PartialEq, Eq)]
pub struct ProxyUrl {
    pub scheme: String,
    pub host: Option<String>,
    pub port: Option<u16>,
    pub username: String,
    pub password: Option<String>,
}

/// Mathematical value of a [`ProxyUrl`].
pub struct ProxyUrlView {
    pub scheme: Seq<char>,
    pub host: Option<Seq<char>>,
    pub port: Option<u16>,
    pub username: Seq<char>,
    pub password: Option<Seq<char>>,
}

impl View for ProxyUrl {
    type V = ProxyUrlView;

    open spec fn view(&self) -> ProxyUrlView {
        ProxyUrlView {
            scheme: self.scheme@,
            host: self.host.deep_view(),
            port: self.port,
            username: self.username@,
            password: self.password.deep_view(),
        }
    }
}

/// The parts of `text` read as an absolute URL; `None` where it is none.
pub uninterp spec fn url_parts(text: Seq<char>) -> Option<ProxyUrlView>;

/// `reqwest::Url::parse`, with the scheme, host, port, user name and password
/// of the URL it returns copied out: they are the parts of `text`.
#[verifier::external_body]
fn parse_url(text: &str) -> (parts: Option<ProxyUrl>)
    ensures
        match parts {
            Some(parts) => url_parts(text@) == Some(parts@),
            None => url_parts(text@) is None,
        },
{
    match reqwest::Url::parse(text) {
        Ok(url) => Some(
            ProxyUrl {
                scheme: url.scheme().to_owned(),
                host: url.host_str().map(|host| host.to_owned()),
                port: url.port(),
                username: url.username().to_owned(),
                password: url.password().map(|password| password.to_owned()),
            },
        ),
        Err(_) => None,
    }
}

/// The proxy address that is built from a URL's parts: scheme, host and
/// port, with `127.0.0.1` for a missing host and 80 for a missing port.
pub open spec fn proxy_address(parts: ProxyUrlView) -> Seq<char> {
    parts.scheme + "://"@ + match parts.host {
        Some(host) => host,
        None => "127.0.0.1"@,
    } + ":"@ + decimal(
        match parts.port {
            Some(port) => port as nat,
            None => 80,
        },
    )
}

/// The route through the proxy that a URL's parts describe. Credentials are
/// used only where the URL names a user; a missing password is empty.
pub open spec fn proxied(parts: ProxyUrlView) -> OutboundView {
    OutboundView::Https {
        address: proxy_address(parts),
        credentials: if parts.username.len() == 0 {
            None
        } else {
            Some(
                (
                    parts.username,
                    match parts.password {
                        Some(password) => password,
                        None => Seq::empty(),
                    },
                ),
            )
        },
    }
}

/// The route through the proxy that `parts` describe.
pub fn proxy_through(parts: &ProxyUrl) -> (outbound: Outbound)
    ensures
        outbound@ == proxied(parts@),
{
    let mut address = join(parts.scheme.as_str(), "://");
    match &parts.host {
        Some(host) => address.append(host.as_str()),
        None => address.append("127.0.0.1"),
    }
    address.append(":");
    let port = match parts.port {
        Some(port) => port,
        None => 80,
    };
    let digits = render_decimal(port);
    address.append(digits.as_str());
    let credentials = if parts.username.as_str().is_empty() {
        None
    } else {
        Some(
            Credentials {
                username: parts.username.clone(),
                password: match &parts.password {
                    Some(password) => password.clone(),
                    None => String::new(),
                },
            },
        )
    };
    Outbound::Https { address, credentials }
}

/// Why an account's configuration cannot be used.
#[derive(Clone, Copy, Debug, PartialEq, Eq, Structural)]
pub enum ConfigError {
    /// The proxy setting is not an absolute URL.
    InvalidProxyUrl,
}

/// What `create_client` returns, given what the proxy setting parses to.
pub open spec fn client_for(proxy: Option<Seq<char>>) -> Result<OutboundView, ConfigError> {
    match proxy {
        None => Ok(OutboundView::Direct),
        Some(address) => match url_parts(address) {
            Some(parts) => Ok(proxied(parts)),
            None => Err(ConfigError::InvalidProxyUrl),
        },
    }
}

/// The mathematical value of what `create_client` returns.
pub open spec fn client_view(client: Result<Outbound, ConfigError>) -> Result<
    OutboundView,
    ConfigError,
> {
    match client {
        Ok(outbound) => Ok(outbound@),
        Err(error) => Err(error),
    }
}

/// The route for an account whose proxy setting is a URL with optional
/// credentials: direct without a proxy, else through the proxy that the URL
/// names. A setting that is no URL is an error.
pub fn create_client(user: &Config) -> (client: Result<Outbound, ConfigError>)
    ensures
        client_view(client) == client_for(user@.proxy),
{
    match &user.proxy {
        None => Ok(Outbound::Direct),
        Some(address) => match parse_url(address.as_str()) {
            Some(parts) => Ok(proxy_through(&parts)),
            None => Err(ConfigError::InvalidProxyUrl),
        },
    }
}

} // verus!
