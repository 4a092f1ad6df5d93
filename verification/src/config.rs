//! Resolution of the connection settings: what a call gives wins over what
//! the process-wide source gives, which wins over the built-in default.

use crate::error::{Missing, SendError, SendErrorView, Setting};
use crate::number::{bool_of, parse_bool, parse_u16, u16_of, ValueFault};
use crate::text::text_of;
use vstd::prelude::*;

verus! {

/// The port used when neither the call nor the source gives one.
pub const DEFAULT_PORT: u16 = 587;

/// Whether TLS is used when neither the call nor the source says.
pub const DEFAULT_TLS: bool = true;

/// The connection settings that one call gives; each may be absent.
#[derive(Clone, Debug, PartialEq, Eq)]
pub struct PartialConnectionConfig {
    pub server_host: Option<String>,
    pub port: Option<u16>,
    pub use_tls: Option<bool>,
    pub username: Option<String>,
    pub password: Option<String>,
}

/// The process-wide settings as their source holds them: uninterpreted
/// text, each value present or not.
#[derive(Clone, Debug, PartialEq, Eq)]
pub struct Defaults {
    pub server: Option<String>,
    pub port: Option<String>,
    pub tls: Option<String>,
    pub username: Option<String>,
    pub password: Option<String>,
    pub from_address: Option<String>,
}

/// Complete connection settings.
#[derive(Clone, Debug, PartialEq, Eq)]
pub struct ConnectionConfig {
    pub server_host: String,
    pub port: u16,
    pub use_tls: bool,
    pub username: Option<String>,
    pub password: Option<String>,
}

/// A [`PartialConnectionConfig`] as plain values.
pub ghost struct PartialView {
    pub server_host: Option<Seq<char>>,
    pub port: Option<u16>,
    pub use_tls: Option<bool>,
    pub username: Option<Seq<char>>,
    pub password: Option<Seq<char>>,
}

/// [`Defaults`] as plain values.
pub ghost struct DefaultsView {
    pub server: Option<Seq<char>>,
    pub port: Option<Seq<char>>,
    pub tls: Option<Seq<char>>,
    pub username: Option<Seq<char>>,
    pub password: Option<Seq<char>>,
    pub from_address: Option<Seq<char>>,
}

/// A [`ConnectionConfig`] as plain values.
pub ghost struct ConfigView {
    pub server_host: Seq<char>,
    pub port: u16,
    pub use_tls: bool,
    pub username: Option<Seq<char>>,
    pub password: Option<Seq<char>>,
}

impl View for PartialConnectionConfig {
    type V = PartialView;

    open spec fn view(&self) -> PartialView {
        PartialView {
            server_host: text_of(self.server_host),
            port: self.port,
            use_tls: self.use_tls,
            username: text_of(self.username),
            password: text_of(self.password),
        }
    }
}

impl View for Defaults {
    type V = DefaultsView;

    open spec fn view(&self) -> DefaultsView {
        DefaultsView {
            server: text_of(self.server),
            port: text_of(self.port),
            tls: text_of(self.tls),
            username: text_of(self.username),
            password: text_of(self.password),
            from_address: text_of(self.from_address),
        }
    }
}

impl View for ConnectionConfig {
    type V = ConfigView;

    open spec fn view(&self) -> ConfigView {
        ConfigView {
            server_host: self.server_host@,
            port: self.port,
            use_tls: self.use_tls,
            username: text_of(self.username),
            password: text_of(self.password),
        }
    }
}

impl ConfigView {
    /// What holds of every resolved configuration: the host is not empty,
    /// and user name and password are both present or both absent.
    pub open spec fn well_formed(self) -> bool {
        &&& self.server_host.len() > 0
        &&& self.username is Some <==> self.password is Some
    }
}

/// The value given by the call if there is one, else the value of the
/// source.
pub open spec fn preferred<T>(explicit: Option<T>, fallback: Option<T>) -> Option<T> {
    if explicit is Some {
        explicit
    } else {
        fallback
    }
}

/// The port that a call and the source give together.
pub open spec fn resolved_port(explicit: Option<u16>, source: Option<Seq<char>>) -> Result<
    u16,
    ValueFault,
> {
    match explicit {
        Some(p) => Ok(p),
        None => match source {
            Some(text) => u16_of(text),
            None => Ok(DEFAULT_PORT),
        },
    }
}

/// The TLS choice that a call and the source give together.
pub open spec fn resolved_tls(explicit: Option<bool>, source: Option<Seq<char>>) -> Result<
    bool,
    ValueFault,
> {
    match explicit {
        Some(b) => Ok(b),
        None => match source {
            Some(text) => bool_of(text),
            None => Ok(DEFAULT_TLS),
        },
    }
}

/// The configuration that a call's settings and the source's give together,
/// or the first thing that is wrong: the server, then the port, then the
/// TLS choice, then the credentials, of which one half may not be present
/// without the other.
pub open spec fn resolved(call: PartialView, source: DefaultsView) -> Result<
    ConfigView,
    SendErrorView,
> {
    let host = preferred(call.server_host, source.server);
    let port = resolved_port(call.port, source.port);
    let tls = resolved_tls(call.use_tls, source.tls);
    let username = preferred(call.username, source.username);
    let password = preferred(call.password, source.password);
    if host is None {
        Err(SendErrorView::MissingConfig(Setting::Server))
    } else if host->0.len() == 0 {
        Err(SendErrorView::InvalidConfig(Setting::Server, ValueFault::Empty))
    } else if port is Err {
        Err(SendErrorView::InvalidConfig(Setting::Port, port->Err_0))
    } else if tls is Err {
        Err(SendErrorView::InvalidConfig(Setting::Tls, tls->Err_0))
    } else if username is Some && password is None {
        Err(SendErrorView::IncompleteCredentials(Missing::Password))
    } else if username is None && password is Some {
        Err(SendErrorView::IncompleteCredentials(Missing::Username))
    } else {
        Ok(
            ConfigView {
                server_host: host->0,
                port: port->Ok_0,
                use_tls: tls->Ok_0,
                username,
                password,
            },
        )
    }
}

/// Every configuration that resolution gives is well formed.
pub proof fn lemma_resolved_well_formed(call: PartialView, source: DefaultsView)
    ensures
        resolved(call, source) matches Ok(config) ==> config.well_formed(),
{
}

/// A server given by the call is the server of the result, and the server
/// of the source plays no part: with any other server there, or none,
/// resolution gives the same.
pub proof fn lemma_server_override_wins(
    call: PartialView,
    source: DefaultsView,
    server: Option<Seq<char>>,
)
    requires
        call.server_host is Some,
    ensures
        resolved(call, source) == resolved(call, DefaultsView { server, ..source }),
        resolved(call, source) matches Ok(config) ==> config.server_host == call.server_host->0,
{
}

/// Without a server in the call and without one in the source, resolution
/// fails for want of a server, whatever else is given.
pub proof fn lemma_server_missing(call: PartialView, source: DefaultsView)
    requires
        call.server_host is None,
        source.server is None,
    ensures
        resolved(call, source) == Err::<ConfigView, _>(
            SendErrorView::MissingConfig(Setting::Server),
        ),
{
}

/// What a port given as a signed number denotes: itself, if it lies
/// between 0 and 65535.
pub open spec fn port_value(value: i32) -> Result<u16, ValueFault> {
    if 0 <= value <= 65535 {
        Ok(value as u16)
    } else {
        Err(ValueFault::OutOfRange)
    }
}

/// Reads a port that is given as a signed number.
pub fn port_of(value: i32) -> (r: Result<u16, ValueFault>)
    ensures
        r == port_value(value),
{
    if 0 <= value && value <= 65535 {
        Ok(value as u16)
    } else {
        Err(ValueFault::OutOfRange)
    }
}

/// What a port that a call gives as a signed number denotes as a setting
/// of the call: nothing if the call gives none, the port if it fits, and
/// else an invalid port.
pub open spec fn port_setting(value: Option<i32>) -> Result<Option<u16>, SendErrorView> {
    match value {
        None => Ok(None),
        Some(v) => match port_value(v) {
            Ok(port) => Ok(Some(port)),
            Err(fault) => Err(SendErrorView::InvalidConfig(Setting::Port, fault)),
        },
    }
}

/// Reads the port that a call gives as a signed number, if it gives one.
pub fn port_override(value: Option<i32>) -> (r: Result<Option<u16>, SendError>)
    ensures
        match r {
            Ok(port) => port_setting(value) == Ok::<_, SendErrorView>(port),
            Err(e) => port_setting(value) == Err::<Option<u16>, _>(e@),
        },
{
    match value {
        None => Ok(None),
        Some(v) => match port_of(v) {
            Ok(port) => Ok(Some(port)),
            Err(fault) => Err(SendError::InvalidConfig(Setting::Port, fault)),
        },
    }
}

/// The value given by the call if there is one, else the value of the
/// source.
pub fn prefer<T>(explicit: Option<T>, fallback: Option<T>) -> (r: Option<T>)
    ensures
        r == preferred(explicit, fallback),
{
    match explicit {
        Some(value) => Some(value),
        None => fallback,
    }
}

/// A copy of an optional string.
fn copied(value: Option<&String>) -> (r: Option<String>)
    ensures
        text_of(r) == match value {
            Some(s) => Some(s@),
            None => None,
        },
{
    match value {
        Some(s) => Some(s.clone()),
        None => None,
    }
}

/// Resolves the connection settings of one call against the process-wide
/// source.
pub fn resolve(call: &PartialConnectionConfig, source: &Defaults) -> (r: Result<
    ConnectionConfig,
    SendError,
>)
    ensures
        match r {
            Ok(config) => resolved(call@, source@) == Ok::<_, SendErrorView>(config@)
                && config@.well_formed(),
            Err(e) => resolved(call@, source@) == Err::<ConfigView, _>(e@),
        },
{
    let host = match prefer(call.server_host.as_ref(), source.server.as_ref()) {
        Some(h) => h,
        None => {
            return Err(SendError::MissingConfig(Setting::Server));
        },
    };
    if host.as_str().unicode_len() == 0 {
        return Err(SendError::InvalidConfig(Setting::Server, ValueFault::Empty));
    }
    let port: u16 = match call.port {
        Some(p) => p,
        None => match &source.port {
            Some(text) => match parse_u16(text.as_str()) {
                Ok(p) => p,
                Err(fault) => {
                    return Err(SendError::InvalidConfig(Setting::Port, fault));
                },
            },
            None => DEFAULT_PORT,
        },
    };
    let use_tls = match call.use_tls {
        Some(b) => b,
        None => match &source.tls {
            Some(text) => match parse_bool(text.as_str()) {
                Ok(b) => b,
                Err(fault) => {
                    return Err(SendError::InvalidConfig(Setting::Tls, fault));
                },
            },
            None => DEFAULT_TLS,
        },
    };
    let username = prefer(call.username.as_ref(), source.username.as_ref());
    let password = prefer(call.password.as_ref(), source.password.as_ref());
    if username.is_some() && password.is_none() {
        return Err(SendError::IncompleteCredentials(Missing::Password));
    }
    if username.is_none() && password.is_some() {
        return Err(SendError::IncompleteCredentials(Missing::Username));
    }
    Ok(
        ConnectionConfig {
            server_host: host.clone(),
            port,
            use_tls,
            username: copied(username),
            password: copied(password),
        },
    )
}

} // verus!
