//! Preparation of the transport: which server, whether the connection is
//! wrapped in TLS, and which credentials it presents.

use crate::config::{ConfigView, ConnectionConfig};
use crate::error::{SendError, SendErrorView};
use lettre::transport::smtp::authentication::Credentials;
use lettre::transport::smtp::client::{Tls, TlsParameters};
use lettre::transport::smtp::SmtpTransportBuilder;
use lettre::SmtpTransport;
use vstd::prelude::*;

verus! {

/// `lettre::SmtpTransport`; opaque here.
#[verifier::external_type_specification]
#[verifier::external_body]
pub struct ExSmtpTransport(SmtpTransport);

/// `lettre::transport::smtp::SmtpTransportBuilder`; opaque here.
#[verifier::external_type_specification]
#[verifier::external_body]
pub struct ExSmtpTransportBuilder(SmtpTransportBuilder);

/// `lettre::transport::smtp::client::TlsParameters`; opaque here.
#[verifier::external_type_specification]
#[verifier::external_body]
pub struct ExTlsParameters(TlsParameters);

/// `lettre::transport::smtp::authentication::Credentials`; opaque here.
#[verifier::external_type_specification]
#[verifier::external_body]
pub struct ExCredentials(Credentials);

/// `lettre::transport::smtp::Error`; opaque here.
#[verifier::external_type_specification]
#[verifier::external_body]
pub struct ExSmtpError(lettre::transport::smtp::Error);

/// How the connection to the server is protected.
#[derive(Clone, Copy, Debug, PartialEq, Eq, Structural)]
pub enum TlsMode {
    /// No TLS at all, not even an upgrade where the server offers one.
    Off,
    /// TLS from the first byte of the connection, the certificate checked
    /// against the server's host name.
    Wrapper,
}

/// What the transport is made of.
#[derive(Clone, Debug, PartialEq, Eq)]
pub struct TransportPlan {
    pub host: String,
    pub port: u16,
    pub tls: TlsMode,
    /// User name and password, if the transport presents credentials.
    pub credentials: Option<(String, String)>,
    /// The seconds that one step of the exchange may take, if the caller
    /// sets a limit; without one the mail library's own limit holds.
    pub time_limit: Option<u64>,
}

/// A [`TransportPlan`] as plain values.
pub ghost struct PlanView {
    pub host: Seq<char>,
    pub port: u16,
    pub tls: TlsMode,
    pub credentials: Option<(Seq<char>, Seq<char>)>,
    pub time_limit: Option<u64>,
}

impl View for TransportPlan {
    type V = PlanView;

    open spec fn view(&self) -> PlanView {
        PlanView {
            host: self.host@,
            port: self.port,
            tls: self.tls,
            credentials: match self.credentials {
                Some((user, password)) => Some((user@, password@)),
                None => None,
            },
            time_limit: self.time_limit,
        }
    }
}

/// The transport that a configuration asks for: its server and port; TLS
/// around the whole connection if it asks for TLS, else none; credentials
/// if it holds both a user name and a password; the time limit that the
/// caller sets, if any.
pub open spec fn planned(config: ConfigView, time_limit: Option<u64>) -> PlanView {
    PlanView {
        host: config.server_host,
        port: config.port,
        tls: if config.use_tls {
            TlsMode::Wrapper
        } else {
            TlsMode::Off
        },
        credentials: if config.username is Some && config.password is Some {
            Some((config.username->0, config.password->0))
        } else {
            None
        },
        time_limit,
    }
}

/// How a transport of the mail library protects its connection: not at
/// all, by an upgrade where the server offers one, by an upgrade that it
/// insists on, or by TLS from the first byte. Where TLS is used, the text is
/// the name that the server's certificate is checked against.
pub ghost enum TlsSetting {
    Off,
    Opportunistic(Seq<char>),
    Required(Seq<char>),
    Wrapper(Seq<char>),
}

/// What a transport of the mail library is set to: the server and the port
/// it connects to, how it protects the connection, the user name and the
/// password it presents, if any, and the seconds that a step of the
/// exchange may take, if they are limited.
pub ghost struct TransportSettings {
    pub host: Seq<char>,
    pub port: u16,
    pub tls: TlsSetting,
    pub credentials: Option<(Seq<char>, Seq<char>)>,
    pub timeout: Option<u64>,
}

/// What a transport builder is set to.
pub uninterp spec fn builder_settings(builder: SmtpTransportBuilder) -> TransportSettings;

/// What a transport is set to.
pub uninterp spec fn transport_settings(transport: SmtpTransport) -> TransportSettings;

/// The user name and the password that credentials hold.
pub uninterp spec fn credentials_pair(credentials: Credentials) -> (Seq<char>, Seq<char>);

/// The name that TLS parameters check the server's certificate against.
pub uninterp spec fn tls_domain(parameters: TlsParameters) -> Seq<char>;

/// The text that the mail library shows a transport error with when it is
/// debugged.
pub uninterp spec fn cause_of(error: lettre::transport::smtp::Error) -> Seq<char>;

/// The seconds that the mail library allows a step of the exchange where
/// no other limit is set.
pub const DEFAULT_TIME_LIMIT: u64 = 60;

/// What the transport made from a plan is set to: the plan's server and
/// port; TLS from the first byte, checked against the server's name, or no
/// TLS; the plan's credentials; the plan's time limit, or the mail
/// library's own.
pub open spec fn made_of(plan: PlanView) -> TransportSettings {
    TransportSettings {
        host: plan.host,
        port: plan.port,
        tls: match plan.tls {
            TlsMode::Off => TlsSetting::Off,
            TlsMode::Wrapper => TlsSetting::Wrapper(plan.host),
        },
        credentials: plan.credentials,
        timeout: match plan.time_limit {
            Some(seconds) => Some(seconds),
            None => Some(DEFAULT_TIME_LIMIT),
        },
    }
}

/// Calls `SmtpTransport::builder_dangerous` of `lettre` with a copy of
/// `host`: a builder for that server with the library's defaults, which
/// are port 25, no TLS, no credentials and a time limit of 60 seconds.
#[verifier::external_body]
fn builder_for(host: &str) -> (r: SmtpTransportBuilder)
    ensures
        builder_settings(r) == (TransportSettings {
            host: host@,
            port: 25,
            tls: TlsSetting::Off,
            credentials: None,
            timeout: Some(60),
        }),
{
    SmtpTransport::builder_dangerous(host)
}

/// `SmtpTransportBuilder::port` of `lettre`: sets the port and nothing
/// else.
pub assume_specification[ SmtpTransportBuilder::port ](
    builder: SmtpTransportBuilder,
    port: u16,
) -> (r: SmtpTransportBuilder)
    ensures
        builder_settings(r) == (TransportSettings { port, ..builder_settings(builder) }),
;

/// `SmtpTransportBuilder::credentials` of `lettre`: sets the credentials
/// and nothing else.
pub assume_specification[ SmtpTransportBuilder::credentials ](
    builder: SmtpTransportBuilder,
    credentials: Credentials,
) -> (r: SmtpTransportBuilder)
    ensures
        builder_settings(r) == (TransportSettings {
            credentials: Some(credentials_pair(credentials)),
            ..builder_settings(builder)
        }),
;

/// `SmtpTransportBuilder::build` of `lettre`: the transport with the
/// settings of the builder.
pub assume_specification[ SmtpTransportBuilder::build ](builder: SmtpTransportBuilder) -> (r:
    SmtpTransport)
    ensures
        transport_settings(r) == builder_settings(builder),
;

/// `Credentials::new` of `lettre`: credentials of the given user name and
/// password.
pub assume_specification[ Credentials::new ](username: String, password: String) -> (r:
    Credentials)
    ensures
        credentials_pair(r) == (username@, password@),
;

/// `TlsParameters::new` of `lettre`: the TLS parameters for a server name,
/// with the certificate store of the machine. Whether it succeeds depends
/// on that store; parameters that it does give check against the name
/// given.
pub assume_specification[ TlsParameters::new ](domain: String) -> (r: Result<
    TlsParameters,
    lettre::transport::smtp::Error,
>)
    ensures
        r matches Ok(p) ==> tls_domain(p) == domain@,
;

/// Calls `SmtpTransportBuilder::tls` of `lettre` with `Tls::Wrapper` around
/// `parameters`: sets TLS from the first byte and nothing else.
#[verifier::external_body]
fn with_tls_wrapper(builder: SmtpTransportBuilder, parameters: TlsParameters) -> (r:
    SmtpTransportBuilder)
    ensures
        builder_settings(r) == (TransportSettings {
            tls: TlsSetting::Wrapper(tls_domain(parameters)),
            ..builder_settings(builder)
        }),
{
    builder.tls(Tls::Wrapper(parameters))
}

/// Calls `SmtpTransportBuilder::tls` of `lettre` with `Tls::None`: sets
/// that no TLS is used, and nothing else.
#[verifier::external_body]
fn without_tls(builder: SmtpTransportBuilder) -> (r: SmtpTransportBuilder)
    ensures
        builder_settings(r) == (TransportSettings {
            tls: TlsSetting::Off,
            ..builder_settings(builder)
        }),
{
    builder.tls(Tls::None)
}

/// Calls `SmtpTransportBuilder::timeout` of `lettre` with a duration of
/// `seconds` seconds: sets the time limit and nothing else.
#[verifier::external_body]
fn with_timeout(builder: SmtpTransportBuilder, seconds: u64) -> (r: SmtpTransportBuilder)
    ensures
        builder_settings(r) == (TransportSettings {
            timeout: Some(seconds),
            ..builder_settings(builder)
        }),
{
    builder.timeout(Some(std::time::Duration::from_secs(seconds)))
}

/// The text that `lettre` shows its transport error with when it is
/// debugged.
#[verifier::external_body]
fn cause_text(error: &lettre::transport::smtp::Error) -> (r: String)
    ensures
        r@ == cause_of(*error),
{
    format!("{:?}", error)
}

/// The transport that `config` asks for, with the time limit that the
/// caller sets.
pub fn plan_transport(config: &ConnectionConfig, time_limit: Option<u64>) -> (r: TransportPlan)
    ensures
        r@ == planned(config@, time_limit),
{
    let credentials = match (&config.username, &config.password) {
        (Some(user), Some(password)) => Some((user.clone(), password.clone())),
        _ => None,
    };
    TransportPlan {
        host: config.server_host.clone(),
        port: config.port,
        tls: if config.use_tls {
            TlsMode::Wrapper
        } else {
            TlsMode::Off
        },
        credentials,
        time_limit,
    }
}

/// What becomes of a builder once the TLS parameters were asked for: with
/// parameters the connection is wrapped in TLS and nothing else changes;
/// without them setting up the transport has failed, for the cause that
/// the mail library gives.
pub fn secured(
    builder: SmtpTransportBuilder,
    parameters: Result<TlsParameters, lettre::transport::smtp::Error>,
) -> (r: Result<SmtpTransportBuilder, SendError>)
    ensures
        match parameters {
            Ok(p) => r matches Ok(b) && builder_settings(b) == (TransportSettings {
                tls: TlsSetting::Wrapper(tls_domain(p)),
                ..builder_settings(builder)
            }),
            Err(error) => r matches Err(e) && e@ == SendErrorView::TlsSetupFailed(
                cause_of(error),
            ),
        },
{
    match parameters {
        Ok(p) => Ok(with_tls_wrapper(builder, p)),
        Err(e) => Err(SendError::TlsSetupFailed(cause_text(&e))),
    }
}

/// Makes the transport that `plan` describes. No connection is opened.
/// Only the construction of TLS parameters can fail, so a plan without TLS
/// always gives a transport.
pub fn open_transport(plan: &TransportPlan) -> (r: Result<SmtpTransport, SendError>)
    ensures
        plan.tls is Off ==> r is Ok,
        match r {
            Ok(transport) => transport_settings(transport) == made_of(plan@),
            Err(e) => e is TlsSetupFailed,
        },
{
    let mut builder = builder_for(plan.host.as_str()).port(plan.port);
    builder = match plan.tls {
        TlsMode::Wrapper => match secured(builder, TlsParameters::new(plan.host.clone())) {
            Ok(b) => b,
            Err(e) => {
                return Err(e);
            },
        },
        TlsMode::Off => without_tls(builder),
    };
    match &plan.credentials {
        Some((user, password)) => {
            builder = builder.credentials(Credentials::new(user.clone(), password.clone()));
        },
        None => {},
    }
    match plan.time_limit {
        Some(seconds) => {
            builder = with_timeout(builder, seconds);
        },
        None => {},
    }
    Ok(builder.build())
}

/// Makes the transport for `config`, without a time limit of the
/// caller's: plans it and opens the plan.
pub fn create_transport(config: &ConnectionConfig) -> (r: Result<SmtpTransport, SendError>)
    ensures
        !config.use_tls ==> r is Ok,
        match r {
            Ok(transport) => transport_settings(transport) == made_of(planned(config@, None)),
            Err(e) => e is TlsSetupFailed,
        },
{
    let plan = plan_transport(config, None);
    open_transport(&plan)
}

} // verus!
