//! One send, from what the caller gives to what the server answered:
//! everything that can be decided before and after the exchange itself.

use crate::config::{resolve, resolved, Defaults, PartialConnectionConfig};
use crate::error::{SendError, SendErrorView};
use crate::mail::{assemble, assembled_for, refused_for};
use crate::message::{built, MessageInputs, MessageSpec};
use crate::number::{decimal, to_decimal};
use crate::text::{join, join_text, views};
use crate::transport::{
    made_of, open_transport, plan_transport, planned, transport_settings, TransportPlan,
};
use lettre::Message;
use lettre::SmtpTransport;
use vstd::prelude::*;

verus! {

/// What a caller gives for one send: the message and the connection
/// settings that are to differ from the configured ones.
#[derive(Clone, Debug, PartialEq, Eq)]
pub struct SendRequest {
    pub message: MessageInputs,
    pub connection: PartialConnectionConfig,
    /// The seconds that one step of the exchange with the server may take,
    /// if the caller sets a limit.
    pub time_limit: Option<u64>,
}

/// All that a send needs before the exchange with the server: the
/// transport and the message as they were decided, and what the mail
/// library made of them.
#[derive(Debug)]
pub struct Prepared {
    pub plan: TransportPlan,
    pub spec: MessageSpec,
    /// The transport made from `plan`.
    pub transport: SmtpTransport,
    /// The message assembled from `spec`.
    pub message: Message,
}

/// What a send came to.
#[derive(Clone, Debug, PartialEq, Eq)]
pub struct SendResult {
    pub succeeded: bool,
    /// The reply code in decimal digits.
    pub code: String,
    /// The lines of the reply.
    pub detail: String,
}

/// A [`SendResult`] as plain values.
pub ghost struct ResultView {
    pub succeeded: bool,
    pub code: Seq<char>,
    pub detail: Seq<char>,
}

impl View for SendResult {
    type V = ResultView;

    open spec fn view(&self) -> ResultView {
        ResultView { succeeded: self.succeeded, code: self.code@, detail: self.detail@ }
    }
}

/// Whether a reply code says that the requested action was completed: the
/// codes from 200 to 299.
pub open spec fn is_positive_completion(code: u16) -> bool {
    200 <= code <= 299
}

/// What a reply with the given code and lines means: success exactly for a
/// positive completion; the code in decimal digits; the lines joined by a
/// semicolon and a space.
pub open spec fn interpreted(code: u16, lines: Seq<Seq<char>>) -> ResultView {
    ResultView {
        succeeded: is_positive_completion(code),
        code: decimal(code as nat),
        detail: join(lines, "; "@),
    }
}

/// What the caller gets for a result: the code of a success, or the
/// rejection with code and detail.
pub open spec fn outcome_of(result: ResultView) -> Result<Seq<char>, SendErrorView> {
    if result.succeeded {
        Ok(result.code)
    } else {
        Err(SendErrorView::SmtpRejected(result.code, result.detail))
    }
}

/// What the caller gets once the exchange is over: for a reply, what the
/// reply means; for an exchange that failed, that failure with its cause.
pub open spec fn concluded(exchange: Result<(u16, Seq<Seq<char>>), Seq<char>>) -> Result<
    Seq<char>,
    SendErrorView,
> {
    match exchange {
        Ok((code, lines)) => outcome_of(interpreted(code, lines)),
        Err(cause) => Err(SendErrorView::TransportSendFailed(cause)),
    }
}

/// What an exchange came to, with its texts as sequences of characters.
pub open spec fn exchange_view(exchange: Result<(u16, Vec<String>), String>) -> Result<
    (u16, Seq<Seq<char>>),
    Seq<char>,
> {
    match exchange {
        Ok((code, lines)) => Ok((code, views(lines@))),
        Err(cause) => Err(cause@),
    }
}

/// The characters of a text that may stand for a success.
pub open spec fn outcome_view(outcome: Result<String, SendError>) -> Result<
    Seq<char>,
    SendErrorView,
> {
    match outcome {
        Ok(code) => Ok(code@),
        Err(e) => Err(e@),
    }
}

/// Resolves the connection settings, builds the message, has it assembled
/// and makes the transport, in this order. The first failure ends the
/// preparation; nothing here opens a connection. Once settings and message
/// stand, the preparation fails exactly where the mail library refuses the
/// message or, with TLS, cannot set it up.
pub fn prepare(request: &SendRequest, defaults: &Defaults) -> (r: Result<Prepared, SendError>)
    ensures
        match resolved(request.connection@, defaults@) {
            Err(e) => r matches Err(x) && x@ == e,
            Ok(config) => match built(request.message@, defaults@.from_address) {
                Err(e) => r matches Err(x) && x@ == e,
                Ok(m) => match r {
                    Ok(p) => {
                        &&& !refused_for(m)
                        &&& p.plan@ == planned(config, request.time_limit)
                        &&& p.spec@ == m
                        &&& transport_settings(p.transport) == made_of(p.plan@)
                        &&& assembled_for(p.message, m)
                    },
                    Err(x) => if refused_for(m) {
                        x is InvalidMessage
                    } else {
                        x is TlsSetupFailed && config.use_tls
                    },
                },
            },
        },
{
    let config = match resolve(&request.connection, defaults) {
        Ok(c) => c,
        Err(e) => {
            return Err(e);
        },
    };
    let default_from: Option<&str> = match &defaults.from_address {
        Some(f) => Some(f.as_str()),
        None => None,
    };
    let spec = match crate::message::build(&request.message, default_from) {
        Ok(m) => m,
        Err(e) => {
            return Err(e);
        },
    };
    let message = match assemble(&spec) {
        Ok(m) => m,
        Err(e) => {
            return Err(e);
        },
    };
    let plan = plan_transport(&config, request.time_limit);
    let transport = match open_transport(&plan) {
        Ok(t) => t,
        Err(e) => {
            return Err(e);
        },
    };
    Ok(Prepared { plan, spec, transport, message })
}

/// Reads the server's reply: its code and the lines of its text.
pub fn interpret(code: u16, lines: &Vec<String>) -> (r: SendResult)
    ensures
        r@ == interpreted(code, views(lines@)),
{
    SendResult {
        succeeded: 200 <= code && code <= 299,
        code: to_decimal(code),
        detail: join_text(lines, "; "),
    }
}

impl SendResult {
    /// The code of a success, or the rejection that a failure is.
    pub fn into_outcome(self) -> (r: Result<String, SendError>)
        ensures
            outcome_view(r) == outcome_of(self@),
    {
        if self.succeeded {
            Ok(self.code)
        } else {
            Err(SendError::SmtpRejected(self.code, self.detail))
        }
    }
}

/// Settles a send once the exchange with the server is over. `exchange`
/// holds the code and the lines of the server's reply or, where no reply
/// was had, the cause.
pub fn conclude(exchange: Result<(u16, Vec<String>), String>) -> (r: Result<String, SendError>)
    ensures
        outcome_view(r) == concluded(exchange_view(exchange)),
{
    match exchange {
        Ok((code, lines)) => interpret(code, &lines).into_outcome(),
        Err(cause) => Err(SendError::TransportSendFailed(cause)),
    }
}

/// Sends one message: prepares it, has `submit` carry out the exchange
/// with the server, and settles on what came of it. `submit` gets the
/// transport and the message, and gives the code and the lines of the
/// server's reply or the cause of its failure; it must take whatever was
/// prepared. Where the preparation fails the result is that failure,
/// whatever `submit` would do.
pub fn send<F>(request: &SendRequest, defaults: &Defaults, submit: F) -> (r: Result<
    String,
    SendError,
>) where F: FnOnce(&Prepared) -> Result<(u16, Vec<String>), String>
    requires
        forall|p: &Prepared| call_requires(submit, (p,)),
    ensures
        match resolved(request.connection@, defaults@) {
            Err(e) => r matches Err(x) && x@ == e,
            Ok(config) => match built(request.message@, defaults@.from_address) {
                Err(e) => r matches Err(x) && x@ == e,
                Ok(m) => if refused_for(m) {
                    r matches Err(x) && x is InvalidMessage
                } else {
                    ||| (r matches Err(x) && x is TlsSetupFailed && config.use_tls)
                    ||| exists|p: Prepared, exchange: Result<(u16, Vec<String>), String>|
                        {
                            &&& p.plan@ == planned(config, request.time_limit)
                            &&& p.spec@ == m
                            &&& transport_settings(p.transport) == made_of(p.plan@)
                            &&& assembled_for(p.message, m)
                            &&& #[trigger] call_ensures(submit, (&p,), exchange)
                            &&& outcome_view(r) == concluded(exchange_view(exchange))
                        }
                },
            },
        },
{
    let prepared = match prepare(request, defaults) {
        Ok(p) => p,
        Err(e) => {
            return Err(e);
        },
    };
    conclude(submit(&prepared))
}

} // verus!
