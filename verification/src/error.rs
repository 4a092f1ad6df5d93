//! The failures that preparing and sending a message can end in, and the
//! text each of them is reported with.

use crate::number::ValueFault;
use vstd::prelude::*;

verus! {

/// The address list or header that an address was given for.
#[derive(Clone, Copy, Debug, PartialEq, Eq, Structural)]
pub enum Field {
    From,
    To,
    Cc,
    Bcc,
}

/// A connection setting that resolution can find missing or unusable.
#[derive(Clone, Copy, Debug, PartialEq, Eq, Structural)]
pub enum Setting {
    Server,
    Port,
    Tls,
}

/// The half of the credentials that is missing where only the other half
/// is present.
#[derive(Clone, Copy, Debug, PartialEq, Eq, Structural)]
pub enum Missing {
    Username,
    Password,
}

/// A failure of configuration, message construction, transport setup or
/// delivery.
#[derive(Clone, Debug, PartialEq, Eq)]
pub enum SendError {
    /// A setting without a built-in default was given nowhere.
    MissingConfig(Setting),
    /// A setting was given, but its text does not denote a usable value.
    InvalidConfig(Setting, ValueFault),
    /// Only one of user name and password is present; the other is the
    /// one named.
    IncompleteCredentials(Missing),
    /// The TLS parameters for the server could not be constructed; the text
    /// is the cause.
    TlsSetupFailed(String),
    /// No sender was given and none is configured.
    MissingFrom,
    /// The list of primary recipients is empty.
    MissingRecipients,
    /// An address of the named list is malformed; the text is the address
    /// as it was given, trimmed.
    InvalidAddress(Field, String),
    /// The mail library refused to assemble the message; the text is the
    /// cause.
    InvalidMessage(String),
    /// The exchange with the server failed; the text is the cause.
    TransportSendFailed(String),
    /// The server answered with a reply that is no positive completion: its
    /// code and the text of its reply.
    SmtpRejected(String, String),
}

/// A [`SendError`] with its texts as sequences of characters.
pub ghost enum SendErrorView {
    MissingConfig(Setting),
    InvalidConfig(Setting, ValueFault),
    IncompleteCredentials(Missing),
    TlsSetupFailed(Seq<char>),
    MissingFrom,
    MissingRecipients,
    InvalidAddress(Field, Seq<char>),
    InvalidMessage(Seq<char>),
    TransportSendFailed(Seq<char>),
    SmtpRejected(Seq<char>, Seq<char>),
}

impl View for SendError {
    type V = SendErrorView;

    open spec fn view(&self) -> SendErrorView {
        match *self {
            SendError::MissingConfig(s) => SendErrorView::MissingConfig(s),
            SendError::InvalidConfig(s, f) => SendErrorView::InvalidConfig(s, f),
            SendError::IncompleteCredentials(m) => SendErrorView::IncompleteCredentials(m),
            SendError::TlsSetupFailed(c) => SendErrorView::TlsSetupFailed(c@),
            SendError::MissingFrom => SendErrorView::MissingFrom,
            SendError::MissingRecipients => SendErrorView::MissingRecipients,
            SendError::InvalidAddress(f, t) => SendErrorView::InvalidAddress(f, t@),
            SendError::InvalidMessage(c) => SendErrorView::InvalidMessage(c@),
            SendError::TransportSendFailed(c) => SendErrorView::TransportSendFailed(c@),
            SendError::SmtpRejected(code, detail) => SendErrorView::SmtpRejected(code@, detail@),
        }
    }
}

/// The lower-case name of an address field.
pub open spec fn field_name(field: Field) -> Seq<char> {
    match field {
        Field::From => "from"@,
        Field::To => "to"@,
        Field::Cc => "cc"@,
        Field::Bcc => "bcc"@,
    }
}

/// The name of a connection setting.
pub open spec fn setting_name(setting: Setting) -> Seq<char> {
    match setting {
        Setting::Server => "server"@,
        Setting::Port => "port"@,
        Setting::Tls => "tls"@,
    }
}

/// What is wrong with a value, in words.
pub open spec fn fault_text(fault: ValueFault) -> Seq<char> {
    match fault {
        ValueFault::Empty => "the value is empty"@,
        ValueFault::InvalidDigit => "invalid digit found in number"@,
        ValueFault::OutOfRange => "number out of range for a port"@,
        ValueFault::NotBoolean => "expected true or false"@,
    }
}

/// The text an error is reported with. It names the setting or the address
/// field at fault, or carries the server's reply code and text.
pub open spec fn message_text(error: SendErrorView) -> Seq<char> {
    match error {
        SendErrorView::MissingConfig(s) => "SMTP "@ + setting_name(s)
            + " not provided and no default configured"@,
        SendErrorView::InvalidConfig(s, f) => "Invalid SMTP "@ + setting_name(s) + ": "@ + fault_text(f),
        SendErrorView::IncompleteCredentials(Missing::Password) =>
            "SMTP username provided without password and no default configured"@,
        SendErrorView::IncompleteCredentials(Missing::Username) =>
            "SMTP password provided without username and no default configured"@,
        SendErrorView::TlsSetupFailed(c) => "Failed to create TLS parameters: "@ + c,
        SendErrorView::MissingFrom => "From address not provided and no default configured"@,
        SendErrorView::MissingRecipients => "To address not provided"@,
        SendErrorView::InvalidAddress(f, t) => "Invalid "@ + field_name(f) + ": "@ + t,
        SendErrorView::InvalidMessage(c) => "Failed to create message: "@ + c,
        SendErrorView::TransportSendFailed(c) => "Failed to send email: "@ + c,
        SendErrorView::SmtpRejected(code, detail) => "SMTP error "@ + code + ": "@ + detail,
    }
}

impl Field {
    /// The lower-case name of the field.
    pub fn name(&self) -> (r: &'static str)
        ensures
            r@ == field_name(*self),
    {
        match self {
            Field::From => "from",
            Field::To => "to",
            Field::Cc => "cc",
            Field::Bcc => "bcc",
        }
    }
}

impl Setting {
    /// The name of the setting.
    pub fn name(&self) -> (r: &'static str)
        ensures
            r@ == setting_name(*self),
    {
        match self {
            Setting::Server => "server",
            Setting::Port => "port",
            Setting::Tls => "tls",
        }
    }
}

impl ValueFault {
    /// What is wrong with the value, in words.
    pub fn describe(&self) -> (r: &'static str)
        ensures
            r@ == fault_text(*self),
    {
        match self {
            ValueFault::Empty => "the value is empty",
            ValueFault::InvalidDigit => "invalid digit found in number",
            ValueFault::OutOfRange => "number out of range for a port",
            ValueFault::NotBoolean => "expected true or false",
        }
    }
}

impl SendError {
    /// The text the error is reported with.
    pub fn message(&self) -> (r: String)
        ensures
            r@ == message_text(self@),
    {
        match self {
            SendError::MissingConfig(s) => {
                let mut out = String::from_str("SMTP ");
                out.append(s.name());
                out.append(" not provided and no default configured");
                out
            },
            SendError::InvalidConfig(s, f) => {
                let mut out = String::from_str("Invalid SMTP ");
                out.append(s.name());
                out.append(": ");
                out.append(f.describe());
                out
            },
            SendError::IncompleteCredentials(Missing::Password) => String::from_str(
                "SMTP username provided without password and no default configured",
            ),
            SendError::IncompleteCredentials(Missing::Username) => String::from_str(
                "SMTP password provided without username and no default configured",
            ),
            SendError::TlsSetupFailed(c) => {
                let mut out = String::from_str("Failed to create TLS parameters: ");
                out.append(c.as_str());
                out
            },
            SendError::MissingFrom => String::from_str(
                "From address not provided and no default configured",
            ),
            SendError::MissingRecipients => String::from_str("To address not provided"),
            SendError::InvalidAddress(f, t) => {
                let mut out = String::from_str("Invalid ");
                out.append(f.name());
                out.append(": ");
                out.append(t.as_str());
                out
            },
            SendError::InvalidMessage(c) => {
                let mut out = String::from_str("Failed to create message: ");
                out.append(c.as_str());
                out
            },
            SendError::TransportSendFailed(c) => {
                let mut out = String::from_str("Failed to send email: ");
                out.append(c.as_str());
                out
            },
            SendError::SmtpRejected(code, detail) => {
                let mut out = String::from_str("SMTP error ");
                out.append(code.as_str());
                out.append(": ");
                out.append(detail.as_str());
                out
            },
        }
    }
}

} // verus!
