//! Sending e-mail over SMTP: resolution of the connection settings,
//! construction of the message and preparation of the transport, with
//! machine-checked contracts.
//!
//! A send goes through these modules in turn:
//!
//! * [`config`] merges what a call gives with the process-wide settings and
//!   the built-in defaults;
//! * [`address`] and [`message`] validate the addresses and decide what
//!   the message is made of;
//! * [`mail`] has the mail library assemble the message, and tells which
//!   header fields, body and recipients the assembled message has;
//! * [`transport`] decides how the connection is protected and which
//!   credentials it presents, makes the transport, and tells what it is
//!   set to;
//! * [`send`] runs these steps in order and reads the server's reply.
//!
//! [`text`] and [`number`] hold the handling of characters and digits that
//! the others rest on, and [`error`] the failures and their wording.
//!
//! The exchange with the server is not part of this library: [`send::send`]
//! takes it as a function.

pub mod address;
pub mod config;
pub mod error;
pub mod mail;
pub mod message;
pub mod number;
pub mod send;
pub mod text;
pub mod transport;
