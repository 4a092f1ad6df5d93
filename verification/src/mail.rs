//! Handing a message over to the mail library, which assembles what is
//! sent: header fields, envelope and body.
//!
//! The builder and the message of the mail library are opaque here. What
//! is stated of them is which header fields and which envelope they hold:
//! each call that sets a header sets its value under its name, and
//! assembling adds the encoding of the body and a date, drops `Bcc` unless
//! it is to be kept, and keeps the envelope given. A list of recipients is
//! set in one call, so that its header lists every one of them; the
//! envelope is made of the addresses themselves, so that every one of them
//! is delivered to. What the mail library computes (how it writes a
//! mailbox, which encoding it chooses for a body, when it refuses a sender)
//! has names.

use crate::address::{
    delivery_list, read_address, read_all, shown_all, shown_list, written_address,
    written_as_read, EmailAddress,
};
use crate::error::{SendError, SendErrorView};
use crate::message::{MessageSpec, MessageView};
use crate::text::join;
use lettre::address::Envelope;
use lettre::message::header;
use lettre::message::header::ContentType;
use lettre::message::Mailboxes;
use lettre::message::MessageBuilder;
use lettre::Message;
use vstd::prelude::*;

verus! {

/// `lettre::message::MessageBuilder`; opaque here.
#[verifier::external_type_specification]
#[verifier::external_body]
pub struct ExMessageBuilder(MessageBuilder);

/// `lettre::Message`, an assembled message with its envelope; opaque here.
#[verifier::external_type_specification]
#[verifier::external_body]
pub struct ExMessage(Message);

/// `lettre::address::Envelope`, whom a message is from and whom it is
/// delivered to; opaque here.
#[verifier::external_type_specification]
#[verifier::external_body]
pub struct ExEnvelope(Envelope);

/// `lettre::error::Error`, why a message was refused; opaque here.
#[verifier::external_type_specification]
#[verifier::external_body]
pub struct ExMailError(lettre::error::Error);

/// The header fields that a message builder holds: the value of each, as
/// it stands before it is encoded for the wire, under its name as written.
pub uninterp spec fn builder_headers(builder: MessageBuilder) -> Map<Seq<char>, Seq<char>>;

/// Whom a message is from and whom it is delivered to, as addresses
/// without display names. The recipients are in the order of delivery.
pub ghost struct EnvelopeView {
    pub sender: Option<Seq<char>>,
    pub recipients: Seq<Seq<char>>,
}

/// What a message builder holds besides its header fields.
pub ghost struct BuilderMarks {
    /// Whether the `Bcc` field is kept when the message is assembled.
    pub keeps_bcc: bool,
    /// The envelope that the builder was given, if it was given one.
    pub envelope: Option<EnvelopeView>,
}

/// What a message builder holds besides its header fields.
pub uninterp spec fn builder_marks(builder: MessageBuilder) -> BuilderMarks;

/// What an envelope holds.
pub uninterp spec fn envelope_view(envelope: Envelope) -> EnvelopeView;

/// The header fields of an assembled message: the value of each, as it
/// stands before it is encoded for the wire, under its name as written.
pub uninterp spec fn message_headers(message: Message) -> Map<Seq<char>, Seq<char>>;

/// The body of an assembled message, as it is sent.
pub uninterp spec fn message_body(message: Message) -> Seq<u8>;

/// The envelope of an assembled message.
pub uninterp spec fn message_envelope(message: Message) -> EnvelopeView;

/// Whether the mail library refuses to assemble a message that has an
/// envelope and whose `From` field holds this value: it does where there
/// is no such field or it cannot read one sender back from it.
pub uninterp spec fn refused(from: Option<Seq<char>>) -> bool;

/// The content transfer encoding that the mail library chooses for a body.
pub uninterp spec fn body_encoding(body: Seq<char>) -> Seq<char>;

/// A body as the mail library sends it in the encoding that it chooses.
pub uninterp spec fn encoded_body(body: Seq<char>) -> Seq<u8>;

/// The text that the mail library displays its refusal of a message with.
pub uninterp spec fn refusal_of(error: lettre::error::Error) -> Seq<char>;

/// Whether `name` is one of the names under which the mail library holds
/// the headers that this module has it set, or that it adds itself when it
/// assembles a message, written as the mail library writes it.
pub open spec fn is_known_name(name: Seq<char>) -> bool {
    ||| name == "Subject"@
    ||| name == "From"@
    ||| name == "To"@
    ||| name == "Cc"@
    ||| name == "Bcc"@
    ||| name == "Content-Type"@
    ||| name == "Content-Transfer-Encoding"@
    ||| name == "Date"@
}

/// Whether every name of `names` is one of those names. The mail library
/// finds a header by its name without regard to case; among these names
/// that is the same as finding it by the name as written.
pub open spec fn known_only(names: Set<Seq<char>>) -> bool {
    forall|name: Seq<char>| names.contains(name) ==> is_known_name(name)
}

/// No header fields at all.
pub open spec fn no_headers() -> Map<Seq<char>, Seq<char>> {
    Map::empty()
}

/// The value under `name`, if there is one.
pub open spec fn value_of(headers: Map<Seq<char>, Seq<char>>, name: Seq<char>) -> Option<
    Seq<char>,
> {
    if headers.dom().contains(name) {
        Some(headers[name])
    } else {
        None
    }
}

/// The value of the header that lists the addresses read from `texts`:
/// each as the mail library writes it, in the order given, a comma and a
/// space between neighbours. An empty list has no header.
pub open spec fn list_value(texts: Seq<Seq<char>>) -> Option<Seq<char>> {
    if texts.len() > 0 {
        Some(join(shown_all(texts), ", "@))
    } else {
        None
    }
}

/// The value that the message assembled for `m` holds under the header
/// `name`: the subject as it is; the sender, each list of recipients that
/// is not empty, and the encoding of the body, as the mail library writes
/// them; blind copies only where their header is kept; the content type for
/// HTML only. The date, which the mail library adds as well, is left out.
pub open spec fn header_value(m: MessageView, name: Seq<char>) -> Option<Seq<char>> {
    if name == "Subject"@ {
        Some(m.subject)
    } else if name == "From"@ {
        Some(written_address(m.from))
    } else if name == "To"@ {
        list_value(m.to)
    } else if name == "Cc"@ {
        list_value(m.cc)
    } else if name == "Bcc"@ && m.keep_bcc_header {
        list_value(m.bcc)
    } else if name == "Content-Type"@ && m.is_html {
        Some("text/html; charset=utf-8"@)
    } else if name == "Content-Transfer-Encoding"@ {
        Some(body_encoding(m.body))
    } else {
        None
    }
}

/// The header fields that the message assembled for `m` holds, but for
/// the date.
pub open spec fn expected_headers(m: MessageView) -> Map<Seq<char>, Seq<char>> {
    Map::new(
        |name: Seq<char>| header_value(m, name) is Some,
        |name: Seq<char>| header_value(m, name)->0,
    )
}

/// Whether `message` is what the mail library assembles for `m`: it holds
/// the header fields expected and a date, the body of `m` in the encoding
/// chosen, and is delivered to all three lists of recipients, blind copies
/// included whether or not their header is kept.
pub open spec fn assembled_for(message: Message, m: MessageView) -> bool {
    &&& message_headers(message).remove("Date"@) == expected_headers(m)
    &&& message_headers(message).dom().contains("Date"@)
    &&& message_body(message) == encoded_body(m.body)
    &&& message_envelope(message) == expected_envelope(m)
}

/// The envelope of the message assembled for `m`: from the sender, to the
/// primary recipients, the copies and the blind copies, in this order, each
/// as the mail library reads the address.
pub open spec fn expected_envelope(m: MessageView) -> EnvelopeView {
    EnvelopeView {
        sender: Some(read_address(m.from)),
        recipients: read_all(m.to) + read_all(m.cc) + read_all(m.bcc),
    }
}

/// Whether `m` names no recipient at all.
pub open spec fn no_recipient(m: MessageView) -> bool {
    m.to.len() + m.cc.len() + m.bcc.len() == 0
}

/// Whether the mail library refuses to assemble the message for `m`
/// because of its sender: it does where it cannot read one sender back
/// from what it wrote for the sender.
pub open spec fn refused_for(m: MessageView) -> bool {
    refused(Some(written_address(m.from)))
}

/// The header fields of the message that the mail library assembles from
/// the fields `headers`, among them the encoding of the body: the `Bcc`
/// field is dropped unless it is to be kept. The date, which is added, is
/// left out.
pub open spec fn assembled_headers(headers: Map<Seq<char>, Seq<char>>, keeps_bcc: bool) -> Map<
    Seq<char>,
    Seq<char>,
> {
    if keeps_bcc {
        headers.remove("Date"@)
    } else {
        headers.remove("Bcc"@).remove("Date"@)
    }
}

/// `Message::builder` of `lettre`: a builder without header fields and
/// without an envelope, which will drop the `Bcc` field.
pub assume_specification[ Message::builder ]() -> (r: MessageBuilder)
    ensures
        builder_headers(r) == no_headers(),
        builder_marks(r) == (BuilderMarks { keeps_bcc: false, envelope: None }),
;

/// `MessageBuilder::envelope` of `lettre`: gives the builder the envelope
/// that the message is to have, and leaves everything else as it is.
pub assume_specification[ MessageBuilder::envelope ](
    builder: MessageBuilder,
    envelope: Envelope,
) -> (r: MessageBuilder)
    ensures
        builder_headers(r) == builder_headers(builder),
        builder_marks(r) == (BuilderMarks {
            envelope: Some(envelope_view(envelope)),
            ..builder_marks(builder)
        }),
;

/// Calls `Envelope::new` of `lettre` with the address of `from` as sender
/// and the addresses of `recipients`, in order, as recipients. It refuses
/// exactly an empty list of recipients.
#[verifier::external_body]
fn envelope_for(from: &EmailAddress, recipients: &Vec<EmailAddress>) -> (r: Result<
    Envelope,
    lettre::error::Error,
>)
    ensures
        r is Err <==> recipients.len() == 0,
        r matches Ok(e) ==> envelope_view(e) == (EnvelopeView {
            sender: Some(from.address()),
            recipients: delivery_list(recipients@),
        }),
{
    let to = recipients.iter().map(|a| a.mailbox.email.clone()).collect();
    Envelope::new(Some(from.mailbox.email.clone()), to)
}

/// `MessageBuilder::keep_bcc` of `lettre`: asks that the `Bcc` field stay
/// in the assembled message, and leaves everything else as it is.
pub assume_specification[ MessageBuilder::keep_bcc ](builder: MessageBuilder) -> (r:
    MessageBuilder)
    ensures
        builder_headers(r) == builder_headers(builder),
        builder_marks(r) == (BuilderMarks { keeps_bcc: true, ..builder_marks(builder) }),
;

/// Calls `MessageBuilder::subject` of `lettre` with a copy of `subject`:
/// the builder then holds `subject` as its `Subject` field, set anew if it
/// held one.
#[verifier::external_body]
fn with_subject(builder: MessageBuilder, subject: &str) -> (r: MessageBuilder)
    requires
        known_only(builder_headers(builder).dom()),
    ensures
        builder_headers(r) == builder_headers(builder).insert("Subject"@, subject@),
        builder_marks(r) == builder_marks(builder),
{
    builder.subject(subject)
}

/// Calls `MessageBuilder::from` of `lettre` with the mailbox of `address`,
/// on a builder without a `From` field: the builder then holds that
/// mailbox, as the mail library writes it, as its `From` field.
#[verifier::external_body]
fn with_from(builder: MessageBuilder, address: &EmailAddress) -> (r: MessageBuilder)
    requires
        known_only(builder_headers(builder).dom()),
        !builder_headers(builder).dom().contains("From"@),
    ensures
        builder_headers(r) == builder_headers(builder).insert("From"@, address.shown()),
        builder_marks(r) == builder_marks(builder),
{
    builder.from(address.mailbox.clone())
}

/// Calls `MessageBuilder::header` of `lettre` with its `To` header of the
/// mailboxes of `list`: the builder then holds, as its `To` field, those
/// mailboxes as the mail library writes them, in order, a comma and a
/// space between neighbours.
#[verifier::external_body]
fn with_to(builder: MessageBuilder, list: &Vec<EmailAddress>) -> (r: MessageBuilder)
    requires
        known_only(builder_headers(builder).dom()),
    ensures
        builder_headers(r) == builder_headers(builder).insert(
            "To"@,
            join(shown_list(list@), ", "@),
        ),
        builder_marks(r) == builder_marks(builder),
{
    let mailboxes: Mailboxes = list.iter().map(|a| a.mailbox.clone()).collect();
    builder.header(header::To::from(mailboxes))
}

/// Calls `MessageBuilder::header` of `lettre` with its `Cc` header of the
/// mailboxes of `list`: the builder then holds, as its `Cc` field, those
/// mailboxes as the mail library writes them, in order, a comma and a
/// space between neighbours.
#[verifier::external_body]
fn with_cc(builder: MessageBuilder, list: &Vec<EmailAddress>) -> (r: MessageBuilder)
    requires
        known_only(builder_headers(builder).dom()),
    ensures
        builder_headers(r) == builder_headers(builder).insert(
            "Cc"@,
            join(shown_list(list@), ", "@),
        ),
        builder_marks(r) == builder_marks(builder),
{
    let mailboxes: Mailboxes = list.iter().map(|a| a.mailbox.clone()).collect();
    builder.header(header::Cc::from(mailboxes))
}

/// Calls `MessageBuilder::header` of `lettre` with its `Bcc` header of the
/// mailboxes of `list`: the builder then holds, as its `Bcc` field, those
/// mailboxes as the mail library writes them, in order, a comma and a
/// space between neighbours.
#[verifier::external_body]
fn with_bcc(builder: MessageBuilder, list: &Vec<EmailAddress>) -> (r: MessageBuilder)
    requires
        known_only(builder_headers(builder).dom()),
    ensures
        builder_headers(r) == builder_headers(builder).insert(
            "Bcc"@,
            join(shown_list(list@), ", "@),
        ),
        builder_marks(r) == builder_marks(builder),
{
    let mailboxes: Mailboxes = list.iter().map(|a| a.mailbox.clone()).collect();
    builder.header(header::Bcc::from(mailboxes))
}

/// Calls `MessageBuilder::header` of `lettre` with its content type for
/// HTML text in UTF-8: the builder then holds that type as its
/// `Content-Type` field.
#[verifier::external_body]
fn with_html(builder: MessageBuilder) -> (r: MessageBuilder)
    requires
        known_only(builder_headers(builder).dom()),
    ensures
        builder_headers(r) == builder_headers(builder).insert(
            "Content-Type"@,
            "text/html; charset=utf-8"@,
        ),
        builder_marks(r) == builder_marks(builder),
{
    builder.header(ContentType::TEXT_HTML)
}

/// Calls `MessageBuilder::body` of `lettre` with a copy of `body`, which
/// assembles the message or refuses. The builder must hold an envelope and
/// no encoding of its own for the body. Whether the library refuses then
/// depends on the `From` field of the builder alone. An assembled message
/// holds the fields of the builder, the encoding chosen for the body and a
/// date, without the `Bcc` field unless the builder was asked to keep it;
/// its body is the body given, in the encoding chosen; and its envelope is
/// the one that the builder was given.
#[verifier::external_body]
fn with_body(builder: MessageBuilder, body: &str) -> (r: Result<Message, lettre::error::Error>)
    requires
        known_only(builder_headers(builder).dom()),
        !builder_headers(builder).dom().contains("Content-Transfer-Encoding"@),
        builder_marks(builder).envelope is Some,
    ensures
        r is Err <==> refused(value_of(builder_headers(builder), "From"@)),
        r matches Ok(m) ==> {
            &&& message_headers(m).remove("Date"@) == assembled_headers(
                builder_headers(builder).insert(
                    "Content-Transfer-Encoding"@,
                    body_encoding(body@),
                ),
                builder_marks(builder).keeps_bcc,
            )
            &&& message_headers(m).dom().contains("Date"@)
            &&& message_body(m) == encoded_body(body@)
            &&& message_envelope(m) == builder_marks(builder).envelope->0
        },
{
    builder.body(body.to_string())
}

/// The text that `lettre` displays its message error with.
#[verifier::external_body]
fn refusal_text(error: &lettre::error::Error) -> (r: String)
    ensures
        r@ == refusal_of(*error),
{
    error.to_string()
}

/// The header names that this module uses are eight different texts.
proof fn lemma_known_names()
    ensures
        "Subject"@.len() == 7,
        "From"@.len() == 4,
        "To"@.len() == 2,
        "Cc"@.len() == 2,
        "Bcc"@.len() == 3,
        "Content-Type"@.len() == 12,
        "Content-Transfer-Encoding"@.len() == 25,
        "Date"@.len() == 4,
        "From"@[0] == 'F',
        "Date"@[0] == 'D',
        "To"@[0] == 'T',
        "Cc"@[0] == 'C',
{
    reveal_strlit("Subject");
    reveal_strlit("From");
    reveal_strlit("To");
    reveal_strlit("Cc");
    reveal_strlit("Bcc");
    reveal_strlit("Content-Type");
    reveal_strlit("Content-Transfer-Encoding");
    reveal_strlit("Date");
}

/// The subject and the sender of a message are in its header fields: the
/// subject as it is, the sender as the mail library writes it.
pub proof fn lemma_subject_and_sender_headers(m: MessageView)
    ensures
        header_value(m, "Subject"@) == Some(m.subject),
        header_value(m, "From"@) == Some(written_address(m.from)),
{
    lemma_known_names();
}

/// Blind copies whose header is not kept leave no `Bcc` field; where the
/// header is kept, the field lists exactly the blind copies, each as the
/// mail library writes it, in the order given, a comma and a space between
/// neighbours. Without blind copies there is no such field.
pub proof fn lemma_bcc_header(m: MessageView)
    ensures
        m.bcc.len() > 0 && !m.keep_bcc_header ==> header_value(m, "Bcc"@) is None,
        m.bcc.len() > 0 && m.keep_bcc_header ==> header_value(m, "Bcc"@) == Some(
            join(shown_all(m.bcc), ", "@),
        ),
        m.bcc.len() == 0 ==> header_value(m, "Bcc"@) is None,
{
    lemma_known_names();
}

/// An HTML message declares the content type of HTML text; any other
/// message declares no content type.
pub proof fn lemma_content_type_header(m: MessageView)
    ensures
        m.is_html ==> header_value(m, "Content-Type"@) == Some("text/html; charset=utf-8"@),
        !m.is_html ==> header_value(m, "Content-Type"@) is None,
{
    lemma_known_names();
}

/// The primary recipients are listed under `To` and the copies under `Cc`,
/// each as the mail library writes it, in the order given, a comma and a
/// space between neighbours; an empty list has no field.
pub proof fn lemma_recipient_headers(m: MessageView)
    ensures
        m.to.len() > 0 ==> header_value(m, "To"@) == Some(join(shown_all(m.to), ", "@)),
        m.to.len() == 0 ==> header_value(m, "To"@) is None,
        m.cc.len() > 0 ==> header_value(m, "Cc"@) == Some(join(shown_all(m.cc), ", "@)),
        m.cc.len() == 0 ==> header_value(m, "Cc"@) is None,
{
    lemma_known_names();
}

/// What becomes of the mail library's answer on an envelope: the envelope,
/// or its refusal as an error of this library, with the text that the
/// mail library displays for it.
pub fn assembled_envelope(outcome: Result<Envelope, lettre::error::Error>) -> (r: Result<
    Envelope,
    SendError,
>)
    ensures
        match outcome {
            Ok(envelope) => r == Ok::<Envelope, SendError>(envelope),
            Err(error) => r matches Err(e) && e@ == SendErrorView::InvalidMessage(
                refusal_of(error),
            ),
        },
{
    match outcome {
        Ok(envelope) => Ok(envelope),
        Err(e) => Err(SendError::InvalidMessage(refusal_text(&e))),
    }
}

/// What becomes of the mail library's answer: its message, or its refusal
/// as an error of this library, with the text that the mail library
/// displays for it.
pub fn assembled(outcome: Result<Message, lettre::error::Error>) -> (r: Result<Message, SendError>)
    ensures
        match outcome {
            Ok(m) => r == Ok::<Message, SendError>(m),
            Err(error) => r matches Err(e) && e@ == SendErrorView::InvalidMessage(
                refusal_of(error),
            ),
        },
{
    match outcome {
        Ok(message) => Ok(message),
        Err(e) => Err(SendError::InvalidMessage(refusal_text(&e))),
    }
}

/// All recipients of `spec`: the primary ones, the copies and the blind
/// copies, in this order.
fn recipients(spec: &MessageSpec) -> (r: Vec<EmailAddress>)
    ensures
        r.len() == spec.to.len() + spec.cc.len() + spec.bcc.len(),
        delivery_list(r@) == delivery_list(spec.to@) + delivery_list(spec.cc@) + delivery_list(
            spec.bcc@,
        ),
{
    let mut all: Vec<EmailAddress> = Vec::new();
    add_all(&mut all, &spec.to);
    add_all(&mut all, &spec.cc);
    add_all(&mut all, &spec.bcc);
    assert(delivery_list(all@) =~= delivery_list(spec.to@) + delivery_list(spec.cc@)
        + delivery_list(spec.bcc@));
    all
}

/// Appends a copy of each address of `list` to `all`.
fn add_all(all: &mut Vec<EmailAddress>, list: &Vec<EmailAddress>)
    ensures
        final(all).len() == old(all).len() + list.len(),
        delivery_list(final(all)@) == delivery_list(old(all)@) + delivery_list(list@),
{
    let ghost before = delivery_list(all@);
    let mut i: usize = 0;
    assert(delivery_list(list@).take(0) =~= Seq::<Seq<char>>::empty());
    assert(before + Seq::<Seq<char>>::empty() =~= before);
    while i < list.len()
        invariant
            i <= list.len(),
            all.len() == old(all).len() + i,
            before == delivery_list(old(all)@),
            delivery_list(all@) == before + delivery_list(list@).take(i as int),
        decreases list.len() - i,
    {
        let copy = list[i].clone();
        let ghost held = all@;
        all.push(copy);
        assert(delivery_list(all@) =~= delivery_list(held).push(copy.address()));
        assert(delivery_list(list@).take(i + 1) =~= delivery_list(list@).take(i as int).push(
            list@[i as int].address(),
        ));
        i += 1;
    }
    assert(delivery_list(list@).take(list.len() as int) =~= delivery_list(list@));
}

/// Has the mail library assemble the message that `spec` describes: the
/// envelope of sender and all recipients, the subject, the sender, each
/// list of recipients that is not empty, the request to keep the `Bcc`
/// field if `spec` asks for it, the HTML content type if the body is HTML,
/// and the body. The mail library refuses a message without any recipient
/// and one whose sender it cannot read back, and nothing else fails. What
/// is assembled holds the header fields, the body and the envelope that
/// `assembled_for` tells.
pub fn assemble(spec: &MessageSpec) -> (r: Result<Message, SendError>)
    ensures
        r is Err <==> no_recipient(spec@) || refused_for(spec@),
        match r {
            Ok(message) => assembled_for(message, spec@),
            Err(e) => e is InvalidMessage,
        },
{
    proof {
        lemma_known_names();
    }
    let _ = spec.from.as_str();
    written_as_read(&spec.to);
    written_as_read(&spec.cc);
    written_as_read(&spec.bcc);
    let envelope = match assembled_envelope(envelope_for(&spec.from, &recipients(spec))) {
        Ok(e) => e,
        Err(e) => {
            return Err(e);
        },
    };
    let mut builder = Message::builder().envelope(envelope);
    builder = with_subject(builder, spec.subject.as_str());
    builder = with_from(builder, &spec.from);
    if spec.to.len() > 0 {
        builder = with_to(builder, &spec.to);
    }
    if spec.cc.len() > 0 {
        builder = with_cc(builder, &spec.cc);
    }
    if spec.keep_bcc_header {
        builder = builder.keep_bcc();
    }
    if spec.bcc.len() > 0 {
        builder = with_bcc(builder, &spec.bcc);
    }
    if spec.is_html {
        builder = with_html(builder);
    }
    let ghost held = builder_headers(builder);
    let outcome = with_body(builder, spec.body.as_str());
    proof {
        assert(value_of(held, "From"@) == Some(written_address(spec@.from)));
        if outcome is Ok {
            assert(assembled_headers(
                held.insert("Content-Transfer-Encoding"@, body_encoding(spec@.body)),
                spec.keep_bcc_header,
            ) =~= expected_headers(spec@));
        }
    }
    assembled(outcome)
}

} // verus!
