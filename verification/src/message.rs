//! Construction of a message from what a caller gives: the sender, the
//! recipient lists and what else the message is made of.

use crate::address::{
    address_texts, mailbox_syntax, parse_items, read_items, segments, split_list, EmailAddress,
};
use crate::config::preferred;
use crate::error::{Field, SendError, SendErrorView};
use crate::text::{text_of, trim, trimmed, view_of, views};
use vstd::prelude::*;

verus! {

/// What a caller gives for one message. The recipient lists hold one
/// address text per item.
#[derive(Clone, Debug, PartialEq, Eq)]
pub struct MessageInputs {
    pub subject: String,
    pub body: String,
    pub is_html: bool,
    pub from: Option<String>,
    pub to: Vec<String>,
    pub cc: Vec<String>,
    pub bcc: Vec<String>,
    pub keep_bcc_header: bool,
}

/// A message ready to be handed to the transport: every address is
/// validated and there is at least one primary recipient.
#[derive(Clone, Debug)]
pub struct MessageSpec {
    pub subject: String,
    pub body: String,
    pub is_html: bool,
    pub from: EmailAddress,
    pub to: Vec<EmailAddress>,
    pub cc: Vec<EmailAddress>,
    pub bcc: Vec<EmailAddress>,
    pub keep_bcc_header: bool,
}

/// [`MessageInputs`] as plain values.
pub ghost struct InputsView {
    pub subject: Seq<char>,
    pub body: Seq<char>,
    pub is_html: bool,
    pub from: Option<Seq<char>>,
    pub to: Seq<Seq<char>>,
    pub cc: Seq<Seq<char>>,
    pub bcc: Seq<Seq<char>>,
    pub keep_bcc_header: bool,
}

/// A [`MessageSpec`] as plain values; an address is its text.
pub ghost struct MessageView {
    pub subject: Seq<char>,
    pub body: Seq<char>,
    pub is_html: bool,
    pub from: Seq<char>,
    pub to: Seq<Seq<char>>,
    pub cc: Seq<Seq<char>>,
    pub bcc: Seq<Seq<char>>,
    pub keep_bcc_header: bool,
}

impl View for MessageInputs {
    type V = InputsView;

    open spec fn view(&self) -> InputsView {
        InputsView {
            subject: self.subject@,
            body: self.body@,
            is_html: self.is_html,
            from: text_of(self.from),
            to: views(self.to@),
            cc: views(self.cc@),
            bcc: views(self.bcc@),
            keep_bcc_header: self.keep_bcc_header,
        }
    }
}

impl View for MessageSpec {
    type V = MessageView;

    open spec fn view(&self) -> MessageView {
        MessageView {
            subject: self.subject@,
            body: self.body@,
            is_html: self.is_html,
            from: self.from@,
            to: address_texts(self.to@),
            cc: address_texts(self.cc@),
            bcc: address_texts(self.bcc@),
            keep_bcc_header: self.keep_bcc_header,
        }
    }
}

impl MessageView {
    /// What holds of every message that construction gives: there is a
    /// primary recipient.
    pub open spec fn well_formed(self) -> bool {
        self.to.len() > 0
    }
}

/// The segments of an optional comma-separated list; none if it is absent.
pub open spec fn optional_segments(raw: Option<Seq<char>>) -> Seq<Seq<char>> {
    match raw {
        None => Seq::empty(),
        Some(s) => segments(s),
    }
}

/// The message that construction gives for `inputs` where the configured
/// sender is `default_from`, or the first thing that is wrong: the sender,
/// then the primary recipients, then the copies, then the blind copies.
pub open spec fn built(inputs: InputsView, default_from: Option<Seq<char>>) -> Result<
    MessageView,
    SendErrorView,
> {
    let sender = preferred(inputs.from, default_from);
    let to = read_items(Field::To, inputs.to);
    let cc = read_items(Field::Cc, inputs.cc);
    let bcc = read_items(Field::Bcc, inputs.bcc);
    if sender is None {
        Err(SendErrorView::MissingFrom)
    } else if !mailbox_syntax(trimmed(sender->0)) {
        Err(SendErrorView::InvalidAddress(Field::From, trimmed(sender->0)))
    } else if to is Err {
        Err(to->Err_0)
    } else if to->Ok_0.len() == 0 {
        Err(SendErrorView::MissingRecipients)
    } else if cc is Err {
        Err(cc->Err_0)
    } else if bcc is Err {
        Err(bcc->Err_0)
    } else {
        Ok(
            MessageView {
                subject: inputs.subject,
                body: inputs.body,
                is_html: inputs.is_html,
                from: trimmed(sender->0),
                to: to->Ok_0,
                cc: cc->Ok_0,
                bcc: bcc->Ok_0,
                keep_bcc_header: inputs.keep_bcc_header,
            },
        )
    }
}

impl MessageInputs {
    /// The inputs of a message whose recipient lists are given as
    /// comma-separated texts. An absent or blank list has no items.
    pub fn from_text(
        subject: &str,
        body: &str,
        is_html: bool,
        from: Option<&str>,
        to: Option<&str>,
        cc: Option<&str>,
        bcc: Option<&str>,
        keep_bcc_header: bool,
    ) -> (r: MessageInputs)
        ensures
            r@ == (InputsView {
                subject: subject@,
                body: body@,
                is_html,
                from: view_of(from),
                to: optional_segments(view_of(to)),
                cc: optional_segments(view_of(cc)),
                bcc: optional_segments(view_of(bcc)),
                keep_bcc_header,
            }),
    {
        MessageInputs {
            subject: String::from_str(subject),
            body: String::from_str(body),
            is_html,
            from: match from {
                Some(f) => Some(String::from_str(f)),
                None => None,
            },
            to: split_optional(to),
            cc: split_optional(cc),
            bcc: split_optional(bcc),
            keep_bcc_header,
        }
    }
}

/// The segments of an optional comma-separated list.
fn split_optional(raw: Option<&str>) -> (r: Vec<String>)
    ensures
        views(r@) == optional_segments(view_of(raw)),
{
    match raw {
        Some(s) => split_list(s),
        None => Vec::new(),
    }
}

/// Builds the message for `inputs`; `default_from` is the configured
/// sender, used where the inputs name none.
pub fn build(inputs: &MessageInputs, default_from: Option<&str>) -> (r: Result<MessageSpec, SendError>)
    ensures
        match r {
            Ok(m) => built(inputs@, view_of(default_from)) == Ok::<_, SendErrorView>(
                m@,
            ) && m@.well_formed(),
            Err(e) => built(inputs@, view_of(default_from)) == Err::<
                MessageView,
                _,
            >(e@),
        },
{
    let sender: &str = match &inputs.from {
        Some(f) => f.as_str(),
        None => match default_from {
            Some(d) => d,
            None => {
                return Err(SendError::MissingFrom);
            },
        },
    };
    let from = match EmailAddress::parse(sender) {
        Some(a) => a,
        None => {
            return Err(SendError::InvalidAddress(Field::From, trim(sender)));
        },
    };
    let to = match parse_items(Field::To, &inputs.to) {
        Ok(list) => list,
        Err(e) => {
            return Err(e);
        },
    };
    if to.len() == 0 {
        return Err(SendError::MissingRecipients);
    }
    let cc = match parse_items(Field::Cc, &inputs.cc) {
        Ok(list) => list,
        Err(e) => {
            return Err(e);
        },
    };
    let bcc = match parse_items(Field::Bcc, &inputs.bcc) {
        Ok(list) => list,
        Err(e) => {
            return Err(e);
        },
    };
    MessageSpec::new(
        inputs.subject.clone(),
        inputs.body.clone(),
        inputs.is_html,
        from,
        to,
        cc,
        bcc,
        inputs.keep_bcc_header,
    )
}

/// The texts of a list of addresses, in order.
pub fn texts_of(list: &Vec<EmailAddress>) -> (r: Vec<String>)
    ensures
        views(r@) == address_texts(list@),
{
    let mut out: Vec<String> = Vec::new();
    let mut i: usize = 0;
    while i < list.len()
        invariant
            i <= list.len(),
            views(out@) == address_texts(list@).take(i as int),
        decreases list.len() - i,
    {
        let text = String::from_str(list[i].as_str());
        proof {
            assert(address_texts(list@).take(i + 1) =~= address_texts(list@).take(i as int).push(
                list@[i as int]@,
            ));
        }
        out.push(text);
        i += 1;
    }
    out
}

impl MessageSpec {
    /// A message of validated addresses. It needs at least one primary
    /// recipient; nothing else is asked of the parts.
    pub fn new(
        subject: String,
        body: String,
        is_html: bool,
        from: EmailAddress,
        to: Vec<EmailAddress>,
        cc: Vec<EmailAddress>,
        bcc: Vec<EmailAddress>,
        keep_bcc_header: bool,
    ) -> (r: Result<MessageSpec, SendError>)
        ensures
            match r {
                Ok(m) => to.len() > 0 && m@ == (MessageView {
                    subject: subject@,
                    body: body@,
                    is_html,
                    from: from@,
                    to: address_texts(to@),
                    cc: address_texts(cc@),
                    bcc: address_texts(bcc@),
                    keep_bcc_header,
                }) && m@.well_formed(),
                Err(e) => to.len() == 0 && e@ == SendErrorView::MissingRecipients,
            },
    {
        if to.len() == 0 {
            return Err(SendError::MissingRecipients);
        }
        Ok(MessageSpec { subject, body, is_html, from, to, cc, bcc, keep_bcc_header })
    }
}

/// Without a sender in the inputs and without a configured one,
/// construction fails for want of a sender, and only then. Where it
/// succeeds, the sender is the one of the inputs if they name one, else the
/// configured one.
pub proof fn lemma_sender_precedence(inputs: InputsView, default_from: Option<Seq<char>>)
    ensures
        built(inputs, default_from) == Err::<MessageView, _>(SendErrorView::MissingFrom) <==> (
        inputs.from is None && default_from is None),
        built(inputs, default_from) matches Ok(m) ==> m.from == trimmed(
            if inputs.from is Some {
                inputs.from->0
            } else {
                default_from->0
            },
        ),
{
}

} // verus!
