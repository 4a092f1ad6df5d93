//! Validated e-mail addresses, and lists of them read from text.

use crate::error::{Field, SendError, SendErrorView};
use crate::text::{
    is_blank, lemma_split_pieces, occurrences, split, split_text, trim, trimmed, view_of, views,
};
use lettre::message::Mailbox;
use std::str::FromStr;
use vstd::prelude::*;

verus! {

/// `lettre::message::Mailbox`, an address with an optional display name;
/// opaque here.
#[verifier::external_type_specification]
#[verifier::external_body]
pub struct ExMailbox(Mailbox);

/// Whether `text` is a mailbox in the grammar of the mail library: an
/// address `local-part@domain`, bare or in angle brackets after a display
/// name.
pub uninterp spec fn mailbox_syntax(text: Seq<char>) -> bool;

/// What the mail library writes for a mailbox in a header: its address,
/// after its display name if it has one.
pub uninterp spec fn mailbox_text(mailbox: Mailbox) -> Seq<char>;

/// What the mail library writes for the mailbox that it reads from `text`.
pub uninterp spec fn written_address(text: Seq<char>) -> Seq<char>;

/// The address of a mailbox, without its display name: what mail for it is
/// delivered to.
pub uninterp spec fn mailbox_address(mailbox: Mailbox) -> Seq<char>;

/// The address of the mailbox that the mail library reads from `text`.
pub uninterp spec fn read_address(text: Seq<char>) -> Seq<char>;

/// Calls `Mailbox::from_str` of `lettre` and drops the error. The parser
/// reads nothing but its argument, so whether it accepts a text has a
/// name, and so have the address of the mailbox it read and what the mail
/// library writes for that mailbox.
#[verifier::external_body]
fn parse_mailbox(text: &str) -> (r: Option<Mailbox>)
    ensures
        r is Some <==> mailbox_syntax(text@),
        r matches Some(m) ==> mailbox_text(m) == written_address(text@),
        r matches Some(m) ==> mailbox_address(m) == read_address(text@),
{
    Mailbox::from_str(text).ok()
}

/// `Mailbox::clone` of `lettre`, a derived copy: it has the address of the
/// mailbox it was copied from and is written as that one.
pub assume_specification[ <Mailbox as Clone>::clone ](mailbox: &Mailbox) -> (r: Mailbox)
    ensures
        mailbox_text(r) == mailbox_text(*mailbox),
        mailbox_address(r) == mailbox_address(*mailbox),
;

/// An e-mail address that the mail library has accepted: the text it was
/// read from, and the mailbox that the mail library read.
#[derive(Debug)]
pub struct EmailAddress {
    text: String,
    pub(crate) mailbox: Mailbox,
}

impl View for EmailAddress {
    type V = Seq<char>;

    /// The text of the address, without white space around it.
    closed spec fn view(&self) -> Seq<char> {
        self.text@
    }
}

impl Clone for EmailAddress {
    fn clone(&self) -> (r: Self)
        ensures
            r@ == self@,
            r.shown() == self.shown(),
            r.address() == self.address(),
    {
        proof {
            use_type_invariant(self);
        }
        EmailAddress { text: self.text.clone(), mailbox: self.mailbox.clone() }
    }
}

/// The texts of a list of addresses, in order.
pub open spec fn address_texts(list: Seq<EmailAddress>) -> Seq<Seq<char>> {
    Seq::new(list.len(), |i: int| list[i]@)
}

/// What the mail library writes for each address of a list, in order.
pub open spec fn shown_list(list: Seq<EmailAddress>) -> Seq<Seq<char>> {
    Seq::new(list.len(), |i: int| list[i].shown())
}

/// What the mail library writes for each of the addresses that it reads
/// from `texts`, in order.
pub open spec fn shown_all(texts: Seq<Seq<char>>) -> Seq<Seq<char>> {
    Seq::new(texts.len(), |i: int| written_address(texts[i]))
}

/// What mail for each address of a list is delivered to, in order.
pub open spec fn delivery_list(list: Seq<EmailAddress>) -> Seq<Seq<char>> {
    Seq::new(list.len(), |i: int| list[i].address())
}

/// What mail for each of the addresses that the mail library reads from
/// `texts` is delivered to, in order.
pub open spec fn read_all(texts: Seq<Seq<char>>) -> Seq<Seq<char>> {
    Seq::new(texts.len(), |i: int| read_address(texts[i]))
}

/// Each text of `items` without the white space around it.
pub open spec fn trimmed_items(items: Seq<Seq<char>>) -> Seq<Seq<char>> {
    Seq::new(items.len(), |i: int| trimmed(items[i]))
}

/// Whether every item of `items`, trimmed, is a mailbox.
pub open spec fn all_accepted(items: Seq<Seq<char>>) -> bool {
    forall|i: int| 0 <= i < items.len() ==> mailbox_syntax(trimmed(#[trigger] items[i]))
}

/// Whether item `k` is the first of `items` that is no mailbox.
pub open spec fn first_rejected(items: Seq<Seq<char>>, k: int) -> bool {
    &&& 0 <= k < items.len()
    &&& !mailbox_syntax(trimmed(items[k]))
    &&& forall|j: int| 0 <= j < k ==> mailbox_syntax(trimmed(#[trigger] items[j]))
}

/// What reading a list of address texts gives: the trimmed texts in order
/// if every one of them is a mailbox, else the first that is not, reported
/// for `field`.
pub open spec fn read_items(field: Field, items: Seq<Seq<char>>) -> Result<
    Seq<Seq<char>>,
    SendErrorView,
> {
    if all_accepted(items) {
        Ok(trimmed_items(items))
    } else {
        let k = choose|k: int| first_rejected(items, k);
        Err(SendErrorView::InvalidAddress(field, trimmed(items[k])))
    }
}

/// The comma-separated segments of a text; a blank text has none.
pub open spec fn segments(raw: Seq<char>) -> Seq<Seq<char>> {
    if is_blank(raw) {
        Seq::empty()
    } else {
        split(raw, ',')
    }
}

/// What reading a comma-separated address list gives. An absent or blank
/// text is the empty list.
pub open spec fn read_list(field: Field, raw: Option<Seq<char>>) -> Result<
    Seq<Seq<char>>,
    SendErrorView,
> {
    match raw {
        None => Ok(Seq::empty()),
        Some(s) => read_items(field, segments(s)),
    }
}

/// There is at most one first item that is no mailbox; where item `k` is
/// it, reading fails with that item.
pub proof fn lemma_first_rejected(field: Field, items: Seq<Seq<char>>, k: int)
    requires
        first_rejected(items, k),
    ensures
        read_items(field, items) == Err::<Seq<Seq<char>>, _>(
            SendErrorView::InvalidAddress(field, trimmed(items[k])),
        ),
{
    let c = choose|c: int| first_rejected(items, c);
    if c < k {
        assert(mailbox_syntax(trimmed(items[c])));
    } else if k < c {
        assert(mailbox_syntax(trimmed(items[k])));
    }
}

/// Reading fails exactly when some item is no mailbox, and then it reports
/// the first such item.
pub proof fn lemma_read_items_reports_first(field: Field, items: Seq<Seq<char>>)
    ensures
        read_items(field, items) is Err <==> !all_accepted(items),
        read_items(field, items) matches Err(e) ==> exists|k: int| #[trigger]
            first_rejected(items, k) && e == SendErrorView::InvalidAddress(
                field,
                trimmed(items[k]),
            ),
{
    if !all_accepted(items) {
        let i = choose|i: int|
            0 <= i < items.len() && !mailbox_syntax(trimmed(#[trigger] items[i]));
        lemma_least_rejected(items, i);
    }
}

proof fn lemma_least_rejected(items: Seq<Seq<char>>, i: int)
    requires
        0 <= i < items.len(),
        !mailbox_syntax(trimmed(items[i])),
    ensures
        exists|k: int| first_rejected(items, k),
    decreases i,
{
    if forall|j: int| 0 <= j < i ==> mailbox_syntax(trimmed(#[trigger] items[j])) {
        assert(first_rejected(items, i));
    } else {
        let j = choose|j: int| 0 <= j < i && !mailbox_syntax(trimmed(#[trigger] items[j]));
        lemma_least_rejected(items, j);
    }
}

/// An absent list and a blank one are read as the empty list.
pub proof fn lemma_read_list_blank(field: Field, raw: Option<Seq<char>>)
    requires
        raw matches Some(s) ==> is_blank(s),
    ensures
        read_list(field, raw) == Ok::<_, SendErrorView>(Seq::<Seq<char>>::empty()),
{
    assert(trimmed_items(Seq::<Seq<char>>::empty()) =~= Seq::<Seq<char>>::empty());
}

/// A list that is not blank and whose segments are all mailboxes is read as
/// its segments: one address more than there are commas, each the trimmed
/// segment at its place.
pub proof fn lemma_read_list_keeps_segments(field: Field, raw: Seq<char>)
    requires
        !is_blank(raw),
        all_accepted(split(raw, ',')),
    ensures
        read_list(field, Some(raw)) matches Ok(list) && list.len() == occurrences(raw, ',') + 1
            && forall|i: int|
            0 <= i < list.len() ==> #[trigger] list[i] == trimmed(split(raw, ',')[i]),
{
    lemma_split_pieces(raw, ',');
}

impl EmailAddress {
    #[verifier::type_invariant]
    spec fn accepted(self) -> bool {
        &&& mailbox_syntax(self.text@)
        &&& mailbox_text(self.mailbox) == written_address(self.text@)
        &&& mailbox_address(self.mailbox) == read_address(self.text@)
    }

    /// What the mail library writes for the address in a header.
    pub closed spec fn shown(&self) -> Seq<char> {
        mailbox_text(self.mailbox)
    }

    /// What mail for the address is delivered to.
    pub closed spec fn address(&self) -> Seq<char> {
        mailbox_address(self.mailbox)
    }

    /// Reads an address: `text` without the white space around it, if that
    /// is a mailbox.
    pub fn parse(text: &str) -> (r: Option<EmailAddress>)
        ensures
            r is Some <==> mailbox_syntax(trimmed(text@)),
            r matches Some(a) ==> a@ == trimmed(text@) && a.shown() == written_address(a@)
                && a.address() == read_address(a@),
    {
        let text = trim(text);
        match parse_mailbox(text.as_str()) {
            Some(mailbox) => Some(EmailAddress { text, mailbox }),
            None => None,
        }
    }

    /// The text of the address. It is a mailbox, and the address is
    /// written as the mail library writes what it reads from that text.
    pub fn as_str(&self) -> (r: &str)
        ensures
            r@ == self@,
            mailbox_syntax(self@),
            self.shown() == written_address(self@),
            self.address() == read_address(self@),
    {
        proof {
            use_type_invariant(self);
        }
        self.text.as_str()
    }
}

/// Every address of a list is written, and delivered to, as the mail
/// library reads it from the text of the address.
pub fn written_as_read(list: &Vec<EmailAddress>)
    ensures
        shown_list(list@) == shown_all(address_texts(list@)),
        delivery_list(list@) == read_all(address_texts(list@)),
{
    let mut i: usize = 0;
    while i < list.len()
        invariant
            i <= list.len(),
            forall|j: int|
                0 <= j < i ==> (#[trigger] list@[j]).shown() == written_address(list@[j]@)
                    && list@[j].address() == read_address(list@[j]@),
        decreases list.len() - i,
    {
        let _ = list[i].as_str();
        i += 1;
    }
    assert(shown_list(list@) =~= shown_all(address_texts(list@)));
    assert(delivery_list(list@) =~= read_all(address_texts(list@)));
}

/// Reads each item of `items` as an address of the list `field`.
pub fn parse_items(field: Field, items: &Vec<String>) -> (r: Result<Vec<EmailAddress>, SendError>)
    ensures
        match r {
            Ok(list) => read_items(field, views(items@)) == Ok::<_, SendErrorView>(
                address_texts(list@),
            ),
            Err(e) => read_items(field, views(items@)) == Err::<Seq<Seq<char>>, _>(e@),
        },
{
    let mut out: Vec<EmailAddress> = Vec::new();
    let mut i: usize = 0;
    while i < items.len()
        invariant
            i <= items.len(),
            out.len() == i,
            forall|j: int|
                0 <= j < i ==> mailbox_syntax(trimmed(#[trigger] views(items@)[j])) && out@[j]@
                    == trimmed(views(items@)[j]),
        decreases items.len() - i,
    {
        match EmailAddress::parse(items[i].as_str()) {
            Some(address) => {
                out.push(address);
            },
            None => {
                proof {
                    lemma_first_rejected(field, views(items@), i as int);
                }
                return Err(SendError::InvalidAddress(field, trim(items[i].as_str())));
            },
        }
        i += 1;
    }
    assert(address_texts(out@) =~= trimmed_items(views(items@)));
    Ok(out)
}

/// The comma-separated segments of `raw`; none if `raw` is blank.
pub fn split_list(raw: &str) -> (r: Vec<String>)
    ensures
        views(r@) == segments(raw@),
{
    if trim(raw).as_str().unicode_len() == 0 {
        Vec::new()
    } else {
        split_text(raw, ',')
    }
}

/// Reads a comma-separated list of addresses for the list `field`.
pub fn parse(field: Field, raw: Option<&str>) -> (r: Result<Vec<EmailAddress>, SendError>)
    ensures
        match r {
            Ok(list) => read_list(field, view_of(raw)) == Ok::<_, SendErrorView>(
                address_texts(list@),
            ),
            Err(e) => read_list(field, view_of(raw)) == Err::<Seq<Seq<char>>, _>(e@),
        },
{
    match raw {
        None => {
            let r: Vec<EmailAddress> = Vec::new();
            assert(address_texts(r@) =~= Seq::empty());
            Ok(r)
        },
        Some(s) => {
            let items = split_list(s);
            parse_items(field, &items)
        },
    }
}

} // verus!
