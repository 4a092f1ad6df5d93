use smtp_client::address::{parse, parse_items, split_list, EmailAddress};
use smtp_client::error::{Field, SendError};

fn strings(items: &[&str]) -> Vec<String> {
    items.iter().map(|s| s.to_string()).collect()
}

fn texts(list: &[EmailAddress]) -> Vec<String> {
    list.iter().map(|a| a.as_str().to_string()).collect()
}

#[test]
fn address_parse_accepts_an_address() {
    let a = EmailAddress::parse("user@example.com").unwrap();
    assert_eq!(a.as_str(), "user@example.com");
}

#[test]
fn address_parse_trims() {
    let a = EmailAddress::parse("  user@example.com\t").unwrap();
    assert_eq!(a.as_str(), "user@example.com");
}

#[test]
fn address_parse_accepts_a_display_name() {
    let a = EmailAddress::parse("Some One <user@example.com>").unwrap();
    assert_eq!(a.as_str(), "Some One <user@example.com>");
}

#[test]
fn address_parse_rejects_what_is_no_address() {
    assert!(EmailAddress::parse("not-an-address").is_none());
    assert!(EmailAddress::parse("").is_none());
    assert!(EmailAddress::parse("   ").is_none());
    assert!(EmailAddress::parse("a@").is_none());
    assert!(EmailAddress::parse("@b.com").is_none());
    assert!(EmailAddress::parse("a@b.com, c@d.com").is_none());
}

#[test]
fn address_clone_keeps_the_text() {
    let a = EmailAddress::parse("user@example.com").unwrap();
    assert_eq!(a.clone().as_str(), "user@example.com");
}

#[test]
fn parse_absent_is_empty() {
    for field in [Field::To, Field::Cc, Field::Bcc, Field::From] {
        assert_eq!(parse(field, None).unwrap().len(), 0);
    }
}

#[test]
fn parse_empty_text_is_empty() {
    assert_eq!(parse(Field::To, Some("")).unwrap().len(), 0);
}

#[test]
fn parse_blank_text_is_empty() {
    assert_eq!(parse(Field::Cc, Some("   ")).unwrap().len(), 0);
    assert_eq!(parse(Field::Cc, Some(" \t\r\n")).unwrap().len(), 0);
}

#[test]
fn parse_keeps_number_and_order() {
    let list = parse(Field::To, Some("a@x.com,b@x.com")).unwrap();
    assert_eq!(texts(&list), strings(&["a@x.com", "b@x.com"]));
    let list = parse(Field::To, Some(" c@x.com , a@x.com,b@x.com ,a@x.com")).unwrap();
    assert_eq!(texts(&list), strings(&["c@x.com", "a@x.com", "b@x.com", "a@x.com"]));
    let list = parse(Field::Bcc, Some("only@x.com")).unwrap();
    assert_eq!(texts(&list), strings(&["only@x.com"]));
}

#[test]
fn parse_reports_the_second_segment() {
    let r = parse(Field::To, Some("a@b.com, not-an-address"));
    assert_eq!(
        r.unwrap_err(),
        SendError::InvalidAddress(Field::To, "not-an-address".to_string())
    );
}

#[test]
fn parse_reports_the_first_of_several() {
    let r = parse(Field::Cc, Some("a@b.com, bad one ,worse,c@d.com"));
    assert_eq!(r.unwrap_err(), SendError::InvalidAddress(Field::Cc, "bad one".to_string()));
}

#[test]
fn parse_reports_an_empty_segment() {
    let r = parse(Field::Bcc, Some("a@b.com,,c@d.com"));
    assert_eq!(r.unwrap_err(), SendError::InvalidAddress(Field::Bcc, String::new()));
    let r = parse(Field::Bcc, Some("a@b.com,"));
    assert_eq!(r.unwrap_err(), SendError::InvalidAddress(Field::Bcc, String::new()));
    let r = parse(Field::Bcc, Some(","));
    assert_eq!(r.unwrap_err(), SendError::InvalidAddress(Field::Bcc, String::new()));
}

#[test]
fn split_list_of_blank_has_no_items() {
    assert_eq!(split_list(""), Vec::<String>::new());
    assert_eq!(split_list("  \t "), Vec::<String>::new());
}

#[test]
fn split_list_keeps_the_segments_as_given() {
    assert_eq!(split_list("a@x.com, b@x.com"), strings(&["a@x.com", " b@x.com"]));
    assert_eq!(split_list(" , "), strings(&[" ", " "]));
}

#[test]
fn parse_items_reads_each_item() {
    let list = parse_items(Field::To, &strings(&[" a@x.com", "b@x.com "])).unwrap();
    assert_eq!(texts(&list), strings(&["a@x.com", "b@x.com"]));
    assert_eq!(parse_items(Field::To, &Vec::new()).unwrap().len(), 0);
}

#[test]
fn parse_items_reports_the_field() {
    for field in [Field::From, Field::To, Field::Cc, Field::Bcc] {
        let r = parse_items(field, &strings(&["a@x.com", " nope "]));
        assert_eq!(r.unwrap_err(), SendError::InvalidAddress(field, "nope".to_string()));
    }
}
