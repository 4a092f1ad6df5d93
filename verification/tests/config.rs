use smtp_client::config::{
    port_of, port_override, prefer, resolve, ConnectionConfig, Defaults, PartialConnectionConfig, DEFAULT_PORT,
    DEFAULT_TLS,
};
use smtp_client::error::{Missing, SendError, Setting};
use smtp_client::number::ValueFault;

fn no_overrides() -> PartialConnectionConfig {
    PartialConnectionConfig {
        server_host: None,
        port: None,
        use_tls: None,
        username: None,
        password: None,
    }
}

fn no_defaults() -> Defaults {
    Defaults {
        server: None,
        port: None,
        tls: None,
        username: None,
        password: None,
        from_address: None,
    }
}

fn some(text: &str) -> Option<String> {
    Some(text.to_string())
}

#[test]
fn built_in_defaults() {
    assert_eq!(DEFAULT_PORT, 587);
    assert!(DEFAULT_TLS);
}

#[test]
fn prefer_takes_the_explicit_value() {
    assert_eq!(prefer(Some(1), Some(2)), Some(1));
    assert_eq!(prefer(None, Some(2)), Some(2));
    assert_eq!(prefer(Some(1), None), Some(1));
    assert_eq!(prefer::<u8>(None, None), None);
}

#[test]
fn resolve_without_server_fails() {
    let r = resolve(&no_overrides(), &no_defaults());
    assert_eq!(r, Err(SendError::MissingConfig(Setting::Server)));
}

#[test]
fn resolve_without_server_fails_whatever_else_is_given() {
    let call = PartialConnectionConfig {
        port: Some(25),
        use_tls: Some(false),
        username: some("u"),
        ..no_overrides()
    };
    let source = Defaults { port: some("x"), tls: some("y"), ..no_defaults() };
    assert_eq!(resolve(&call, &source), Err(SendError::MissingConfig(Setting::Server)));
}

#[test]
fn resolve_applies_built_in_defaults() {
    let call = PartialConnectionConfig { server_host: some("mail.example.com"), ..no_overrides() };
    let r = resolve(&call, &no_defaults()).unwrap();
    assert_eq!(
        r,
        ConnectionConfig {
            server_host: "mail.example.com".to_string(),
            port: 587,
            use_tls: true,
            username: None,
            password: None,
        }
    );
}

#[test]
fn resolve_takes_the_source_where_the_call_is_silent() {
    let source = Defaults {
        server: some("relay.example.com"),
        port: some("2525"),
        tls: some("false"),
        username: some("user"),
        password: some("secret"),
        from_address: some("me@example.com"),
    };
    let r = resolve(&no_overrides(), &source).unwrap();
    assert_eq!(
        r,
        ConnectionConfig {
            server_host: "relay.example.com".to_string(),
            port: 2525,
            use_tls: false,
            username: some("user"),
            password: some("secret"),
        }
    );
}

#[test]
fn resolve_lets_the_call_win() {
    let source = Defaults {
        server: some("relay.example.com"),
        port: some("2525"),
        tls: some("false"),
        username: some("user"),
        password: some("secret"),
        from_address: None,
    };
    let call = PartialConnectionConfig {
        server_host: some("127.0.0.1"),
        port: Some(465),
        use_tls: Some(true),
        username: some("other"),
        password: some("hidden"),
    };
    let r = resolve(&call, &source).unwrap();
    assert_eq!(
        r,
        ConnectionConfig {
            server_host: "127.0.0.1".to_string(),
            port: 465,
            use_tls: true,
            username: some("other"),
            password: some("hidden"),
        }
    );
}

#[test]
fn resolve_ignores_the_source_server_when_the_call_names_one() {
    let call = PartialConnectionConfig { server_host: some("127.0.0.1"), ..no_overrides() };
    let with = resolve(&call, &Defaults { server: some("relay.example.com"), ..no_defaults() });
    let with_empty = resolve(&call, &Defaults { server: some(""), ..no_defaults() });
    let without = resolve(&call, &no_defaults());
    assert_eq!(with, without);
    assert_eq!(with_empty, without);
    assert_eq!(with.unwrap().server_host, "127.0.0.1");
}

#[test]
fn resolve_does_not_read_the_source_port_when_the_call_names_one() {
    let call = PartialConnectionConfig {
        server_host: some("h"),
        port: Some(25),
        use_tls: Some(false),
        ..no_overrides()
    };
    let source = Defaults { port: some("nonsense"), tls: some("nonsense"), ..no_defaults() };
    let r = resolve(&call, &source).unwrap();
    assert_eq!(r.port, 25);
    assert!(!r.use_tls);
}

#[test]
fn resolve_rejects_an_empty_server() {
    let call = PartialConnectionConfig { server_host: some(""), ..no_overrides() };
    let source = Defaults { server: some("relay.example.com"), ..no_defaults() };
    assert_eq!(
        resolve(&call, &source),
        Err(SendError::InvalidConfig(Setting::Server, ValueFault::Empty))
    );
    let source = Defaults { server: some(""), ..no_defaults() };
    assert_eq!(
        resolve(&no_overrides(), &source),
        Err(SendError::InvalidConfig(Setting::Server, ValueFault::Empty))
    );
}

#[test]
fn resolve_rejects_a_bad_source_port() {
    let call = PartialConnectionConfig { server_host: some("h"), ..no_overrides() };
    for (text, fault) in [
        ("", ValueFault::Empty),
        ("smtp", ValueFault::InvalidDigit),
        ("-25", ValueFault::InvalidDigit),
        ("65536", ValueFault::OutOfRange),
    ] {
        let source = Defaults { port: some(text), ..no_defaults() };
        assert_eq!(resolve(&call, &source), Err(SendError::InvalidConfig(Setting::Port, fault)));
    }
}

#[test]
fn resolve_rejects_a_bad_source_tls() {
    let call = PartialConnectionConfig { server_host: some("h"), ..no_overrides() };
    for (text, fault) in [("", ValueFault::Empty), ("on", ValueFault::NotBoolean)] {
        let source = Defaults { tls: some(text), ..no_defaults() };
        assert_eq!(resolve(&call, &source), Err(SendError::InvalidConfig(Setting::Tls, fault)));
    }
}

#[test]
fn resolve_reports_the_port_before_tls() {
    let call = PartialConnectionConfig { server_host: some("h"), ..no_overrides() };
    let source = Defaults { port: some("x"), tls: some("y"), ..no_defaults() };
    assert_eq!(
        resolve(&call, &source),
        Err(SendError::InvalidConfig(Setting::Port, ValueFault::InvalidDigit))
    );
}

#[test]
fn resolve_rejects_half_a_pair_of_credentials() {
    let host = PartialConnectionConfig { server_host: some("h"), ..no_overrides() };
    let call = PartialConnectionConfig { username: some("u"), ..host.clone() };
    assert_eq!(
        resolve(&call, &no_defaults()),
        Err(SendError::IncompleteCredentials(Missing::Password))
    );
    let call = PartialConnectionConfig { password: some("p"), ..host.clone() };
    assert_eq!(
        resolve(&call, &no_defaults()),
        Err(SendError::IncompleteCredentials(Missing::Username))
    );
    let source = Defaults { username: some("u"), ..no_defaults() };
    assert_eq!(
        resolve(&host, &source),
        Err(SendError::IncompleteCredentials(Missing::Password))
    );
    let source = Defaults { password: some("p"), ..no_defaults() };
    assert_eq!(
        resolve(&host, &source),
        Err(SendError::IncompleteCredentials(Missing::Username))
    );
}

#[test]
fn resolve_pairs_credentials_across_call_and_source() {
    let call = PartialConnectionConfig {
        server_host: some("h"),
        username: some("u"),
        ..no_overrides()
    };
    let source = Defaults { password: some("p"), ..no_defaults() };
    let r = resolve(&call, &source).unwrap();
    assert_eq!(r.username, some("u"));
    assert_eq!(r.password, some("p"));
}

#[test]
fn a_user_name_without_password_is_reported_as_such() {
    let call = PartialConnectionConfig {
        server_host: some("127.0.0.1"),
        port: Some(2525),
        use_tls: Some(false),
        username: some("user"),
        password: None,
    };
    let e = resolve(&call, &no_defaults()).unwrap_err();
    assert_eq!(e.message(), "SMTP username provided without password and no default configured");
}

#[test]
fn port_of_takes_what_fits() {
    assert_eq!(port_of(0), Ok(0));
    assert_eq!(port_of(2525), Ok(2525));
    assert_eq!(port_of(65535), Ok(65535));
    assert_eq!(port_of(65536), Err(ValueFault::OutOfRange));
    assert_eq!(port_of(70000), Err(ValueFault::OutOfRange));
    assert_eq!(port_of(-1), Err(ValueFault::OutOfRange));
    assert_eq!(port_of(i32::MIN), Err(ValueFault::OutOfRange));
    assert_eq!(port_of(i32::MAX), Err(ValueFault::OutOfRange));
}

#[test]
fn port_override_reports_a_port_that_does_not_fit() {
    assert_eq!(port_override(None), Ok(None));
    assert_eq!(port_override(Some(2525)), Ok(Some(2525)));
    assert_eq!(port_override(Some(0)), Ok(Some(0)));
    assert_eq!(
        port_override(Some(70000)),
        Err(SendError::InvalidConfig(Setting::Port, ValueFault::OutOfRange))
    );
    assert_eq!(
        port_override(Some(-1)),
        Err(SendError::InvalidConfig(Setting::Port, ValueFault::OutOfRange))
    );
    assert_eq!(
        port_override(Some(70000)).unwrap_err().message(),
        "Invalid SMTP port: number out of range for a port"
    );
}
