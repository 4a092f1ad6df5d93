use smtp_client::config::ConnectionConfig;
use smtp_client::error::SendError;
use lettre::transport::smtp::client::TlsParameters;
use lettre::SmtpTransport;
use smtp_client::transport::{
    create_transport, open_transport, plan_transport, secured, TlsMode, TransportPlan,
};

fn config(use_tls: bool, username: Option<&str>, password: Option<&str>) -> ConnectionConfig {
    ConnectionConfig {
        server_host: "127.0.0.1".to_string(),
        port: 2525,
        use_tls,
        username: username.map(|s| s.to_string()),
        password: password.map(|s| s.to_string()),
    }
}

#[test]
fn plan_without_tls() {
    assert_eq!(
        plan_transport(&config(false, None, None), None),
        TransportPlan {
            host: "127.0.0.1".to_string(),
            port: 2525,
            tls: TlsMode::Off,
            credentials: None,
            time_limit: None,
        }
    );
}

#[test]
fn plan_with_tls_and_credentials() {
    assert_eq!(
        plan_transport(&config(true, Some("user"), Some("secret")), Some(30)),
        TransportPlan {
            host: "127.0.0.1".to_string(),
            port: 2525,
            tls: TlsMode::Wrapper,
            credentials: Some(("user".to_string(), "secret".to_string())),
            time_limit: Some(30),
        }
    );
}

#[test]
fn plan_attaches_credentials_only_as_a_pair() {
    assert_eq!(plan_transport(&config(false, Some("user"), None), None).credentials, None);
    assert_eq!(plan_transport(&config(false, None, Some("secret")), None).credentials, None);
}

#[test]
fn transport_without_tls_is_always_made() {
    assert!(create_transport(&config(false, None, None)).is_ok());
    assert!(create_transport(&config(false, Some("user"), Some("secret"))).is_ok());
    assert!(open_transport(&plan_transport(&config(false, None, None), None)).is_ok());
}

#[test]
fn transport_with_tls_fails_only_for_tls() {
    match create_transport(&config(true, Some("user"), Some("secret"))) {
        Ok(_) => {}
        Err(e) => assert!(matches!(e, SendError::TlsSetupFailed(_))),
    }
}

#[test]
fn transport_with_a_time_limit_is_made() {
    assert!(open_transport(&plan_transport(&config(false, None, None), Some(5))).is_ok());
    assert!(open_transport(&plan_transport(&config(false, None, None), Some(0))).is_ok());
}

#[test]
fn failed_tls_parameters_fail_the_setup() {
    let builder = SmtpTransport::builder_dangerous("127.0.0.1");
    let error = SmtpTransport::from_url("no url at all").unwrap_err();
    match secured(builder, Err(error)) {
        Err(SendError::TlsSetupFailed(cause)) => assert!(!cause.is_empty()),
        other => panic!("unexpected {:?}", other.map(|_| ())),
    }
}

#[test]
fn tls_parameters_secure_the_builder() {
    if let Ok(parameters) = TlsParameters::new("mail.example.com".to_string()) {
        let builder = SmtpTransport::builder_dangerous("mail.example.com");
        assert!(secured(builder, Ok(parameters)).is_ok());
    }
}

#[test]
fn the_transport_is_set_as_the_plan_tells() {
    let shown = format!("{:?}", create_transport(&config(false, None, None)).unwrap());
    assert!(shown.contains("server: \"127.0.0.1\""), "{}", shown);
    assert!(shown.contains("port: 2525"), "{}", shown);
    assert!(shown.contains("tls: None"), "{}", shown);
    assert!(shown.contains("credentials: None"), "{}", shown);
    assert!(shown.contains("timeout: Some(60s)"), "{}", shown);

    let plan = plan_transport(&config(false, Some("user"), Some("secret")), Some(7));
    let shown = format!("{:?}", open_transport(&plan).unwrap());
    assert!(shown.contains("credentials: Some("), "{}", shown);
    assert!(shown.contains("timeout: Some(7s)"), "{}", shown);
    assert!(shown.contains("tls: None"), "{}", shown);

    if let Ok(transport) = create_transport(&config(true, None, None)) {
        let shown = format!("{:?}", transport);
        assert!(shown.contains("tls: Wrapper"), "{}", shown);
        assert!(shown.contains("port: 2525"), "{}", shown);
    }
}

#[test]
fn securing_changes_the_tls_mode_only() {
    if let Ok(parameters) = TlsParameters::new("mail.example.com".to_string()) {
        let builder = SmtpTransport::builder_dangerous("mail.example.com").port(465);
        let shown = format!("{:?}", secured(builder, Ok(parameters)).unwrap().build());
        assert!(shown.contains("tls: Wrapper"), "{}", shown);
        assert!(shown.contains("port: 465"), "{}", shown);
        assert!(shown.contains("server: \"mail.example.com\""), "{}", shown);
    }
}

#[test]
fn a_failed_setup_carries_its_cause() {
    let builder = SmtpTransport::builder_dangerous("127.0.0.1");
    let error = SmtpTransport::from_url("no url at all").unwrap_err();
    let cause = format!("{:?}", error);
    assert_eq!(secured(builder, Err(error)).unwrap_err(), SendError::TlsSetupFailed(cause));
}
