use lettre::Transport;
use mail_bridge::dispatch::{
    complete_send, prepare_dispatch, signal_for, DispatchError, JRuntimeException, SendOutcome,
    Signal,
};
use mail_bridge::domain::JConfig;
use mail_bridge::foreign::{FieldName, Foreign};
use mail_bridge::init::{attach_token, AttachGuard};
use mail_bridge::transport::{classify_failure, join_response, JLettre, SendFailure, TransportError};

fn text(s: &str) -> Foreign {
    Foreign::Text(String::from(s))
}

fn mailbox_obj(name: &str, user: &str, domain: &str) -> Foreign {
    let email = Foreign::Object(vec![
        (FieldName::User, text(user)),
        (FieldName::Domain, text(domain)),
    ]);
    Foreign::Object(vec![
        (FieldName::Name, text(name)),
        (FieldName::Email, email),
    ])
}

fn message_obj(from: Foreign, to: Foreign, subject: &str, body: &str) -> Foreign {
    Foreign::Object(vec![
        (FieldName::From, from),
        (FieldName::To, to),
        (FieldName::Subject, text(subject)),
        (FieldName::Body, text(body)),
    ])
}

fn config_obj(server: &str, port: i32, username: &str, password: &str) -> Foreign {
    Foreign::Object(vec![
        (FieldName::Server, text(server)),
        (FieldName::Port, Foreign::Int(port)),
        (FieldName::Username, text(username)),
        (FieldName::Password, text(password)),
    ])
}

fn failure_facts(e: &lettre::transport::smtp::Error) -> SendFailure {
    SendFailure {
        is_tls: e.is_tls(),
        is_permanent: e.is_permanent(),
        is_transient: e.is_transient(),
        is_response: e.is_response(),
        is_client: e.is_client(),
        is_shutdown: e.is_transport_shutdown(),
        status: e.status().map(|c| {
            (c.severity as u16) * 100 + (c.category as u16) * 10 + (c.detail as u16)
        }),
    }
}

#[test]
fn port_out_of_range_resolves_to_465() {
    let zero = JConfig {
        server: String::from("smtp.example.com"),
        port: 0,
        username: String::from("u"),
        password: String::from("p"),
    };
    assert_eq!(zero.port(), 465);
    let large = JConfig { port: 70000, ..zero };
    assert_eq!(large.port(), 465);
}

#[test]
fn port_in_range_is_kept() {
    let c = JConfig {
        server: String::from("smtp.example.com"),
        port: 587,
        username: String::from("u"),
        password: String::from("p"),
    };
    assert_eq!(c.port(), 587);
}

#[test]
fn session_is_bound_to_resolved_port() {
    let c = JConfig {
        server: String::from("smtp.example.com"),
        port: 70000,
        username: String::from("u"),
        password: String::from("p"),
    };
    let session = JLettre::build(&c).unwrap();
    assert_eq!(session.port, 465);
    assert_eq!(session.server, "smtp.example.com");

    let c = JConfig {
        server: String::from("smtp.example.com"),
        port: 587,
        username: String::from("u"),
        password: String::from("p"),
    };
    assert_eq!(JLettre::build(&c).unwrap().port, 587);
}

#[test]
fn session_describe_is_server_colon_port() {
    let c = JConfig {
        server: String::from("smtp.example.com"),
        port: 8025,
        username: String::from("secret-user"),
        password: String::from("secret-pass"),
    };
    let session = JLettre::build(&c).unwrap();
    assert_eq!(session.describe(), "smtp.example.com:8025");
    let c = JConfig {
        server: String::from("mail.example.org"),
        port: 70000,
        username: String::from("u"),
        password: String::from("p"),
    };
    assert_eq!(JLettre::build(&c).unwrap().describe(), "mail.example.org:465");
}

#[test]
fn attach_hook_is_idempotent() {
    let mut guard = AttachGuard::new();
    assert!(guard.ensure_attached());
    assert!(!guard.ensure_attached());
    assert!(!guard.ensure_attached());
    assert_eq!(attach_token(), 0x0001_0006);
}

#[test]
fn scenario_a_valid_message_prepares_a_session() {
    let config = config_obj("smtp.example.com", 465, "u", "p");
    let message = message_obj(
        mailbox_obj("", "a", "example.com"),
        mailbox_obj("Bob", "b", "example.org"),
        "Hi",
        "Hello",
    );
    let prepared = prepare_dispatch(&config, &message).unwrap();
    assert_eq!(prepared.session.server, "smtp.example.com");
    assert_eq!(prepared.session.port, 465);
    assert_eq!(prepared.session.describe(), "smtp.example.com:465");
    let wire = String::from_utf8_lossy(&prepared.wire.formatted()).to_string();
    assert!(wire.contains("From: a@example.com"));
    assert!(wire.contains("Bob"));
    assert!(wire.contains("b@example.org"));
    assert!(wire.contains("Subject: Hi"));
    assert!(wire.contains("Content-Type: text/plain"));
    assert!(wire.contains("Hello"));
}

#[test]
fn scenario_b_empty_from_user_fails_at_marshalling() {
    let config = config_obj("smtp.example.com", 465, "u", "p");
    let message = message_obj(
        mailbox_obj("", "", "example.com"),
        mailbox_obj("Bob", "b", "example.org"),
        "Hi",
        "Hello",
    );
    let r = prepare_dispatch(&config, &message);
    let e = match r {
        Err(e) => e,
        Ok(_) => panic!("dispatch must fail at marshalling"),
    };
    assert!(matches!(
        e,
        DispatchError::Marshal(mail_bridge::marshal::MarshalError::InvalidAddress { .. })
    ));
    match signal_for(Err(e)) {
        Signal::Raise { error } => {
            assert_eq!(error.message, "marshal error: invalid address: @example.com");
        }
        Signal::Completed { .. } => panic!("a failure must be raised"),
    }
}

#[test]
fn scenario_c_unreachable_host_is_a_connect_failure() {
    let config = config_obj("127.0.0.1", 9, "u", "p");
    let message = message_obj(
        mailbox_obj("", "a", "example.com"),
        mailbox_obj("Bob", "b", "example.org"),
        "Hi",
        "Hello",
    );
    let prepared = prepare_dispatch(&config, &message).unwrap();
    let transport = prepared.session.into_transport();
    let err = transport
        .send(&prepared.wire)
        .expect_err("nothing listens on this port");
    let outcome = SendOutcome::Rejected(failure_facts(&err));
    let r = complete_send(&outcome);
    assert!(matches!(
        r,
        Err(DispatchError::Transport(TransportError::ConnectFailed))
    ));
    match signal_for(r) {
        Signal::Raise { error } => {
            assert_eq!(error.message, "transport error: connection failed");
        }
        Signal::Completed { .. } => panic!("a failure must be raised"),
    }
}

#[test]
fn auth_rejection_codes_classify_as_auth_rejected() {
    let base = SendFailure {
        is_tls: false,
        is_permanent: true,
        is_transient: false,
        is_response: false,
        is_client: false,
        is_shutdown: false,
        status: Some(535),
    };
    assert_eq!(classify_failure(&base), TransportError::AuthRejected);
    let other_code = SendFailure { status: Some(550), ..base };
    assert_eq!(classify_failure(&other_code), TransportError::Other);
    let transient = SendFailure {
        is_permanent: false,
        is_transient: true,
        status: Some(421),
        ..base
    };
    assert_eq!(classify_failure(&transient), TransportError::Other);
    let tls = SendFailure { is_tls: true, ..base };
    assert_eq!(classify_failure(&tls), TransportError::TlsSetupFailed);
    let network = SendFailure {
        is_permanent: false,
        status: None,
        ..base
    };
    assert_eq!(classify_failure(&network), TransportError::ConnectFailed);
}

#[test]
fn delivered_acknowledgment_lines_are_joined() {
    let outcome = SendOutcome::Delivered(vec![
        String::from("2.0.0 OK"),
        String::from("queued as 4242"),
    ]);
    match complete_send(&outcome) {
        Ok(ack) => assert_eq!(ack, "2.0.0 OK, queued as 4242"),
        Err(_) => panic!("a delivered outcome must succeed"),
    }
    assert_eq!(join_response(&vec![]), "");
    assert_eq!(join_response(&vec![String::from("one")]), "one");
}

#[test]
fn success_signal_carries_the_acknowledgment() {
    match signal_for(Ok(String::from("250 OK"))) {
        Signal::Completed { acknowledgment } => assert_eq!(acknowledgment, "250 OK"),
        Signal::Raise { .. } => panic!("success raises nothing"),
    }
}

#[test]
fn error_descriptions_name_the_failing_step() {
    let e = DispatchError::Marshal(mail_bridge::marshal::MarshalError::MissingField);
    assert_eq!(e.describe(), "marshal error: missing field");
    let e = DispatchError::Transport(TransportError::AuthRejected);
    assert_eq!(e.describe(), "transport error: authentication rejected");
    let e = DispatchError::MessageBuild;
    assert_eq!(e.describe(), "message build error");
    let e = DispatchError::Internal;
    assert_eq!(e.describe(), "internal error");
    let raised = JRuntimeException::new(String::from("boom"));
    assert_eq!(raised.message, "boom");
}

#[test]
fn descriptions_never_leak_credentials() {
    let config = config_obj("smtp.example.com", 465, "secret-user", "secret-pass");
    let message = message_obj(
        mailbox_obj("", "", "example.com"),
        mailbox_obj("Bob", "b", "example.org"),
        "Hi",
        "Hello",
    );
    let e = match prepare_dispatch(&config, &message) {
        Err(e) => e,
        Ok(_) => panic!("dispatch must fail at marshalling"),
    };
    let text = e.describe();
    assert!(!text.contains("secret-user"));
    assert!(!text.contains("secret-pass"));
}
