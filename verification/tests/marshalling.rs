use mail_bridge::foreign::{FieldName, Foreign};
use mail_bridge::marshal::{
    marshal_address, marshal_config, marshal_mailbox, marshal_message, MarshalError,
};

fn text(s: &str) -> Foreign {
    Foreign::Text(String::from(s))
}

fn addr_obj(user: &str, domain: &str) -> Foreign {
    Foreign::Object(vec![
        (FieldName::User, text(user)),
        (FieldName::Domain, text(domain)),
    ])
}

fn mailbox_obj(name: &str, user: &str, domain: &str) -> Foreign {
    Foreign::Object(vec![
        (FieldName::Name, text(name)),
        (FieldName::Email, addr_obj(user, domain)),
    ])
}

fn message_obj(from: Foreign, to: Foreign, subject: &str, body: &str) -> Foreign {
    Foreign::Object(vec![
        (FieldName::From, from),
        (FieldName::To, to),
        (FieldName::Subject, text(subject)),
        (FieldName::Body, text(body)),
    ])
}

fn config_obj(server: &str, port: i32, username: &str, password: &str) -> Foreign {
    Foreign::Object(vec![
        (FieldName::Server, text(server)),
        (FieldName::Port, Foreign::Int(port)),
        (FieldName::Username, text(username)),
        (FieldName::Password, text(password)),
    ])
}

#[test]
fn marshal_address_accepts_valid_pair() {
    let a = marshal_address(&addr_obj("alice", "example.com")).unwrap();
    assert_eq!(a.user, "alice");
    assert_eq!(a.domain, "example.com");
}

#[test]
fn marshal_address_rejects_empty_user() {
    let r = marshal_address(&addr_obj("", "example.com"));
    match r {
        Err(MarshalError::InvalidAddress { user, domain }) => {
            assert_eq!(user, "");
            assert_eq!(domain, "example.com");
        }
        _ => panic!("expected InvalidAddress"),
    }
}

#[test]
fn marshal_address_rejects_bad_domain() {
    let r = marshal_address(&addr_obj("alice", "no spaces allowed"));
    assert!(matches!(r, Err(MarshalError::InvalidAddress { .. })));
}

#[test]
fn marshal_address_reports_missing_field() {
    let v = Foreign::Object(vec![(FieldName::User, text("alice"))]);
    assert!(matches!(
        marshal_address(&v),
        Err(MarshalError::MissingField)
    ));
    let v = Foreign::Object(vec![
        (FieldName::User, text("alice")),
        (FieldName::Domain, Foreign::Absent),
    ]);
    assert!(matches!(
        marshal_address(&v),
        Err(MarshalError::MissingField)
    ));
}

#[test]
fn marshal_address_reports_type_mismatch() {
    let v = Foreign::Object(vec![
        (FieldName::User, Foreign::Int(3)),
        (FieldName::Domain, text("example.com")),
    ]);
    assert!(matches!(
        marshal_address(&v),
        Err(MarshalError::TypeMismatch)
    ));
    let v = Foreign::Object(vec![
        (FieldName::User, Foreign::Fault),
        (FieldName::Domain, text("example.com")),
    ]);
    assert!(matches!(
        marshal_address(&v),
        Err(MarshalError::TypeMismatch)
    ));
    assert!(matches!(
        marshal_address(&text("not an object")),
        Err(MarshalError::TypeMismatch)
    ));
}

#[test]
fn mailbox_empty_name_means_no_display_name() {
    let m = marshal_mailbox(&mailbox_obj("", "alice", "example.com")).unwrap();
    assert!(m.name.is_none());
    assert_eq!(m.email.user, "alice");
}

#[test]
fn mailbox_nonempty_name_is_preserved_verbatim() {
    let m = marshal_mailbox(&mailbox_obj("Alice B.", "alice", "example.com")).unwrap();
    assert_eq!(m.name, Some(String::from("Alice B.")));
    assert_eq!(m.email.domain, "example.com");
}

#[test]
fn marshal_message_yields_exact_fields() {
    let v = message_obj(
        mailbox_obj("", "a", "example.com"),
        mailbox_obj("Bob", "b", "example.org"),
        "Hi",
        "Hello",
    );
    let m = marshal_message(&v).unwrap();
    assert!(m.from.name.is_none());
    assert_eq!(m.from.email.user, "a");
    assert_eq!(m.from.email.domain, "example.com");
    assert_eq!(m.to.name, Some(String::from("Bob")));
    assert_eq!(m.to.email.user, "b");
    assert_eq!(m.to.email.domain, "example.org");
    assert_eq!(m.subject, "Hi");
    assert_eq!(m.body, "Hello");
}

#[test]
fn marshal_message_aborts_on_bad_nested_address() {
    let v = message_obj(
        mailbox_obj("", "", "example.com"),
        mailbox_obj("Bob", "b", "example.org"),
        "Hi",
        "Hello",
    );
    assert!(matches!(
        marshal_message(&v),
        Err(MarshalError::InvalidAddress { .. })
    ));
}

#[test]
fn marshal_message_subject_and_body_may_be_empty() {
    let v = message_obj(
        mailbox_obj("", "a", "example.com"),
        mailbox_obj("", "b", "example.org"),
        "",
        "",
    );
    let m = marshal_message(&v).unwrap();
    assert_eq!(m.subject, "");
    assert_eq!(m.body, "");
}

#[test]
fn message_summary_names_both_parties_and_nothing_else() {
    let v = message_obj(
        mailbox_obj("", "a", "example.com"),
        mailbox_obj("Bob", "b", "example.org"),
        "a very private subject",
        "an even more private body",
    );
    let m = marshal_message(&v).unwrap();
    let summary = m.describe();
    assert_eq!(summary, "from(<a@example.com>), to(Bob <b@example.org>)");
    assert!(!summary.contains("private"));
}

#[test]
fn marshal_config_carries_fields_through() {
    let c = marshal_config(&config_obj("smtp.example.com", 70000, "u", "p")).unwrap();
    assert_eq!(c.server, "smtp.example.com");
    assert_eq!(c.port, 70000);
    assert_eq!(c.username, "u");
    assert_eq!(c.password, "p");
}

#[test]
fn marshal_config_reports_shape_errors() {
    let v = Foreign::Object(vec![
        (FieldName::Server, text("smtp.example.com")),
        (FieldName::Port, text("465")),
        (FieldName::Username, text("u")),
        (FieldName::Password, text("p")),
    ]);
    assert!(matches!(
        marshal_config(&v),
        Err(MarshalError::TypeMismatch)
    ));
    let v = Foreign::Object(vec![(FieldName::Server, text("smtp.example.com"))]);
    assert!(matches!(
        marshal_config(&v),
        Err(MarshalError::MissingField)
    ));
}
