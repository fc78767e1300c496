//! The boundary marshaller: a depth-first walk over a [`Foreign`] tree that
//! produces validated domain values or a [`MarshalError`].
//!
//! A message needs two mailboxes, each of which needs an address, each of
//! which needs two text fields; a configuration needs three text fields and
//! one integer field. A field whose accessor returned nothing is reported as
//! a missing field; a failed accessor or an unexpected value shape as a type
//! mismatch; either aborts the whole walk, so no partial value ever escapes.
//! An address that fails the mail-address syntax check is reported with the
//! offending user/domain pair.

use vstd::prelude::*;
use vstd::string::StrSliceExecFns;
use crate::foreign::{FieldName, Foreign, spec_lookup, lookup};
use crate::domain::{JAddress, AddressV, JMailbox, MailboxV, JMessage, MessageV, JConfig, ConfigV};
use crate::smtp::{address_ok, parse_address};

verus! {

/// Why a marshalling walk failed.
#[derive(Debug)]
pub enum MarshalError {
    /// An accessor returned no value, or the field was never produced.
    MissingField,
    /// An accessor failed, or returned a value of an unexpected shape.
    TypeMismatch,
    /// The user/domain pair does not form a valid mail address.
    InvalidAddress { user: String, domain: String },
}

/// The mathematical view of a [`MarshalError`].
pub enum MarshalKind {
    Missing,
    Mismatch,
    BadAddress(Seq<char>, Seq<char>),
}

impl View for MarshalError {
    type V = MarshalKind;

    open spec fn view(&self) -> MarshalKind {
        match self {
            MarshalError::MissingField => MarshalKind::Missing,
            MarshalError::TypeMismatch => MarshalKind::Mismatch,
            MarshalError::InvalidAddress { user, domain } => MarshalKind::BadAddress(
                user@,
                domain@,
            ),
        }
    }
}

/// Reading a text field of a foreign object: the recorded text, or the error
/// the walk reports for this field.
pub open spec fn spec_read_text(v: Foreign, n: FieldName) -> Result<Seq<char>, MarshalKind> {
    match v {
        Foreign::Object(fields) => match spec_lookup(fields@, n) {
            Some(Foreign::Text(s)) => Ok(s@),
            Some(Foreign::Absent) => Err(MarshalKind::Missing),
            None => Err(MarshalKind::Missing),
            Some(_) => Err(MarshalKind::Mismatch),
        },
        _ => Err(MarshalKind::Mismatch),
    }
}

/// Reading an integer field of a foreign object.
pub open spec fn spec_read_int(v: Foreign, n: FieldName) -> Result<i32, MarshalKind> {
    match v {
        Foreign::Object(fields) => match spec_lookup(fields@, n) {
            Some(Foreign::Int(i)) => Ok(i),
            Some(Foreign::Absent) => Err(MarshalKind::Missing),
            None => Err(MarshalKind::Missing),
            Some(_) => Err(MarshalKind::Mismatch),
        },
        _ => Err(MarshalKind::Mismatch),
    }
}

/// Reading a nested-object field of a foreign object.
pub open spec fn spec_read_object(v: Foreign, n: FieldName) -> Result<Foreign, MarshalKind> {
    match v {
        Foreign::Object(fields) => match spec_lookup(fields@, n) {
            Some(Foreign::Object(inner)) => Ok(Foreign::Object(inner)),
            Some(Foreign::Absent) => Err(MarshalKind::Missing),
            None => Err(MarshalKind::Missing),
            Some(_) => Err(MarshalKind::Mismatch),
        },
        _ => Err(MarshalKind::Mismatch),
    }
}

/// What marshalling an address object yields: its two text fields, validated
/// as a mail address.
pub open spec fn spec_marshal_address(v: Foreign) -> Result<AddressV, MarshalKind> {
    match spec_read_text(v, FieldName::User) {
        Err(k) => Err(k),
        Ok(user) => match spec_read_text(v, FieldName::Domain) {
            Err(k) => Err(k),
            Ok(domain) => if address_ok(user, domain) {
                Ok(AddressV { user, domain })
            } else {
                Err(MarshalKind::BadAddress(user, domain))
            },
        },
    }
}

/// What marshalling a mailbox object yields: an optional display name (an
/// empty name means none) and a nested, validated address.
pub open spec fn spec_marshal_mailbox(v: Foreign) -> Result<MailboxV, MarshalKind> {
    match spec_read_text(v, FieldName::Name) {
        Err(k) => Err(k),
        Ok(name) => match spec_read_object(v, FieldName::Email) {
            Err(k) => Err(k),
            Ok(email) => match spec_marshal_address(email) {
                Err(k) => Err(k),
                Ok(a) => Ok(
                    MailboxV {
                        name: if name.len() == 0 {
                            None
                        } else {
                            Some(name)
                        },
                        email: a,
                    },
                ),
            },
        },
    }
}

/// What marshalling a message object yields: two mailboxes and two texts.
pub open spec fn spec_marshal_message(v: Foreign) -> Result<MessageV, MarshalKind> {
    match spec_read_object(v, FieldName::From) {
        Err(k) => Err(k),
        Ok(f) => match spec_marshal_mailbox(f) {
            Err(k) => Err(k),
            Ok(from) => match spec_read_object(v, FieldName::To) {
                Err(k) => Err(k),
                Ok(t) => match spec_marshal_mailbox(t) {
                    Err(k) => Err(k),
                    Ok(to) => match spec_read_text(v, FieldName::Subject) {
                        Err(k) => Err(k),
                        Ok(subject) => match spec_read_text(v, FieldName::Body) {
                            Err(k) => Err(k),
                            Ok(body) => Ok(MessageV { from, to, subject, body }),
                        },
                    },
                },
            },
        },
    }
}

/// What marshalling a configuration object yields: three texts and one
/// integer, with no validation beyond shape.
pub open spec fn spec_marshal_config(v: Foreign) -> Result<ConfigV, MarshalKind> {
    match spec_read_text(v, FieldName::Server) {
        Err(k) => Err(k),
        Ok(server) => match spec_read_int(v, FieldName::Port) {
            Err(k) => Err(k),
            Ok(port) => match spec_read_text(v, FieldName::Username) {
                Err(k) => Err(k),
                Ok(username) => match spec_read_text(v, FieldName::Password) {
                    Err(k) => Err(k),
                    Ok(password) => Ok(
                        ConfigV { server, port: port as int, username, password },
                    ),
                },
            },
        },
    }
}

/// Reads the text field `n` of `v`.
pub fn read_text(v: &Foreign, n: FieldName) -> (r: Result<String, MarshalError>)
    ensures
        match r {
            Ok(s) => spec_read_text(*v, n) == Ok::<Seq<char>, MarshalKind>(s@),
            Err(e) => spec_read_text(*v, n) == Err::<Seq<char>, MarshalKind>(e@),
        },
{
    match v {
        Foreign::Object(fields) => match lookup(fields, n) {
            Some(f) => match f {
                Foreign::Text(s) => Ok(s.clone()),
                Foreign::Absent => Err(MarshalError::MissingField),
                _ => Err(MarshalError::TypeMismatch),
            },
            None => Err(MarshalError::MissingField),
        },
        _ => Err(MarshalError::TypeMismatch),
    }
}

/// Reads the integer field `n` of `v`.
pub fn read_int(v: &Foreign, n: FieldName) -> (r: Result<i32, MarshalError>)
    ensures
        match r {
            Ok(i) => spec_read_int(*v, n) == Ok::<i32, MarshalKind>(i),
            Err(e) => spec_read_int(*v, n) == Err::<i32, MarshalKind>(e@),
        },
{
    match v {
        Foreign::Object(fields) => match lookup(fields, n) {
            Some(f) => match f {
                Foreign::Int(i) => Ok(*i),
                Foreign::Absent => Err(MarshalError::MissingField),
                _ => Err(MarshalError::TypeMismatch),
            },
            None => Err(MarshalError::MissingField),
        },
        _ => Err(MarshalError::TypeMismatch),
    }
}

/// Reads the nested-object field `n` of `v`.
pub fn read_object<'a>(v: &'a Foreign, n: FieldName) -> (r: Result<&'a Foreign, MarshalError>)
    ensures
        match r {
            Ok(f) => spec_read_object(*v, n) == Ok::<Foreign, MarshalKind>(*f),
            Err(e) => spec_read_object(*v, n) == Err::<Foreign, MarshalKind>(e@),
        },
{
    match v {
        Foreign::Object(fields) => match lookup(fields, n) {
            Some(f) => match f {
                Foreign::Object(_) => Ok(f),
                Foreign::Absent => Err(MarshalError::MissingField),
                _ => Err(MarshalError::TypeMismatch),
            },
            None => Err(MarshalError::MissingField),
        },
        _ => Err(MarshalError::TypeMismatch),
    }
}

/// Marshals a foreign address object into a validated [`JAddress`].
pub fn marshal_address(v: &Foreign) -> (r: Result<JAddress, MarshalError>)
    ensures
        match r {
            Ok(a) => spec_marshal_address(*v) == Ok::<AddressV, MarshalKind>(a@) && a.wf(),
            Err(e) => spec_marshal_address(*v) == Err::<AddressV, MarshalKind>(e@),
        },
{
    let user = match read_text(v, FieldName::User) {
        Ok(s) => s,
        Err(e) => return Err(e),
    };
    let domain = match read_text(v, FieldName::Domain) {
        Ok(s) => s,
        Err(e) => return Err(e),
    };
    match parse_address(&user, &domain) {
        Some(_) => Ok(JAddress { user, domain }),
        None => Err(MarshalError::InvalidAddress { user, domain }),
    }
}

/// Marshals a foreign mailbox object into a [`JMailbox`]; an empty display
/// name becomes no display name at all.
pub fn marshal_mailbox(v: &Foreign) -> (r: Result<JMailbox, MarshalError>)
    ensures
        match r {
            Ok(m) => spec_marshal_mailbox(*v) == Ok::<MailboxV, MarshalKind>(m@) && m.wf(),
            Err(e) => spec_marshal_mailbox(*v) == Err::<MailboxV, MarshalKind>(e@),
        },
{
    let name = match read_text(v, FieldName::Name) {
        Ok(s) => s,
        Err(e) => return Err(e),
    };
    let email_obj = match read_object(v, FieldName::Email) {
        Ok(f) => f,
        Err(e) => return Err(e),
    };
    let email = match marshal_address(email_obj) {
        Ok(a) => a,
        Err(e) => return Err(e),
    };
    let name = if name.as_str().unicode_len() == 0 {
        None
    } else {
        Some(name)
    };
    Ok(JMailbox { name, email })
}

/// Marshals a foreign message object into a [`JMessage`].
pub fn marshal_message(v: &Foreign) -> (r: Result<JMessage, MarshalError>)
    ensures
        match r {
            Ok(m) => spec_marshal_message(*v) == Ok::<MessageV, MarshalKind>(m@) && m.wf(),
            Err(e) => spec_marshal_message(*v) == Err::<MessageV, MarshalKind>(e@),
        },
{
    let from_obj = match read_object(v, FieldName::From) {
        Ok(f) => f,
        Err(e) => return Err(e),
    };
    let from = match marshal_mailbox(from_obj) {
        Ok(m) => m,
        Err(e) => return Err(e),
    };
    let to_obj = match read_object(v, FieldName::To) {
        Ok(f) => f,
        Err(e) => return Err(e),
    };
    let to = match marshal_mailbox(to_obj) {
        Ok(m) => m,
        Err(e) => return Err(e),
    };
    let subject = match read_text(v, FieldName::Subject) {
        Ok(s) => s,
        Err(e) => return Err(e),
    };
    let body = match read_text(v, FieldName::Body) {
        Ok(s) => s,
        Err(e) => return Err(e),
    };
    Ok(JMessage { from, to, subject, body })
}

/// Marshals a foreign configuration object into a [`JConfig`]. Only the
/// shape is checked: any port value is carried through as-is, to be resolved
/// by [`JConfig::port`] when the transport is built.
pub fn marshal_config(v: &Foreign) -> (r: Result<JConfig, MarshalError>)
    ensures
        match r {
            Ok(c) => spec_marshal_config(*v) == Ok::<ConfigV, MarshalKind>(c@),
            Err(e) => spec_marshal_config(*v) == Err::<ConfigV, MarshalKind>(e@),
        },
{
    let server = match read_text(v, FieldName::Server) {
        Ok(s) => s,
        Err(e) => return Err(e),
    };
    let port = match read_int(v, FieldName::Port) {
        Ok(i) => i,
        Err(e) => return Err(e),
    };
    let username = match read_text(v, FieldName::Username) {
        Ok(s) => s,
        Err(e) => return Err(e),
    };
    let password = match read_text(v, FieldName::Password) {
        Ok(s) => s,
        Err(e) => return Err(e),
    };
    Ok(JConfig { server, port, username, password })
}

/// A foreign address object of the right shape whose pair passes the
/// mail-address syntax.
pub open spec fn addr_obj_wf(v: Foreign) -> bool {
    spec_read_text(v, FieldName::User) matches Ok(u) && spec_read_text(v, FieldName::Domain)
        matches Ok(d) && address_ok(u, d)
}

/// A foreign mailbox object of the right shape with a well-formed address.
pub open spec fn mailbox_obj_wf(v: Foreign) -> bool {
    spec_read_text(v, FieldName::Name) is Ok && (spec_read_object(v, FieldName::Email) matches Ok(
        e,
    ) && addr_obj_wf(e))
}

/// A foreign message object of the right shape whose two mailboxes are
/// well-formed: the premise under which marshalling owes success.
pub open spec fn message_obj_wf(v: Foreign) -> bool {
    (spec_read_object(v, FieldName::From) matches Ok(f) && mailbox_obj_wf(f)) && (spec_read_object(
        v,
        FieldName::To,
    ) matches Ok(t) && mailbox_obj_wf(t)) && spec_read_text(v, FieldName::Subject) is Ok
        && spec_read_text(v, FieldName::Body) is Ok
}

/// Marshalling a mailbox is exact: on success, the source's name and
/// address fields reappear verbatim — an empty name as no display name, a
/// non-empty one preserved.
pub proof fn lemma_marshal_mailbox_exact(v: Foreign)
    requires
        mailbox_obj_wf(v),
    ensures
        spec_marshal_mailbox(v) matches Ok(m) && (spec_read_text(v, FieldName::Name) matches Ok(
            name,
        ) && (name.len() == 0 ==> m.name is None) && (name.len() > 0 ==> m.name == Some(name)))
            && (spec_read_object(v, FieldName::Email) matches Ok(e) && m.email.user
            == spec_read_text(e, FieldName::User)->Ok_0 && m.email.domain == spec_read_text(
            e,
            FieldName::Domain,
        )->Ok_0),
{
}

/// Marshalling is complete and exact: on a well-formed foreign message
/// object it succeeds, and From, To, Subject and Body of the produced
/// value are exactly the source's fields.
pub proof fn lemma_marshal_message_exact(v: Foreign)
    requires
        message_obj_wf(v),
    ensures
        spec_marshal_message(v) matches Ok(m) && m.from == spec_marshal_mailbox(
            spec_read_object(v, FieldName::From)->Ok_0,
        )->Ok_0 && m.to == spec_marshal_mailbox(spec_read_object(v, FieldName::To)->Ok_0)->Ok_0
            && m.subject == spec_read_text(v, FieldName::Subject)->Ok_0 && m.body
            == spec_read_text(v, FieldName::Body)->Ok_0,
{
    lemma_marshal_mailbox_exact(spec_read_object(v, FieldName::From)->Ok_0);
    lemma_marshal_mailbox_exact(spec_read_object(v, FieldName::To)->Ok_0);
}

/// An address pair the mail-address syntax rejects — an empty user in
/// particular — marshals to exactly the invalid-address error carrying the
/// offending pair; by the contract of `prepare_dispatch`, a dispatch whose
/// message holds such an address then returns that marshal error and never
/// builds a session.
pub proof fn lemma_invalid_address_rejected(v: Foreign)
    requires
        spec_read_text(v, FieldName::User) is Ok,
        spec_read_text(v, FieldName::Domain) is Ok,
        !address_ok(
            spec_read_text(v, FieldName::User)->Ok_0,
            spec_read_text(v, FieldName::Domain)->Ok_0,
        ),
    ensures
        spec_marshal_address(v) == Err::<AddressV, MarshalKind>(
            MarshalKind::BadAddress(
                spec_read_text(v, FieldName::User)->Ok_0,
                spec_read_text(v, FieldName::Domain)->Ok_0,
            ),
        ),
{
}

/// An empty user never forms a valid address, whatever the domain: the
/// walk always ends in the invalid-address error for that pair.
pub proof fn lemma_empty_user_rejected(v: Foreign)
    requires
        spec_read_text(v, FieldName::User) matches Ok(u) && u.len() == 0,
        spec_read_text(v, FieldName::Domain) is Ok,
    ensures
        spec_marshal_address(v) matches Err(k) && k matches MarshalKind::BadAddress(u2, d2)
            && u2.len() == 0 && d2 == spec_read_text(v, FieldName::Domain)->Ok_0,
{
    lemma_invalid_address_rejected(v);
}

} // verus!
