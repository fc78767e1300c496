//! The trusted boundary to the `lettre` mail crate.
//!
//! Everything the bridge needs from `lettre` — address validation, mailbox
//! and message assembly, TLS parameters, credentials and the lazy transport
//! constructor — is reached through the declarations and wrappers in this
//! module, each with the contract the crate's source supports. Nothing here
//! touches the network: `lettre` only opens the connection when a message is
//! handed to a transport for sending, which happens outside this library.

use vstd::prelude::*;

verus! {

#[verifier::external_type_specification]
#[verifier::external_body]
pub struct ExAddress(lettre::Address);

#[verifier::external_type_specification]
#[verifier::external_body]
pub struct ExMailbox(lettre::message::Mailbox);

#[verifier::external_type_specification]
#[verifier::external_body]
pub struct ExMessage(lettre::Message);

#[verifier::external_type_specification]
#[verifier::external_body]
pub struct ExTlsParameters(lettre::transport::smtp::client::TlsParameters);

#[verifier::external_type_specification]
#[verifier::external_body]
pub struct ExCredentials(lettre::transport::smtp::authentication::Credentials);

#[verifier::external_type_specification]
#[verifier::external_body]
pub struct ExSmtpTransport(lettre::SmtpTransport);

/// Whether `lettre`'s address validation accepts this non-empty user and
/// domain pair. The exact syntax rules (RFC address grammar) are `lettre`'s;
/// only their outcome is named here.
pub uninterp spec fn address_accepted(user: Seq<char>, domain: Seq<char>) -> bool;

/// Whether a user/domain pair forms a valid mail address: both parts are
/// non-empty and the pair passes `lettre`'s address validation.
pub open spec fn address_ok(user: Seq<char>, domain: Seq<char>) -> bool {
    user.len() > 0 && domain.len() > 0 && address_accepted(user, domain)
}

/// Whether TLS parameters can be derived for this server name.
pub uninterp spec fn tls_accepted(server: Seq<char>) -> bool;

/// Relies on `lettre::Address::new`: validation is a function of the user
/// and domain text alone, and an empty user or an empty domain is always
/// rejected (`email_address`'s parser reports `LocalPartEmpty` and
/// `DomainEmpty` for them).
#[verifier::external_body]
pub(crate) fn parse_address(user: &String, domain: &String) -> (r: Option<lettre::Address>)
    ensures
        r is Some <==> (user@.len() > 0 && domain@.len() > 0 && address_accepted(
            user@,
            domain@,
        )),
{
    lettre::Address::new(user.as_str(), domain.as_str()).ok()
}

/// Relies on `lettre::message::Mailbox::new` to pair an optional display
/// name with an address; the constructor is total.
#[verifier::external_body]
pub(crate) fn make_mailbox(name: Option<String>, email: lettre::Address) -> (r:
    lettre::message::Mailbox)
{
    lettre::message::Mailbox::new(name, email)
}

/// Relies on `lettre`'s message builder chain (`Message::builder`, `from`,
/// `to`, `subject`, `header`, `body`) to assemble a single-sender,
/// single-recipient, plain-text wire message. With exactly one `from` and
/// one `to` mailbox handed in, the builder's only failure modes — a missing
/// or repeated mandatory mailbox when it derives the envelope — cannot
/// occur, so the call always succeeds.
#[verifier::external_body]
pub(crate) fn build_wire_message(
    from: lettre::message::Mailbox,
    to: lettre::message::Mailbox,
    subject: &String,
    body: &String,
) -> (r: Option<lettre::Message>)
    ensures
        r is Some,
{
    lettre::Message::builder()
        .from(from)
        .to(to)
        .subject(subject.as_str())
        .header(lettre::message::header::ContentType::TEXT_PLAIN)
        .body(body.clone())
        .ok()
}

/// Relies on `lettre::transport::smtp::client::TlsParameters::new`: with the
/// compiled-in certificate roots the outcome is a function of the server
/// name alone, and no network is touched.
#[verifier::external_body]
pub(crate) fn make_tls(server: &String) -> (r: Option<
    lettre::transport::smtp::client::TlsParameters,
>)
    ensures
        r is Some <==> tls_accepted(server@),
{
    lettre::transport::smtp::client::TlsParameters::new(server.clone()).ok()
}

/// Relies on `lettre::transport::smtp::authentication::Credentials::new` to
/// package a username/password pair; the constructor is total.
#[verifier::external_body]
pub(crate) fn make_credentials(username: &String, password: &String) -> (r:
    lettre::transport::smtp::authentication::Credentials)
{
    lettre::transport::smtp::authentication::Credentials::new(
        username.clone(),
        password.clone(),
    )
}

/// Relies on `lettre::SmtpTransport::builder_dangerous` and its `port`,
/// `tls` and `credentials` builder methods: the transport is bound to this
/// server and port, wrapped in TLS from the first byte (implicit TLS, not
/// STARTTLS), and construction is lazy — no connection is opened.
#[verifier::external_body]
pub(crate) fn make_transport(
    server: &String,
    port: u16,
    tls: lettre::transport::smtp::client::TlsParameters,
    credentials: lettre::transport::smtp::authentication::Credentials,
) -> (r: lettre::SmtpTransport)
{
    lettre::SmtpTransport::builder_dangerous(server.as_str())
        .port(port)
        .tls(lettre::transport::smtp::client::Tls::Wrapper(tls))
        .credentials(credentials)
        .build()
}

} // verus!
