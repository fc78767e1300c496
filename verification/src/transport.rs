//! The transport builder and the send-outcome logic.
//!
//! A validated [`JConfig`] becomes a [`JLettre`]: a lazily constructed,
//! implicit-TLS mail-submission client bound to one server and port with one
//! credential pair, used for exactly one send. Building it touches no
//! network. The send itself happens outside this library; what the server
//! (or the failure to reach it) handed back comes back in as plain values
//! and is classified here.

use vstd::prelude::*;
use vstd::string::StringExecFns;
use crate::domain::{JConfig, spec_port};
use crate::smtp::{tls_accepted, make_tls, make_credentials, make_transport};

verus! {

/// Why no message could be handed to the mail-submission server.
#[derive(Clone, Copy, PartialEq, Eq, Structural, Debug)]
pub enum TransportError {
    /// No TLS parameters could be derived for the configured server name.
    TlsSetupFailed,
    /// The server could not be reached: connection or network failure.
    ConnectFailed,
    /// The server rejected the configured credentials.
    AuthRejected,
    /// Any other failure of the SMTP dialogue.
    Other,
}

/// A single-use mail-submission session: a TLS-wrapped SMTP client bound to
/// `server:port`, plus the binding it was built with.
pub struct JLettre {
    /// The underlying client; handed out once, for one send.
    pub transport: lettre::SmtpTransport,
    /// The server name the client is bound to.
    pub server: String,
    /// The resolved port the client is bound to.
    pub port: u16,
}

impl JLettre {
    /// Builds a session from a configuration: TLS parameters scoped to the
    /// configured server name, the credential pair, and a client set to
    /// connect already wrapped in TLS (implicit TLS, as on port 465), bound
    /// to the resolved port. Fails closed, with `TlsSetupFailed`, exactly
    /// when no TLS parameters exist for the server name. No network is
    /// touched.
    pub fn build(config: &JConfig) -> (r: Result<JLettre, TransportError>)
        ensures
            match r {
                Ok(l) => tls_accepted(config.server@) && l.server@ == config.server@ && l.port
                    == spec_port(config.port as int),
                Err(e) => e is TlsSetupFailed && !tls_accepted(config.server@),
            },
    {
        let tls = match make_tls(&config.server) {
            Some(t) => t,
            None => return Err(TransportError::TlsSetupFailed),
        };
        let credentials = make_credentials(&config.username, &config.password);
        let port = config.port();
        let transport = make_transport(&config.server, port, tls, credentials);
        Ok(JLettre { transport, server: config.server.clone(), port })
    }

    /// Hands out the underlying client, consuming the session: it is built,
    /// used for one send, and dropped, never reused.
    pub fn into_transport(self) -> (r: lettre::SmtpTransport) {
        self.transport
    }

    /// The diagnostic form of this session's binding: the server name, a
    /// colon, and the resolved port in decimal. The credentials never
    /// enter it.
    pub open spec fn spec_describe(self) -> Seq<char> {
        self.server@ + ":"@ + spec_decimal(self.port as int)
    }

    /// Builds the diagnostic form of this session's binding.
    pub fn describe(&self) -> (r: String)
        ensures
            r@ == self.spec_describe(),
    {
        let mut s = self.server.clone();
        s.append(":");
        append_decimal(&mut s, self.port);
        s
    }
}

/// The character for one decimal digit.
pub open spec fn spec_digit(d: int) -> char {
    if d == 0 {
        '0'
    } else if d == 1 {
        '1'
    } else if d == 2 {
        '2'
    } else if d == 3 {
        '3'
    } else if d == 4 {
        '4'
    } else if d == 5 {
        '5'
    } else if d == 6 {
        '6'
    } else if d == 7 {
        '7'
    } else if d == 8 {
        '8'
    } else {
        '9'
    }
}

/// The decimal digits of a number, most significant first.
pub open spec fn spec_decimal(n: int) -> Seq<char>
    decreases n,
{
    if n < 10 {
        seq![spec_digit(n)]
    } else {
        spec_decimal(n / 10) + seq![spec_digit(n % 10)]
    }
}

fn digit_str(d: u16) -> (r: &'static str)
    requires
        d < 10,
    ensures
        r@ == seq![spec_digit(d as int)],
{
    proof {
        reveal_strlit("0");
        reveal_strlit("1");
        reveal_strlit("2");
        reveal_strlit("3");
        reveal_strlit("4");
        reveal_strlit("5");
        reveal_strlit("6");
        reveal_strlit("7");
        reveal_strlit("8");
        reveal_strlit("9");
        assert("0"@ =~= seq!['0']);
        assert("1"@ =~= seq!['1']);
        assert("2"@ =~= seq!['2']);
        assert("3"@ =~= seq!['3']);
        assert("4"@ =~= seq!['4']);
        assert("5"@ =~= seq!['5']);
        assert("6"@ =~= seq!['6']);
        assert("7"@ =~= seq!['7']);
        assert("8"@ =~= seq!['8']);
        assert("9"@ =~= seq!['9']);
    }
    match d {
        0 => "0",
        1 => "1",
        2 => "2",
        3 => "3",
        4 => "4",
        5 => "5",
        6 => "6",
        7 => "7",
        8 => "8",
        _ => "9",
    }
}

fn append_decimal(s: &mut String, n: u16)
    ensures
        final(s)@ == old(s)@ + spec_decimal(n as int),
    decreases n,
{
    if n < 10 {
        s.append(digit_str(n));
    } else {
        append_decimal(s, n / 10);
        s.append(digit_str(n % 10));
        proof {
            assert(s@ =~= old(s)@ + spec_decimal(n as int));
        }
    }
}

/// The facts about a failed send, as the mail crate's error predicates
/// report them: which kind of error it was, and the SMTP status code when
/// the server answered with one.
#[derive(Clone, Copy, Debug)]
pub struct SendFailure {
    /// The failure came from the TLS layer.
    pub is_tls: bool,
    /// A permanent (5xx) SMTP reply.
    pub is_permanent: bool,
    /// A transient (4xx) SMTP reply.
    pub is_transient: bool,
    /// A reply that could not be parsed.
    pub is_response: bool,
    /// An internal client error.
    pub is_client: bool,
    /// The transport was already shut down.
    pub is_shutdown: bool,
    /// The three-digit SMTP status code, when the failure carries one.
    pub status: Option<u16>,
}

/// The SMTP status codes by which a submission server rejects
/// authentication: bad credentials (535), a mechanism that is too weak or
/// needs more (534, 538), or a missing authentication (530).
pub open spec fn spec_auth_rejection(status: Option<u16>) -> bool {
    match status {
        Some(c) => c == 535 || c == 534 || c == 538 || c == 530,
        None => false,
    }
}

/// How a send failure maps onto the transport error taxonomy: TLS failures
/// first; then a permanent reply with an authentication status code; a
/// failure that none of the predicates claim is a connection or network
/// failure (the only kinds left); everything else is `Other`.
pub open spec fn spec_classify(f: SendFailure) -> TransportError {
    if f.is_tls {
        TransportError::TlsSetupFailed
    } else if f.is_permanent && spec_auth_rejection(f.status) {
        TransportError::AuthRejected
    } else if !f.is_permanent && !f.is_transient && !f.is_response && !f.is_client
        && !f.is_shutdown {
        TransportError::ConnectFailed
    } else {
        TransportError::Other
    }
}

/// Classifies a failed send.
pub fn classify_failure(f: &SendFailure) -> (r: TransportError)
    ensures
        r == spec_classify(*f),
{
    if f.is_tls {
        TransportError::TlsSetupFailed
    } else if f.is_permanent && is_auth_rejection(&f.status) {
        TransportError::AuthRejected
    } else if !f.is_permanent && !f.is_transient && !f.is_response && !f.is_client
        && !f.is_shutdown {
        TransportError::ConnectFailed
    } else {
        TransportError::Other
    }
}

fn is_auth_rejection(status: &Option<u16>) -> (r: bool)
    ensures
        r == spec_auth_rejection(*status),
{
    match status {
        Some(c) => *c == 535 || *c == 534 || *c == 538 || *c == 530,
        None => false,
    }
}

/// The lines of a server acknowledgment joined into one text, each line
/// after the first preceded by a comma and a space.
pub open spec fn spec_joined(lines: Seq<Seq<char>>, n: int) -> Seq<char>
    decreases n,
{
    if n <= 0 {
        Seq::empty()
    } else if n == 1 {
        lines[0]
    } else {
        spec_joined(lines, n - 1) + ", "@ + lines[n - 1]
    }
}

/// Joins the lines of a server acknowledgment into one text.
pub fn join_response(lines: &Vec<String>) -> (r: String)
    ensures
        r@ == spec_joined(lines@.map_values(|s: String| s@), lines@.len() as int),
{
    let ghost m = lines@.map_values(|s: String| s@);
    let mut out = String::new();
    let mut i: usize = 0;
    while i < lines.len()
        invariant
            i <= lines.len(),
            m == lines@.map_values(|s: String| s@),
            out@ == spec_joined(m, i as int),
        decreases lines.len() - i,
    {
        if i > 0 {
            out.append(", ");
        }
        out.append(lines[i].as_str());
        proof {
            assert(m[i as int] == lines@[i as int]@);
            if i == 0 {
                assert(out@ =~= spec_joined(m, 1));
            }
        }
        i += 1;
    }
    out
}

} // verus!
