//! The dispatcher and the boundary signal layer.
//!
//! One send request is: marshal the foreign configuration, marshal the
//! foreign message, assemble the wire-format message, build the transport
//! session — short-circuiting on the first failure — and, after the send has
//! happened outside this library, fold what came back into one outcome. The
//! signal layer is the sole place a failure is turned into caller-visible
//! behaviour. Of the two policies in this component's lineage (raise a
//! host-native error, or log and suppress), this library implements the
//! raise policy: every failure becomes a host-native runtime error carrying
//! a description of the underlying failure, and success carries the server's
//! acknowledgment. Credentials never appear in any of these texts.

use vstd::prelude::*;
use vstd::pervasive::unreached;
use vstd::string::StringExecFns;
use crate::foreign::Foreign;
use crate::domain::{JMailbox, JMessage, spec_port};
use crate::marshal::{
    MarshalError,
    marshal_config,
    marshal_message,
    spec_marshal_config,
    spec_marshal_message,
};
use crate::smtp::{tls_accepted, parse_address, make_mailbox, build_wire_message};
use crate::transport::{
    TransportError,
    JLettre,
    SendFailure,
    classify_failure,
    spec_classify,
    join_response,
    spec_joined,
};

verus! {

/// Why a dispatch produced no sent message.
#[derive(Debug)]
pub enum DispatchError {
    /// The foreign object graph could not be marshalled.
    Marshal(MarshalError),
    /// The wire-format message could not be assembled.
    MessageBuild,
    /// The transport could not be built, or the send failed.
    Transport(TransportError),
    /// A failure outside every other class; never allowed to escape as a
    /// fault into the host process.
    Internal,
}

impl MarshalError {
    /// The diagnostic text for this error; for a rejected address it names
    /// the offending user/domain pair, and nothing else ever enters it.
    pub open spec fn spec_describe(self) -> Seq<char> {
        match self {
            MarshalError::MissingField => "missing field"@,
            MarshalError::TypeMismatch => "type mismatch"@,
            MarshalError::InvalidAddress { user, domain } => "invalid address: "@ + user@ + "@"@
                + domain@,
        }
    }

    /// Builds the diagnostic text for this error.
    pub fn describe(&self) -> (r: String)
        ensures
            r@ == self.spec_describe(),
    {
        match self {
            MarshalError::MissingField => String::from_str("missing field"),
            MarshalError::TypeMismatch => String::from_str("type mismatch"),
            MarshalError::InvalidAddress { user, domain } => {
                let mut s = String::from_str("invalid address: ");
                s.append(user.as_str());
                s.append("@");
                s.append(domain.as_str());
                s
            },
        }
    }
}

impl TransportError {
    /// The diagnostic text for this error.
    pub open spec fn spec_describe(self) -> Seq<char> {
        match self {
            TransportError::TlsSetupFailed => "tls setup failed"@,
            TransportError::ConnectFailed => "connection failed"@,
            TransportError::AuthRejected => "authentication rejected"@,
            TransportError::Other => "smtp failure"@,
        }
    }

    /// Builds the diagnostic text for this error.
    pub fn describe(&self) -> (r: String)
        ensures
            r@ == self.spec_describe(),
    {
        match self {
            TransportError::TlsSetupFailed => String::from_str("tls setup failed"),
            TransportError::ConnectFailed => String::from_str("connection failed"),
            TransportError::AuthRejected => String::from_str("authentication rejected"),
            TransportError::Other => String::from_str("smtp failure"),
        }
    }
}

impl DispatchError {
    /// The diagnostic text for this error. It names the failing step and
    /// its cause; server name, port and addresses may enter it, credentials
    /// never do.
    pub open spec fn spec_describe(self) -> Seq<char> {
        match self {
            DispatchError::Marshal(e) => "marshal error: "@ + e.spec_describe(),
            DispatchError::MessageBuild => "message build error"@,
            DispatchError::Transport(t) => "transport error: "@ + t.spec_describe(),
            DispatchError::Internal => "internal error"@,
        }
    }

    /// Builds the diagnostic text for this error.
    pub fn describe(&self) -> (r: String)
        ensures
            r@ == self.spec_describe(),
    {
        match self {
            DispatchError::Marshal(e) => {
                let mut s = String::from_str("marshal error: ");
                let d = e.describe();
                s.append(d.as_str());
                s
            },
            DispatchError::MessageBuild => String::from_str("message build error"),
            DispatchError::Transport(t) => {
                let mut s = String::from_str("transport error: ");
                let d = t.describe();
                s.append(d.as_str());
                s
            },
            DispatchError::Internal => String::from_str("internal error"),
        }
    }
}

/// Converts a validated mailbox into the mail crate's mailbox value.
pub(crate) fn mailbox_value(mb: &JMailbox) -> (r: lettre::message::Mailbox)
    requires
        mb.wf(),
{
    let address = match parse_address(&mb.email.user, &mb.email.domain) {
        Some(a) => a,
        // mb.wf() says the pair is accepted, so the parse cannot fail
        None => unreached(),
    };
    let name = match &mb.name {
        Some(s) => Some(s.clone()),
        None => None,
    };
    make_mailbox(name, address)
}

/// Assembles the wire-format message for a validated domain message:
/// From and To headers, Subject, a plain-text content type, and the body.
/// With one sender and one recipient always present the builder cannot
/// miss a required header, so assembly always succeeds.
pub(crate) fn build_wire(m: &JMessage) -> (r: Option<lettre::Message>)
    requires
        m.wf(),
    ensures
        r is Some,
{
    let from = mailbox_value(&m.from);
    let to = mailbox_value(&m.to);
    build_wire_message(from, to, &m.subject, &m.body)
}

/// Everything a send needs: the wire-format message and the single-use
/// session to push it through.
pub struct Prepared {
    pub wire: lettre::Message,
    pub session: JLettre,
}

/// The steps of a dispatch up to (not including) the network send,
/// short-circuiting on the first failure: marshal the configuration,
/// marshal the message, assemble the wire-format message, build the
/// session. Success is owed whenever both marshals succeed and TLS
/// parameters exist for the server name — the wire assembly itself cannot
/// fail once marshalling has — and the session is then bound to the
/// configured server and its resolved port, with no network touched yet.
pub fn prepare_dispatch(config: &Foreign, message: &Foreign) -> (r: Result<Prepared, DispatchError>)
    ensures
        (spec_marshal_config(*config) matches Err(k) ==> (r matches Err(
            DispatchError::Marshal(e),
        ) && e@ == k)),
        (spec_marshal_message(*message) matches Err(k) ==> (spec_marshal_config(*config) is Ok
            ==> (r matches Err(DispatchError::Marshal(e)) && e@ == k))),
        (spec_marshal_config(*config) matches Ok(cv) ==> (spec_marshal_message(*message) is Ok
            ==> (if tls_accepted(cv.server) {
            r matches Ok(p) && p.session.server@ == cv.server && p.session.port == spec_port(
                cv.port,
            )
        } else {
            r matches Err(DispatchError::Transport(t)) && t is TlsSetupFailed
        }))),
        (r is Ok ==> spec_marshal_config(*config) is Ok && spec_marshal_message(*message) is Ok),
{
    let cfg = match marshal_config(config) {
        Ok(c) => c,
        Err(e) => return Err(DispatchError::Marshal(e)),
    };
    let msg = match marshal_message(message) {
        Ok(m) => m,
        Err(e) => return Err(DispatchError::Marshal(e)),
    };
    let wire = match build_wire(&msg) {
        Some(w) => w,
        None => return Err(DispatchError::MessageBuild),
    };
    let session = match JLettre::build(&cfg) {
        Ok(l) => l,
        Err(t) => return Err(DispatchError::Transport(t)),
    };
    Ok(Prepared { wire, session })
}

/// What the send, performed outside this library, came back with: either
/// the lines of the server's acknowledgment, or the facts about the
/// failure.
pub enum SendOutcome {
    Delivered(Vec<String>),
    Rejected(SendFailure),
}

/// Folds the outcome of the send into the dispatch result: a delivered
/// message yields the acknowledgment lines joined into one text, a rejected
/// one the classified transport error.
pub fn complete_send(outcome: &SendOutcome) -> (r: Result<String, DispatchError>)
    ensures
        match *outcome {
            SendOutcome::Delivered(lines) => r matches Ok(s) && s@ == spec_joined(
                lines@.map_values(|x: String| x@),
                lines@.len() as int,
            ),
            SendOutcome::Rejected(f) => r == Err::<String, DispatchError>(
                DispatchError::Transport(spec_classify(f)),
            ),
        },
{
    match outcome {
        SendOutcome::Delivered(lines) => Ok(join_response(lines)),
        SendOutcome::Rejected(f) => Err(DispatchError::Transport(classify_failure(f))),
    }
}

/// A host-native runtime error, ready to be raised across the boundary.
pub struct JRuntimeException {
    pub message: String,
}

impl JRuntimeException {
    /// Wraps a message into a raisable runtime error.
    pub fn new(message: String) -> (r: JRuntimeException)
        ensures
            r.message@ == message@,
    {
        JRuntimeException { message }
    }
}

/// What the boundary hands back to the host for one dispatch.
pub enum Signal {
    /// The send went through; the server's acknowledgment is logged and
    /// nothing is raised.
    Completed { acknowledgment: String },
    /// Some step failed; this error is raised to the caller.
    Raise { error: JRuntimeException },
}

/// The boundary signal layer, under the raise policy: every failure, from
/// any step, becomes exactly one host-native runtime error carrying the
/// failure's description, and nothing else reaches the caller; success
/// raises nothing.
pub fn signal_for(outcome: Result<String, DispatchError>) -> (r: Signal)
    ensures
        match outcome {
            Ok(ack) => r matches Signal::Completed { acknowledgment } && acknowledgment@ == ack@,
            Err(e) => r matches Signal::Raise { error } && error.message@ == e.spec_describe(),
        },
{
    match outcome {
        Ok(acknowledgment) => Signal::Completed { acknowledgment },
        Err(e) => Signal::Raise { error: JRuntimeException::new(e.describe()) },
    }
}

} // verus!
