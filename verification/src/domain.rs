//! Domain value types: an address, a named mailbox, a two-party message and a
//! transport configuration, together with their mathematical views.
//!
//! The type names mirror the accessor interface of the host runtime the
//! bridge is attached to, which hands these values in as foreign objects.

use vstd::prelude::*;
use vstd::string::StringExecFns;
use crate::smtp::address_ok;

verus! {

/// An email address as a user part and a domain part.
pub struct JAddress {
    pub user: String,
    pub domain: String,
}

/// The mathematical view of a [`JAddress`].
pub struct AddressV {
    pub user: Seq<char>,
    pub domain: Seq<char>,
}

impl View for JAddress {
    type V = AddressV;

    open spec fn view(&self) -> AddressV {
        AddressV { user: self.user@, domain: self.domain@ }
    }
}

impl JAddress {
    /// A well-formed address is one the mail-submission layer accepts.
    pub open spec fn wf(self) -> bool {
        address_ok(self.user@, self.domain@)
    }
}

/// A mailbox: an address with an optional display name.
pub struct JMailbox {
    pub name: Option<String>,
    pub email: JAddress,
}

/// The mathematical view of a [`JMailbox`].
pub struct MailboxV {
    pub name: Option<Seq<char>>,
    pub email: AddressV,
}

impl View for JMailbox {
    type V = MailboxV;

    open spec fn view(&self) -> MailboxV {
        MailboxV {
            name: match self.name {
                Some(n) => Some(n@),
                None => None,
            },
            email: self.email@,
        }
    }
}

impl JMailbox {
    pub open spec fn wf(self) -> bool {
        self.email.wf()
    }

    /// The diagnostic form of this mailbox: the display name, when there is
    /// one, in front of the angle-bracketed address.
    pub open spec fn spec_describe(self) -> Seq<char> {
        (match self.name {
            Some(n) => n@ + " "@,
            None => Seq::empty(),
        }) + "<"@ + self.email.user@ + "@"@ + self.email.domain@ + ">"@
    }

    /// Builds the diagnostic form of this mailbox.
    pub fn describe(&self) -> (r: String)
        ensures
            r@ == self.spec_describe(),
    {
        let mut s = String::new();
        match &self.name {
            Some(n) => {
                s.append(n.as_str());
                s.append(" ");
            },
            None => {},
        }
        s.append("<");
        s.append(self.email.user.as_str());
        s.append("@");
        s.append(self.email.domain.as_str());
        s.append(">");
        proof {
            assert(s@ =~= self.spec_describe());
        }
        s
    }
}

/// A two-party plain-text message: one sender, one recipient.
pub struct JMessage {
    pub from: JMailbox,
    pub to: JMailbox,
    pub subject: String,
    pub body: String,
}

/// The mathematical view of a [`JMessage`].
pub struct MessageV {
    pub from: MailboxV,
    pub to: MailboxV,
    pub subject: Seq<char>,
    pub body: Seq<char>,
}

impl View for JMessage {
    type V = MessageV;

    open spec fn view(&self) -> MessageV {
        MessageV { from: self.from@, to: self.to@, subject: self.subject@, body: self.body@ }
    }
}

impl JMessage {
    pub open spec fn wf(self) -> bool {
        self.from.wf() && self.to.wf()
    }

    /// The diagnostic form of this message: its two parties. Subject, body
    /// and everything else stay out of the diagnostics.
    pub open spec fn spec_describe(self) -> Seq<char> {
        "from("@ + self.from.spec_describe() + "), to("@ + self.to.spec_describe() + ")"@
    }

    /// Builds the diagnostic form of this message.
    pub fn describe(&self) -> (r: String)
        ensures
            r@ == self.spec_describe(),
    {
        let mut s = String::from_str("from(");
        let from = self.from.describe();
        s.append(from.as_str());
        s.append("), to(");
        let to = self.to.describe();
        s.append(to.as_str());
        s.append(")");
        proof {
            assert(s@ =~= self.spec_describe());
        }
        s
    }
}

/// A transport configuration: the submission server, a port, and a credential
/// pair. The credentials are held only to open the session and never appear
/// in any diagnostic text this library builds.
pub struct JConfig {
    pub server: String,
    pub port: i32,
    pub username: String,
    pub password: String,
}

/// The mathematical view of a [`JConfig`].
pub struct ConfigV {
    pub server: Seq<char>,
    pub port: int,
    pub username: Seq<char>,
    pub password: Seq<char>,
}

impl View for JConfig {
    type V = ConfigV;

    open spec fn view(&self) -> ConfigV {
        ConfigV {
            server: self.server@,
            port: self.port as int,
            username: self.username@,
            password: self.password@,
        }
    }
}

/// The port a configured value resolves to: itself when it fits the valid
/// port range `1..=65535`, and the implicit-TLS submission port otherwise.
pub open spec fn spec_port(p: int) -> u16 {
    if 1 <= p <= 65535 {
        p as u16
    } else {
        465
    }
}

impl JConfig {
    /// Resolves the configured port. A value outside the 16-bit port range
    /// (and the reserved port `0`) is replaced by the implicit-TLS submission
    /// port `465` rather than reported as an error: a deliberate leniency.
    pub fn port(&self) -> (r: u16)
        ensures
            r == spec_port(self.port as int),
    {
        if 1 <= self.port && self.port <= 65535 {
            self.port as u16
        } else {
            465
        }
    }
}

} // verus!
