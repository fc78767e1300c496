//! A mail-dispatch bridge: foreign object graphs handed in by a host runtime
//! are marshalled into validated domain values, turned into a wire-format
//! message and a TLS-secured SMTP session via the `lettre` crate, and every
//! failure along the way is funnelled into a single boundary signal.
//!
//! The host-facing glue (JNI entry points, logging, the network send itself)
//! lives outside this library; everything here is pure logic over plain
//! values, verified end to end.

pub mod foreign;
pub mod domain;
pub mod smtp;
pub mod marshal;
pub mod transport;
pub mod dispatch;
pub mod init;
