//! A scripted session against a hypervisor management daemon.
//!
//! The session opens a connection, reports the host and its guest domains,
//! makes sure that one fixed guest is either cleaned up or defined, and closes
//! the connection on every path.
//!
//! - `script` decides which request comes next, given the replies so far.
//! - `trace` proves what holds of every sequence of replies: one combined
//!   listing, a define exactly when the guest is missing, a close before
//!   every end and never a second one.
//! - `session` adds what is reported: the lines for each reply and the
//!   message of a session that was aborted.
//! - `lines`, `decimal`, `version` and `guest` write the texts.
//! - `daemon` holds the calls into the `virt` bindings, and `driver` carries a
//!   session out through them.

pub mod version;
pub mod decimal;
pub mod domain;
pub mod guest;
pub mod lines;
pub mod script;
pub mod session;
pub mod trace;
pub mod daemon;
pub mod driver;
