//! Lifecycle core of a pseudo-console session.
//!
//! The crate decides; a driver performs. Every operating-system call of a
//! session (pipes, the pseudo-console device, the attribute list, process
//! creation, and the releases at the end) is requested by a value of this
//! crate and answered with a plain value, so that the order of the calls, the
//! error each failure surfaces as, and the release of every handle on every
//! exit path are proved here rather than tested there.

pub mod error;
pub mod launch;
pub mod ledger;
pub mod platform;
pub mod run;
pub mod session;
pub mod transcript;
pub mod wide;

pub use error::{panic_shell_spawn, SessionError};
pub use launch::{new, Action, Dimensions, Event, Launch, PipePair, Stage};
pub use ledger::{Fault, Hazard, Ledger, Release, Resource};
pub use session::{transfer_result, Conpty, ConptyHolder};
pub use transcript::{escape, escape_byte, glyph};
pub use wide::win32_string;
