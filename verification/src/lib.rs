//! Safe-binding core for the GNU Readline and History libraries.
//!
//! The native library is a stateful C library: it hands out C-allocated
//! strings and null-terminated pointer arrays, keeps process-global state
//! (the history list, configuration characters, delimiter sets), and reports
//! failure through sentinel pointers and integer status codes.  This crate
//! holds the part of a binding that can be reasoned about on plain values:
//!
//! * the error taxonomy every wrapped call reports through ([`error`]);
//! * the one-time initialization guard ([`init`]);
//! * the ownership adapter that moves byte buffers across the boundary
//!   without truncation, double-free or over-read ([`foreign`]);
//! * a value-level model of the History library's global state and the
//!   exact outcome translation each wrapped entry point performs.
//!
//! The raw calls themselves live outside this crate; they feed their
//! results (a present-or-null buffer, a status code) to the functions here,
//! which are verified for every such outcome.

pub mod error;
pub mod foreign;
pub mod history;
pub mod init;
pub mod readline;
pub mod version;

pub use error::ErrorKind;
pub use error::HistoryError;
pub use error::ReadlineError;
pub use version::version;
