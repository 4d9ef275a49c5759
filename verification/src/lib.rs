//! A minimal state-transition handler for host-lent, byte-addressable
//! storage records.
//!
//! The host hands each invocation an instruction buffer and an ordered list
//! of record handles. The first byte of the instruction selects a transition
//! on the first record: first-time initialization of an 8-byte little-endian
//! counter, or a wrap-around increment of that counter. All access-control
//! and layout rules are stated as contracts and verified.

pub mod error;
pub mod record;
pub mod dispatch;
pub mod laws;

pub use error::ErrorKind;
pub use record::{Identity, Record, RecordView};
pub use dispatch::{increment_counter, initialize_account, process_instruction};
