//! A counter that is advanced one step at a time and never wraps.
//!
//! The crate holds the state record, [`Counter`], and the single operation on
//! it, [`increment`]. Resolving an account to a `Counter`, checking that the
//! request may write to it, and persisting the record afterwards are the
//! host's business: the handler is a pure function of the record it is handed.

pub mod error;
pub mod handler;
pub mod state;

pub use error::Error;
pub use handler::increment;
pub use state::Counter;
