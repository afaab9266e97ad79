//! A hashed-timelock swap ledger: an asset is held in escrow, released to the
//! counterparty against the preimage of a hash before a deadline, and
//! returned to the depositor from the deadline on.
//!
//! The ledger is a value of its own. The host reads its storage into a
//! [`SwapLedger`], calls an operation of [`StellarHTLC`], and carries out the
//! [`Receipt`] that comes back: it writes the entries, moves the asset and
//! publishes the event.
//!
//! What each operation does is stated in [`rules`] as functions on
//! mathematical values; [`laws`] holds what follows for every store and
//! every input.

pub mod digest;
pub mod effects;
pub mod error;
pub mod htlc;
pub mod identity;
pub mod laws;
pub mod ledger;
pub mod order;
pub mod rules;

pub use crate::digest::MAX_PREIMAGE_LEN;
pub use crate::effects::{HostReport, Invocation, Receipt, SwapEvent, Transfer};
pub use crate::error::SwapError;
pub use crate::htlc::{StellarHTLC, StellarHTLCTrait};
pub use crate::identity::Address;
pub use crate::ledger::{DataKey, SwapLedger};
pub use crate::order::SwapOrder;
pub use crate::rules::{GRACE_PERIOD, MAX_WINDOW, MIN_WINDOW};
