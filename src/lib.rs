//! Vault transfer policy: a transfer out of a two-signatory vault is requested
//! by an account that is not a legal officer and approved by two legal
//! officers. The policy validates each request and each approval and builds
//! the multisig call that the runtime then dispatches under the caller's
//! origin.

pub mod call;
pub mod pallet;

pub use call::{MultisigCall, OpaqueCall, Timepoint};
pub use pallet::{Config, Error, Event, Pallet};
