//! A builder and finalization pipeline for the transaction values of a
//! blockchain execution layer.
//!
//! Three mutually exclusive transaction kinds are supported: a
//! general-purpose executable (script) transaction, a contract-creation
//! transaction, and a protocol-internal block-reward (mint) transaction.
//! A builder owns a draft of one kind together with a consensus-parameter
//! snapshot and a signing-key ledger; finalization signs the draft (where the
//! kind supports signing) and canonicalizes it into an immutable value with
//! cached derived metadata.

use vstd::prelude::*;

pub mod bytes;
pub mod crypto;
pub mod types;
pub mod ledger;
pub mod gas;
pub mod params;
pub mod encode;
pub mod tx;
pub mod builder;
pub mod laws;

verus! {

} // verus!
