//! Trust-and-value-movement core of an on-chain custodial vault.
//!
//! The crate checks the identity of the two privileged programs it is willing
//! to call, derives fixed-width event identifiers, builds and dispatches the
//! two kinds of value-moving instructions (native and token transfers), and
//! verifies Merkle inclusion proofs against a published commitment root.

pub mod event;
pub mod host;
pub mod ids;
pub mod merkle;
pub mod transfer;

pub use event::derive_event_id;
pub use event::DeriveEventIdParam;
pub use ids::is_system_program;
pub use ids::is_token_program;
pub use merkle::verify_proof;
pub use transfer::transfer_lamports;
pub use transfer::transfer_token;
pub use transfer::TransferError;
pub use transfer::TransferTokenParams;
