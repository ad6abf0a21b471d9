//! A consent-based ownership-transfer engine for soulbound tokens.
//!
//! A soulbound token is a unique identifier bound to an owning identity until
//! voluntarily released. A transfer is valid only when the counterpart has
//! signed a canonical digest of the transfer, and each consumed consent blocks
//! further transfers of that identifier until the owner releases it.
//!
//! The library is organised around explicit collaborators: the caller's
//! identity is passed into every operation, the hash and signature primitives
//! are injected through [`crypto::CryptoProvider`], and every ownership change
//! is recorded in an event log held by the state value itself.

pub mod codec;
pub mod consent;
pub mod crypto;
pub mod demo;
pub mod engine;
pub mod identity;
