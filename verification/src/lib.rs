//! Identity and authentication for the entries of an append-only log.
//!
//! A participant is known by a [`signature::PublicKey`] and signs with a
//! [`signature::KeyPair`]. An [`event::Event`] packages what was signed with
//! the signer's identity and the signature, and anyone who holds the event can
//! check it with [`event::Event::verify`].
//!
//! The Ed25519 arithmetic, the base64 alphabet and the integer layout come
//! from other crates, behind the contracts in [`outside`]. Everything else is
//! verified against those contracts.

pub mod datetime;
pub mod event;
pub mod outside;
pub mod signature;
pub mod transaction;
