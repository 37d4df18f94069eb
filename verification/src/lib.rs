//! Foundation layer for a cryptographic library.
//!
//! This crate defines algorithm-agnostic contracts for key encapsulation,
//! digital signatures, authenticated encryption and hashing; a two-tier
//! error taxonomy separating expected cryptographic failures from developer
//! misuse; and a secure-memory subsystem with zeroization, constant-time
//! comparison and selection, and type-level sensitivity tracking.
//!
//! No concrete cipher, signature or KEM algorithm lives here: algorithm
//! implementations are external collaborators that implement the contracts
//! in [`contracts`] and report failures through [`errors`].

pub mod contracts;
pub mod errors;
pub mod memory;
pub mod sensitivity;
pub mod validation;
