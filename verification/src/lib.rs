//! Compact, orderable, per-node unique identifiers.
//!
//! An identifier, an oat, packs an 8-bit node, a 44-bit millisecond
//! timestamp and a 12-bit sequence number into 72 bits. A bowl issues the
//! sequence numbers and timestamps of one node under one of three policies;
//! a wrapped bowl shares one bowl among threads.
//!
//! The executable functions are verified against models of the values:
//! [`oat::OatView`] with its binary and text forms, and [`bowl::BowlView`]
//! with the step that a bowl makes for a reading of the clock. What is
//! believed of the `base64` crate and of the standard library's clock, lock
//! and hashers stands in [`base64url`], [`clock`], [`lock`] and [`hasher`].

/// The bowl is used for generating oats in a unified way.
pub mod bowl;

/// The oats are the unique identifiers.
pub mod oat;

/// The region module contains predefined regions.
pub mod region;

/// Little-endian words and the two characters of a node.
pub mod wire;

/// The calls into the `base64` crate, and the names of what they return.
pub mod base64url;

/// The wall clock of the standard library.
pub mod clock;

/// The lock of the standard library.
pub mod lock;

/// The calls into a caller's `std::hash::Hasher`.
pub mod hasher;
