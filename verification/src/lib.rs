//! A package-manager client for bundles of World of Warcraft addon content.
//!
//! The library covers manifest normalisation into a content-addressed
//! identity, deterministic archive planning with ignore-glob filtering and
//! structural validation, checksum-based integrity verification, the wire
//! contract of the registry, a challenge-response authentication flow over
//! Ed25519 signatures, and the decision logic of the concurrent dependency
//! resolver.  File, network and terminal I/O live outside the library and
//! hand it plain values.

pub mod cli;
pub mod common;
pub mod manifest;
pub mod moxen;
