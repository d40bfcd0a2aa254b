//! Transfer core for a command-line utility that moves single objects
//! between a local filesystem and an object-storage service.
//!
//! The library resolves a pair of endpoint descriptors (each either a local
//! path or a remote `s3://bucket/key` locator) into one of three transfer
//! strategies, validates the descriptors, and drives the transfer as a state
//! machine whose actions (network requests, file reads and writes) are
//! carried out by an unverified shell around the library.

pub mod cli;
pub mod config;
pub mod error;
pub mod locator;
pub mod strategy;
pub mod transfer;
