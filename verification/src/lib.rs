//! Synchronization engine for a hosted fax-receiving provider.
//!
//! The library holds the verified core: the wire-protocol request builders,
//! the item resolver with its path-safety rules, the download/decode
//! pipeline, and the per-account worker expressed as a step-driven state
//! machine.  Network and filesystem effects are performed by an unverified
//! shell that feeds their outcomes back into the machine as plain events.

pub mod config;
pub mod email;
pub mod ntlm;
pub mod phone;
pub mod response;
pub mod sql;
pub mod srfax;
pub mod srfax_service;
