//! Neutrino Drive: the rules of a self-hosted cloud drive (permissions with
//! folder inheritance, trash and retention, quotas, versions, share links,
//! IRM restrictions, shared drives, background jobs), as verified functions
//! over in-memory models of the drive's tables.
use vstd::prelude::*;

pub mod error;
pub mod text;
pub mod seqs;
pub mod rows;
mod runtime;
pub mod pagination;
pub mod permissions;
pub mod storage;
pub mod archive;
pub mod filesystem;
pub mod sharing;
pub mod irm;
pub mod jobs;
pub mod auth;
pub mod shared_drives;
pub mod notifications;
pub mod search;
pub mod security;
pub mod encrypted_store;
pub mod access;
pub mod priority;

verus! {
} // verus!
