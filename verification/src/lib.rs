//! Verified core of a chunked, end-to-end encrypted file storage server.
#![allow(unused_imports)]

pub mod access;
pub mod auth;
pub mod config;
pub mod files;
pub mod model;
pub mod nodes;
pub mod purge;
pub mod reply;
pub mod requests;
pub mod revision;
pub mod sessions;
pub mod shard;
pub mod shares;
pub mod text;
pub mod transfer;
pub mod vfs;
