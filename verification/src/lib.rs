//! Verified core of the drive9 mobile client.
//!
//! Every decision that the client takes between two network or file system
//! operations is a function of this crate with a contract. The operations
//! themselves are performed by the embedding application, which hands their
//! outcome back as plain values.

pub mod cancel;
pub mod chunks;
pub mod client;
pub mod download;
pub mod download_laws;
pub mod download_steps;
pub mod error;
pub mod exception;
pub mod json;
pub mod models;
pub mod patch;
pub mod paths;
pub mod reply_laws;
pub mod stream;
pub mod stream_laws;
pub mod stream_model;
pub mod stream_steps;
pub mod text;
pub mod text_laws;
pub mod transfer;
pub mod transfer_laws;
pub mod transfer_steps;
pub mod upload;
