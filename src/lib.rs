//! An encrypted, path-addressed secret store: password-based key derivation,
//! AES-256-CBC encryption with an embedded key fingerprint, and a persisted
//! collection of encrypted records with glob search.

pub mod error;
pub mod ioutils;
pub mod aes256cbc;
pub mod strmap;
pub mod glob;
pub mod about;
pub mod tomb;
mod text;
pub mod widgets;
pub mod theme;
pub mod state;
