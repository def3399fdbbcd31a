//! `cry` key-handling logic: output naming and overwrite rules for generated
//! and derived keys, deterministic key derivation, key file contents, OpenSSH
//! key text, and the decisions behind the ephemeral `ssh-agent` session used
//! by `cry ssh`.

pub mod command;
pub mod crypto;
pub mod error;
pub mod keygen;
pub mod keys;
pub mod laws;
pub mod passphrase;
pub mod ssh;
pub mod text;
