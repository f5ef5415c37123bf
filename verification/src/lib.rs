//! A small library for obtaining a secret value and, when it is stored
//! encrypted, piping it through an external decryption program.
//!
//! A secret's raw payload comes from a [`source::SecretType`]: an environment
//! variable, a file, or a literal string. The payload is then transformed by a
//! [`method::DecryptMethod`]: returned unchanged, piped through a built-in
//! `gpg` invocation, or piped through a caller-supplied command.
//!
//! The library itself performs no I/O. It decides which single environment
//! lookup, file read, or child process a caller must perform, and it turns the
//! outcome of that action into the final payload or a typed error. Every such
//! decision is a verified function with a contract; an unverified shell around
//! the library does the lookups, reads and spawns and feeds the outcomes back.

pub mod method;
pub mod pipeline;
pub mod source;
pub mod text;
