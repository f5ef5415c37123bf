//! The payload resolver: where a secret's raw payload comes from, the one
//! I/O action each source needs, and how that action's outcome becomes the
//! raw payload or a typed error.

use vstd::prelude::*;
use vstd::utf8::{decode_utf8, valid_utf8};

use crate::text::{bytes_to_text, text_result};

verus! {

/// Where a secret's raw payload comes from.
pub enum SecretType {
    /// the name of an environment variable holding the payload
    Env(String),
    /// the path (relative to the working directory, or absolute) of a file
    /// holding the payload
    File(String),
    /// the payload itself
    Literal(String),
}

/// Why resolving a source failed.
#[derive(Clone, Copy, Debug, PartialEq, Eq, Structural)]
pub enum ResolveError {
    /// the environment variable is unset, or the file does not exist
    NotFound,
    /// the file may not be read
    PermissionDenied,
    /// the value or the file contents are not valid text
    InvalidEncoding,
    /// any other failure while reading the file
    IOError,
}

/// The single I/O action a source needs, or the payload itself.
pub enum ResolveAction {
    /// look up this environment variable
    LookupEnv(String),
    /// read this file whole
    ReadFile(String),
    /// no I/O is needed: this is the payload
    UsePayload(String),
}

/// What looking up the environment variable produced.
pub enum EnvOutcome {
    /// the variable is set to this value
    Value(String),
    /// the variable is unset
    Unset,
    /// the variable is set, but its value is not valid text
    NotText,
}

/// What reading the file produced.
pub enum FileOutcome {
    /// the file's entire contents
    Data(Vec<u8>),
    /// the file does not exist
    NotFound,
    /// the file may not be read
    PermissionDenied,
    /// reading failed in any other way
    OtherFailure,
}

/// The raw payload an environment lookup resolves to, or the error.
pub open spec fn env_payload_result(outcome: EnvOutcome) -> Result<Seq<char>, ResolveError> {
    match outcome {
        EnvOutcome::Value(v) => Ok(v@),
        EnvOutcome::Unset => Err(ResolveError::NotFound),
        EnvOutcome::NotText => Err(ResolveError::InvalidEncoding),
    }
}

/// The raw payload a file read resolves to, or the error.
pub open spec fn file_payload_result(outcome: FileOutcome) -> Result<Seq<char>, ResolveError> {
    match outcome {
        FileOutcome::Data(bytes) => if valid_utf8(bytes@) {
            Ok(decode_utf8(bytes@))
        } else {
            Err(ResolveError::InvalidEncoding)
        },
        FileOutcome::NotFound => Err(ResolveError::NotFound),
        FileOutcome::PermissionDenied => Err(ResolveError::PermissionDenied),
        FileOutcome::OtherFailure => Err(ResolveError::IOError),
    }
}

/// The one I/O action each source kind needs: an environment source needs its
/// variable looked up, a file source needs its file read, and a literal is the
/// payload itself.
pub fn resolve_step(source: SecretType) -> (action: ResolveAction)
    ensures
        source matches SecretType::Env(name) ==> (action matches ResolveAction::LookupEnv(n)
            && n == name),
        source matches SecretType::File(path) ==> (action matches ResolveAction::ReadFile(p)
            && p == path),
        source matches SecretType::Literal(value) ==> (action matches ResolveAction::UsePayload(v)
            && v == value),
{
    match source {
        SecretType::Env(name) => ResolveAction::LookupEnv(name),
        SecretType::File(path) => ResolveAction::ReadFile(path),
        SecretType::Literal(value) => ResolveAction::UsePayload(value),
    }
}

/// The raw payload of an environment lookup: the value exactly as it is set,
/// `NotFound` when the variable is unset, `InvalidEncoding` when its value is
/// not valid text.
pub fn env_payload(outcome: EnvOutcome) -> (r: Result<String, ResolveError>)
    ensures
        text_result(r) == env_payload_result(outcome),
{
    match outcome {
        EnvOutcome::Value(v) => Ok(v),
        EnvOutcome::Unset => Err(ResolveError::NotFound),
        EnvOutcome::NotText => Err(ResolveError::InvalidEncoding),
    }
}

/// The raw payload of a file read: the file's exact contents decoded as text,
/// untrimmed; `NotFound`, `PermissionDenied` or `IOError` as the read failed;
/// `InvalidEncoding` when the contents are not valid text.
pub fn file_payload(outcome: FileOutcome) -> (r: Result<String, ResolveError>)
    ensures
        text_result(r) == file_payload_result(outcome),
{
    match outcome {
        FileOutcome::Data(bytes) => match bytes_to_text(bytes) {
            Some(text) => Ok(text),
            None => Err(ResolveError::InvalidEncoding),
        },
        FileOutcome::NotFound => Err(ResolveError::NotFound),
        FileOutcome::PermissionDenied => Err(ResolveError::PermissionDenied),
        FileOutcome::OtherFailure => Err(ResolveError::IOError),
    }
}

} // verus!
