//! The whole pipeline: resolve a source, then decrypt the payload. One
//! unified error tells resolve-time failure from decrypt-time failure, and
//! the laws of the pipeline are stated and proved here over the spec
//! functions that the step functions' contracts use.

use vstd::prelude::*;
use vstd::utf8::{decode_utf8, valid_utf8};

use crate::method::{finish_result, CommandSpec, DecryptError, DecryptMethod, RunOutcome};
use crate::source::{
    env_payload_result, file_payload_result, EnvOutcome, FileOutcome, ResolveError, SecretType,
};
use crate::text::drop_last_char;

verus! {

/// A failure of the whole pipeline: either the source could not be resolved,
/// or the payload could not be decrypted.
#[derive(Clone, Copy, Debug, PartialEq, Eq, Structural)]
pub enum SecretError {
    /// the source could not be resolved; decryption was never attempted
    Resolve(ResolveError),
    /// the payload was resolved, but decryption failed
    Decrypt(DecryptError),
}

/// The raw payload a source resolves to, given what its one I/O action
/// produced: a literal is its own payload, the other kinds resolve from the
/// outcome of their lookup or read.
pub open spec fn resolved_payload(
    source: SecretType,
    env: EnvOutcome,
    file: FileOutcome,
) -> Result<Seq<char>, ResolveError> {
    match source {
        SecretType::Env(_) => env_payload_result(env),
        SecretType::File(_) => file_payload_result(file),
        SecretType::Literal(value) => Ok(value@),
    }
}

/// The plaintext a payload decrypts to, given what the command run produced:
/// the identity method returns the payload unchanged and runs nothing; the
/// built-in `gpg` method finishes from the outcome with the final character
/// dropped; a custom method finishes from the outcome verbatim.
pub open spec fn decrypt_result(
    payload: Seq<char>,
    method: DecryptMethod,
    run: RunOutcome,
) -> Result<Seq<char>, DecryptError> {
    match method {
        DecryptMethod::Identity => Ok(payload),
        DecryptMethod::GPG => finish_result(true, run),
        DecryptMethod::Custom(_) => finish_result(false, run),
    }
}

/// The plaintext the whole pipeline returns: the resolved payload decrypted,
/// each failure wrapped to say on which side it happened.
pub open spec fn secret_result(
    source: SecretType,
    env: EnvOutcome,
    file: FileOutcome,
    method: DecryptMethod,
    run: RunOutcome,
) -> Result<Seq<char>, SecretError> {
    match resolved_payload(source, env, file) {
        Ok(payload) => match decrypt_result(payload, method, run) {
            Ok(text) => Ok(text),
            Err(e) => Err(SecretError::Decrypt(e)),
        },
        Err(e) => Err(SecretError::Resolve(e)),
    }
}

/// Mark a failure as resolve-time.
pub fn resolve_failure(e: ResolveError) -> (r: SecretError)
    ensures
        r == SecretError::Resolve(e),
{
    SecretError::Resolve(e)
}

/// Mark a failure as decrypt-time.
pub fn decrypt_failure(e: DecryptError) -> (r: SecretError)
    ensures
        r == SecretError::Decrypt(e),
{
    SecretError::Decrypt(e)
}

/// Law: whenever resolution succeeds, the identity method returns the raw
/// payload exactly — for every source kind, and whatever any child process
/// might have produced.
pub proof fn lemma_resolve_then_identity(
    source: SecretType,
    env: EnvOutcome,
    file: FileOutcome,
    run: RunOutcome,
)
    ensures
        resolved_payload(source, env, file) matches Ok(payload) ==> secret_result(
            source,
            env,
            file,
            DecryptMethod::Identity,
            run,
        ) == Ok::<Seq<char>, SecretError>(payload),
{
}

/// Law: a custom command that copies its input to its output unchanged
/// round-trips — the pipeline returns the payload it was given, exactly.
pub proof fn lemma_custom_round_trip(payload: Seq<char>, command: CommandSpec, out: Vec<u8>)
    requires
        valid_utf8(out@),
        decode_utf8(out@) == payload,
    ensures
        decrypt_result(payload, DecryptMethod::Custom(command), RunOutcome::Output(out)) == Ok::<
            Seq<char>,
            DecryptError,
        >(payload),
{
}

/// Law: when `gpg` writes the plaintext followed by one newline, the built-in
/// `gpg` method returns the plaintext exactly, with no trailing newline.
pub proof fn lemma_gpg_drops_trailing_newline(
    ciphertext: Seq<char>,
    plain: Seq<char>,
    out: Vec<u8>,
)
    requires
        valid_utf8(out@),
        decode_utf8(out@) == plain.push('\n'),
    ensures
        decrypt_result(ciphertext, DecryptMethod::GPG, RunOutcome::Output(out)) == Ok::<
            Seq<char>,
            DecryptError,
        >(plain),
{
    assert(drop_last_char(plain.push('\n')) =~= plain);
}

/// Law: looking up an unset environment variable fails with `NotFound`,
/// yields no payload, and decryption is never reached — the pipeline's result
/// does not depend on the method or on anything a command produced.
pub proof fn lemma_unset_env_not_found(
    name: String,
    file: FileOutcome,
    method: DecryptMethod,
    run: RunOutcome,
)
    ensures
        env_payload_result(EnvOutcome::Unset) == Err::<Seq<char>, ResolveError>(
            ResolveError::NotFound,
        ),
        secret_result(SecretType::Env(name), EnvOutcome::Unset, file, method, run) == Err::<
            Seq<char>,
            SecretError,
        >(SecretError::Resolve(ResolveError::NotFound)),
{
}

/// Law: whenever resolution fails, the pipeline reports that resolve error —
/// for every method, and whatever any child process might have produced.
pub proof fn lemma_resolve_error_stops_pipeline(
    source: SecretType,
    env: EnvOutcome,
    file: FileOutcome,
    method: DecryptMethod,
    run: RunOutcome,
)
    ensures
        resolved_payload(source, env, file) matches Err(e) ==> secret_result(
            source,
            env,
            file,
            method,
            run,
        ) == Err::<Seq<char>, SecretError>(SecretError::Resolve(e)),
{
}

/// Law: a missing file resolves to `NotFound`, and an existing file resolves
/// to its exact decoded contents, untrimmed.
pub proof fn lemma_file_payload_exact(data: Vec<u8>)
    ensures
        file_payload_result(FileOutcome::NotFound) == Err::<Seq<char>, ResolveError>(
            ResolveError::NotFound,
        ),
        valid_utf8(data@) ==> file_payload_result(FileOutcome::Data(data)) == Ok::<
            Seq<char>,
            ResolveError,
        >(decode_utf8(data@)),
{
}

} // verus!
