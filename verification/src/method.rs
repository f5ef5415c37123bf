//! The decryption pipeline: the method chosen by the caller, the child
//! process it dispatches to (if any), and how that process's outcome becomes
//! the plaintext or a typed error.
//!
//! One decrypt call is at most one child process. [`decrypt_start`] dispatches
//! on the method: either the payload is already the plaintext, or a command
//! must be run with the payload written to its standard input and its standard
//! output collected whole. [`decrypt_finish`] turns what the run produced into
//! the result. The child's exit status plays no part: only a spawn failure or
//! a pipe failure fails the call.

use vstd::prelude::*;
use vstd::string::StringExecFns;
use vstd::utf8::{decode_utf8, valid_utf8};

use crate::text::{bytes_to_text, drop_last_char, strip_last_char, text_result};

verus! {

/// A not-yet-started external command: a program and its arguments. The
/// pipeline takes ownership for the one call that starts it.
pub struct CommandSpec {
    /// the program to run
    pub program: String,
    /// its arguments, in order
    pub args: Vec<String>,
}

/// How a payload is decrypted.
pub enum DecryptMethod {
    /// the payload is the plaintext: return it unchanged
    Identity,
    /// pipe the payload through the built-in `gpg` invocation and drop the
    /// final character of the output (the trailing newline `gpg` appends)
    GPG,
    /// pipe the payload through this caller-supplied command and return its
    /// output verbatim
    Custom(CommandSpec),
}

/// Why decryption failed.
#[derive(Clone, Copy, Debug, PartialEq, Eq, Structural)]
pub enum DecryptError {
    /// the decryption command could not be started
    SpawnFailed,
    /// writing the payload to the command or reading its output failed
    IOError,
    /// the command's output is not valid text
    InvalidEncoding,
}

/// What running the decryption command produced.
pub enum RunOutcome {
    /// the command could not be started
    SpawnFailed,
    /// writing to its standard input or reading its standard output failed
    PipeFailed,
    /// everything the command wrote to its standard output
    Output(Vec<u8>),
}

/// A command the pipeline asks its caller to run, with the payload to write
/// to the command's standard input. Standard output is to be collected whole;
/// standard error is left alone.
pub struct RunRequest {
    /// the command to start
    pub command: CommandSpec,
    /// the payload to write to its standard input, which is then closed
    pub payload: String,
    /// whether the final character of the decoded output is dropped
    pub strip_trailing: bool,
}

/// The first step of one decrypt call: the plaintext itself, or the one
/// command to run.
pub enum DecryptStep {
    /// no command runs: this is the plaintext
    Finished(String),
    /// run this command and hand its outcome to [`decrypt_finish`]
    Run(RunRequest),
}

/// The built-in `gpg` invocation: non-interactive, quiet, decrypting
/// ASCII-armored input.
pub open spec fn is_gpg_command(c: CommandSpec) -> bool {
    &&& c.program@ == "gpg"@
    &&& c.args@.len() == 4
    &&& c.args@[0]@ == "--no-tty"@
    &&& c.args@[1]@ == "-q"@
    &&& c.args@[2]@ == "-d"@
    &&& c.args@[3]@ == "-a"@
}

/// The plaintext an outcome finishes to, or the error: a spawn failure and a
/// pipe failure are reported as such, output that is not valid text is
/// rejected, and valid output is the plaintext, minus its final character
/// when the method asked for that.
pub open spec fn finish_result(strip_trailing: bool, outcome: RunOutcome) -> Result<
    Seq<char>,
    DecryptError,
> {
    match outcome {
        RunOutcome::SpawnFailed => Err(DecryptError::SpawnFailed),
        RunOutcome::PipeFailed => Err(DecryptError::IOError),
        RunOutcome::Output(bytes) => if valid_utf8(bytes@) {
            if strip_trailing {
                Ok(drop_last_char(decode_utf8(bytes@)))
            } else {
                Ok(decode_utf8(bytes@))
            }
        } else {
            Err(DecryptError::InvalidEncoding)
        },
    }
}

/// The built-in `gpg` decryption command.
pub fn gpg_command() -> (c: CommandSpec)
    ensures
        is_gpg_command(c),
{
    let mut args: Vec<String> = Vec::new();
    args.push(String::from_str("--no-tty"));
    args.push(String::from_str("-q"));
    args.push(String::from_str("-d"));
    args.push(String::from_str("-a"));
    CommandSpec { program: String::from_str("gpg"), args }
}

/// Dispatch one decrypt call: the identity method finishes at once with the
/// payload unchanged; the built-in `gpg` method asks for the `gpg` command to
/// be run and the final character of its output dropped; a custom method asks
/// for the caller's command to be run and its output returned verbatim.
pub fn decrypt_start(payload: String, method: DecryptMethod) -> (step: DecryptStep)
    ensures
        method is Identity ==> (step matches DecryptStep::Finished(text) && text@ == payload@),
        method is GPG ==> (step matches DecryptStep::Run(req) && is_gpg_command(req.command)
            && req.payload@ == payload@ && req.strip_trailing),
        method matches DecryptMethod::Custom(command) ==> (step matches DecryptStep::Run(req)
            && req.command == command && req.payload@ == payload@ && !req.strip_trailing),
{
    match method {
        DecryptMethod::Identity => DecryptStep::Finished(payload),
        DecryptMethod::GPG => DecryptStep::Run(
            RunRequest { command: gpg_command(), payload, strip_trailing: true },
        ),
        DecryptMethod::Custom(command) => DecryptStep::Run(
            RunRequest { command, payload, strip_trailing: false },
        ),
    }
}

/// Finish one decrypt call from what the command run produced.
pub fn decrypt_finish(strip_trailing: bool, outcome: RunOutcome) -> (r: Result<
    String,
    DecryptError,
>)
    ensures
        text_result(r) == finish_result(strip_trailing, outcome),
{
    match outcome {
        RunOutcome::SpawnFailed => Err(DecryptError::SpawnFailed),
        RunOutcome::PipeFailed => Err(DecryptError::IOError),
        RunOutcome::Output(bytes) => match bytes_to_text(bytes) {
            Some(text) => if strip_trailing {
                Ok(strip_last_char(text.as_str()))
            } else {
                Ok(text)
            },
            None => Err(DecryptError::InvalidEncoding),
        },
    }
}

} // verus!
