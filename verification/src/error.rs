//! Failure classification for one update: every subprocess step returns a
//! result that is threaded upward without recovery, and the executor loop
//! is the sole recovery boundary.

use vstd::prelude::*;
use vstd::utf8::{decode_utf8, valid_utf8};
use vstd::string::StringExecFns;

verus! {

/// Why an update failed. Every kind is non-fatal to the process: the
/// executor logs it and moves to the next queued item.
#[derive(Debug)]
pub enum Error {
    /// The queued identifier matches no configured project.
    InvalidRepository,
    /// A project's computed working-directory path cannot be represented
    /// in the encoding a subprocess argument requires. Reported by the
    /// driver that talks to the operating system; no value of this
    /// library's own path strings produces it.
    InvalidPath,
    /// A subprocess (a git step or the post-update command) exited with
    /// non-zero status: its display name, the exit code the operating
    /// system reported (`None` when the process was ended by a signal),
    /// and its captured standard error decoded as text.
    CommandFailed { command: String, code: Option<i32>, stderr: String },
    /// The subprocess could not even be launched (e.g. missing binary):
    /// the command's display name and the launch error's text.
    Io { command: String, message: String },
}

/// The mathematical value of an [`Error`].
#[verifier::ext_equal]
pub enum ErrorV {
    InvalidRepository,
    InvalidPath,
    CommandFailed { command: Seq<char>, code: Option<i32>, stderr: Seq<char> },
    Io { command: Seq<char>, message: Seq<char> },
}

impl View for Error {
    type V = ErrorV;

    open spec fn view(&self) -> ErrorV {
        match self {
            Error::InvalidRepository => ErrorV::InvalidRepository,
            Error::InvalidPath => ErrorV::InvalidPath,
            Error::CommandFailed { command, code, stderr } => ErrorV::CommandFailed {
                command: command@,
                code: *code,
                stderr: stderr@,
            },
            Error::Io { command, message } => ErrorV::Io {
                command: command@,
                message: message@,
            },
        }
    }
}

/// The text a captured standard-error stream is reported as: its UTF-8
/// decoding, or a fixed placeholder where the bytes are not valid UTF-8.
pub open spec fn stderr_text_v(b: Seq<u8>) -> Seq<char> {
    if valid_utf8(b) {
        decode_utf8(b)
    } else {
        "[invalid string]"@
    }
}

/// Relies on `core::str::from_utf8`: it succeeds exactly on valid UTF-8
/// input and yields its decoding; vstd's `valid_utf8` and `decode_utf8`
/// define the same encoding.
#[verifier::external_body]
fn bytes_to_str(b: &[u8]) -> (r: Option<&str>)
    ensures
        r is Some <==> valid_utf8(b@),
        r matches Some(s) ==> s@ == decode_utf8(b@),
{
    core::str::from_utf8(b).ok()
}

/// Decodes captured standard-error bytes as text, best-effort: an
/// undecodable stream is replaced with a placeholder rather than failing
/// the classification itself.
pub fn stderr_text(b: &Vec<u8>) -> (r: String)
    ensures
        r@ == stderr_text_v(b@),
{
    match bytes_to_str(b.as_slice()) {
        Some(s) => s.to_owned(),
        None => String::from_str("[invalid string]"),
    }
}

} // verus!
