//! The two families of hosts, and what a finished native process leaves.

use vstd::prelude::*;

verus! {

/// The family of operating systems a host belongs to.
#[derive(Clone, Copy, Debug, PartialEq, Eq, Structural)]
pub enum Platform {
    Windows,
    Posix,
}

/// What a native tool left behind once it ran to completion.
#[derive(Clone, Debug)]
pub struct ProcessOutput {
    /// The exit code; `None` when the process was ended by a signal.
    pub exit_code: Option<i32>,
    /// Everything written to the standard output stream.
    pub stdout: Vec<u8>,
    /// Everything written to the diagnostic stream.
    pub stderr: Vec<u8>,
}

impl ProcessOutput {
    /// Whether the process exited with status zero.
    pub open spec fn succeeded(&self) -> bool {
        self.exit_code == Some(0i32)
    }

    /// Executable test for [`ProcessOutput::succeeded`].
    pub fn success(&self) -> (b: bool)
        ensures
            b == self.succeeded(),
    {
        match self.exit_code {
            Some(code) => code == 0,
            None => false,
        }
    }
}

/// The text that `String::from_utf8_lossy` makes of `bytes`: their UTF-8
/// decoding, with each malformed sequence replaced by U+FFFD.
pub uninterp spec fn utf8_lossy(bytes: Seq<u8>) -> Seq<char>;

/// Decodes the output of a native tool with `String::from_utf8_lossy`.
/// Nothing is proved of the decoding: the contract only names its result,
/// which depends on the bytes alone.
#[verifier::external_body]
pub(crate) fn decode_lossy(bytes: &[u8]) -> (text: String)
    ensures
        text@ == utf8_lossy(bytes@),
{
    String::from_utf8_lossy(bytes).into_owned()
}

} // verus!
