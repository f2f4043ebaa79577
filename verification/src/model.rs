//! The response payload a successfully executed hook produces.

use vstd::prelude::*;
use vstd::utf8::{decode_utf8, valid_utf8};

use crate::strings::bytes_to_string;

verus! {

/// What a finished hook command reports: its captured output streams and,
/// unless a signal ended it, its exit code.
pub struct CommandResult {
    pub stdout: Option<String>,
    pub stderr: Option<String>,
    pub status_code: Option<i32>,
}

/// Mathematical image of a command result.
pub struct CommandResultView {
    pub stdout: Option<Seq<char>>,
    pub stderr: Option<Seq<char>>,
    pub status_code: Option<i32>,
}

impl View for CommandResult {
    type V = CommandResultView;

    open spec fn view(&self) -> CommandResultView {
        CommandResultView {
            stdout: match self.stdout {
                Option::Some(s) => Option::Some(s@),
                Option::None => Option::None,
            },
            stderr: match self.stderr {
                Option::Some(s) => Option::Some(s@),
                Option::None => Option::None,
            },
            status_code: self.status_code,
        }
    }
}

impl Default for CommandResult {
    /// An empty result: no output captured, no exit code.
    fn default() -> (r: CommandResult)
        ensures
            r@ == (CommandResultView {
                stdout: Option::None,
                stderr: Option::None,
                status_code: Option::None,
            }),
    {
        CommandResult { stdout: None, stderr: None, status_code: None }
    }
}

impl CommandResult {
    /// Build a result from captured output bytes and the exit code; output
    /// that is not UTF-8 text is refused (the request then fails as an
    /// execution error).
    pub fn from_output_parts(stdout: Vec<u8>, stderr: Vec<u8>, status_code: Option<i32>) -> (r:
        Option<CommandResult>)
        ensures
            match r {
                Option::Some(cr) => valid_utf8(stdout@) && valid_utf8(stderr@) && cr@
                    == (CommandResultView {
                    stdout: Option::Some(decode_utf8(stdout@)),
                    stderr: Option::Some(decode_utf8(stderr@)),
                    status_code,
                }),
                Option::None => !valid_utf8(stdout@) || !valid_utf8(stderr@),
            },
    {
        let out = match bytes_to_string(stdout) {
            None => {
                return None;
            },
            Some(s) => s,
        };
        let err = match bytes_to_string(stderr) {
            None => {
                return None;
            },
            Some(s) => s,
        };
        Some(CommandResult { stdout: Some(out), stderr: Some(err), status_code })
    }

    /// A result that carries only an exit code (or none, after a signal),
    /// with no captured output.
    pub fn from_status_code(status_code: Option<i32>) -> (r: CommandResult)
        ensures
            r@ == (CommandResultView { stdout: Option::None, stderr: Option::None, status_code }),
    {
        CommandResult { stdout: None, stderr: None, status_code }
    }
}

} // verus!
