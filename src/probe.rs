//! Checking that the external tools are there before anything is changed.
use vstd::prelude::*;
use crate::error::{RepoError, Tool};

verus! {

impl Tool {
    /// The arguments of a harmless invocation that tells whether the tool
    /// runs: `git help` and `gh --version`.
    pub fn probe_args(&self) -> (r: Vec<String>)
        ensures
            r@.len() == 1,
            r@[0]@ == match self {
                Tool::Git => "help"@,
                Tool::Gh => "--version"@,
            },
    {
        let mut r: Vec<String> = Vec::new();
        match self {
            Tool::Git => r.push(String::from_str("help")),
            Tool::Gh => r.push(String::from_str("--version")),
        }
        r
    }
}

/// The verdict on one probe: the tool is there exactly when it could be
/// launched and reported success.
pub fn check(tool: Tool, present: bool) -> (r: Result<(), RepoError>)
    ensures
        present ==> r is Ok,
        !present ==> (r matches Err(RepoError::ToolMissing(t)) && t == tool),
{
    if present {
        Ok(())
    } else {
        Err(RepoError::ToolMissing(tool))
    }
}

} // verus!
