//! What can go wrong, and how each failure reads to a person.
use vstd::prelude::*;

verus! {

/// The external executables that must be present.
#[derive(Clone, Copy, Debug, PartialEq, Eq, Structural)]
pub enum Tool {
    Git,
    Gh,
}

impl Tool {
    pub open spec fn spec_command(self) -> Seq<char> {
        match self {
            Tool::Git => "git"@,
            Tool::Gh => "gh"@,
        }
    }

    /// The name under which the tool is launched.
    pub fn command(&self) -> (r: &'static str)
        ensures
            r@ == self.spec_command(),
    {
        match self {
            Tool::Git => "git",
            Tool::Gh => "gh",
        }
    }
}

/// Every way a run can fail. None of them is retried.
#[derive(Clone, Debug, PartialEq, Eq)]
pub enum RepoError {
    /// A required tool could not be launched or reported failure.
    ToolMissing(Tool),
    /// A flag that needs a value came last; holds the flag.
    MissingArgument(String),
    /// The value given to `--name` is no usable name; holds the value.
    MalformedArgument(String),
    /// The current directory could not be found.
    WorkingDirUnresolvable,
    /// Initialising the local repository failed; holds the tool's message.
    InitFailed(String),
    /// Creating the hosted repository failed; holds the tool's message.
    CreateFailed(String),
}

impl RepoError {
    /// The line shown to the user for this failure.
    pub open spec fn spec_message(&self) -> Seq<char> {
        match self {
            RepoError::ToolMissing(Tool::Git) => "Git is not installed!"@,
            RepoError::ToolMissing(Tool::Gh) => "GH CLI is not installed!"@,
            RepoError::MissingArgument(flag) => "Not enough arguments given for "@ + flag@
                + ". Expected: "@ + flag@ + " {NAME_OF_REPOSITORY}"@,
            RepoError::MalformedArgument(value) => "Repository name should not be empty or start with --, got '"@
                + value@ + "'; is the value missing after --name?"@,
            RepoError::WorkingDirUnresolvable => "Unable to resolve the current directory"@,
            RepoError::InitFailed(detail) => "Git init failed: "@ + detail@,
            RepoError::CreateFailed(detail) => "Failed to create repository: "@ + detail@,
        }
    }

    pub fn message(&self) -> (r: String)
        ensures
            r@ == self.spec_message(),
    {
        match self {
            RepoError::ToolMissing(Tool::Git) => String::from_str("Git is not installed!"),
            RepoError::ToolMissing(Tool::Gh) => String::from_str("GH CLI is not installed!"),
            RepoError::MissingArgument(flag) => {
                let mut m = String::from_str("Not enough arguments given for ");
                m.append(flag.as_str());
                m.append(". Expected: ");
                m.append(flag.as_str());
                m.append(" {NAME_OF_REPOSITORY}");
                m
            },
            RepoError::MalformedArgument(value) => {
                let mut m = String::from_str(
                    "Repository name should not be empty or start with --, got '",
                );
                m.append(value.as_str());
                m.append("'; is the value missing after --name?");
                m
            },
            RepoError::WorkingDirUnresolvable => String::from_str(
                "Unable to resolve the current directory",
            ),
            RepoError::InitFailed(detail) => {
                let mut m = String::from_str("Git init failed: ");
                m.append(detail.as_str());
                m
            },
            RepoError::CreateFailed(detail) => {
                let mut m = String::from_str("Failed to create repository: ");
                m.append(detail.as_str());
                m
            },
        }
    }
}

} // verus!
