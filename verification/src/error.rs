//! The conditions under which publishing fails.

use vstd::prelude::*;
use vstd::string::StringExecFns;

verus! {

/// Why a publish run failed. Every one of these ends the run: nothing is
/// retried and nothing is rolled back.
#[derive(Clone, Copy, Debug, PartialEq, Eq, Structural)]
pub enum PublishError {
    /// The working-tree status of a path could not be determined while staging.
    StatusResolution,
    /// The index, the tree or the commit object could not be written.
    CommitFailed,
    /// `HEAD` names no commit that could serve as the parent.
    NoCommitFound,
    /// The persisted address of the remote could not be read or changed.
    Configuration,
    /// The transport refused or failed the push.
    PushFailed,
}

/// Why no credential was handed to the transport.
#[derive(Clone, Copy, Debug, PartialEq, Eq, Structural)]
pub enum CredentialError {
    /// The transport does not accept an SSH key.
    NoAuthentication,
    /// The key agent gave no key for the user.
    AuthenticationFailed,
}

impl PublishError {
    /// The text that describes each condition.
    pub open spec fn spec_message(self) -> Seq<char> {
        match self {
            PublishError::StatusResolution => "Couldn't resolve the status of a path"@,
            PublishError::CommitFailed => "Commit faild"@,
            PublishError::NoCommitFound => "Couldn't find commit"@,
            PublishError::Configuration => "Couldn't rewrite the remote address"@,
            PublishError::PushFailed => "Push failed"@,
        }
    }

    /// Describes the condition for the user.
    pub fn message(&self) -> (text: String)
        ensures
            text@ == self.spec_message(),
    {
        match self {
            PublishError::StatusResolution => String::from_str("Couldn't resolve the status of a path"),
            PublishError::CommitFailed => String::from_str("Commit faild"),
            PublishError::NoCommitFound => String::from_str("Couldn't find commit"),
            PublishError::Configuration => String::from_str("Couldn't rewrite the remote address"),
            PublishError::PushFailed => String::from_str("Push failed"),
        }
    }
}

impl CredentialError {
    /// The text that describes each condition.
    pub open spec fn spec_message(self) -> Seq<char> {
        match self {
            CredentialError::NoAuthentication =>
                "No authentication available. Please make sure you have the correct access rights"@,
            CredentialError::AuthenticationFailed =>
                "Failed to authenticate. Please make sure you have the correct access rights"@,
        }
    }

    /// Describes the condition for the user and for the transport.
    pub fn message(&self) -> (text: String)
        ensures
            text@ == self.spec_message(),
    {
        match self {
            CredentialError::NoAuthentication => String::from_str(
                "No authentication available. Please make sure you have the correct access rights",
            ),
            CredentialError::AuthenticationFailed => String::from_str(
                "Failed to authenticate. Please make sure you have the correct access rights",
            ),
        }
    }
}

} // verus!
