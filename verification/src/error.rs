//! The ways a run can fail.

use vstd::prelude::*;

verus! {

/// What went wrong, by kind.
#[derive(Clone, Copy, Debug, PartialEq, Eq, Structural)]
pub enum HarvestError {
    /// The cookie cannot be written as a header value.
    Configuration,
    /// The file server rejected the credentials.
    Auth,
    /// An HTTP exchange with the judge did not deliver a body.
    Network,
    /// A body from the judge is not JSON.
    MalformedResponse,
    /// A submission record carries no source text.
    MissingCode,
    /// The chosen folder is not among the listed ones.
    NotFound,
    /// The connection to the file server, a listing or an upload failed.
    Transport,
}

impl HarvestError {
    /// The sentence that `message` returns for each kind.
    pub open spec fn message_text(self) -> Seq<char> {
        match self {
            HarvestError::Configuration => "cookie is not a valid header value"@,
            HarvestError::Auth => "login rejected"@,
            HarvestError::Network => "request failed"@,
            HarvestError::MalformedResponse => "response is not JSON"@,
            HarvestError::MissingCode => "failed to get code"@,
            HarvestError::NotFound => "no such folder"@,
            HarvestError::Transport => "transfer failed"@,
        }
    }

    /// A short sentence for the operator.
    pub fn message(&self) -> (text: String)
        ensures
            text@ == self.message_text(),
    {
        match self {
            HarvestError::Configuration => "cookie is not a valid header value".to_owned(),
            HarvestError::Auth => "login rejected".to_owned(),
            HarvestError::Network => "request failed".to_owned(),
            HarvestError::MalformedResponse => "response is not JSON".to_owned(),
            HarvestError::MissingCode => "failed to get code".to_owned(),
            HarvestError::NotFound => "no such folder".to_owned(),
            HarvestError::Transport => "transfer failed".to_owned(),
        }
    }
}

} // verus!
