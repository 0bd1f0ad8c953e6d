//! How the handling of an event ended, and what the invoking administrator
//! is told about it.

use vstd::prelude::*;
use vstd::string::*;
use crate::commands::setrole::ValidationError;
use crate::store::StoreError;

verus! {

/// Why the platform did not grant a role.
#[derive(Clone, Debug, PartialEq, Eq)]
pub struct GatewayError {
    /// The platform's own account of the failure.
    pub detail: String,
}

/// How the handling of one event ended.
#[derive(Clone, Debug, PartialEq, Eq)]
pub enum Outcome {
    /// A command was invoked that this service does not know.
    NotImplemented,
    /// The arguments of `setrole` could not be decoded; nothing was written
    /// and nothing was granted.
    Rejected(ValidationError),
    /// The mapping could not be written; no grant was attempted.
    StoreFailed(StoreError),
    /// The mapping was written, but the platform did not grant the role.  The
    /// mapping stays: the next join of the user grants it.
    GrantFailed(GatewayError),
    /// The mapping was written and the role was granted.
    Granted,
    /// The mapping was written.  The command was invoked outside any guild, so
    /// there was nowhere to grant the role.
    Stored,
    /// A member joined who has no mapping.
    NoMapping,
    /// A member joined, and the store could not be read.
    LookupFailed(StoreError),
    /// A member joined and was given the role of their mapping.
    Regranted,
    /// A member joined who has a mapping, but the platform did not grant the
    /// role.
    RegrantFailed(GatewayError),
}

impl Outcome {
    /// The handling was that of a member's join, not of a command.
    pub open spec fn of_join(self) -> bool {
        self is NoMapping || self is LookupFailed || self is Regranted || self is RegrantFailed
    }

    /// The text sent back to the administrator who invoked a command.  The
    /// handling of a join has no one to answer.
    pub open spec fn response_text(self) -> Option<Seq<char>> {
        match self {
            Outcome::NotImplemented => Some("not implemented :("@),
            Outcome::Rejected(_) => Some("Failed to setrole"@),
            Outcome::StoreFailed(_) => Some("Failed to setrole"@),
            Outcome::GrantFailed(error) => Some("Error assigning role: "@ + error.detail@),
            Outcome::Granted => Some("Added Role to user"@),
            Outcome::Stored => Some("Added Role to user"@),
            Outcome::NoMapping => None,
            Outcome::LookupFailed(_) => None,
            Outcome::Regranted => None,
            Outcome::RegrantFailed(_) => None,
        }
    }

    /// The text to send back to whoever invoked the command, if the event was
    /// a command.
    pub fn response(&self) -> (text: Option<String>)
        ensures
            text is Some <==> !self.of_join(),
            match text {
                Some(s) => self.response_text() == Some(s@),
                None => self.response_text() is None,
            },
    {
        match self {
            Outcome::NotImplemented => Some(String::from_str("not implemented :(")),
            Outcome::Rejected(_) => Some(String::from_str("Failed to setrole")),
            Outcome::StoreFailed(_) => Some(String::from_str("Failed to setrole")),
            Outcome::GrantFailed(error) => {
                let text = String::from_str("Error assigning role: ").concat(error.detail.as_str());
                Some(text)
            },
            Outcome::Granted => Some(String::from_str("Added Role to user")),
            Outcome::Stored => Some(String::from_str("Added Role to user")),
            Outcome::NoMapping => None,
            Outcome::LookupFailed(_) => None,
            Outcome::Regranted => None,
            Outcome::RegrantFailed(_) => None,
        }
    }
}

} // verus!
