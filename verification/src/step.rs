//! The steps of a handling.
//!
//! Handling an event is a short exchange with the outside world.  The handler
//! never calls the store or the platform itself: it returns a [`Step`] that
//! names the one call to make next, together with a continuation that takes
//! the call's result and returns the step after it.  Whoever drives the
//! handler makes the call, however long it takes, and comes back.

use vstd::prelude::*;
use crate::commands::setrole::SetRole;
use crate::ids::{GuildId, RoleId, UserId};
use crate::outcome::{GatewayError, Outcome};
use crate::store::UserRoleMapping;

verus! {

/// A request to the platform to give `user` the role `role` in `guild`.
#[derive(Clone, Copy, Debug, PartialEq, Eq, Structural)]
pub struct GrantCall {
    pub guild: GuildId,
    pub user: UserId,
    pub role: RoleId,
}

/// What a grant was requested for.
#[derive(Clone, Copy, Debug, PartialEq, Eq, Structural)]
pub enum Origin {
    /// An administrator invoked `setrole`.
    Command,
    /// A member joined.
    Join,
}

/// A `setrole` invocation that waits for its mapping to be written.
#[derive(Clone, Copy, Debug, PartialEq, Eq, Structural)]
pub struct PendingWrite {
    pub request: SetRole,
    /// The guild in which the command was invoked, if it was invoked in one.
    pub guild: Option<GuildId>,
}

/// A join that waits for the member's mapping to be looked up.
#[derive(Clone, Copy, Debug, PartialEq, Eq, Structural)]
pub struct PendingLookup {
    pub user: UserId,
    pub guild: GuildId,
}

/// A handling that waits for the platform to grant a role.
#[derive(Clone, Copy, Debug, PartialEq, Eq, Structural)]
pub struct PendingGrant {
    pub origin: Origin,
}

/// What is to be done next in the handling of an event.
#[allow(inconsistent_fields)]
#[derive(Clone, Debug, PartialEq, Eq)]
pub enum Step {
    /// Write `mapping` to the store, replacing the mapping that its user had,
    /// and hand the result to `then`.
    Upsert { mapping: UserRoleMapping, then: PendingWrite },
    /// Read the role column of `user_id` from the store and hand the result to
    /// `then`.
    Lookup { user_id: i64, then: PendingLookup },
    /// Ask the platform for `call` and hand the result to `then`.
    Grant { call: GrantCall, then: PendingGrant },
    /// Nothing is left to do but to deliver the response, if there is one.
    Finish { outcome: Outcome },
}

impl Step {
    /// How many outside calls can at most still follow, this step's own
    /// included.
    pub open spec fn rank(self) -> nat {
        match self {
            Step::Upsert { .. } => 2,
            Step::Lookup { .. } => 2,
            Step::Grant { .. } => 1,
            Step::Finish { .. } => 0,
        }
    }
}

impl PendingGrant {
    /// The step after a grant: always the last one.
    pub open spec fn after_grant(self, result: Result<(), GatewayError>) -> Step {
        Step::Finish {
            outcome: match (self.origin, result) {
                (Origin::Command, Ok(_)) => Outcome::Granted,
                (Origin::Command, Err(error)) => Outcome::GrantFailed(error),
                (Origin::Join, Ok(_)) => Outcome::Regranted,
                (Origin::Join, Err(error)) => Outcome::RegrantFailed(error),
            },
        }
    }

    /// Takes the platform's answer to the grant.  A failure ends the handling
    /// like a success does: nothing is undone and nothing is tried again.
    pub fn granted(self, result: Result<(), GatewayError>) -> (step: Step)
        ensures
            step == self.after_grant(result),
            step is Finish,
    {
        let outcome = match self.origin {
            Origin::Command => match result {
                Ok(_) => Outcome::Granted,
                Err(error) => Outcome::GrantFailed(error),
            },
            Origin::Join => match result {
                Ok(_) => Outcome::Regranted,
                Err(error) => Outcome::RegrantFailed(error),
            },
        };
        Step::Finish { outcome }
    }
}

} // verus!
