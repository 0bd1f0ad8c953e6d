//! The command processor: handles an invocation of `setrole`.
//!
//! The mapping is written first and is the source of truth.  The grant that
//! follows is an attempt: if it fails, the administrator is told, the mapping
//! stays, and the user's next join grants the role.

use vstd::prelude::*;
use crate::commands::setrole::{decode, decoded};
use crate::commands::CommandArg;
use crate::ids::GuildId;
use crate::outcome::Outcome;
use crate::step::{GrantCall, Origin, PendingGrant, PendingWrite, Step};
use crate::store::{StoreError, UserRoleMapping};

verus! {

/// The first step of an invocation with the arguments `args` in `guild`.
pub open spec fn set_role_step(args: Seq<CommandArg>, guild: Option<GuildId>) -> Step {
    match decoded(args) {
        Err(error) => Step::Finish { outcome: Outcome::Rejected(error) },
        Ok(request) => Step::Upsert {
            mapping: UserRoleMapping::of(request.user, request.role),
            then: PendingWrite { request, guild },
        },
    }
}

/// Starts the handling of an invocation of `setrole`.  Arguments that do not
/// decode end it at once, before anything is written or granted; otherwise
/// the mapping is to be written, with both identifiers encoded as columns.
pub fn set_role(args: &[CommandArg], guild: Option<GuildId>) -> (step: Step)
    ensures
        step == set_role_step(args@, guild),
        step.rank() <= 2,
{
    match decode(args) {
        Err(error) => Step::Finish { outcome: Outcome::Rejected(error) },
        Ok(request) => Step::Upsert {
            mapping: UserRoleMapping::new(request.user, request.role),
            then: PendingWrite { request, guild },
        },
    }
}

impl PendingWrite {
    /// The step after the write.
    pub open spec fn after_store(self, result: Result<(), StoreError>) -> Step {
        match result {
            Err(error) => Step::Finish { outcome: Outcome::StoreFailed(error) },
            Ok(_) => match self.guild {
                Some(guild) => Step::Grant {
                    call: GrantCall { guild, user: self.request.user, role: self.request.role },
                    then: PendingGrant { origin: Origin::Command },
                },
                None => Step::Finish { outcome: Outcome::Stored },
            },
        }
    }

    /// Takes the store's answer to the write.  If the write failed the
    /// handling ends and no grant is attempted.  If it succeeded, the role is
    /// to be granted in the guild of the invocation, if there is one.
    pub fn stored(self, result: Result<(), StoreError>) -> (step: Step)
        ensures
            step == self.after_store(result),
            step.rank() <= 1,
    {
        match result {
            Err(error) => Step::Finish { outcome: Outcome::StoreFailed(error) },
            Ok(_) => match self.guild {
                Some(guild) => Step::Grant {
                    call: GrantCall { guild, user: self.request.user, role: self.request.role },
                    then: PendingGrant { origin: Origin::Command },
                },
                None => Step::Finish { outcome: Outcome::Stored },
            },
        }
    }
}

} // verus!
