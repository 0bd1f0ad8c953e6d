//! The membership reconciler: handles the join of a member.
//!
//! A member who has a mapping is given its role again, in the guild that was
//! joined.  A member without one is left alone.  Nothing here is ever
//! answered to a user: failures end the handling silently.

use vstd::prelude::*;
use crate::ids::{column_of, from_column, id_of, to_column, GuildId, RoleId, UserId};
use crate::outcome::Outcome;
use crate::step::{GrantCall, Origin, PendingGrant, PendingLookup, Step};
use crate::store::StoreError;

verus! {

/// The first step after `user` joined `guild`.
pub open spec fn joined_step(user: UserId, guild: GuildId) -> Step {
    Step::Lookup { user_id: column_of(user.0), then: PendingLookup { user, guild } }
}

/// Starts the handling of a join: the member's mapping is to be looked up.
pub fn member_joined(user: UserId, guild: GuildId) -> (step: Step)
    ensures
        step == joined_step(user, guild),
        step.rank() <= 2,
{
    Step::Lookup { user_id: to_column(user.0), then: PendingLookup { user, guild } }
}

impl PendingLookup {
    /// The step after the lookup.
    pub open spec fn after_lookup(self, result: Result<Option<i64>, StoreError>) -> Step {
        match result {
            Err(error) => Step::Finish { outcome: Outcome::LookupFailed(error) },
            Ok(None) => Step::Finish { outcome: Outcome::NoMapping },
            Ok(Some(role_id)) => Step::Grant {
                call: GrantCall { guild: self.guild, user: self.user, role: RoleId(id_of(role_id)) },
                then: PendingGrant { origin: Origin::Join },
            },
        }
    }

    /// Takes the store's answer to the lookup.  Only a mapping that was found
    /// leads to a grant: of the role that its column decodes to, to the member
    /// who joined, in the guild that was joined.
    pub fn found(self, result: Result<Option<i64>, StoreError>) -> (step: Step)
        ensures
            step == self.after_lookup(result),
            step.rank() <= 1,
    {
        match result {
            Err(error) => Step::Finish { outcome: Outcome::LookupFailed(error) },
            Ok(None) => Step::Finish { outcome: Outcome::NoMapping },
            Ok(Some(role_id)) => Step::Grant {
                call: GrantCall {
                    guild: self.guild,
                    user: self.user,
                    role: RoleId(from_column(role_id)),
                },
                then: PendingGrant { origin: Origin::Join },
            },
        }
    }
}

} // verus!
