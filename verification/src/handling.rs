//! Whole handlings: what the steps add up to.
//!
//! The handlers of this crate only ever say what is to be done next.  This
//! module follows their steps to the end against a model of the outside
//! world, and states what every handling does to the store, which grants it
//! asks of the platform, and how it ends.

use vstd::prelude::*;
use crate::commands::setrole::{command_name, decoded, SetRole, ValidationError};
use crate::commands::CommandArg;
use crate::dispatcher::{dispatch, dispatched, Event};
use crate::ids::{column_of, id_of, lemma_id_round_trip, GuildId, RoleId, UserId};
use crate::outcome::{GatewayError, Outcome};
use crate::processor::set_role_step;
use crate::reconciler::joined_step;
use crate::step::{GrantCall, Step};
use crate::store::{MappingStore, StoreError};

verus! {

/// The outside world during one handling: what the store holds, whether the
/// store works, and what the platform answers to a grant.
pub struct World {
    /// The role column bound to each user column.
    pub table: Map<i64, i64>,
    /// `Ok` if the store carries out what it is asked, else the error with
    /// which it refuses everything.
    pub store: Result<(), StoreError>,
    /// The platform's answer to a grant.
    pub gateway: Result<(), GatewayError>,
}

/// What one handling did.
pub struct Record {
    /// What the store holds afterwards.
    pub table: Map<i64, i64>,
    /// The grants that the platform was asked for, in order.
    pub grants: Seq<GrantCall>,
    /// How the handling ended.
    pub outcome: Outcome,
}

/// Follows a handling from `step` to its end in `world`: each call that a step
/// asks for is made, and its result is handed to the step's continuation.
pub open spec fn follow(step: Step, world: World) -> Record
    decreases step.rank(),
{
    match step {
        Step::Upsert { mapping, then } => match world.store {
            Ok(_) => follow(
                then.after_store(Ok(())),
                World { table: world.table.insert(mapping.user_id, mapping.role_id), ..world },
            ),
            Err(error) => follow(then.after_store(Err(error)), world),
        },
        Step::Lookup { user_id, then } => match world.store {
            Ok(_) => follow(then.after_lookup(Ok(world.table.get(user_id))), world),
            Err(error) => follow(then.after_lookup(Err(error)), world),
        },
        Step::Grant { call, then } => {
            let rest = follow(then.after_grant(world.gateway), world);
            Record { grants: seq![call] + rest.grants, ..rest }
        },
        Step::Finish { outcome } => Record { table: world.table, grants: Seq::empty(), outcome },
    }
}

/// What a handling did, as seen from outside the store.
#[derive(Clone, Debug, PartialEq, Eq)]
pub struct Report {
    /// The grants that the platform was asked for, in order.
    pub grants: Vec<GrantCall>,
    /// How the handling ended.
    pub outcome: Outcome,
}

/// Ends a handling that has at most a grant left.
fn conclude(step: Step, gateway: Result<(), GatewayError>) -> (report: Report)
    requires
        step.rank() <= 1,
    ensures
        forall|world: World|
            world.gateway == gateway ==> {
                &&& report.grants@ == (#[trigger] follow(step, world)).grants
                &&& report.outcome == follow(step, world).outcome
                &&& follow(step, world).table == world.table
            },
{
    reveal_with_fuel(follow, 2);
    let mut grants: Vec<GrantCall> = Vec::new();
    let last = match step {
        Step::Grant { call, then } => {
            grants.push(call);
            then.granted(gateway)
        },
        other => other,
    };
    match last {
        Step::Finish { outcome } => {
            proof {
                assert forall|world: World| world.gateway == gateway implies grants@
                    == #[trigger] follow(step, world).grants by {
                    assert(grants@ =~= follow(step, world).grants);
                }
            }
            Report { grants, outcome }
        },
        _ => vstd::pervasive::unreached(),
    }
}

/// Handles `event` from its first step to its last against the store in
/// memory, with a platform that answers `gateway` to a grant.  The store
/// carries out every write and lookup that the handling asks for.
pub fn simulate(
    store: &mut MappingStore,
    event: Event,
    gateway: Result<(), GatewayError>,
) -> (report: Report)
    ensures
        ({
            let record = follow(
                dispatched(event),
                World { table: old(store)@, store: Ok(()), gateway },
            );
            &&& final(store)@ == record.table
            &&& report.grants@ == record.grants
            &&& report.outcome == record.outcome
        }),
{
    reveal_with_fuel(follow, 2);
    let ghost before = World { table: store@, store: Ok(()), gateway };
    match dispatch(event) {
        Step::Upsert { mapping, then } => {
            let written = store.upsert(mapping);
            let next = then.stored(written);
            let ghost after = World { table: store@, ..before };
            assert(follow(dispatched(event), before) == follow(next, after));
            conclude(next, gateway)
        },
        Step::Lookup { user_id, then } => {
            let read = store.lookup(user_id);
            let next = then.found(read);
            assert(follow(dispatched(event), before) == follow(next, before));
            conclude(next, gateway)
        },
        other => conclude(other, gateway),
    }
}

/// An invocation of `setrole` is handled by the command processor and a join
/// by the membership reconciler.
pub proof fn lemma_routing(
    name: String,
    args: Vec<CommandArg>,
    invoked_in: Option<GuildId>,
    user: UserId,
    guild: GuildId,
)
    requires
        name@ == command_name(),
    ensures
        dispatched(Event::CommandInvoked { name, args, guild: invoked_in }) == set_role_step(
            args@,
            invoked_in,
        ),
        dispatched(Event::MemberJoined { user, guild }) == joined_step(user, guild),
{
}

/// An invocation that names no known command is answered as not implemented;
/// the store is not touched and the platform is not asked for anything.
pub proof fn lemma_unknown_command(
    name: String,
    args: Vec<CommandArg>,
    guild: Option<GuildId>,
    world: World,
)
    requires
        name@ != command_name(),
    ensures
        dispatched(Event::CommandInvoked { name, args, guild }) == (Step::Finish {
            outcome: Outcome::NotImplemented,
        }),
        follow(dispatched(Event::CommandInvoked { name, args, guild }), world) == (Record {
            table: world.table,
            grants: Seq::empty(),
            outcome: Outcome::NotImplemented,
        }),
        Outcome::NotImplemented.response_text() == Some("not implemented :("@),
{
    reveal_with_fuel(follow, 3);
}

/// Arguments that do not decode end the command with the decoder's error;
/// the store is not touched and the platform is not asked for anything.
pub proof fn lemma_invalid_arguments(
    args: Seq<CommandArg>,
    guild: Option<GuildId>,
    error: ValidationError,
    world: World,
)
    requires
        decoded(args) == Err::<SetRole, ValidationError>(error),
    ensures
        follow(set_role_step(args, guild), world) == (Record {
            table: world.table,
            grants: Seq::empty(),
            outcome: Outcome::Rejected(error),
        }),
        Outcome::Rejected(error).response_text() == Some("Failed to setrole"@),
{
    reveal_with_fuel(follow, 3);
}

/// A role followed by a user is refused like any other argument list that
/// does not decode: the two are never swapped back.
pub proof fn lemma_swapped_arguments(role: RoleId, user: UserId, guild: Option<GuildId>, world: World)
    ensures
        follow(
            set_role_step(seq![CommandArg::Role(role), CommandArg::User(user)], guild),
            world,
        ) == (Record {
            table: world.table,
            grants: Seq::empty(),
            outcome: Outcome::Rejected(ValidationError::NotAUser),
        }),
{
    reveal_with_fuel(follow, 3);
}

/// If the store fails, the command ends there: the store is as it was and no
/// grant is attempted.
pub proof fn lemma_store_failure_stops_command(
    args: Seq<CommandArg>,
    guild: Option<GuildId>,
    error: StoreError,
    world: World,
)
    requires
        decoded(args) is Ok,
        world.store == Err::<(), StoreError>(error),
    ensures
        follow(set_role_step(args, guild), world) == (Record {
            table: world.table,
            grants: Seq::empty(),
            outcome: Outcome::StoreFailed(error),
        }),
        Outcome::StoreFailed(error).response_text() == Some("Failed to setrole"@),
{
    reveal_with_fuel(follow, 3);
}

/// A command that succeeds in a guild writes the mapping, replacing the one
/// that the user had, asks for exactly one grant, of that role to that user
/// in that guild, and answers that the role was added.
pub proof fn lemma_command_grants_once(
    args: Seq<CommandArg>,
    user: UserId,
    role: RoleId,
    guild: GuildId,
    world: World,
)
    requires
        decoded(args) == Ok::<SetRole, ValidationError>(SetRole { user, role }),
        world.store is Ok,
        world.gateway is Ok,
    ensures
        follow(set_role_step(args, Some(guild)), world) == (Record {
            table: world.table.insert(column_of(user.0), column_of(role.0)),
            grants: seq![GrantCall { guild, user, role }],
            outcome: Outcome::Granted,
        }),
        Outcome::Granted.response_text() == Some("Added Role to user"@),
{
    reveal_with_fuel(follow, 3);
    let rec = follow(set_role_step(args, Some(guild)), world);
    assert(rec.grants =~= seq![GrantCall { guild, user, role }]);
}

/// A command that is invoked outside any guild writes the mapping and asks
/// the platform for nothing.
pub proof fn lemma_command_outside_guild(
    args: Seq<CommandArg>,
    user: UserId,
    role: RoleId,
    world: World,
)
    requires
        decoded(args) == Ok::<SetRole, ValidationError>(SetRole { user, role }),
        world.store is Ok,
    ensures
        follow(set_role_step(args, None), world) == (Record {
            table: world.table.insert(column_of(user.0), column_of(role.0)),
            grants: Seq::empty(),
            outcome: Outcome::Stored,
        }),
        Outcome::Stored.response_text() == Some("Added Role to user"@),
{
    reveal_with_fuel(follow, 3);
}

/// The grant is an attempt only.  If the platform refuses it after the
/// mapping was written, the mapping is not taken back: looking the user up
/// gives the new role, and the administrator is told what the platform said.
pub proof fn lemma_grant_failure_keeps_mapping(
    args: Seq<CommandArg>,
    user: UserId,
    role: RoleId,
    guild: GuildId,
    error: GatewayError,
    world: World,
)
    requires
        decoded(args) == Ok::<SetRole, ValidationError>(SetRole { user, role }),
        world.store is Ok,
        world.gateway == Err::<(), GatewayError>(error),
    ensures
        ({
            let record = follow(set_role_step(args, Some(guild)), world);
            &&& record.table == world.table.insert(column_of(user.0), column_of(role.0))
            &&& record.table.get(column_of(user.0)) == Some(column_of(role.0))
            &&& RoleId(id_of(record.table[column_of(user.0)])) == role
            &&& record.grants == seq![GrantCall { guild, user, role }]
            &&& record.outcome == Outcome::GrantFailed(error)
            &&& record.outcome.response_text() == Some("Error assigning role: "@ + error.detail@)
        }),
{
    reveal_with_fuel(follow, 3);
    let record = follow(set_role_step(args, Some(guild)), world);
    assert(record.grants =~= seq![GrantCall { guild, user, role }]);
    lemma_id_round_trip(role.0);
}

/// The join of a user who has no mapping asks the platform for nothing,
/// whatever state the store and the platform are in, and leaves the store as
/// it was.
pub proof fn lemma_join_without_mapping(user: UserId, guild: GuildId, world: World)
    requires
        !world.table.dom().contains(column_of(user.0)),
    ensures
        follow(joined_step(user, guild), world).grants == Seq::<GrantCall>::empty(),
        follow(joined_step(user, guild), world).table == world.table,
        world.store is Ok ==> follow(joined_step(user, guild), world).outcome == Outcome::NoMapping,
{
    reveal_with_fuel(follow, 3);
}

/// The join of a user who has a mapping asks the platform for exactly one
/// grant: of the role that the mapping holds, to that user, in the guild that
/// was joined.  That is so whether the platform then grants it or not.
pub proof fn lemma_join_with_mapping(user: UserId, guild: GuildId, role_id: i64, world: World)
    requires
        world.store is Ok,
        world.table.get(column_of(user.0)) == Some(role_id),
    ensures
        follow(joined_step(user, guild), world).grants == seq![
            GrantCall { guild, user, role: RoleId(id_of(role_id)) },
        ],
        follow(joined_step(user, guild), world).table == world.table,
        world.gateway is Ok ==> follow(joined_step(user, guild), world).outcome == Outcome::Regranted,
        world.gateway matches Err(error) ==> follow(joined_step(user, guild), world).outcome
            == Outcome::RegrantFailed(error),
{
    reveal_with_fuel(follow, 3);
    let record = follow(joined_step(user, guild), world);
    assert(record.grants =~= seq![GrantCall { guild, user, role: RoleId(id_of(role_id)) }]);
}

/// If the store cannot be read when a member joins, the handling ends there
/// and the platform is asked for nothing.
pub proof fn lemma_join_store_failure(user: UserId, guild: GuildId, error: StoreError, world: World)
    requires
        world.store == Err::<(), StoreError>(error),
    ensures
        follow(joined_step(user, guild), world) == (Record {
            table: world.table,
            grants: Seq::empty(),
            outcome: Outcome::LookupFailed(error),
        }),
{
    reveal_with_fuel(follow, 3);
}

/// The handling of a join never answers anyone and never writes to the store.
pub proof fn lemma_join_is_silent(user: UserId, guild: GuildId, world: World)
    ensures
        follow(joined_step(user, guild), world).outcome.of_join(),
        follow(joined_step(user, guild), world).outcome.response_text() is None,
        follow(joined_step(user, guild), world).table == world.table,
{
    reveal_with_fuel(follow, 3);
}

/// The handling of a command always answers whoever invoked it.
pub proof fn lemma_command_always_answers(
    name: String,
    args: Vec<CommandArg>,
    guild: Option<GuildId>,
    world: World,
)
    ensures
        follow(dispatched(Event::CommandInvoked { name, args, guild }), world).outcome.response_text()
            is Some,
{
    reveal_with_fuel(follow, 3);
}

/// No handling asks the platform for more than one grant.
pub proof fn lemma_at_most_one_grant(event: Event, world: World)
    ensures
        follow(dispatched(event), world).grants.len() <= 1,
{
    reveal_with_fuel(follow, 3);
}

/// A role that was set for a user is the role that the user's next join
/// grants, in whatever guild the user joins, and also if the grant that
/// followed the command had failed.
pub proof fn lemma_set_then_rejoin(
    args: Seq<CommandArg>,
    user: UserId,
    role: RoleId,
    guild: Option<GuildId>,
    joined: GuildId,
    world: World,
    later: World,
)
    requires
        decoded(args) == Ok::<SetRole, ValidationError>(SetRole { user, role }),
        world.store is Ok,
        later.store is Ok,
        later.table == follow(set_role_step(args, guild), world).table,
    ensures
        follow(joined_step(user, joined), later).grants == seq![GrantCall { guild: joined, user, role }],
        follow(joined_step(user, joined), later).outcome.response_text() is None,
{
    reveal_with_fuel(follow, 3);
    lemma_id_round_trip(role.0);
    let record = follow(joined_step(user, joined), later);
    assert(later.table.get(column_of(user.0)) == Some(column_of(role.0)));
    assert(record.grants =~= seq![GrantCall { guild: joined, user, role }]);
}

} // verus!
