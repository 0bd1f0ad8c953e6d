//! The event dispatcher: routes each event to the handler for it.

use vstd::prelude::*;
use crate::commands::setrole::{command_name, is_named};
use crate::commands::CommandArg;
use crate::ids::{GuildId, UserId};
use crate::outcome::Outcome;
use crate::processor::{set_role, set_role_step};
use crate::reconciler::{joined_step, member_joined};
use crate::step::Step;

verus! {

/// An event that the platform delivered.
#[allow(inconsistent_fields)]
#[derive(Clone, Debug, PartialEq, Eq)]
pub enum Event {
    /// A command was invoked, with its arguments in the order given.
    CommandInvoked { name: String, args: Vec<CommandArg>, guild: Option<GuildId> },
    /// A user became a member of a guild.
    MemberJoined { user: UserId, guild: GuildId },
}

/// The first step of the handling of `event`.
pub open spec fn dispatched(event: Event) -> Step {
    match event {
        Event::CommandInvoked { name, args, guild } => if name@ == command_name() {
            set_role_step(args@, guild)
        } else {
            Step::Finish { outcome: Outcome::NotImplemented }
        },
        Event::MemberJoined { user, guild } => joined_step(user, guild),
    }
}

/// Starts the handling of an event.  An invocation goes to the processor of
/// the command it names, and one that names no known command is answered as
/// not implemented; a join goes to the reconciler.  The dispatcher itself
/// asks for no outside call.
pub fn dispatch(event: Event) -> (step: Step)
    ensures
        step == dispatched(event),
        step.rank() <= 2,
{
    match event {
        Event::CommandInvoked { name, args, guild } => {
            if is_named(&name) {
                set_role(args.as_slice(), guild)
            } else {
                Step::Finish { outcome: Outcome::NotImplemented }
            }
        },
        Event::MemberJoined { user, guild } => member_joined(user, guild),
    }
}

} // verus!
