//! Commands that the service offers, their declared shape and the arguments
//! of an invocation.

use vstd::prelude::*;
use crate::ids::{RoleId, UserId};

pub mod setrole;

verus! {

/// One argument of a command invocation, as the platform resolved it.
#[derive(Clone, Copy, Debug, PartialEq, Eq, Structural)]
pub enum CommandArg {
    /// A reference to a user.
    User(UserId),
    /// A reference to a role.
    Role(RoleId),
    /// Anything else: text, a number, a channel, an unresolved value.
    Other,
}

/// The kind of value that a declared option takes.
#[derive(Clone, Copy, Debug, PartialEq, Eq, Structural)]
pub enum OptionKind {
    User,
    Role,
}

/// One declared option of a command.
#[derive(Clone, Debug, PartialEq, Eq)]
pub struct CommandOption {
    pub kind: OptionKind,
    pub name: String,
    pub description: String,
    pub required: bool,
}

/// The declaration of a command: what is registered with the platform.
#[derive(Clone, Debug, PartialEq, Eq)]
pub struct CommandDefinition {
    pub name: String,
    pub description: String,
    /// Only administrators may invoke the command.
    pub admin_only: bool,
    pub options: Vec<CommandOption>,
}

impl CommandArg {
    /// The argument is a value of the kind `kind`.
    pub open spec fn fits(self, kind: OptionKind) -> bool {
        match kind {
            OptionKind::User => self is User,
            OptionKind::Role => self is Role,
        }
    }
}

/// The arguments are, one for one and in order, values for the options that
/// `definition` declares.
pub open spec fn conforms(args: Seq<CommandArg>, definition: CommandDefinition) -> bool {
    &&& args.len() == definition.options@.len()
    &&& forall|i: int| 0 <= i < args.len() ==> (#[trigger] args[i]).fits(definition.options@[i].kind)
}

} // verus!
