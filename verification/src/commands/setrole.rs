//! The `setrole` command: its declaration and the decoding of its arguments.
//!
//! The command takes a user and a role, in that order.  Arguments are read by
//! position only: a role in the first place is an error, never a hint to look
//! for the user elsewhere.

use vstd::prelude::*;
use vstd::string::*;
use crate::commands::{conforms, CommandArg, CommandDefinition, CommandOption, OptionKind};
use crate::ids::{RoleId, UserId};

verus! {

/// The decoded arguments of one invocation.
#[derive(Clone, Copy, Debug, PartialEq, Eq, Structural)]
pub struct SetRole {
    pub user: UserId,
    pub role: RoleId,
}

/// What is wrong with an argument list.
#[derive(Clone, Copy, Debug, PartialEq, Eq, Structural)]
pub enum ValidationError {
    /// There is no first argument.
    MissingUser,
    /// The first argument is not a user.
    NotAUser,
    /// There is no second argument.
    MissingRole,
    /// The second argument is not a role.
    NotARole,
}

/// The name under which the command is registered and invoked.
pub open spec fn command_name() -> Seq<char> {
    "setrole"@
}

/// What an argument list decodes to.  Arguments after the second are not
/// looked at.
pub open spec fn decoded(args: Seq<CommandArg>) -> Result<SetRole, ValidationError> {
    if args.len() == 0 {
        Err(ValidationError::MissingUser)
    } else if !(args[0] is User) {
        Err(ValidationError::NotAUser)
    } else if args.len() == 1 {
        Err(ValidationError::MissingRole)
    } else if !(args[1] is Role) {
        Err(ValidationError::NotARole)
    } else {
        Ok(SetRole { user: args[0]->User_0, role: args[1]->Role_0 })
    }
}

/// `definition` is the declaration of `setrole`: open to administrators only,
/// with a required user and then a required role.
pub open spec fn declares_setrole(definition: CommandDefinition) -> bool {
    &&& definition.name@ == command_name()
    &&& definition.description@ == "Set a role for a user"@
    &&& definition.admin_only
    &&& definition.options@.len() == 2
    &&& definition.options@[0].kind == OptionKind::User
    &&& definition.options@[0].name@ == "user"@
    &&& definition.options@[0].description@ == "The user to set the role for"@
    &&& definition.options@[0].required
    &&& definition.options@[1].kind == OptionKind::Role
    &&& definition.options@[1].name@ == "role"@
    &&& definition.options@[1].description@ == "The role to set"@
    &&& definition.options@[1].required
}

/// Whether `name` is the name of this command.
pub fn is_named(name: &String) -> (named: bool)
    ensures
        named == (name@ == command_name()),
{
    let own = String::from_str("setrole");
    *name == own
}

/// Decodes the arguments of an invocation, and says which argument is at
/// fault where they cannot be decoded.
pub fn decode(options: &[CommandArg]) -> (result: Result<SetRole, ValidationError>)
    ensures
        result == decoded(options@),
        result is Ok <==> options@.len() >= 2 && options@[0] is User && options@[1] is Role,
        result matches Ok(request) ==> options@[0] == CommandArg::User(request.user)
            && options@[1] == CommandArg::Role(request.role),
        result == Err::<SetRole, ValidationError>(ValidationError::MissingUser)
            <==> options@.len() == 0,
        result == Err::<SetRole, ValidationError>(ValidationError::NotAUser)
            <==> options@.len() >= 1 && !(options@[0] is User),
        result == Err::<SetRole, ValidationError>(ValidationError::MissingRole)
            <==> options@.len() == 1 && options@[0] is User,
        result == Err::<SetRole, ValidationError>(ValidationError::NotARole)
            <==> options@.len() >= 2 && options@[0] is User && !(options@[1] is Role),
{
    if options.len() == 0 {
        return Err(ValidationError::MissingUser);
    }
    let user = match options[0] {
        CommandArg::User(user) => user,
        _ => {
            return Err(ValidationError::NotAUser);
        },
    };
    if options.len() == 1 {
        return Err(ValidationError::MissingRole);
    }
    match options[1] {
        CommandArg::Role(role) => Ok(SetRole { user, role }),
        _ => Err(ValidationError::NotARole),
    }
}

/// The role and the user of an invocation, or `None` unless the first
/// argument is a user and the second a role.
pub fn run(options: &[CommandArg]) -> (result: Option<(RoleId, UserId)>)
    ensures
        result == match decoded(options@) {
            Ok(request) => Some((request.role, request.user)),
            Err(_) => None,
        },
        result is Some <==> options@.len() >= 2 && options@[0] is User && options@[1] is Role,
        result matches Some(pair) ==> options@[0] == CommandArg::User(pair.1) && options@[1]
            == CommandArg::Role(pair.0),
{
    match decode(options) {
        Ok(request) => Some((request.role, request.user)),
        Err(_) => None,
    }
}

/// The declaration of the command, as it is to be registered.
pub fn register() -> (definition: CommandDefinition)
    ensures
        declares_setrole(definition),
{
    let mut options: Vec<CommandOption> = Vec::new();
    options.push(
        CommandOption {
            kind: OptionKind::User,
            name: String::from_str("user"),
            description: String::from_str("The user to set the role for"),
            required: true,
        },
    );
    options.push(
        CommandOption {
            kind: OptionKind::Role,
            name: String::from_str("role"),
            description: String::from_str("The role to set"),
            required: true,
        },
    );
    CommandDefinition {
        name: String::from_str("setrole"),
        description: String::from_str("Set a role for a user"),
        admin_only: true,
        options,
    }
}

/// Swapped arguments are an error: a role followed by a user is refused
/// because the first argument is not a user.
pub proof fn lemma_swapped_arguments_rejected(role: RoleId, user: UserId)
    ensures
        decoded(seq![CommandArg::Role(role), CommandArg::User(user)]) == Err::<
            SetRole,
            ValidationError,
        >(ValidationError::NotAUser),
{
}

/// A user followed by a role decodes to that user and that role, whatever
/// follows them.
pub proof fn lemma_ordered_arguments_accepted(args: Seq<CommandArg>, user: UserId, role: RoleId)
    requires
        args.len() >= 2,
        args[0] == CommandArg::User(user),
        args[1] == CommandArg::Role(role),
    ensures
        decoded(args) == Ok::<SetRole, ValidationError>(SetRole { user, role }),
{
}

/// The decoder accepts every argument list that has the declared shape.
pub proof fn lemma_declared_arguments_decode(args: Seq<CommandArg>, definition: CommandDefinition)
    requires
        declares_setrole(definition),
        conforms(args, definition),
    ensures
        decoded(args) is Ok,
{
    assert(args[0].fits(definition.options@[0].kind));
    assert(args[1].fits(definition.options@[1].kind));
}

} // verus!
