use role_sync::commands::setrole::{decode, is_named, register, run, SetRole, ValidationError};
use role_sync::commands::{CommandArg, OptionKind};
use role_sync::ids::{RoleId, UserId};

#[test]
fn user_then_role_is_accepted() {
    let args = vec![CommandArg::User(UserId(42)), CommandArg::Role(RoleId(7))];
    assert_eq!(run(&args), Some((RoleId(7), UserId(42))));
    assert_eq!(decode(&args), Ok(SetRole { user: UserId(42), role: RoleId(7) }));
}

#[test]
fn swapped_arguments_are_rejected() {
    let args = vec![CommandArg::Role(RoleId(7)), CommandArg::User(UserId(42))];
    assert_eq!(run(&args), None);
    assert_eq!(decode(&args), Err(ValidationError::NotAUser));
}

#[test]
fn no_arguments_are_rejected() {
    let args: Vec<CommandArg> = vec![];
    assert_eq!(run(&args), None);
    assert_eq!(decode(&args), Err(ValidationError::MissingUser));
}

#[test]
fn user_alone_is_rejected() {
    let args = vec![CommandArg::User(UserId(42))];
    assert_eq!(run(&args), None);
    assert_eq!(decode(&args), Err(ValidationError::MissingRole));
}

#[test]
fn role_alone_is_rejected() {
    let args = vec![CommandArg::Role(RoleId(7))];
    assert_eq!(run(&args), None);
    assert_eq!(decode(&args), Err(ValidationError::NotAUser));
}

#[test]
fn two_users_are_rejected() {
    let args = vec![CommandArg::User(UserId(42)), CommandArg::User(UserId(43))];
    assert_eq!(run(&args), None);
    assert_eq!(decode(&args), Err(ValidationError::NotARole));
}

#[test]
fn other_value_in_first_place_is_rejected() {
    let args = vec![CommandArg::Other, CommandArg::Role(RoleId(7))];
    assert_eq!(run(&args), None);
    assert_eq!(decode(&args), Err(ValidationError::NotAUser));
}

#[test]
fn other_value_in_second_place_is_rejected() {
    let args = vec![CommandArg::User(UserId(42)), CommandArg::Other];
    assert_eq!(run(&args), None);
    assert_eq!(decode(&args), Err(ValidationError::NotARole));
}

#[test]
fn user_is_not_searched_for_in_later_places() {
    let args = vec![CommandArg::Other, CommandArg::User(UserId(42)), CommandArg::Role(RoleId(7))];
    assert_eq!(run(&args), None);
    assert_eq!(decode(&args), Err(ValidationError::NotAUser));
}

#[test]
fn arguments_after_the_second_are_ignored() {
    let args = vec![
        CommandArg::User(UserId(42)),
        CommandArg::Role(RoleId(7)),
        CommandArg::Role(RoleId(8)),
        CommandArg::Other,
    ];
    assert_eq!(run(&args), Some((RoleId(7), UserId(42))));
}

#[test]
fn equal_numbers_are_not_confused() {
    let args = vec![CommandArg::User(UserId(5)), CommandArg::Role(RoleId(5))];
    assert_eq!(run(&args), Some((RoleId(5), UserId(5))));
}

#[test]
fn command_is_recognised_by_its_exact_name() {
    assert!(is_named(&"setrole".to_string()));
    assert!(!is_named(&"Setrole".to_string()));
    assert!(!is_named(&"setrole ".to_string()));
    assert!(!is_named(&"set".to_string()));
    assert!(!is_named(&"".to_string()));
}

#[test]
fn declaration_names_the_command_for_administrators() {
    let definition = register();
    assert_eq!(definition.name, "setrole");
    assert_eq!(definition.description, "Set a role for a user");
    assert!(definition.admin_only);
    assert!(is_named(&definition.name));
}

#[test]
fn declaration_takes_a_required_user_then_a_required_role() {
    let definition = register();
    assert_eq!(definition.options.len(), 2);
    assert_eq!(definition.options[0].kind, OptionKind::User);
    assert_eq!(definition.options[0].name, "user");
    assert_eq!(definition.options[0].description, "The user to set the role for");
    assert!(definition.options[0].required);
    assert_eq!(definition.options[1].kind, OptionKind::Role);
    assert_eq!(definition.options[1].name, "role");
    assert_eq!(definition.options[1].description, "The role to set");
    assert!(definition.options[1].required);
}
