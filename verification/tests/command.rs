use rbac::command::{
    describe, parse_command, role_field, shape, user_field, Command, CommandError, Shape,
};
use rbac::model::{RoleField, StoreError, UserField};
use rbac::text::ParseError;

#[test]
fn every_shape_is_found() {
    assert_eq!(shape(&vec!["create", "user", "n"]), Some(Shape::CreateUser));
    assert_eq!(shape(&vec!["delete", "user", "1"]), Some(Shape::DeleteUser));
    assert_eq!(shape(&vec!["update", "user", "1", "name", "v"]), Some(Shape::UpdateUser));
    assert_eq!(shape(&vec!["assign", "role", "r", "to", "user", "1"]), Some(Shape::AssignRole));
    assert_eq!(
        shape(&vec!["unassign", "role", "r", "from", "user", "1"]),
        Some(Shape::UnassignRole)
    );
    assert_eq!(shape(&vec!["list", "roles"]), Some(Shape::ListRoles));
    assert_eq!(shape(&vec!["list", "role", "r"]), Some(Shape::ListRole));
    assert_eq!(shape(&vec!["list", "users"]), Some(Shape::ListUsers));
    assert_eq!(shape(&vec!["list", "user", "1"]), Some(Shape::ListUser));
    assert_eq!(shape(&vec!["create", "role", "r", "R", "p"]), Some(Shape::CreateRole));
    assert_eq!(shape(&vec!["delete", "role", "r"]), Some(Shape::DeleteRole));
    assert_eq!(shape(&vec!["update", "role", "r", "name", "v"]), Some(Shape::UpdateRole));
}

#[test]
fn shape_needs_exact_keywords_and_count() {
    assert_eq!(shape(&vec![]), None);
    assert_eq!(shape(&vec!["foo", "bar"]), None);
    assert_eq!(shape(&vec!["list"]), None);
    assert_eq!(shape(&vec!["list", "user"]), None);
    assert_eq!(shape(&vec!["list", "roles", "r"]), None);
    assert_eq!(shape(&vec!["create", "users", "n"]), None);
    assert_eq!(shape(&vec!["create", "role", "r", "R"]), None);
    assert_eq!(shape(&vec!["assign", "role", "r", "from", "user", "1"]), None);
    assert_eq!(shape(&vec!["assign", "role", "r", "to", "users", "1"]), None);
    assert_eq!(shape(&vec!["unassign", "role", "r", "to", "user", "1"]), None);
    assert_eq!(shape(&vec!["LIST", "users"]), None);
    assert_eq!(shape(&vec!["delete", "user", "1", "2"]), None);
}

#[test]
fn keywords_may_be_arguments() {
    assert_eq!(
        parse_command(&vec!["create", "user", "user"]),
        Ok(Command::CreateUser { name: "user".to_string() })
    );
    assert_eq!(
        parse_command(&vec!["assign", "role", "to", "to", "user", "3"]),
        Ok(Command::AssignRole { slug: "to".to_string(), user_id: 3 })
    );
}

#[test]
fn every_command_is_read() {
    assert_eq!(
        parse_command(&vec!["delete", "user", "-7"]),
        Ok(Command::DeleteUser { id: -7 })
    );
    assert_eq!(
        parse_command(&vec!["update", "user", "12", "name", "bob"]),
        Ok(Command::UpdateUser { id: 12, field: UserField::Name, value: "bob".to_string() })
    );
    assert_eq!(
        parse_command(&vec!["unassign", "role", "admin", "from", "user", "2"]),
        Ok(Command::UnassignRole { slug: "admin".to_string(), user_id: 2 })
    );
    assert_eq!(parse_command(&vec!["list", "roles"]), Ok(Command::ListRoles));
    assert_eq!(
        parse_command(&vec!["list", "role", "admin"]),
        Ok(Command::ListRole { slug: "admin".to_string() })
    );
    assert_eq!(parse_command(&vec!["list", "users"]), Ok(Command::ListUsers));
    assert_eq!(parse_command(&vec!["list", "user", "2147483647"]), Ok(Command::ListUser {
        id: i32::MAX
    }));
    assert_eq!(
        parse_command(&vec!["create", "role", "admin", "Admin", "read,write"]),
        Ok(Command::CreateRole {
            slug: "admin".to_string(),
            name: "Admin".to_string(),
            permissions: "read,write".to_string(),
        })
    );
    assert_eq!(
        parse_command(&vec!["delete", "role", "admin"]),
        Ok(Command::DeleteRole { slug: "admin".to_string() })
    );
    assert_eq!(
        parse_command(&vec!["update", "role", "admin", "name", "Root"]),
        Ok(Command::UpdateRole {
            slug: "admin".to_string(),
            field: RoleField::Name,
            value: "Root".to_string(),
        })
    );
    assert_eq!(
        parse_command(&vec!["update", "role", "admin", "permissions", "all"]),
        Ok(Command::UpdateRole {
            slug: "admin".to_string(),
            field: RoleField::Permissions,
            value: "all".to_string(),
        })
    );
}

#[test]
fn every_error_of_the_grammar() {
    assert_eq!(parse_command(&vec!["foo", "bar"]), Err(CommandError::Unrecognized));
    assert_eq!(
        parse_command(&vec!["delete", "user", "abc"]),
        Err(CommandError::Parse(ParseError::InvalidDigit))
    );
    assert_eq!(
        parse_command(&vec!["list", "user", ""]),
        Err(CommandError::Parse(ParseError::Empty))
    );
    assert_eq!(
        parse_command(&vec!["assign", "role", "r", "to", "user", "2147483648"]),
        Err(CommandError::Parse(ParseError::OutOfRange))
    );
    assert_eq!(
        parse_command(&vec!["update", "user", "1", "id", "2"]),
        Err(CommandError::Field)
    );
    assert_eq!(
        parse_command(&vec!["update", "role", "r", "slug", "s"]),
        Err(CommandError::Field)
    );
}

#[test]
fn id_is_read_before_the_field() {
    assert_eq!(
        parse_command(&vec!["update", "user", "x", "id", "2"]),
        Err(CommandError::Parse(ParseError::InvalidDigit))
    );
}

#[test]
fn fields_that_may_be_changed() {
    assert_eq!(user_field("name"), Some(UserField::Name));
    assert_eq!(user_field("id"), None);
    assert_eq!(user_field("permissions"), None);
    assert_eq!(user_field("Name"), None);
    assert_eq!(role_field("name"), Some(RoleField::Name));
    assert_eq!(role_field("permissions"), Some(RoleField::Permissions));
    assert_eq!(role_field("slug"), None);
    assert_eq!(role_field(""), None);
}

#[test]
fn every_description() {
    let d = |tokens: Vec<&str>| describe(&tokens);
    assert_eq!(d(vec!["create", "user", "n"]), Some("Creating user with name: n".to_string()));
    assert_eq!(d(vec!["delete", "user", "x"]), Some("Deleting user with ID: x".to_string()));
    assert_eq!(
        d(vec!["update", "user", "1", "f", "v"]),
        Some("Updating field f of user with ID 1: v".to_string())
    );
    assert_eq!(
        d(vec!["assign", "role", "r", "to", "user", "1"]),
        Some("Assigning role r to user with ID 1".to_string())
    );
    assert_eq!(
        d(vec!["unassign", "role", "r", "from", "user", "1"]),
        Some("Unassigning role r from user with ID 1".to_string())
    );
    assert_eq!(d(vec!["list", "roles"]), Some("Listing all roles".to_string()));
    assert_eq!(d(vec!["list", "role", "r"]), Some("Listing role with slug: r".to_string()));
    assert_eq!(d(vec!["list", "users"]), Some("Listing all users".to_string()));
    assert_eq!(d(vec!["list", "user", "1"]), Some("Listing user with ID: 1".to_string()));
    assert_eq!(
        d(vec!["create", "role", "r", "R", "p"]),
        Some("Creating role with slug: r, name: R, permissions: p".to_string())
    );
    assert_eq!(d(vec!["delete", "role", "r"]), Some("Deleting role with slug: r".to_string()));
    assert_eq!(
        d(vec!["update", "role", "r", "f", "v"]),
        Some("Updating field f of role with slug r: v".to_string())
    );
    assert_eq!(d(vec!["foo", "bar"]), None);
}

#[test]
fn every_error_has_its_sentence() {
    assert_eq!(CommandError::Unrecognized.message(), "Invalid command");
    assert_eq!(
        CommandError::Parse(ParseError::Empty).message(),
        "cannot parse integer from empty string"
    );
    assert_eq!(
        CommandError::Parse(ParseError::InvalidDigit).message(),
        "invalid digit found in string"
    );
    assert_eq!(
        CommandError::Parse(ParseError::OutOfRange).message(),
        "number does not fit in 32 bits"
    );
    assert_eq!(CommandError::Field.message(), "this field cannot be updated");
    assert_eq!(CommandError::Store(StoreError::Write).message(), "the store refused the write");
    assert_eq!(CommandError::Store(StoreError::NotFound).message(), "no such row");
    assert_eq!(
        CommandError::Store(StoreError::Connection).message(),
        "the store cannot be reached"
    );
}
