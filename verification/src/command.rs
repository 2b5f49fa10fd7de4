//! The command grammar: which token sequences are commands, what each one
//! asks for, and how it is described to the operator.

use vstd::prelude::*;
use vstd::string::*;
use crate::model::{RoleField, StoreError, UserField};
use crate::text::{parse_i32, parse_i32_spec, text_eq, texts, ParseError};

verus! {

/// The twelve command shapes. A shape fixes the number of tokens and the
/// keywords among them; the other tokens are arguments.
#[derive(Clone, Copy, Debug, PartialEq, Eq, Structural)]
pub enum Shape {
    /// `create user <name>`
    CreateUser,
    /// `delete user <id>`
    DeleteUser,
    /// `update user <id> <field> <value>`
    UpdateUser,
    /// `assign role <slug> to user <id>`
    AssignRole,
    /// `unassign role <slug> from user <id>`
    UnassignRole,
    /// `list roles`
    ListRoles,
    /// `list role <slug>`
    ListRole,
    /// `list users`
    ListUsers,
    /// `list user <id>`
    ListUser,
    /// `create role <slug> <name> <permissions>`
    CreateRole,
    /// `delete role <slug>`
    DeleteRole,
    /// `update role <slug> <field> <value>`
    UpdateRole,
}

/// Why a token sequence was not carried out.
#[derive(Clone, Copy, Debug, PartialEq, Eq, Structural)]
pub enum CommandError {
    /// The tokens have none of the twelve shapes.
    Unrecognized,
    /// The token in the place of a user id is not an integer.
    Parse(ParseError),
    /// The token in the place of a field names no field that may be changed.
    Field,
    /// The store refused or failed the operation.
    Store(StoreError),
}

/// The sentence that tells the operator why a command failed.
pub open spec fn error_text(error: CommandError) -> Seq<char> {
    match error {
        CommandError::Unrecognized => "Invalid command"@,
        CommandError::Parse(ParseError::Empty) => "cannot parse integer from empty string"@,
        CommandError::Parse(ParseError::InvalidDigit) => "invalid digit found in string"@,
        CommandError::Parse(ParseError::OutOfRange) => "number does not fit in 32 bits"@,
        CommandError::Field => "this field cannot be updated"@,
        CommandError::Store(StoreError::Write) => "the store refused the write"@,
        CommandError::Store(StoreError::NotFound) => "no such row"@,
        CommandError::Store(StoreError::Connection) => "the store cannot be reached"@,
    }
}

impl CommandError {
    /// Writes the sentence that tells the operator why a command failed.
    pub fn message(&self) -> (text: String)
        ensures
            text@ == error_text(*self),
    {
        match self {
            CommandError::Unrecognized => String::from_str("Invalid command"),
            CommandError::Parse(ParseError::Empty) => String::from_str(
                "cannot parse integer from empty string",
            ),
            CommandError::Parse(ParseError::InvalidDigit) => String::from_str(
                "invalid digit found in string",
            ),
            CommandError::Parse(ParseError::OutOfRange) => String::from_str(
                "number does not fit in 32 bits",
            ),
            CommandError::Field => String::from_str("this field cannot be updated"),
            CommandError::Store(StoreError::Write) => String::from_str(
                "the store refused the write",
            ),
            CommandError::Store(StoreError::NotFound) => String::from_str("no such row"),
            CommandError::Store(StoreError::Connection) => String::from_str(
                "the store cannot be reached",
            ),
        }
    }
}

/// A command with its arguments read.
#[derive(Debug, PartialEq, Eq)]
#[allow(inconsistent_fields)]
pub enum Command {
    CreateUser { name: String },
    DeleteUser { id: i32 },
    UpdateUser { id: i32, field: UserField, value: String },
    AssignRole { slug: String, user_id: i32 },
    UnassignRole { slug: String, user_id: i32 },
    ListRoles,
    ListRole { slug: String },
    ListUsers,
    ListUser { id: i32 },
    CreateRole { slug: String, name: String, permissions: String },
    DeleteRole { slug: String },
    UpdateRole { slug: String, field: RoleField, value: String },
}

/// What a [`Command`] holds.
#[allow(inconsistent_fields)]
pub enum CommandView {
    CreateUser { name: Seq<char> },
    DeleteUser { id: int },
    UpdateUser { id: int, field: UserField, value: Seq<char> },
    AssignRole { slug: Seq<char>, user_id: int },
    UnassignRole { slug: Seq<char>, user_id: int },
    ListRoles,
    ListRole { slug: Seq<char> },
    ListUsers,
    ListUser { id: int },
    CreateRole { slug: Seq<char>, name: Seq<char>, permissions: Seq<char> },
    DeleteRole { slug: Seq<char> },
    UpdateRole { slug: Seq<char>, field: RoleField, value: Seq<char> },
}

impl View for Command {
    type V = CommandView;

    open spec fn view(&self) -> CommandView {
        match self {
            Command::CreateUser { name } => CommandView::CreateUser { name: name@ },
            Command::DeleteUser { id } => CommandView::DeleteUser { id: *id as int },
            Command::UpdateUser { id, field, value } => CommandView::UpdateUser {
                id: *id as int,
                field: *field,
                value: value@,
            },
            Command::AssignRole { slug, user_id } => CommandView::AssignRole {
                slug: slug@,
                user_id: *user_id as int,
            },
            Command::UnassignRole { slug, user_id } => CommandView::UnassignRole {
                slug: slug@,
                user_id: *user_id as int,
            },
            Command::ListRoles => CommandView::ListRoles,
            Command::ListRole { slug } => CommandView::ListRole { slug: slug@ },
            Command::ListUsers => CommandView::ListUsers,
            Command::ListUser { id } => CommandView::ListUser { id: *id as int },
            Command::CreateRole { slug, name, permissions } => CommandView::CreateRole {
                slug: slug@,
                name: name@,
                permissions: permissions@,
            },
            Command::DeleteRole { slug } => CommandView::DeleteRole { slug: slug@ },
            Command::UpdateRole { slug, field, value } => CommandView::UpdateRole {
                slug: slug@,
                field: *field,
                value: value@,
            },
        }
    }
}

/// Whether a token sequence has a shape: the number of tokens is the
/// shape's own, and the keywords stand where the shape has them, letter for
/// letter.
pub open spec fn has_shape(t: Seq<Seq<char>>, shape: Shape) -> bool {
    match shape {
        Shape::CreateUser => t.len() == 3 && t[0] == "create"@ && t[1] == "user"@,
        Shape::DeleteUser => t.len() == 3 && t[0] == "delete"@ && t[1] == "user"@,
        Shape::UpdateUser => t.len() == 5 && t[0] == "update"@ && t[1] == "user"@,
        Shape::AssignRole => t.len() == 6 && t[0] == "assign"@ && t[1] == "role"@ && t[3]
            == "to"@ && t[4] == "user"@,
        Shape::UnassignRole => t.len() == 6 && t[0] == "unassign"@ && t[1] == "role"@ && t[3]
            == "from"@ && t[4] == "user"@,
        Shape::ListRoles => t.len() == 2 && t[0] == "list"@ && t[1] == "roles"@,
        Shape::ListRole => t.len() == 3 && t[0] == "list"@ && t[1] == "role"@,
        Shape::ListUsers => t.len() == 2 && t[0] == "list"@ && t[1] == "users"@,
        Shape::ListUser => t.len() == 3 && t[0] == "list"@ && t[1] == "user"@,
        Shape::CreateRole => t.len() == 5 && t[0] == "create"@ && t[1] == "role"@,
        Shape::DeleteRole => t.len() == 3 && t[0] == "delete"@ && t[1] == "role"@,
        Shape::UpdateRole => t.len() == 5 && t[0] == "update"@ && t[1] == "role"@,
    }
}

/// The shape of a token sequence, if it has one.
pub open spec fn shape_of(t: Seq<Seq<char>>) -> Option<Shape> {
    if has_shape(t, Shape::CreateUser) {
        Some(Shape::CreateUser)
    } else if has_shape(t, Shape::DeleteUser) {
        Some(Shape::DeleteUser)
    } else if has_shape(t, Shape::UpdateUser) {
        Some(Shape::UpdateUser)
    } else if has_shape(t, Shape::AssignRole) {
        Some(Shape::AssignRole)
    } else if has_shape(t, Shape::UnassignRole) {
        Some(Shape::UnassignRole)
    } else if has_shape(t, Shape::ListRoles) {
        Some(Shape::ListRoles)
    } else if has_shape(t, Shape::ListRole) {
        Some(Shape::ListRole)
    } else if has_shape(t, Shape::ListUsers) {
        Some(Shape::ListUsers)
    } else if has_shape(t, Shape::ListUser) {
        Some(Shape::ListUser)
    } else if has_shape(t, Shape::CreateRole) {
        Some(Shape::CreateRole)
    } else if has_shape(t, Shape::DeleteRole) {
        Some(Shape::DeleteRole)
    } else if has_shape(t, Shape::UpdateRole) {
        Some(Shape::UpdateRole)
    } else {
        None
    }
}

/// The keywords differ from one another, so no token sequence has two
/// shapes: the shape that [`shape_of`] finds is the only one.
pub proof fn law_shapes_do_not_overlap(t: Seq<Seq<char>>, shape: Shape)
    ensures
        has_shape(t, shape) <==> shape_of(t) == Some(shape),
{
    reveal_strlit("create");
    reveal_strlit("delete");
    reveal_strlit("update");
    reveal_strlit("assign");
    reveal_strlit("unassign");
    reveal_strlit("list");
    reveal_strlit("user");
    reveal_strlit("users");
    reveal_strlit("role");
    reveal_strlit("roles");
    assert("create"@[0] == 'c' && "delete"@[0] == 'd' && "update"@[0] == 'u');
    assert("assign"@.len() == 6 && "unassign"@.len() == 8);
    assert("user"@[0] == 'u' && "role"@[0] == 'r');
    assert("users"@[0] == 'u' && "roles"@[0] == 'r');
}

/// The field of a user that a token names.
pub open spec fn user_field_of(token: Seq<char>) -> Option<UserField> {
    if token == "name"@ {
        Some(UserField::Name)
    } else {
        None
    }
}

/// The field of a role that a token names.
pub open spec fn role_field_of(token: Seq<char>) -> Option<RoleField> {
    if token == "name"@ {
        Some(RoleField::Name)
    } else if token == "permissions"@ {
        Some(RoleField::Permissions)
    } else {
        None
    }
}

/// The command that a token sequence denotes. A sequence without a shape is
/// unrecognized. In a sequence with a shape the user id is read first, then
/// the field name.
pub open spec fn command_of(t: Seq<Seq<char>>) -> Result<CommandView, CommandError> {
    match shape_of(t) {
        None => Err(CommandError::Unrecognized),
        Some(Shape::CreateUser) => Ok(CommandView::CreateUser { name: t[2] }),
        Some(Shape::DeleteUser) => match parse_i32_spec(t[2]) {
            Err(e) => Err(CommandError::Parse(e)),
            Ok(id) => Ok(CommandView::DeleteUser { id: id as int }),
        },
        Some(Shape::UpdateUser) => match parse_i32_spec(t[2]) {
            Err(e) => Err(CommandError::Parse(e)),
            Ok(id) => match user_field_of(t[3]) {
                None => Err(CommandError::Field),
                Some(field) => Ok(CommandView::UpdateUser { id: id as int, field, value: t[4] }),
            },
        },
        Some(Shape::AssignRole) => match parse_i32_spec(t[5]) {
            Err(e) => Err(CommandError::Parse(e)),
            Ok(id) => Ok(CommandView::AssignRole { slug: t[2], user_id: id as int }),
        },
        Some(Shape::UnassignRole) => match parse_i32_spec(t[5]) {
            Err(e) => Err(CommandError::Parse(e)),
            Ok(id) => Ok(CommandView::UnassignRole { slug: t[2], user_id: id as int }),
        },
        Some(Shape::ListRoles) => Ok(CommandView::ListRoles),
        Some(Shape::ListRole) => Ok(CommandView::ListRole { slug: t[2] }),
        Some(Shape::ListUsers) => Ok(CommandView::ListUsers),
        Some(Shape::ListUser) => match parse_i32_spec(t[2]) {
            Err(e) => Err(CommandError::Parse(e)),
            Ok(id) => Ok(CommandView::ListUser { id: id as int }),
        },
        Some(Shape::CreateRole) => Ok(
            CommandView::CreateRole { slug: t[2], name: t[3], permissions: t[4] },
        ),
        Some(Shape::DeleteRole) => Ok(CommandView::DeleteRole { slug: t[2] }),
        Some(Shape::UpdateRole) => match role_field_of(t[3]) {
            None => Err(CommandError::Field),
            Some(field) => Ok(CommandView::UpdateRole { slug: t[2], field, value: t[4] }),
        },
    }
}

/// Finds the shape of a token sequence.
pub fn shape(tokens: &Vec<&str>) -> (found: Option<Shape>)
    ensures
        found == shape_of(texts(tokens@)),
{
    let n = tokens.len();
    if n == 2 {
        if text_eq(tokens[0], "list") && text_eq(tokens[1], "roles") {
            Some(Shape::ListRoles)
        } else if text_eq(tokens[0], "list") && text_eq(tokens[1], "users") {
            Some(Shape::ListUsers)
        } else {
            None
        }
    } else if n == 3 {
        if text_eq(tokens[0], "create") && text_eq(tokens[1], "user") {
            Some(Shape::CreateUser)
        } else if text_eq(tokens[0], "delete") && text_eq(tokens[1], "user") {
            Some(Shape::DeleteUser)
        } else if text_eq(tokens[0], "list") && text_eq(tokens[1], "role") {
            Some(Shape::ListRole)
        } else if text_eq(tokens[0], "list") && text_eq(tokens[1], "user") {
            Some(Shape::ListUser)
        } else if text_eq(tokens[0], "delete") && text_eq(tokens[1], "role") {
            Some(Shape::DeleteRole)
        } else {
            None
        }
    } else if n == 5 {
        if text_eq(tokens[0], "update") && text_eq(tokens[1], "user") {
            Some(Shape::UpdateUser)
        } else if text_eq(tokens[0], "create") && text_eq(tokens[1], "role") {
            Some(Shape::CreateRole)
        } else if text_eq(tokens[0], "update") && text_eq(tokens[1], "role") {
            Some(Shape::UpdateRole)
        } else {
            None
        }
    } else if n == 6 {
        if text_eq(tokens[0], "assign") && text_eq(tokens[1], "role") && text_eq(tokens[3], "to")
            && text_eq(tokens[4], "user") {
            Some(Shape::AssignRole)
        } else if text_eq(tokens[0], "unassign") && text_eq(tokens[1], "role") && text_eq(
            tokens[3],
            "from",
        ) && text_eq(tokens[4], "user") {
            Some(Shape::UnassignRole)
        } else {
            None
        }
    } else {
        None
    }
}

/// Reads the user field that a token names.
pub fn user_field(token: &str) -> (field: Option<UserField>)
    ensures
        field == user_field_of(token@),
{
    if text_eq(token, "name") {
        Some(UserField::Name)
    } else {
        None
    }
}

/// Reads the role field that a token names.
pub fn role_field(token: &str) -> (field: Option<RoleField>)
    ensures
        field == role_field_of(token@),
{
    if text_eq(token, "name") {
        Some(RoleField::Name)
    } else if text_eq(token, "permissions") {
        Some(RoleField::Permissions)
    } else {
        None
    }
}

/// Reads a token sequence as a command.
///
/// A field name outside the fixed lists is refused here, so that no store
/// ever sees one.
pub fn parse_command(tokens: &Vec<&str>) -> (parsed: Result<Command, CommandError>)
    ensures
        match parsed {
            Ok(command) => command_of(texts(tokens@)) == Ok::<CommandView, CommandError>(command@),
            Err(e) => command_of(texts(tokens@)) == Err::<CommandView, CommandError>(e),
        },
{
    match shape(tokens) {
        None => Err(CommandError::Unrecognized),
        Some(Shape::CreateUser) => Ok(Command::CreateUser { name: tokens[2].to_owned() }),
        Some(Shape::DeleteUser) => match parse_i32(tokens[2]) {
            Err(e) => Err(CommandError::Parse(e)),
            Ok(id) => Ok(Command::DeleteUser { id }),
        },
        Some(Shape::UpdateUser) => match parse_i32(tokens[2]) {
            Err(e) => Err(CommandError::Parse(e)),
            Ok(id) => match user_field(tokens[3]) {
                None => Err(CommandError::Field),
                Some(field) => Ok(
                    Command::UpdateUser { id, field, value: tokens[4].to_owned() },
                ),
            },
        },
        Some(Shape::AssignRole) => match parse_i32(tokens[5]) {
            Err(e) => Err(CommandError::Parse(e)),
            Ok(user_id) => Ok(Command::AssignRole { slug: tokens[2].to_owned(), user_id }),
        },
        Some(Shape::UnassignRole) => match parse_i32(tokens[5]) {
            Err(e) => Err(CommandError::Parse(e)),
            Ok(user_id) => Ok(Command::UnassignRole { slug: tokens[2].to_owned(), user_id }),
        },
        Some(Shape::ListRoles) => Ok(Command::ListRoles),
        Some(Shape::ListRole) => Ok(Command::ListRole { slug: tokens[2].to_owned() }),
        Some(Shape::ListUsers) => Ok(Command::ListUsers),
        Some(Shape::ListUser) => match parse_i32(tokens[2]) {
            Err(e) => Err(CommandError::Parse(e)),
            Ok(id) => Ok(Command::ListUser { id }),
        },
        Some(Shape::CreateRole) => Ok(
            Command::CreateRole {
                slug: tokens[2].to_owned(),
                name: tokens[3].to_owned(),
                permissions: tokens[4].to_owned(),
            },
        ),
        Some(Shape::DeleteRole) => Ok(Command::DeleteRole { slug: tokens[2].to_owned() }),
        Some(Shape::UpdateRole) => match role_field(tokens[3]) {
            None => Err(CommandError::Field),
            Some(field) => Ok(
                Command::UpdateRole { slug: tokens[2].to_owned(), field, value: tokens[4].to_owned() },
            ),
        },
    }
}

/// The sentence that tells the operator what a token sequence asks for. It
/// quotes the argument tokens as they were typed.
pub open spec fn description_of(t: Seq<Seq<char>>) -> Option<Seq<char>> {
    match shape_of(t) {
        None => None,
        Some(Shape::CreateUser) => Some("Creating user with name: "@ + t[2]),
        Some(Shape::DeleteUser) => Some("Deleting user with ID: "@ + t[2]),
        Some(Shape::UpdateUser) => Some(
            "Updating field "@ + t[3] + " of user with ID "@ + t[2] + ": "@ + t[4],
        ),
        Some(Shape::AssignRole) => Some(
            "Assigning role "@ + t[2] + " to user with ID "@ + t[5],
        ),
        Some(Shape::UnassignRole) => Some(
            "Unassigning role "@ + t[2] + " from user with ID "@ + t[5],
        ),
        Some(Shape::ListRoles) => Some("Listing all roles"@),
        Some(Shape::ListRole) => Some("Listing role with slug: "@ + t[2]),
        Some(Shape::ListUsers) => Some("Listing all users"@),
        Some(Shape::ListUser) => Some("Listing user with ID: "@ + t[2]),
        Some(Shape::CreateRole) => Some(
            "Creating role with slug: "@ + t[2] + ", name: "@ + t[3] + ", permissions: "@ + t[4],
        ),
        Some(Shape::DeleteRole) => Some("Deleting role with slug: "@ + t[2]),
        Some(Shape::UpdateRole) => Some(
            "Updating field "@ + t[3] + " of role with slug "@ + t[2] + ": "@ + t[4],
        ),
    }
}

/// Writes the sentence that describes a token sequence, if it has a shape.
pub fn describe(tokens: &Vec<&str>) -> (sentence: Option<String>)
    ensures
        match sentence {
            Some(s) => description_of(texts(tokens@)) == Some(s@),
            None => description_of(texts(tokens@)) == None::<Seq<char>>,
        },
{
    match shape(tokens) {
        None => None,
        Some(Shape::CreateUser) => {
            let mut s = String::from_str("Creating user with name: ");
            s.append(tokens[2]);
            Some(s)
        },
        Some(Shape::DeleteUser) => {
            let mut s = String::from_str("Deleting user with ID: ");
            s.append(tokens[2]);
            Some(s)
        },
        Some(Shape::UpdateUser) => {
            let mut s = String::from_str("Updating field ");
            s.append(tokens[3]);
            s.append(" of user with ID ");
            s.append(tokens[2]);
            s.append(": ");
            s.append(tokens[4]);
            Some(s)
        },
        Some(Shape::AssignRole) => {
            let mut s = String::from_str("Assigning role ");
            s.append(tokens[2]);
            s.append(" to user with ID ");
            s.append(tokens[5]);
            Some(s)
        },
        Some(Shape::UnassignRole) => {
            let mut s = String::from_str("Unassigning role ");
            s.append(tokens[2]);
            s.append(" from user with ID ");
            s.append(tokens[5]);
            Some(s)
        },
        Some(Shape::ListRoles) => Some(String::from_str("Listing all roles")),
        Some(Shape::ListRole) => {
            let mut s = String::from_str("Listing role with slug: ");
            s.append(tokens[2]);
            Some(s)
        },
        Some(Shape::ListUsers) => Some(String::from_str("Listing all users")),
        Some(Shape::ListUser) => {
            let mut s = String::from_str("Listing user with ID: ");
            s.append(tokens[2]);
            Some(s)
        },
        Some(Shape::CreateRole) => {
            let mut s = String::from_str("Creating role with slug: ");
            s.append(tokens[2]);
            s.append(", name: ");
            s.append(tokens[3]);
            s.append(", permissions: ");
            s.append(tokens[4]);
            Some(s)
        },
        Some(Shape::DeleteRole) => {
            let mut s = String::from_str("Deleting role with slug: ");
            s.append(tokens[2]);
            Some(s)
        },
        Some(Shape::UpdateRole) => {
            let mut s = String::from_str("Updating field ");
            s.append(tokens[3]);
            s.append(" of role with slug ");
            s.append(tokens[2]);
            s.append(": ");
            s.append(tokens[4]);
            Some(s)
        },
    }
}

} // verus!
