//! The statements by which a relational store serves the requests: for each
//! request the text of the statement and the values bound to its
//! placeholders.
//!
//! No value of a request is ever written into the text of a statement. The
//! one part of a text that varies is the column of an update, and it is
//! drawn from the fields that may be changed.

use vstd::prelude::*;
use vstd::string::*;
use crate::model::{RoleField, UserField};
use crate::request::{Request, RequestView};

verus! {

/// A value bound to a placeholder.
#[derive(Debug, PartialEq, Eq)]
pub enum Param {
    Int(i32),
    Text(String),
}

/// What a [`Param`] holds.
pub enum ParamView {
    Int(int),
    Text(Seq<char>),
}

impl View for Param {
    type V = ParamView;

    open spec fn view(&self) -> ParamView {
        match self {
            Param::Int(n) => ParamView::Int(*n as int),
            Param::Text(s) => ParamView::Text(s@),
        }
    }
}

/// A statement: its text, with a `?` for each value, and the values in the
/// order of their placeholders.
#[derive(Debug, PartialEq, Eq)]
pub struct Statement {
    pub text: String,
    pub params: Vec<Param>,
}

/// What a [`Statement`] holds.
pub struct StatementView {
    pub text: Seq<char>,
    pub params: Seq<ParamView>,
}

impl View for Statement {
    type V = StatementView;

    open spec fn view(&self) -> StatementView {
        StatementView {
            text: self.text@,
            params: Seq::new(self.params@.len(), |i: int| self.params@[i]@),
        }
    }
}

/// The text that creates the three tables where they are missing, and
/// changes nothing where they exist. User ids are handed out in ascending
/// order and never a second time; the keys of the assignments refer to the
/// other two tables.
pub const SCHEMA: &'static str =
    "CREATE TABLE IF NOT EXISTS users (\
        id INTEGER PRIMARY KEY AUTOINCREMENT, \
        name TEXT\
    ); \
    CREATE TABLE IF NOT EXISTS roles (\
        slug TEXT PRIMARY KEY, \
        name TEXT, \
        permissions TEXT\
    ); \
    CREATE TABLE IF NOT EXISTS users_roles (\
        user_id INTEGER REFERENCES users(id), \
        role_slug TEXT REFERENCES roles(slug), \
        PRIMARY KEY (user_id, role_slug)\
    );";

/// Inserts a user under the next id.
pub const INSERT_USER: &'static str = "INSERT INTO users (name) VALUES (?)";

/// Deletes the user with an id.
pub const DELETE_USER: &'static str = "DELETE FROM users WHERE id = ?";

/// What stands before the column in an update of a user.
pub const UPDATE_USER: &'static str = "UPDATE users SET ";

/// What stands after the column in an update of a user.
pub const WHERE_USER: &'static str = " = ? WHERE id = ?";

/// Reads the user with an id.
pub const SELECT_USER: &'static str = "SELECT id, name FROM users WHERE id = ?";

/// Reads every user.
pub const SELECT_USERS: &'static str = "SELECT id, name FROM users";

/// Inserts a role.
pub const INSERT_ROLE: &'static str =
    "INSERT INTO roles (slug, name, permissions) VALUES (?, ?, ?)";

/// Deletes the role with a slug.
pub const DELETE_ROLE: &'static str = "DELETE FROM roles WHERE slug = ?";

/// What stands before the column in an update of a role.
pub const UPDATE_ROLE: &'static str = "UPDATE roles SET ";

/// What stands after the column in an update of a role.
pub const WHERE_ROLE: &'static str = " = ? WHERE slug = ?";

/// Reads the role with a slug.
pub const SELECT_ROLE: &'static str = "SELECT slug, name, permissions FROM roles WHERE slug = ?";

/// Reads every role.
pub const SELECT_ROLES: &'static str = "SELECT slug, name, permissions FROM roles";

/// Assigns a role to a user.
pub const INSERT_GRANT: &'static str =
    "INSERT INTO users_roles (user_id, role_slug) VALUES (?, ?)";

/// Takes a role from a user.
pub const DELETE_GRANT: &'static str =
    "DELETE FROM users_roles WHERE user_id = ? AND role_slug = ?";

/// The text that reads the roles of a user: the roles joined to the
/// assignments by slug.
pub const SELECT_USER_ROLES: &'static str =
    "SELECT roles.slug, roles.name, roles.permissions \
    FROM roles JOIN users_roles ON roles.slug = users_roles.role_slug \
    WHERE users_roles.user_id = ?";

/// The column that holds a field of a user.
pub open spec fn user_column(field: UserField) -> Seq<char> {
    match field {
        UserField::Name => "name"@,
    }
}

/// The column that holds a field of a role.
pub open spec fn role_column(field: RoleField) -> Seq<char> {
    match field {
        RoleField::Name => "name"@,
        RoleField::Permissions => "permissions"@,
    }
}

/// The statement that serves a request.
pub open spec fn statement_of(request: RequestView) -> StatementView {
    match request {
        RequestView::CreateUser { name } => StatementView {
            text: INSERT_USER@,
            params: seq![ParamView::Text(name)],
        },
        RequestView::DeleteUser { id } => StatementView {
            text: DELETE_USER@,
            params: seq![ParamView::Int(id)],
        },
        RequestView::UpdateUser { id, field, value } => StatementView {
            text: UPDATE_USER@ + user_column(field) + WHERE_USER@,
            params: seq![ParamView::Text(value), ParamView::Int(id)],
        },
        RequestView::CreateRole { slug, name, permissions } => StatementView {
            text: INSERT_ROLE@,
            params: seq![
                ParamView::Text(slug),
                ParamView::Text(name),
                ParamView::Text(permissions),
            ],
        },
        RequestView::DeleteRole { slug } => StatementView {
            text: DELETE_ROLE@,
            params: seq![ParamView::Text(slug)],
        },
        RequestView::UpdateRole { slug, field, value } => StatementView {
            text: UPDATE_ROLE@ + role_column(field) + WHERE_ROLE@,
            params: seq![ParamView::Text(value), ParamView::Text(slug)],
        },
        RequestView::AssignRole { user_id, slug } => StatementView {
            text: INSERT_GRANT@,
            params: seq![ParamView::Int(user_id), ParamView::Text(slug)],
        },
        RequestView::UnassignRole { user_id, slug } => StatementView {
            text: DELETE_GRANT@,
            params: seq![ParamView::Int(user_id), ParamView::Text(slug)],
        },
        RequestView::GetUser { id } => StatementView {
            text: SELECT_USER@,
            params: seq![ParamView::Int(id)],
        },
        RequestView::ListUsers => StatementView { text: SELECT_USERS@, params: seq![] },
        RequestView::GetRole { slug } => StatementView {
            text: SELECT_ROLE@,
            params: seq![ParamView::Text(slug)],
        },
        RequestView::ListRoles => StatementView { text: SELECT_ROLES@, params: seq![] },
        RequestView::GetUserRoles { user_id } => StatementView {
            text: SELECT_USER_ROLES@,
            params: seq![ParamView::Int(user_id)],
        },
    }
}

/// Whether two requests are the same operation on the same column,
/// whatever values they carry.
pub open spec fn same_operation(a: RequestView, b: RequestView) -> bool {
    match (a, b) {
        (RequestView::CreateUser { .. }, RequestView::CreateUser { .. }) => true,
        (RequestView::DeleteUser { .. }, RequestView::DeleteUser { .. }) => true,
        (
            RequestView::UpdateUser { field: one, .. },
            RequestView::UpdateUser { field: other, .. },
        ) => one == other,
        (RequestView::CreateRole { .. }, RequestView::CreateRole { .. }) => true,
        (RequestView::DeleteRole { .. }, RequestView::DeleteRole { .. }) => true,
        (
            RequestView::UpdateRole { field: one, .. },
            RequestView::UpdateRole { field: other, .. },
        ) => one == other,
        (RequestView::AssignRole { .. }, RequestView::AssignRole { .. }) => true,
        (RequestView::UnassignRole { .. }, RequestView::UnassignRole { .. }) => true,
        (RequestView::GetUser { .. }, RequestView::GetUser { .. }) => true,
        (RequestView::ListUsers, RequestView::ListUsers) => true,
        (RequestView::GetRole { .. }, RequestView::GetRole { .. }) => true,
        (RequestView::ListRoles, RequestView::ListRoles) => true,
        (RequestView::GetUserRoles { .. }, RequestView::GetUserRoles { .. }) => true,
        _ => false,
    }
}

/// The text of a statement is fixed by the operation: names, slugs, values
/// and ids reach the store as bound values only.
pub proof fn law_values_stay_out_of_text(a: RequestView, b: RequestView)
    requires
        same_operation(a, b),
    ensures
        statement_of(a).text == statement_of(b).text,
        statement_of(a).params.len() == statement_of(b).params.len(),
{
}

/// A statement with this text and no value yet.
fn open_statement(text: &str) -> (statement: Statement)
    ensures
        statement@ == (StatementView { text: text@, params: seq![] }),
{
    let statement = Statement { text: text.to_owned(), params: Vec::new() };
    assert(statement@.params =~= seq![]);
    statement
}

/// Binds one more value.
fn bind(statement: Statement, param: Param) -> (bound: Statement)
    ensures
        bound@ == (StatementView {
            text: statement@.text,
            params: statement@.params.push(param@),
        }),
{
    let Statement { text, mut params } = statement;
    params.push(param);
    let bound = Statement { text, params };
    assert(bound@.params =~= statement@.params.push(param@));
    bound
}

/// The statement that creates the tables.
pub fn schema() -> (statement: Statement)
    ensures
        statement@ == (StatementView { text: SCHEMA@, params: seq![] }),
{
    open_statement(SCHEMA)
}

/// Writes the statement that serves a request.
pub fn statement(request: &Request) -> (statement: Statement)
    ensures
        statement@ == statement_of(request@),
{
    match request {
        Request::CreateUser { name } => {
            let s = open_statement(INSERT_USER);
            let s = bind(s, Param::Text(name.clone()));
            assert(s@.params =~= seq![ParamView::Text(name@)]);
            s
        },
        Request::DeleteUser { id } => {
            let s = open_statement(DELETE_USER);
            let s = bind(s, Param::Int(*id));
            assert(s@.params =~= seq![ParamView::Int(*id as int)]);
            s
        },
        Request::UpdateUser { id, field, value } => {
            let mut text = String::from_str(UPDATE_USER);
            match field {
                UserField::Name => {
                    text.append("name");
                },
            }
            text.append(WHERE_USER);
            let s = Statement { text, params: Vec::new() };
            let s = bind(s, Param::Text(value.clone()));
            let s = bind(s, Param::Int(*id));
            assert(s@.params =~= seq![ParamView::Text(value@), ParamView::Int(*id as int)]);
            s
        },
        Request::CreateRole { slug, name, permissions } => {
            let s = open_statement(INSERT_ROLE);
            let s = bind(s, Param::Text(slug.clone()));
            let s = bind(s, Param::Text(name.clone()));
            let s = bind(s, Param::Text(permissions.clone()));
            assert(s@.params =~= seq![
                ParamView::Text(slug@),
                ParamView::Text(name@),
                ParamView::Text(permissions@),
            ]);
            s
        },
        Request::DeleteRole { slug } => {
            let s = open_statement(DELETE_ROLE);
            let s = bind(s, Param::Text(slug.clone()));
            assert(s@.params =~= seq![ParamView::Text(slug@)]);
            s
        },
        Request::UpdateRole { slug, field, value } => {
            let mut text = String::from_str(UPDATE_ROLE);
            match field {
                RoleField::Name => {
                    text.append("name");
                },
                RoleField::Permissions => {
                    text.append("permissions");
                },
            }
            text.append(WHERE_ROLE);
            let s = Statement { text, params: Vec::new() };
            let s = bind(s, Param::Text(value.clone()));
            let s = bind(s, Param::Text(slug.clone()));
            assert(s@.params =~= seq![ParamView::Text(value@), ParamView::Text(slug@)]);
            s
        },
        Request::AssignRole { user_id, slug } => {
            let s = open_statement(INSERT_GRANT);
            let s = bind(s, Param::Int(*user_id));
            let s = bind(s, Param::Text(slug.clone()));
            assert(s@.params =~= seq![ParamView::Int(*user_id as int), ParamView::Text(slug@)]);
            s
        },
        Request::UnassignRole { user_id, slug } => {
            let s = open_statement(DELETE_GRANT);
            let s = bind(s, Param::Int(*user_id));
            let s = bind(s, Param::Text(slug.clone()));
            assert(s@.params =~= seq![ParamView::Int(*user_id as int), ParamView::Text(slug@)]);
            s
        },
        Request::GetUser { id } => {
            let s = open_statement(SELECT_USER);
            let s = bind(s, Param::Int(*id));
            assert(s@.params =~= seq![ParamView::Int(*id as int)]);
            s
        },
        Request::ListUsers => open_statement(SELECT_USERS),
        Request::GetRole { slug } => {
            let s = open_statement(SELECT_ROLE);
            let s = bind(s, Param::Text(slug.clone()));
            assert(s@.params =~= seq![ParamView::Text(slug@)]);
            s
        },
        Request::ListRoles => open_statement(SELECT_ROLES),
        Request::GetUserRoles { user_id } => {
            let s = open_statement(SELECT_USER_ROLES);
            let s = bind(s, Param::Int(*user_id));
            assert(s@.params =~= seq![ParamView::Int(*user_id as int)]);
            s
        },
    }
}

} // verus!
