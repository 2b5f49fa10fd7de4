//! The records that the manager keeps, and the ways in which the store can
//! fail.

use vstd::prelude::*;
use vstd::string::*;

verus! {

/// A user: a number that the store assigns, and a name.
#[derive(Debug, PartialEq, Eq)]
pub struct User {
    pub id: i32,
    pub name: String,
}

/// A role: a slug chosen by the operator, which identifies it, a name and a
/// free-form list of permissions.
#[derive(Debug, PartialEq, Eq)]
pub struct Role {
    pub slug: String,
    pub name: String,
    pub permissions: String,
}

/// What a [`User`] holds.
pub struct UserView {
    pub id: int,
    pub name: Seq<char>,
}

/// What a [`Role`] holds.
pub struct RoleView {
    pub slug: Seq<char>,
    pub name: Seq<char>,
    pub permissions: Seq<char>,
}

impl View for User {
    type V = UserView;

    open spec fn view(&self) -> UserView {
        UserView { id: self.id as int, name: self.name@ }
    }
}

impl View for Role {
    type V = RoleView;

    open spec fn view(&self) -> RoleView {
        RoleView { slug: self.slug@, name: self.name@, permissions: self.permissions@ }
    }
}

/// The users of a list, as mathematical values.
pub open spec fn user_views(users: Seq<User>) -> Seq<UserView> {
    Seq::new(users.len(), |i: int| users[i]@)
}

/// The roles of a list, as mathematical values.
pub open spec fn role_views(roles: Seq<Role>) -> Seq<RoleView> {
    Seq::new(roles.len(), |i: int| roles[i]@)
}

impl Clone for User {
    fn clone(&self) -> (copy: Self)
        ensures
            copy@ == self@,
    {
        User { id: self.id, name: self.name.clone() }
    }
}

impl Clone for Role {
    fn clone(&self) -> (copy: Self)
        ensures
            copy@ == self@,
    {
        Role {
            slug: self.slug.clone(),
            name: self.name.clone(),
            permissions: self.permissions.clone(),
        }
    }
}

/// The line that shows a role among the roles of a user.
pub open spec fn role_line(role: RoleView) -> Seq<char> {
    "Role: slug="@ + role.slug + ", name="@ + role.name + ", permissions="@ + role.permissions
}

impl Role {
    /// Writes the line that shows this role among the roles of a user.
    pub fn line(&self) -> (line: String)
        ensures
            line@ == role_line(self@),
    {
        let mut line = String::from_str("Role: slug=");
        line.append(self.slug.as_str());
        line.append(", name=");
        line.append(self.name.as_str());
        line.append(", permissions=");
        line.append(self.permissions.as_str());
        line
    }
}

/// The field of a user that a command may change.
#[derive(Clone, Copy, Debug, PartialEq, Eq, Structural)]
pub enum UserField {
    Name,
}

/// The fields of a role that a command may change. The slug is not among
/// them: it is the key by which assignments refer to the role.
#[derive(Clone, Copy, Debug, PartialEq, Eq, Structural)]
pub enum RoleField {
    Name,
    Permissions,
}

/// How an operation of the store fails.
#[derive(Clone, Copy, Debug, PartialEq, Eq, Structural)]
pub enum StoreError {
    /// A constraint was violated: a key that exists already, a reference to
    /// a row that does not exist, or a row that is still referred to.
    Write,
    /// A lookup by key found no row.
    NotFound,
    /// The store could not be reached, or did not answer what it was asked.
    Connection,
}

} // verus!
