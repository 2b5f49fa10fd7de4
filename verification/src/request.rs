//! The operations of the store as values: what the dispatcher asks of a
//! store, and what a store answers.

use vstd::prelude::*;
use crate::model::{
    role_views, user_views, Role, RoleField, RoleView, StoreError, User, UserField, UserView,
};

verus! {

/// One operation of the store.
#[derive(Debug, PartialEq, Eq)]
#[allow(inconsistent_fields)]
pub enum Request {
    CreateUser { name: String },
    DeleteUser { id: i32 },
    UpdateUser { id: i32, field: UserField, value: String },
    CreateRole { slug: String, name: String, permissions: String },
    DeleteRole { slug: String },
    UpdateRole { slug: String, field: RoleField, value: String },
    AssignRole { user_id: i32, slug: String },
    UnassignRole { user_id: i32, slug: String },
    GetUser { id: i32 },
    ListUsers,
    GetRole { slug: String },
    ListRoles,
    GetUserRoles { user_id: i32 },
}

/// What a [`Request`] holds.
#[allow(inconsistent_fields)]
pub enum RequestView {
    CreateUser { name: Seq<char> },
    DeleteUser { id: int },
    UpdateUser { id: int, field: UserField, value: Seq<char> },
    CreateRole { slug: Seq<char>, name: Seq<char>, permissions: Seq<char> },
    DeleteRole { slug: Seq<char> },
    UpdateRole { slug: Seq<char>, field: RoleField, value: Seq<char> },
    AssignRole { user_id: int, slug: Seq<char> },
    UnassignRole { user_id: int, slug: Seq<char> },
    GetUser { id: int },
    ListUsers,
    GetRole { slug: Seq<char> },
    ListRoles,
    GetUserRoles { user_id: int },
}

impl View for Request {
    type V = RequestView;

    open spec fn view(&self) -> RequestView {
        match self {
            Request::CreateUser { name } => RequestView::CreateUser { name: name@ },
            Request::DeleteUser { id } => RequestView::DeleteUser { id: *id as int },
            Request::UpdateUser { id, field, value } => RequestView::UpdateUser {
                id: *id as int,
                field: *field,
                value: value@,
            },
            Request::CreateRole { slug, name, permissions } => RequestView::CreateRole {
                slug: slug@,
                name: name@,
                permissions: permissions@,
            },
            Request::DeleteRole { slug } => RequestView::DeleteRole { slug: slug@ },
            Request::UpdateRole { slug, field, value } => RequestView::UpdateRole {
                slug: slug@,
                field: *field,
                value: value@,
            },
            Request::AssignRole { user_id, slug } => RequestView::AssignRole {
                user_id: *user_id as int,
                slug: slug@,
            },
            Request::UnassignRole { user_id, slug } => RequestView::UnassignRole {
                user_id: *user_id as int,
                slug: slug@,
            },
            Request::GetUser { id } => RequestView::GetUser { id: *id as int },
            Request::ListUsers => RequestView::ListUsers,
            Request::GetRole { slug } => RequestView::GetRole { slug: slug@ },
            Request::ListRoles => RequestView::ListRoles,
            Request::GetUserRoles { user_id } => RequestView::GetUserRoles {
                user_id: *user_id as int,
            },
        }
    }
}

/// What a store answers to a [`Request`].
#[derive(Debug, PartialEq, Eq)]
pub enum Answer {
    /// The write was made.
    Done,
    /// The user was inserted under this id.
    Created(i32),
    /// The rows of users that were read.
    Users(Vec<User>),
    /// The rows of roles that were read.
    Roles(Vec<Role>),
    /// The operation failed.
    Failed(StoreError),
}

/// What an [`Answer`] holds.
pub enum AnswerView {
    Done,
    Created(int),
    Users(Seq<UserView>),
    Roles(Seq<RoleView>),
    Failed(StoreError),
}

impl View for Answer {
    type V = AnswerView;

    open spec fn view(&self) -> AnswerView {
        match self {
            Answer::Done => AnswerView::Done,
            Answer::Created(id) => AnswerView::Created(*id as int),
            Answer::Users(users) => AnswerView::Users(user_views(users@)),
            Answer::Roles(roles) => AnswerView::Roles(role_views(roles@)),
            Answer::Failed(e) => AnswerView::Failed(*e),
        }
    }
}

} // verus!
