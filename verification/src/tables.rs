//! The three tables as mathematical values, and what each operation of the
//! store does to them.
//!
//! References between the tables are kept by restriction: an assignment can
//! only be made between a user and a role that exist, and neither can be
//! deleted while an assignment still refers to it. Nothing is deleted in
//! cascade.

use vstd::prelude::*;
use crate::model::{RoleField, RoleView, StoreError, UserField, UserView};
use crate::request::{AnswerView, RequestView};

verus! {

/// One assignment: the user with this id holds the role with this slug.
pub struct GrantView {
    pub user_id: int,
    pub role_slug: Seq<char>,
}

/// The state of the store. Rows stand in the order in which they were
/// inserted.
pub struct Tables {
    pub users: Seq<UserView>,
    pub roles: Seq<RoleView>,
    pub grants: Seq<GrantView>,
    /// The highest user id handed out so far. Ids are handed out in
    /// ascending order from 1, and never again after a deletion.
    pub issued: int,
}

/// Holds of every user but the one with this id.
pub open spec fn other_user(id: int) -> spec_fn(UserView) -> bool {
    |u: UserView| u.id != id
}

/// Holds of every role but the one with this slug.
pub open spec fn other_role(slug: Seq<char>) -> spec_fn(RoleView) -> bool {
    |r: RoleView| r.slug != slug
}

/// Holds of every assignment but the one of this role to this user.
pub open spec fn other_grant(id: int, slug: Seq<char>) -> spec_fn(GrantView) -> bool {
    |g: GrantView| g != (GrantView { user_id: id, role_slug: slug })
}

/// The users but the one with this id.
pub open spec fn users_without(users: Seq<UserView>, id: int) -> Seq<UserView> {
    users.filter(other_user(id))
}

/// The roles but the one with this slug.
pub open spec fn roles_without(roles: Seq<RoleView>, slug: Seq<char>) -> Seq<RoleView> {
    roles.filter(other_role(slug))
}

/// The assignments but the one of this role to this user.
pub open spec fn grants_without(grants: Seq<GrantView>, id: int, slug: Seq<char>) -> Seq<
    GrantView,
> {
    grants.filter(other_grant(id, slug))
}

/// A user after a change of one field.
pub open spec fn user_with(user: UserView, field: UserField, value: Seq<char>) -> UserView {
    match field {
        UserField::Name => UserView { name: value, ..user },
    }
}

/// A role after a change of one field.
pub open spec fn role_with(role: RoleView, field: RoleField, value: Seq<char>) -> RoleView {
    match field {
        RoleField::Name => RoleView { name: value, ..role },
        RoleField::Permissions => RoleView { permissions: value, ..role },
    }
}

impl Tables {
    /// The store with no row in it.
    pub open spec fn empty() -> Tables {
        Tables { users: Seq::empty(), roles: Seq::empty(), grants: Seq::empty(), issued: 0 }
    }

    /// Whether a user has this id.
    pub open spec fn has_user(self, id: int) -> bool {
        exists|i: int| 0 <= i < self.users.len() && (#[trigger] self.users[i]).id == id
    }

    /// Whether a role has this slug.
    pub open spec fn has_role(self, slug: Seq<char>) -> bool {
        exists|i: int| 0 <= i < self.roles.len() && (#[trigger] self.roles[i]).slug == slug
    }

    /// Whether this user holds this role.
    pub open spec fn has_grant(self, id: int, slug: Seq<char>) -> bool {
        exists|i: int|
            0 <= i < self.grants.len() && (#[trigger] self.grants[i]).user_id == id
                && self.grants[i].role_slug == slug
    }

    /// Whether some assignment refers to this user.
    pub open spec fn user_in_use(self, id: int) -> bool {
        exists|i: int| 0 <= i < self.grants.len() && (#[trigger] self.grants[i]).user_id == id
    }

    /// Whether some assignment refers to this role.
    pub open spec fn role_in_use(self, slug: Seq<char>) -> bool {
        exists|i: int| 0 <= i < self.grants.len() && (#[trigger] self.grants[i]).role_slug == slug
    }

    /// What the store keeps true of itself: keys are unique, user ids lie
    /// between 1 and the highest id handed out, and every assignment joins
    /// a user and a role that exist.
    pub open spec fn wf(self) -> bool {
        &&& 0 <= self.issued <= i32::MAX
        &&& forall|i: int|
            0 <= i < self.users.len() ==> 1 <= (#[trigger] self.users[i]).id <= self.issued
        &&& forall|i: int, j: int|
            0 <= i < j < self.users.len() ==> (#[trigger] self.users[i]).id != (
            #[trigger] self.users[j]).id
        &&& forall|i: int, j: int|
            0 <= i < j < self.roles.len() ==> (#[trigger] self.roles[i]).slug != (
            #[trigger] self.roles[j]).slug
        &&& forall|i: int, j: int|
            0 <= i < j < self.grants.len() ==> (#[trigger] self.grants[i]) != (
            #[trigger] self.grants[j])
        &&& forall|i: int|
            0 <= i < self.grants.len() ==> self.has_user((#[trigger] self.grants[i]).user_id)
                && self.has_role(self.grants[i].role_slug)
    }

    /// Inserts a user under the next id. Fails only when the ids of 32 bits
    /// are used up.
    pub open spec fn create_user(self, name: Seq<char>) -> Result<Tables, StoreError> {
        if self.issued >= i32::MAX {
            Err(StoreError::Write)
        } else {
            Ok(
                Tables {
                    users: self.users.push(UserView { id: self.issued + 1, name }),
                    issued: self.issued + 1,
                    ..self
                },
            )
        }
    }

    /// Deletes the user with this id, if there is one. Fails when an
    /// assignment still refers to the user.
    pub open spec fn delete_user(self, id: int) -> Result<Tables, StoreError> {
        if self.user_in_use(id) {
            Err(StoreError::Write)
        } else {
            Ok(Tables { users: users_without(self.users, id), ..self })
        }
    }

    /// Changes one field of the user with this id, if there is one.
    pub open spec fn update_user(self, id: int, field: UserField, value: Seq<char>) -> Tables {
        Tables {
            users: Seq::new(
                self.users.len(),
                |i: int|
                    if self.users[i].id == id {
                        user_with(self.users[i], field, value)
                    } else {
                        self.users[i]
                    },
            ),
            ..self
        }
    }

    /// Inserts a role. Fails when the slug is taken.
    pub open spec fn create_role(
        self,
        slug: Seq<char>,
        name: Seq<char>,
        permissions: Seq<char>,
    ) -> Result<Tables, StoreError> {
        if self.has_role(slug) {
            Err(StoreError::Write)
        } else {
            Ok(Tables { roles: self.roles.push(RoleView { slug, name, permissions }), ..self })
        }
    }

    /// Deletes the role with this slug, if there is one. Fails when an
    /// assignment still refers to the role.
    pub open spec fn delete_role(self, slug: Seq<char>) -> Result<Tables, StoreError> {
        if self.role_in_use(slug) {
            Err(StoreError::Write)
        } else {
            Ok(Tables { roles: roles_without(self.roles, slug), ..self })
        }
    }

    /// Changes one field of the role with this slug, if there is one.
    pub open spec fn update_role(self, slug: Seq<char>, field: RoleField, value: Seq<char>)
        -> Tables {
        Tables {
            roles: Seq::new(
                self.roles.len(),
                |i: int|
                    if self.roles[i].slug == slug {
                        role_with(self.roles[i], field, value)
                    } else {
                        self.roles[i]
                    },
            ),
            ..self
        }
    }

    /// Assigns a role to a user. Fails when the user or the role does not
    /// exist, or when the user holds the role already.
    pub open spec fn assign_role(self, id: int, slug: Seq<char>) -> Result<Tables, StoreError> {
        if !self.has_user(id) || !self.has_role(slug) || self.has_grant(id, slug) {
            Err(StoreError::Write)
        } else {
            Ok(
                Tables {
                    grants: self.grants.push(GrantView { user_id: id, role_slug: slug }),
                    ..self
                },
            )
        }
    }

    /// Takes a role from a user, if the user holds it.
    pub open spec fn unassign_role(self, id: int, slug: Seq<char>) -> Tables {
        Tables { grants: grants_without(self.grants, id, slug), ..self }
    }

    /// The user with this id.
    pub open spec fn get_user(self, id: int) -> Result<UserView, StoreError> {
        if self.has_user(id) {
            Ok(self.users[choose|i: int| 0 <= i < self.users.len() && self.users[i].id == id])
        } else {
            Err(StoreError::NotFound)
        }
    }

    /// The role with this slug.
    pub open spec fn get_role(self, slug: Seq<char>) -> Result<RoleView, StoreError> {
        if self.has_role(slug) {
            Ok(
                self.roles[choose|i: int|
                    0 <= i < self.roles.len() && self.roles[i].slug == slug],
            )
        } else {
            Err(StoreError::NotFound)
        }
    }

    /// Carries out one request: the store afterwards, and the answer.
    ///
    /// A lookup by key answers with the one row that it found, or fails
    /// with [`StoreError::NotFound`]. A failed write changes nothing.
    pub open spec fn serve(self, request: RequestView) -> (Tables, AnswerView) {
        match request {
            RequestView::CreateUser { name } => match self.create_user(name) {
                Ok(next) => (next, AnswerView::Created(next.issued)),
                Err(e) => (self, AnswerView::Failed(e)),
            },
            RequestView::DeleteUser { id } => match self.delete_user(id) {
                Ok(next) => (next, AnswerView::Done),
                Err(e) => (self, AnswerView::Failed(e)),
            },
            RequestView::UpdateUser { id, field, value } => (
                self.update_user(id, field, value),
                AnswerView::Done,
            ),
            RequestView::CreateRole { slug, name, permissions } => match self.create_role(
                slug,
                name,
                permissions,
            ) {
                Ok(next) => (next, AnswerView::Done),
                Err(e) => (self, AnswerView::Failed(e)),
            },
            RequestView::DeleteRole { slug } => match self.delete_role(slug) {
                Ok(next) => (next, AnswerView::Done),
                Err(e) => (self, AnswerView::Failed(e)),
            },
            RequestView::UpdateRole { slug, field, value } => (
                self.update_role(slug, field, value),
                AnswerView::Done,
            ),
            RequestView::AssignRole { user_id, slug } => match self.assign_role(user_id, slug) {
                Ok(next) => (next, AnswerView::Done),
                Err(e) => (self, AnswerView::Failed(e)),
            },
            RequestView::UnassignRole { user_id, slug } => (
                self.unassign_role(user_id, slug),
                AnswerView::Done,
            ),
            RequestView::GetUser { id } => match self.get_user(id) {
                Ok(user) => (self, AnswerView::Users(seq![user])),
                Err(e) => (self, AnswerView::Failed(e)),
            },
            RequestView::ListUsers => (self, AnswerView::Users(self.users)),
            RequestView::GetRole { slug } => match self.get_role(slug) {
                Ok(role) => (self, AnswerView::Roles(seq![role])),
                Err(e) => (self, AnswerView::Failed(e)),
            },
            RequestView::ListRoles => (self, AnswerView::Roles(self.roles)),
            RequestView::GetUserRoles { user_id } => (
                self,
                AnswerView::Roles(self.get_user_roles(user_id)),
            ),
        }
    }

    /// Holds of the roles that this user holds.
    pub open spec fn held_by(self, id: int) -> spec_fn(RoleView) -> bool {
        |r: RoleView| self.has_grant(id, r.slug)
    }

    /// The roles that a user holds, in the order of the table of roles.
    pub open spec fn get_user_roles(self, id: int) -> Seq<RoleView> {
        self.roles.filter(self.held_by(id))
    }
}

/// A filter that every element passes changes nothing.
pub proof fn lemma_filter_keeps_all<A>(s: Seq<A>, keep: spec_fn(A) -> bool)
    requires
        forall|j: int| 0 <= j < s.len() ==> keep(#[trigger] s[j]),
    ensures
        s.filter(keep) == s,
    decreases s.len(),
{
    reveal(Seq::filter);
    if s.len() > 0 {
        lemma_filter_keeps_all(s.drop_last(), keep);
        assert(s.drop_last().push(s.last()) =~= s);
    }
}

/// A filter that no element passes leaves nothing.
pub proof fn lemma_filter_keeps_none<A>(s: Seq<A>, keep: spec_fn(A) -> bool)
    requires
        forall|j: int| 0 <= j < s.len() ==> !keep(#[trigger] s[j]),
    ensures
        s.filter(keep) == Seq::<A>::empty(),
    decreases s.len(),
{
    reveal(Seq::filter);
    if s.len() > 0 {
        lemma_filter_keeps_none(s.drop_last(), keep);
    }
}

/// A filter that every element passes but the one at `i` removes that
/// element and keeps the others in place.
pub proof fn lemma_filter_drops_one<A>(s: Seq<A>, keep: spec_fn(A) -> bool, i: int)
    requires
        0 <= i < s.len(),
        !keep(s[i]),
        forall|j: int| 0 <= j < s.len() && j != i ==> keep(#[trigger] s[j]),
    ensures
        s.filter(keep) == s.remove(i),
    decreases s.len(),
{
    reveal(Seq::filter);
    if i == s.len() - 1 {
        lemma_filter_keeps_all(s.drop_last(), keep);
        assert(s.remove(i) =~= s.drop_last());
    } else {
        lemma_filter_drops_one(s.drop_last(), keep, i);
        assert(s.drop_last().remove(i).push(s.last()) =~= s.remove(i));
    }
}

/// Inserting a user keeps the store well formed.
pub proof fn lemma_create_user_wf(t: Tables, name: Seq<char>)
    requires
        t.wf(),
        t.create_user(name) is Ok,
    ensures
        t.create_user(name)->Ok_0.wf(),
{
    let next = t.create_user(name)->Ok_0;
    assert forall|i: int| 0 <= i < next.grants.len() implies next.has_user(
        (#[trigger] next.grants[i]).user_id,
    ) && next.has_role(next.grants[i].role_slug) by {
        let g = t.grants[i];
        assert(t.has_user(g.user_id));
        let k = choose|k: int| 0 <= k < t.users.len() && (#[trigger] t.users[k]).id == g.user_id;
        assert(next.users[k].id == g.user_id);
        assert(next.has_user(g.user_id));
        assert(t.has_role(g.role_slug));
        assert(next.roles == t.roles);
    }
}

/// In a well-formed store, deleting a user removes the one row with that
/// id and leaves the others in place.
pub proof fn lemma_users_without(t: Tables, id: int)
    requires
        t.wf(),
    ensures
        !t.has_user(id) ==> users_without(t.users, id) == t.users,
        forall|i: int|
            0 <= i < t.users.len() && (#[trigger] t.users[i]).id == id ==> users_without(
                t.users,
                id,
            ) == t.users.remove(i),
{
    if !t.has_user(id) {
        lemma_filter_keeps_all(t.users, other_user(id));
    }
    assert forall|i: int| 0 <= i < t.users.len() && (#[trigger] t.users[i]).id == id implies
        users_without(t.users, id) == t.users.remove(i) by {
        lemma_filter_drops_one(t.users, other_user(id), i);
    }
}

/// In a well-formed store, deleting a role removes the one row with that
/// slug and leaves the others in place.
pub proof fn lemma_roles_without(t: Tables, slug: Seq<char>)
    requires
        t.wf(),
    ensures
        !t.has_role(slug) ==> roles_without(t.roles, slug) == t.roles,
        forall|i: int|
            0 <= i < t.roles.len() && (#[trigger] t.roles[i]).slug == slug ==> roles_without(
                t.roles,
                slug,
            ) == t.roles.remove(i),
{
    if !t.has_role(slug) {
        lemma_filter_keeps_all(t.roles, other_role(slug));
    }
    assert forall|i: int| 0 <= i < t.roles.len() && (#[trigger] t.roles[i]).slug == slug implies
        roles_without(t.roles, slug) == t.roles.remove(i) by {
        lemma_filter_drops_one(t.roles, other_role(slug), i);
    }
}

/// In a well-formed store, taking a role from a user removes the one row
/// that assigns it and leaves the others in place.
pub proof fn lemma_grants_without(t: Tables, id: int, slug: Seq<char>)
    requires
        t.wf(),
    ensures
        !t.has_grant(id, slug) ==> grants_without(t.grants, id, slug) == t.grants,
        forall|i: int|
            0 <= i < t.grants.len() && (#[trigger] t.grants[i]) == (GrantView {
                user_id: id,
                role_slug: slug,
            }) ==> grants_without(t.grants, id, slug) == t.grants.remove(i),
{
    if !t.has_grant(id, slug) {
        lemma_filter_keeps_all(t.grants, other_grant(id, slug));
    }
    assert forall|i: int|
        0 <= i < t.grants.len() && (#[trigger] t.grants[i]) == (GrantView {
            user_id: id,
            role_slug: slug,
        }) implies grants_without(t.grants, id, slug) == t.grants.remove(i) by {
        lemma_filter_drops_one(t.grants, other_grant(id, slug), i);
    }
}

/// Deleting a user keeps the store well formed.
pub proof fn lemma_delete_user_wf(t: Tables, id: int)
    requires
        t.wf(),
        t.delete_user(id) is Ok,
    ensures
        t.delete_user(id)->Ok_0.wf(),
{
    let next = t.delete_user(id)->Ok_0;
    lemma_users_without(t, id);
    assert(next.grants == t.grants);
    assert(next.roles == t.roles);
    if t.has_user(id) {
        let i = choose|i: int| 0 <= i < t.users.len() && (#[trigger] t.users[i]).id == id;
        assert(next.users == t.users.remove(i));
        assert forall|g: int| 0 <= g < next.grants.len() implies next.has_user(
            (#[trigger] next.grants[g]).user_id,
        ) && next.has_role(next.grants[g].role_slug) by {
            let grant = t.grants[g];
            assert(t.has_user(grant.user_id));
            assert(t.has_role(grant.role_slug));
            let k = choose|k: int|
                0 <= k < t.users.len() && (#[trigger] t.users[k]).id == grant.user_id;
            assert(k != i);
            if k < i {
                assert(next.users[k] == t.users[k]);
            } else {
                assert(next.users[k - 1] == t.users[k]);
            }
        }
    }
}

/// Changing a field of a user keeps the store well formed.
pub proof fn lemma_update_user_wf(t: Tables, id: int, field: UserField, value: Seq<char>)
    requires
        t.wf(),
    ensures
        t.update_user(id, field, value).wf(),
{
    let next = t.update_user(id, field, value);
    assert(next.grants == t.grants);
    assert(next.roles == t.roles);
    assert forall|k: int| 0 <= k < next.users.len() implies (#[trigger] next.users[k]).id
        == t.users[k].id by {}
    assert forall|g: int| 0 <= g < next.grants.len() implies next.has_user(
        (#[trigger] next.grants[g]).user_id,
    ) && next.has_role(next.grants[g].role_slug) by {
        let grant = t.grants[g];
        assert(t.has_user(grant.user_id));
        assert(t.has_role(grant.role_slug));
        let k = choose|k: int|
            0 <= k < t.users.len() && (#[trigger] t.users[k]).id == grant.user_id;
        assert(next.users[k].id == grant.user_id);
    }
}

/// Inserting a role keeps the store well formed.
pub proof fn lemma_create_role_wf(
    t: Tables,
    slug: Seq<char>,
    name: Seq<char>,
    permissions: Seq<char>,
)
    requires
        t.wf(),
        t.create_role(slug, name, permissions) is Ok,
    ensures
        t.create_role(slug, name, permissions)->Ok_0.wf(),
{
    let next = t.create_role(slug, name, permissions)->Ok_0;
    assert(next.grants == t.grants);
    assert(next.users == t.users);
    assert forall|g: int| 0 <= g < next.grants.len() implies next.has_user(
        (#[trigger] next.grants[g]).user_id,
    ) && next.has_role(next.grants[g].role_slug) by {
        let grant = t.grants[g];
        assert(t.has_user(grant.user_id));
        assert(t.has_role(grant.role_slug));
        let k = choose|k: int|
            0 <= k < t.roles.len() && (#[trigger] t.roles[k]).slug == grant.role_slug;
        assert(next.roles[k].slug == grant.role_slug);
    }
}

/// Deleting a role keeps the store well formed.
pub proof fn lemma_delete_role_wf(t: Tables, slug: Seq<char>)
    requires
        t.wf(),
        t.delete_role(slug) is Ok,
    ensures
        t.delete_role(slug)->Ok_0.wf(),
{
    let next = t.delete_role(slug)->Ok_0;
    lemma_roles_without(t, slug);
    assert(next.grants == t.grants);
    assert(next.users == t.users);
    if t.has_role(slug) {
        let i = choose|i: int| 0 <= i < t.roles.len() && (#[trigger] t.roles[i]).slug == slug;
        assert(next.roles == t.roles.remove(i));
        assert forall|g: int| 0 <= g < next.grants.len() implies next.has_user(
            (#[trigger] next.grants[g]).user_id,
        ) && next.has_role(next.grants[g].role_slug) by {
            let grant = t.grants[g];
            assert(t.has_user(grant.user_id));
            assert(t.has_role(grant.role_slug));
            let k = choose|k: int|
                0 <= k < t.roles.len() && (#[trigger] t.roles[k]).slug == grant.role_slug;
            assert(k != i);
            if k < i {
                assert(next.roles[k] == t.roles[k]);
            } else {
                assert(next.roles[k - 1] == t.roles[k]);
            }
        }
    }
}

/// Changing a field of a role keeps the store well formed.
pub proof fn lemma_update_role_wf(t: Tables, slug: Seq<char>, field: RoleField, value: Seq<char>)
    requires
        t.wf(),
    ensures
        t.update_role(slug, field, value).wf(),
{
    let next = t.update_role(slug, field, value);
    assert(next.grants == t.grants);
    assert(next.users == t.users);
    assert forall|k: int| 0 <= k < next.roles.len() implies (#[trigger] next.roles[k]).slug
        == t.roles[k].slug by {}
    assert forall|g: int| 0 <= g < next.grants.len() implies next.has_user(
        (#[trigger] next.grants[g]).user_id,
    ) && next.has_role(next.grants[g].role_slug) by {
        let grant = t.grants[g];
        assert(t.has_user(grant.user_id));
        assert(t.has_role(grant.role_slug));
        let k = choose|k: int|
            0 <= k < t.roles.len() && (#[trigger] t.roles[k]).slug == grant.role_slug;
        assert(next.roles[k].slug == grant.role_slug);
    }
}

/// Assigning a role keeps the store well formed.
pub proof fn lemma_assign_role_wf(t: Tables, id: int, slug: Seq<char>)
    requires
        t.wf(),
        t.assign_role(id, slug) is Ok,
    ensures
        t.assign_role(id, slug)->Ok_0.wf(),
{
    let next = t.assign_role(id, slug)->Ok_0;
    assert(next.users == t.users);
    assert(next.roles == t.roles);
    assert forall|g: int| 0 <= g < next.grants.len() implies next.has_user(
        (#[trigger] next.grants[g]).user_id,
    ) && next.has_role(next.grants[g].role_slug) by {
        if g < t.grants.len() {
            let grant = t.grants[g];
            assert(t.has_user(grant.user_id));
            assert(t.has_role(grant.role_slug));
        }
    }
}

/// Taking a role from a user keeps the store well formed.
pub proof fn lemma_unassign_role_wf(t: Tables, id: int, slug: Seq<char>)
    requires
        t.wf(),
    ensures
        t.unassign_role(id, slug).wf(),
{
    let next = t.unassign_role(id, slug);
    lemma_grants_without(t, id, slug);
    assert(next.users == t.users);
    assert(next.roles == t.roles);
    if t.has_grant(id, slug) {
        let i = choose|i: int|
            0 <= i < t.grants.len() && (#[trigger] t.grants[i]).user_id == id
                && t.grants[i].role_slug == slug;
        assert(t.grants[i] == GrantView { user_id: id, role_slug: slug });
        assert(next.grants == t.grants.remove(i));
        assert forall|g: int| 0 <= g < next.grants.len() implies next.has_user(
            (#[trigger] next.grants[g]).user_id,
        ) && next.has_role(next.grants[g].role_slug) by {
            let grant = next.grants[g];
            if g < i {
                assert(grant == t.grants[g]);
            } else {
                assert(grant == t.grants[g + 1]);
            }
            assert(t.has_user(grant.user_id));
            assert(t.has_role(grant.role_slug));
        }
    }
}

/// Whatever is asked of a well-formed store, it is well formed afterwards.
pub proof fn law_store_stays_well_formed(t: Tables, request: RequestView)
    requires
        t.wf(),
    ensures
        t.serve(request).0.wf(),
{
    match request {
        RequestView::CreateUser { name } => {
            if t.create_user(name) is Ok {
                lemma_create_user_wf(t, name);
            }
        },
        RequestView::DeleteUser { id } => {
            if t.delete_user(id) is Ok {
                lemma_delete_user_wf(t, id);
            }
        },
        RequestView::UpdateUser { id, field, value } => {
            lemma_update_user_wf(t, id, field, value);
        },
        RequestView::CreateRole { slug, name, permissions } => {
            if t.create_role(slug, name, permissions) is Ok {
                lemma_create_role_wf(t, slug, name, permissions);
            }
        },
        RequestView::DeleteRole { slug } => {
            if t.delete_role(slug) is Ok {
                lemma_delete_role_wf(t, slug);
            }
        },
        RequestView::UpdateRole { slug, field, value } => {
            lemma_update_role_wf(t, slug, field, value);
        },
        RequestView::AssignRole { user_id, slug } => {
            if t.assign_role(user_id, slug) is Ok {
                lemma_assign_role_wf(t, user_id, slug);
            }
        },
        RequestView::UnassignRole { user_id, slug } => {
            lemma_unassign_role_wf(t, user_id, slug);
        },
        _ => {},
    }
}

} // verus!
