//! The store held in memory: the three tables as vectors, with every
//! operation proved against its description in [`crate::tables`].

use vstd::prelude::*;
use vstd::string::*;
use crate::model::{
    role_views, user_views, Role, RoleField, RoleView, StoreError, User, UserField, UserView,
};
use crate::tables::{
    lemma_assign_role_wf, lemma_create_role_wf, lemma_create_user_wf, lemma_delete_role_wf,
    lemma_delete_user_wf, lemma_grants_without, lemma_roles_without, lemma_unassign_role_wf,
    lemma_update_role_wf, lemma_update_user_wf, lemma_users_without, GrantView, Tables,
};
use crate::request::{Answer, Request};
use crate::text::text_eq;

verus! {

/// One row of the table of assignments.
struct Grant {
    user_id: i32,
    role_slug: String,
}

impl View for Grant {
    type V = GrantView;

    closed spec fn view(&self) -> GrantView {
        GrantView { user_id: self.user_id as int, role_slug: self.role_slug@ }
    }
}

spec fn grant_views(grants: Seq<Grant>) -> Seq<GrantView> {
    Seq::new(grants.len(), |i: int| grants[i]@)
}

/// Whether an assignment is of this user, where one is given, and of this
/// role, where one is given.
spec fn grant_matches(grant: GrantView, id: Option<i32>, slug: Option<&str>) -> bool {
    &&& id matches Some(wanted) ==> grant.user_id == wanted
    &&& slug matches Some(wanted) ==> grant.role_slug == wanted@
}

/// A store of users, roles and assignments.
pub struct DataBase {
    users: Vec<User>,
    roles: Vec<Role>,
    grants: Vec<Grant>,
    issued: i32,
}

impl View for DataBase {
    type V = Tables;

    closed spec fn view(&self) -> Tables {
        Tables {
            users: user_views(self.users@),
            roles: role_views(self.roles@),
            grants: grant_views(self.grants@),
            issued: self.issued as int,
        }
    }
}

/// Whether an address names a store that is held in memory.
pub open spec fn in_memory(db_url: Seq<char>) -> bool {
    db_url == "sqlite::memory:"@ || db_url == "sqlite://:memory:"@
}

impl DataBase {
    /// What holds of every store: its tables are well formed.
    #[verifier::type_invariant]
    pub open spec fn well_formed(self) -> bool {
        self@.wf()
    }

    /// Opens the store at an address. The one kind of store that is opened
    /// here is the one held in memory, which begins empty; any other
    /// address is out of reach and fails as a connection.
    pub fn create_database(db_url: &str) -> (opened: Result<DataBase, StoreError>)
        ensures
            match opened {
                Ok(db) => in_memory(db_url@) && db@ == Tables::empty() && db@.wf(),
                Err(e) => !in_memory(db_url@) && e == StoreError::Connection,
            },
    {
        if text_eq(db_url, "sqlite::memory:") || text_eq(db_url, "sqlite://:memory:") {
            Ok(DataBase::new())
        } else {
            Err(StoreError::Connection)
        }
    }

    /// Makes sure that the three tables exist. They exist from the moment
    /// the store is opened, so this succeeds and changes nothing, however
    /// often it is called.
    pub fn create_tables(&self) -> (made: Result<(), StoreError>)
        ensures
            made is Ok,
    {
        Ok(())
    }

    /// A store with no row in it.
    pub fn new() -> (db: DataBase)
        ensures
            db@ == Tables::empty(),
            db@.wf(),
    {
        let db = DataBase { users: Vec::new(), roles: Vec::new(), grants: Vec::new(), issued: 0 };
        assert(db@.users =~= Seq::empty());
        assert(db@.roles =~= Seq::empty());
        assert(db@.grants =~= Seq::empty());
        db
    }

    /// Hands out the tables and leaves the store empty, for the caller to
    /// change them and put them back.
    fn take(&mut self) -> (taken: DataBase)
        ensures
            taken == *old(self),
            final(self)@ == Tables::empty(),
    {
        let mut taken = DataBase::new();
        std::mem::swap(self, &mut taken);
        taken
    }

    /// The place of the user with this id in the table.
    fn find_user(&self, id: i32) -> (found: Option<usize>)
        ensures
            match found {
                Some(i) => i < self.users.len() && self.users[i as int].id == id,
                None => forall|j: int| 0 <= j < self.users.len() ==> self.users[j].id != id,
            },
    {
        let mut i: usize = 0;
        while i < self.users.len()
            invariant
                i <= self.users.len(),
                forall|j: int| 0 <= j < i ==> self.users[j].id != id,
            decreases self.users.len() - i,
        {
            if self.users[i].id == id {
                return Some(i);
            }
            i += 1;
        }
        None
    }

    /// The place of the role with this slug in the table.
    fn find_role(&self, slug: &str) -> (found: Option<usize>)
        ensures
            match found {
                Some(i) => i < self.roles.len() && self.roles[i as int].slug@ == slug@,
                None => forall|j: int| 0 <= j < self.roles.len() ==> self.roles[j].slug@ != slug@,
            },
    {
        let mut i: usize = 0;
        while i < self.roles.len()
            invariant
                i <= self.roles.len(),
                forall|j: int| 0 <= j < i ==> self.roles[j].slug@ != slug@,
            decreases self.roles.len() - i,
        {
            if text_eq(self.roles[i].slug.as_str(), slug) {
                return Some(i);
            }
            i += 1;
        }
        None
    }

    /// The place of the first assignment that this test accepts.
    fn find_grant(&self, id: Option<i32>, slug: Option<&str>) -> (found: Option<usize>)
        ensures
            match found {
                Some(i) => i < self.grants.len() && grant_matches(self.grants[i as int]@, id, slug),
                None => forall|j: int|
                    0 <= j < self.grants.len() ==> !grant_matches(self.grants[j]@, id, slug),
            },
    {
        let mut i: usize = 0;
        while i < self.grants.len()
            invariant
                i <= self.grants.len(),
                forall|j: int| 0 <= j < i ==> !grant_matches(self.grants[j]@, id, slug),
            decreases self.grants.len() - i,
        {
            let id_fits = match id {
                Some(wanted) => self.grants[i].user_id == wanted,
                None => true,
            };
            let slug_fits = match slug {
                Some(wanted) => text_eq(self.grants[i].role_slug.as_str(), wanted),
                None => true,
            };
            if id_fits && slug_fits {
                return Some(i);
            }
            i += 1;
        }
        None
    }

    /// Inserts a user and returns the id that it was given.
    pub fn create_user(&mut self, name: &str) -> (created: Result<i32, StoreError>)
        ensures
            final(self)@.wf(),
            match created {
                Ok(id) => old(self)@.create_user(name@) == Ok::<Tables, StoreError>(final(self)@)
                    && id == final(self)@.issued,
                Err(e) => old(self)@.create_user(name@) == Err::<Tables, StoreError>(e)
                    && final(self)@ == old(self)@,
            },
    {
        proof {
            use_type_invariant(&*self);
        }
        if self.issued == i32::MAX {
            return Err(StoreError::Write);
        }
        let DataBase { mut users, roles, grants, issued } = self.take();
        let id = issued + 1;
        users.push(User { id, name: name.to_owned() });
        proof {
            assert(user_views(users@) =~= old(self)@.users.push(
                UserView { id: id as int, name: name@ },
            ));
            lemma_create_user_wf(old(self)@, name@);
        }
        *self = DataBase { users, roles, grants, issued: id };
        Ok(id)
    }

    /// Deletes the user with this id. Where there is none, nothing changes
    /// and the call succeeds all the same.
    pub fn delete_user(&mut self, id: i32) -> (deleted: Result<(), StoreError>)
        ensures
            final(self)@.wf(),
            match deleted {
                Ok(_) => old(self)@.delete_user(id as int) == Ok::<Tables, StoreError>(
                    final(self)@,
                ),
                Err(e) => old(self)@.delete_user(id as int) == Err::<Tables, StoreError>(e)
                    && final(self)@ == old(self)@,
            },
    {
        proof {
            use_type_invariant(&*self);
        }
        if let Some(g) = self.find_grant(Some(id), None) {
            assert(self@.grants[g as int].user_id == id);
            return Err(StoreError::Write);
        }
        proof {
            assert(!self@.user_in_use(id as int));
            lemma_users_without(self@, id as int);
            lemma_delete_user_wf(self@, id as int);
        }
        match self.find_user(id) {
            Some(i) => {
                assert(self@.users[i as int].id == id);
                let DataBase { mut users, roles, grants, issued } = self.take();
                users.remove(i);
                assert(user_views(users@) =~= old(self)@.users.remove(i as int));
                *self = DataBase { users, roles, grants, issued };
            },
            None => {
                assert(!self@.has_user(id as int));
            },
        }
        Ok(())
    }

    /// Changes one field of the user with this id. Where there is none,
    /// nothing changes and the call succeeds all the same.
    pub fn update_user(&mut self, id: i32, field: UserField, value: &str) -> (updated: Result<
        (),
        StoreError,
    >)
        ensures
            final(self)@.wf(),
            updated is Ok,
            final(self)@ == old(self)@.update_user(id as int, field, value@),
    {
        proof {
            use_type_invariant(&*self);
        }
        proof {
            lemma_update_user_wf(self@, id as int, field, value@);
        }
        match self.find_user(id) {
            Some(i) => {
                let DataBase { mut users, roles, grants, issued } = self.take();
                match field {
                    UserField::Name => {
                        users[i].name = value.to_owned();
                    },
                }
                assert(user_views(users@) =~= old(self)@.update_user(
                    id as int,
                    field,
                    value@,
                ).users) by {
                    assert(old(self)@.users[i as int].id == id);
                    assert forall|j: int| 0 <= j < users.len() && j != i implies users[j]
                        == old(self).users[j] && old(self)@.users[j].id != id by {}
                }
                *self = DataBase { users, roles, grants, issued };
            },
            None => {
                assert(self@.users =~= self@.update_user(id as int, field, value@).users);
            },
        }
        Ok(())
    }

    /// Inserts a role.
    pub fn create_role(&mut self, slug: &str, name: &str, permissions: &str) -> (created: Result<
        (),
        StoreError,
    >)
        ensures
            final(self)@.wf(),
            match created {
                Ok(_) => old(self)@.create_role(slug@, name@, permissions@) == Ok::<
                    Tables,
                    StoreError,
                >(final(self)@),
                Err(e) => old(self)@.create_role(slug@, name@, permissions@) == Err::<
                    Tables,
                    StoreError,
                >(e) && final(self)@ == old(self)@,
            },
    {
        proof {
            use_type_invariant(&*self);
        }
        if let Some(i) = self.find_role(slug) {
            assert(self@.roles[i as int].slug == slug@);
            return Err(StoreError::Write);
        }
        assert(!self@.has_role(slug@));
        let DataBase { users, mut roles, grants, issued } = self.take();
        roles.push(
            Role { slug: slug.to_owned(), name: name.to_owned(), permissions: permissions.to_owned() },
        );
        proof {
            assert(role_views(roles@) =~= old(self)@.roles.push(
                RoleView { slug: slug@, name: name@, permissions: permissions@ },
            ));
            lemma_create_role_wf(old(self)@, slug@, name@, permissions@);
        }
        *self = DataBase { users, roles, grants, issued };
        Ok(())
    }

    /// Deletes the role with this slug. Where there is none, nothing changes
    /// and the call succeeds all the same.
    pub fn delete_role(&mut self, slug: &str) -> (deleted: Result<(), StoreError>)
        ensures
            final(self)@.wf(),
            match deleted {
                Ok(_) => old(self)@.delete_role(slug@) == Ok::<Tables, StoreError>(final(self)@),
                Err(e) => old(self)@.delete_role(slug@) == Err::<Tables, StoreError>(e)
                    && final(self)@ == old(self)@,
            },
    {
        proof {
            use_type_invariant(&*self);
        }
        if let Some(g) = self.find_grant(None, Some(slug)) {
            assert(self@.grants[g as int].role_slug == slug@);
            return Err(StoreError::Write);
        }
        proof {
            assert(!self@.role_in_use(slug@));
            lemma_roles_without(self@, slug@);
            lemma_delete_role_wf(self@, slug@);
        }
        match self.find_role(slug) {
            Some(i) => {
                assert(self@.roles[i as int].slug == slug@);
                let DataBase { users, mut roles, grants, issued } = self.take();
                roles.remove(i);
                assert(role_views(roles@) =~= old(self)@.roles.remove(i as int));
                *self = DataBase { users, roles, grants, issued };
            },
            None => {
                assert(!self@.has_role(slug@));
            },
        }
        Ok(())
    }

    /// Changes one field of the role with this slug. Where there is none,
    /// nothing changes and the call succeeds all the same.
    pub fn update_role(&mut self, slug: &str, field: RoleField, value: &str) -> (updated: Result<
        (),
        StoreError,
    >)
        ensures
            final(self)@.wf(),
            updated is Ok,
            final(self)@ == old(self)@.update_role(slug@, field, value@),
    {
        proof {
            use_type_invariant(&*self);
        }
        proof {
            lemma_update_role_wf(self@, slug@, field, value@);
        }
        match self.find_role(slug) {
            Some(i) => {
                let DataBase { users, mut roles, grants, issued } = self.take();
                match field {
                    RoleField::Name => {
                        roles[i].name = value.to_owned();
                    },
                    RoleField::Permissions => {
                        roles[i].permissions = value.to_owned();
                    },
                }
                assert(role_views(roles@) =~= old(self)@.update_role(slug@, field, value@).roles)
                    by {
                    assert(old(self)@.roles[i as int].slug == slug@);
                    assert forall|j: int| 0 <= j < roles.len() && j != i implies roles[j]
                        == old(self).roles[j] && old(self)@.roles[j].slug != slug@ by {}
                }
                *self = DataBase { users, roles, grants, issued };
            },
            None => {
                assert(self@.roles =~= self@.update_role(slug@, field, value@).roles);
            },
        }
        Ok(())
    }

    /// Assigns a role to a user.
    pub fn assign_role(&mut self, user_id: i32, role_slug: &str) -> (assigned: Result<
        (),
        StoreError,
    >)
        ensures
            final(self)@.wf(),
            match assigned {
                Ok(_) => old(self)@.assign_role(user_id as int, role_slug@) == Ok::<
                    Tables,
                    StoreError,
                >(final(self)@),
                Err(e) => old(self)@.assign_role(user_id as int, role_slug@) == Err::<
                    Tables,
                    StoreError,
                >(e) && final(self)@ == old(self)@,
            },
    {
        proof {
            use_type_invariant(&*self);
        }
        match self.find_user(user_id) {
            None => {
                assert(!self@.has_user(user_id as int));
                return Err(StoreError::Write);
            },
            Some(i) => {
                assert(self@.users[i as int].id == user_id);
            },
        }
        match self.find_role(role_slug) {
            None => {
                assert(!self@.has_role(role_slug@));
                return Err(StoreError::Write);
            },
            Some(i) => {
                assert(self@.roles[i as int].slug == role_slug@);
            },
        }
        if let Some(g) = self.find_grant(Some(user_id), Some(role_slug)) {
            assert(self@.grants[g as int].user_id == user_id);
            return Err(StoreError::Write);
        }
        assert(!self@.has_grant(user_id as int, role_slug@));
        let DataBase { users, roles, mut grants, issued } = self.take();
        grants.push(Grant { user_id, role_slug: role_slug.to_owned() });
        proof {
            assert(grant_views(grants@) =~= old(self)@.grants.push(
                GrantView { user_id: user_id as int, role_slug: role_slug@ },
            ));
            lemma_assign_role_wf(old(self)@, user_id as int, role_slug@);
        }
        *self = DataBase { users, roles, grants, issued };
        Ok(())
    }

    /// Takes a role from a user. Where the user does not hold it, nothing
    /// changes and the call succeeds all the same.
    pub fn unassign_role(&mut self, user_id: i32, role_slug: &str) -> (unassigned: Result<
        (),
        StoreError,
    >)
        ensures
            final(self)@.wf(),
            unassigned is Ok,
            final(self)@ == old(self)@.unassign_role(user_id as int, role_slug@),
    {
        proof {
            use_type_invariant(&*self);
        }
        proof {
            lemma_grants_without(self@, user_id as int, role_slug@);
            lemma_unassign_role_wf(self@, user_id as int, role_slug@);
        }
        match self.find_grant(Some(user_id), Some(role_slug)) {
            Some(i) => {
                assert(self@.grants[i as int] == GrantView {
                    user_id: user_id as int,
                    role_slug: role_slug@,
                });
                let DataBase { users, roles, mut grants, issued } = self.take();
                grants.remove(i);
                assert(grant_views(grants@) =~= old(self)@.grants.remove(i as int));
                *self = DataBase { users, roles, grants, issued };
            },
            None => {
                assert(!self@.has_grant(user_id as int, role_slug@));
            },
        }
        Ok(())
    }

    /// The user with this id.
    pub fn get_user(&self, id: i32) -> (found: Result<User, StoreError>)
        ensures
            match found {
                Ok(user) => self@.get_user(id as int) == Ok::<UserView, StoreError>(user@),
                Err(e) => self@.get_user(id as int) == Err::<UserView, StoreError>(e),
            },
    {
        proof {
            use_type_invariant(self);
        }
        match self.find_user(id) {
            Some(i) => {
                assert(self@.users[i as int].id == id);
                Ok(self.users[i].clone())
            },
            None => {
                assert(!self@.has_user(id as int));
                Err(StoreError::NotFound)
            },
        }
    }

    /// The role with this slug.
    pub fn get_role(&self, slug: &str) -> (found: Result<Role, StoreError>)
        ensures
            match found {
                Ok(role) => self@.get_role(slug@) == Ok::<RoleView, StoreError>(role@),
                Err(e) => self@.get_role(slug@) == Err::<RoleView, StoreError>(e),
            },
    {
        proof {
            use_type_invariant(self);
        }
        match self.find_role(slug) {
            Some(i) => {
                assert(self@.roles[i as int].slug == slug@);
                Ok(self.roles[i].clone())
            },
            None => {
                assert(!self@.has_role(slug@));
                Err(StoreError::NotFound)
            },
        }
    }

    /// The roles that a user holds. A user without roles, and an id without
    /// a user, give the empty list.
    pub fn get_user_roles(&self, user_id: i32) -> (held: Result<Vec<Role>, StoreError>)
        ensures
            held is Ok,
            role_views(held->Ok_0@) == self@.get_user_roles(user_id as int),
    {
        proof {
            use_type_invariant(self);
        }
        let mut held: Vec<Role> = Vec::new();
        let ghost test = self@.held_by(user_id as int);
        let mut i: usize = 0;
        proof {
            reveal(Seq::filter);
            assert(self@.roles.take(0) =~= Seq::<RoleView>::empty());
            assert(role_views(held@) =~= self@.roles.take(0).filter(test));
        }
        while i < self.roles.len()
            invariant
                i <= self.roles.len(),
                test == self@.held_by(user_id as int),
                role_views(held@) == self@.roles.take(i as int).filter(test),
            decreases self.roles.len() - i,
        {
            let ghost before = held@;
            let found = self.find_grant(Some(user_id), Some(self.roles[i].slug.as_str()));
            proof {
                reveal(Seq::filter);
                let longer = self@.roles.take(i + 1);
                assert(longer.drop_last() =~= self@.roles.take(i as int));
                assert(longer.last() == self@.roles[i as int]);
                match found {
                    Some(g) => {
                        assert(self@.grants[g as int].user_id == user_id);
                        assert(test(self@.roles[i as int]));
                    },
                    None => {
                        assert(!self@.has_grant(user_id as int, self@.roles[i as int].slug));
                    },
                }
            }
            if found.is_some() {
                held.push(self.roles[i].clone());
                assert(role_views(held@) =~= role_views(before).push(self@.roles[i as int]));
            }
            i += 1;
        }
        assert(self@.roles.take(i as int) =~= self@.roles);
        Ok(held)
    }

    /// Every user, in the order of insertion.
    pub fn list_users(&self) -> (listed: Result<Vec<User>, StoreError>)
        ensures
            listed is Ok,
            user_views(listed->Ok_0@) == self@.users,
    {
        let mut listed: Vec<User> = Vec::new();
        let mut i: usize = 0;
        while i < self.users.len()
            invariant
                i <= self.users.len(),
                listed.len() == i,
                forall|j: int| 0 <= j < i ==> listed[j]@ == self.users[j]@,
            decreases self.users.len() - i,
        {
            listed.push(self.users[i].clone());
            i += 1;
        }
        assert(user_views(listed@) =~= self@.users);
        Ok(listed)
    }

    /// Every role, in the order of insertion.
    pub fn list_roles(&self) -> (listed: Result<Vec<Role>, StoreError>)
        ensures
            listed is Ok,
            role_views(listed->Ok_0@) == self@.roles,
    {
        let mut listed: Vec<Role> = Vec::new();
        let mut i: usize = 0;
        while i < self.roles.len()
            invariant
                i <= self.roles.len(),
                listed.len() == i,
                forall|j: int| 0 <= j < i ==> listed[j]@ == self.roles[j]@,
            decreases self.roles.len() - i,
        {
            listed.push(self.roles[i].clone());
            i += 1;
        }
        assert(role_views(listed@) =~= self@.roles);
        Ok(listed)
    }

    /// The user with this id together with the roles that the user holds.
    pub fn list_user(&self, id: i32) -> (listed: Result<(User, Vec<Role>), StoreError>)
        ensures
            match listed {
                Ok((user, held)) => self@.get_user(id as int) == Ok::<UserView, StoreError>(user@)
                    && role_views(held@) == self@.get_user_roles(id as int),
                Err(e) => self@.get_user(id as int) == Err::<UserView, StoreError>(e),
            },
    {
        proof {
            use_type_invariant(self);
        }
        let user = match self.get_user(id) {
            Ok(user) => user,
            Err(e) => {
                return Err(e);
            },
        };
        match self.get_user_roles(id) {
            Ok(held) => Ok((user, held)),
            Err(e) => Err(e),
        }
    }

    /// The role with this slug.
    pub fn list_role(&self, slug: &str) -> (listed: Result<Role, StoreError>)
        ensures
            match listed {
                Ok(role) => self@.get_role(slug@) == Ok::<RoleView, StoreError>(role@),
                Err(e) => self@.get_role(slug@) == Err::<RoleView, StoreError>(e),
            },
    {
        proof {
            use_type_invariant(self);
        }
        self.get_role(slug)
    }

    /// Carries out one request and gives the answer.
    pub fn serve(&mut self, request: &Request) -> (answer: Answer)
        ensures
            final(self)@.wf(),
            (final(self)@, answer@) == old(self)@.serve(request@),
    {
        proof {
            use_type_invariant(&*self);
        }
        match request {
            Request::CreateUser { name } => match self.create_user(name.as_str()) {
                Ok(id) => Answer::Created(id),
                Err(e) => Answer::Failed(e),
            },
            Request::DeleteUser { id } => match self.delete_user(*id) {
                Ok(_) => Answer::Done,
                Err(e) => Answer::Failed(e),
            },
            Request::UpdateUser { id, field, value } => match self.update_user(
                *id,
                *field,
                value.as_str(),
            ) {
                Ok(_) => Answer::Done,
                Err(e) => Answer::Failed(e),
            },
            Request::CreateRole { slug, name, permissions } => match self.create_role(
                slug.as_str(),
                name.as_str(),
                permissions.as_str(),
            ) {
                Ok(_) => Answer::Done,
                Err(e) => Answer::Failed(e),
            },
            Request::DeleteRole { slug } => match self.delete_role(slug.as_str()) {
                Ok(_) => Answer::Done,
                Err(e) => Answer::Failed(e),
            },
            Request::UpdateRole { slug, field, value } => match self.update_role(
                slug.as_str(),
                *field,
                value.as_str(),
            ) {
                Ok(_) => Answer::Done,
                Err(e) => Answer::Failed(e),
            },
            Request::AssignRole { user_id, slug } => match self.assign_role(
                *user_id,
                slug.as_str(),
            ) {
                Ok(_) => Answer::Done,
                Err(e) => Answer::Failed(e),
            },
            Request::UnassignRole { user_id, slug } => match self.unassign_role(
                *user_id,
                slug.as_str(),
            ) {
                Ok(_) => Answer::Done,
                Err(e) => Answer::Failed(e),
            },
            Request::GetUser { id } => match self.get_user(*id) {
                Ok(user) => {
                    let mut rows: Vec<User> = Vec::new();
                    let ghost found = user@;
                    rows.push(user);
                    assert(user_views(rows@) =~= seq![found]);
                    Answer::Users(rows)
                },
                Err(e) => Answer::Failed(e),
            },
            Request::ListUsers => match self.list_users() {
                Ok(rows) => Answer::Users(rows),
                Err(e) => Answer::Failed(e),
            },
            Request::GetRole { slug } => match self.get_role(slug.as_str()) {
                Ok(role) => {
                    let mut rows: Vec<Role> = Vec::new();
                    let ghost found = role@;
                    rows.push(role);
                    assert(role_views(rows@) =~= seq![found]);
                    Answer::Roles(rows)
                },
                Err(e) => Answer::Failed(e),
            },
            Request::ListRoles => match self.list_roles() {
                Ok(rows) => Answer::Roles(rows),
                Err(e) => Answer::Failed(e),
            },
            Request::GetUserRoles { user_id } => match self.get_user_roles(*user_id) {
                Ok(rows) => Answer::Roles(rows),
                Err(e) => Answer::Failed(e),
            },
        }
    }
}

} // verus!
