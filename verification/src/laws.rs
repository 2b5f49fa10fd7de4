//! What holds of the store and of the grammar whatever the input.

use vstd::prelude::*;
use crate::command::{
    command_of, role_field_of, shape_of, user_field_of, CommandError, CommandView, Shape,
};
use crate::dispatch::{first_step, opening, outcome, DataView, ReplyView, StepView};
use crate::model::{RoleField, RoleView, StoreError, UserView};
use crate::tables::{
    law_store_stays_well_formed, lemma_create_user_wf, lemma_filter_keeps_all,
    lemma_filter_keeps_none, lemma_users_without, other_grant, GrantView, Tables,
};
use crate::text::parse_i32_spec;

verus! {

/// A user that was just created is found under the id that it was given,
/// with the name that was given, and holds no role.
pub proof fn law_created_user_is_found(t: Tables, name: Seq<char>)
    requires
        t.wf(),
        t.create_user(name) is Ok,
    ensures
        ({
            let next = t.create_user(name)->Ok_0;
            &&& next.get_user(next.issued) == Ok::<UserView, StoreError>(
                UserView { id: next.issued, name },
            )
            &&& next.get_user_roles(next.issued) == Seq::<RoleView>::empty()
        }),
{
    let next = t.create_user(name)->Ok_0;
    let id = next.issued;
    lemma_create_user_wf(t, name);
    assert(next.users[t.users.len() as int].id == id);
    assert(next.has_user(id));
    let found = choose|i: int| 0 <= i < next.users.len() && next.users[i].id == id;
    assert(found == t.users.len()) by {
        if found < t.users.len() {
            assert(t.users[found].id <= t.issued);
        }
    }
    assert forall|r: int| 0 <= r < next.roles.len() implies !next.held_by(id)(
        #[trigger] next.roles[r],
    ) by {
        if next.has_grant(id, next.roles[r].slug) {
            let g = choose|g: int|
                0 <= g < next.grants.len() && (#[trigger] next.grants[g]).user_id == id
                    && next.grants[g].role_slug == next.roles[r].slug;
            assert(t.grants[g].user_id == id);
            assert(t.has_user(id));
            let u = choose|u: int| 0 <= u < t.users.len() && (#[trigger] t.users[u]).id == id;
            assert(t.users[u].id <= t.issued);
        }
    }
    lemma_filter_keeps_none(next.roles, next.held_by(id));
}

/// A user that was deleted is not found any more.
pub proof fn law_deleted_user_is_gone(t: Tables, id: int)
    requires
        t.wf(),
        t.delete_user(id) is Ok,
    ensures
        t.delete_user(id)->Ok_0.get_user(id) == Err::<UserView, StoreError>(StoreError::NotFound),
{
    let next = t.delete_user(id)->Ok_0;
    lemma_users_without(t, id);
    if next.has_user(id) {
        let k = choose|k: int| 0 <= k < next.users.len() && (#[trigger] next.users[k]).id == id;
        if t.has_user(id) {
            let i = choose|i: int| 0 <= i < t.users.len() && (#[trigger] t.users[i]).id == id;
            assert(next.users == t.users.remove(i));
            if k < i {
                assert(t.users[k].id == id);
            } else {
                assert(t.users[k + 1].id == id);
            }
        } else {
            assert(t.users[k].id == id);
        }
    }
}

/// A slug that is taken cannot be taken again: the second creation fails
/// as a write, whatever name and permissions it brings.
pub proof fn law_role_slug_is_unique(
    t: Tables,
    slug: Seq<char>,
    name: Seq<char>,
    permissions: Seq<char>,
    other_name: Seq<char>,
    other_permissions: Seq<char>,
)
    requires
        t.create_role(slug, name, permissions) is Ok,
    ensures
        t.create_role(slug, name, permissions)->Ok_0.create_role(
            slug,
            other_name,
            other_permissions,
        ) == Err::<Tables, StoreError>(StoreError::Write),
{
    let next = t.create_role(slug, name, permissions)->Ok_0;
    assert(next.roles[t.roles.len() as int].slug == slug);
}

/// A role that was assigned to a user is among the roles that the user
/// holds; once it is taken away it is among them no more, and the store is
/// as it was before the assignment.
pub proof fn law_assignment_symmetry(t: Tables, id: int, slug: Seq<char>)
    requires
        t.wf(),
        t.assign_role(id, slug) is Ok,
    ensures
        ({
            let assigned = t.assign_role(id, slug)->Ok_0;
            let held = assigned.get_user_roles(id);
            let left = assigned.unassign_role(id, slug).get_user_roles(id);
            &&& exists|r: int| 0 <= r < held.len() && (#[trigger] held[r]).slug == slug
            &&& forall|r: int| 0 <= r < left.len() ==> (#[trigger] left[r]).slug != slug
            &&& assigned.unassign_role(id, slug) == t
        }),
{
    broadcast use vstd::seq_lib::group_filter_ensures;

    let assigned = t.assign_role(id, slug)->Ok_0;
    let grant = GrantView { user_id: id, role_slug: slug };
    assert(assigned.roles == t.roles);
    assert(assigned.grants[t.grants.len() as int] == grant);
    assert(assigned.has_grant(id, slug));
    let k = choose|k: int| 0 <= k < t.roles.len() && (#[trigger] t.roles[k]).slug == slug;
    let held = assigned.get_user_roles(id);
    assert(assigned.held_by(id)(t.roles[k]));
    assert(held.contains(t.roles[k]));
    let r = choose|r: int| 0 <= r < held.len() && held[r] == t.roles[k];
    assert(held[r].slug == slug);

    let back = assigned.unassign_role(id, slug);
    assert(back.grants == t.grants) by {
        reveal(Seq::filter);
        assert(assigned.grants.drop_last() =~= t.grants);
        assert forall|j: int| 0 <= j < t.grants.len() implies other_grant(id, slug)(
            #[trigger] t.grants[j],
        ) by {
            assert(!t.has_grant(id, slug));
        }
        lemma_filter_keeps_all(t.grants, other_grant(id, slug));
    }
    assert(back == t);
    let left = back.get_user_roles(id);
    assert forall|r: int| 0 <= r < left.len() implies (#[trigger] left[r]).slug != slug by {
        assert(t.held_by(id)(left[r]));
    }
}

/// Changing the permissions of a role changes nothing else: every
/// role keeps its slug and its name, the roles with another slug keep their
/// permissions, and users and assignments stay as they are. The same holds
/// of the name, with name and permissions exchanged.
pub proof fn law_update_role_changes_one_field(
    t: Tables,
    slug: Seq<char>,
    field: RoleField,
    value: Seq<char>,
)
    ensures
        ({
            let next = t.update_role(slug, field, value);
            &&& next.users == t.users
            &&& next.grants == t.grants
            &&& next.issued == t.issued
            &&& next.roles.len() == t.roles.len()
            &&& forall|i: int|
                0 <= i < t.roles.len() ==> {
                    let before = #[trigger] t.roles[i];
                    let after = next.roles[i];
                    &&& after.slug == before.slug
                    &&& field != RoleField::Name ==> after.name == before.name
                    &&& field != RoleField::Permissions ==> after.permissions
                        == before.permissions
                    &&& before.slug != slug ==> after == before
                    &&& before.slug == slug && field == RoleField::Name ==> after.name == value
                    &&& before.slug == slug && field == RoleField::Permissions
                        ==> after.permissions == value
                }
        }),
{
}

/// A field that may not be changed stops the command before anything is
/// asked of a store: the first step is the end, with an error.
pub proof fn law_forbidden_field_asks_nothing(t: Seq<Seq<char>>)
    requires
        shape_of(t) == Some(Shape::UpdateUser) && user_field_of(t[3]) is None || shape_of(t)
            == Some(Shape::UpdateRole) && role_field_of(t[3]) is None,
    ensures
        first_step(t) is Finish,
        first_step(t)->Finish_0 is Err,
        shape_of(t) == Some(Shape::UpdateRole) || parse_i32_spec(t[2]) is Ok ==> first_step(t)
            == StepView::Finish(Err(CommandError::Field)),
{
}

/// Tokens are unrecognized exactly when they have no shape, and then they
/// leave the store as it is.
pub proof fn law_unrecognized_without_shape(store: Tables, t: Seq<Seq<char>>)
    ensures
        shape_of(t) is None <==> command_of(t) == Err::<CommandView, CommandError>(
            CommandError::Unrecognized,
        ),
        shape_of(t) is None ==> outcome(store, t) == (
            store,
            Err::<ReplyView, CommandError>(CommandError::Unrecognized),
        ),
{
}

/// Two users created one after the other get two different ids, and both
/// creations succeed as long as two ids are left.
pub proof fn law_created_ids_differ(t: Tables, first: Seq<char>, second: Seq<char>)
    requires
        t.wf(),
    ensures
        t.issued + 2 <= i32::MAX <==> t.create_user(first) is Ok && t.create_user(
            first,
        )->Ok_0.create_user(second) is Ok,
        t.issued + 2 <= i32::MAX ==> t.create_user(first)->Ok_0.issued != t.create_user(
            first,
        )->Ok_0.create_user(second)->Ok_0.issued,
{
}

/// `create user <name>`, then `list user <id>` with the id that came back:
/// the second command succeeds, changes nothing, and shows the user under
/// that id with the name that was given and with no role.
pub proof fn law_create_then_list(t: Tables, name: Seq<char>, id_token: Seq<char>)
    requires
        t.wf(),
        outcome(t, seq!["create"@, "user"@, name]).1 is Ok,
        parse_i32_spec(id_token) is Ok,
        outcome(t, seq!["create"@, "user"@, name]).1->Ok_0.data == DataView::UserId(
            parse_i32_spec(id_token)->Ok_0 as int,
        ),
    ensures
        ({
            let created = outcome(t, seq!["create"@, "user"@, name]).0;
            let id = parse_i32_spec(id_token)->Ok_0 as int;
            outcome(created, seq!["list"@, "user"@, id_token]) == (
                created,
                Ok::<ReplyView, CommandError>(
                    ReplyView {
                        message: "Listing user with ID: "@ + id_token,
                        data: DataView::User(UserView { id, name }, Seq::empty()),
                    },
                ),
            )
        }),
{
    reveal_strlit("create");
    reveal_strlit("delete");
    reveal_strlit("list");
    reveal_strlit("user");
    reveal_strlit("role");
    let create = seq!["create"@, "user"@, name];
    let list = seq!["list"@, "user"@, id_token];
    assert(shape_of(create) == Some(Shape::CreateUser));
    assert("list"@.len() == 4 && "create"@.len() == 6 && "delete"@.len() == 6);
    assert("user"@[0] == 'u' && "role"@[0] == 'r');
    assert(list[0] == "list"@ && list[1] == "user"@);
    assert(shape_of(list) == Some(Shape::ListUser));
    assert(create[2] == name);
    assert(list[2] == id_token);
    law_created_user_is_found(t, name);
}

/// Whatever tokens arrive, a well-formed store is well formed afterwards.
pub proof fn law_commands_keep_the_store_well_formed(store: Tables, t: Seq<Seq<char>>)
    requires
        store.wf(),
    ensures
        outcome(store, t).0.wf(),
{
    if let Ok(command) = command_of(t) {
        let request = opening(command).1;
        law_store_stays_well_formed(store, request);
    }
}

/// A command that fails leaves the store as it was.
pub proof fn law_failed_command_changes_nothing(store: Tables, t: Seq<Seq<char>>)
    requires
        outcome(store, t).1 is Err,
    ensures
        outcome(store, t).0 == store,
{
}

/// The four `list` commands leave the store as it was.
pub proof fn law_list_commands_change_nothing(store: Tables, t: Seq<Seq<char>>)
    requires
        shape_of(t) == Some(Shape::ListUsers) || shape_of(t) == Some(Shape::ListUser) || shape_of(
            t,
        ) == Some(Shape::ListRoles) || shape_of(t) == Some(Shape::ListRole),
    ensures
        outcome(store, t).0 == store,
{
}

} // verus!
