use rbac::command::CommandError;
use rbac::database::DataBase;
use rbac::dispatch::{handle_command, Data, Reply};
use rbac::model::{Role, StoreError, User};
use rbac::text::{tokenize, ParseError};

fn setup_db() -> DataBase {
    let db = DataBase::create_database("sqlite://:memory:").unwrap();
    db.create_tables().unwrap();
    db
}

fn run(db: &mut DataBase, line: &str) -> Result<Reply, CommandError> {
    handle_command(db, tokenize(line))
}

fn user(id: i32, name: &str) -> User {
    User { id, name: name.to_string() }
}

fn role(slug: &str, name: &str, permissions: &str) -> Role {
    Role { slug: slug.to_string(), name: name.to_string(), permissions: permissions.to_string() }
}

#[test]
fn tests_test_create_user() {
    let mut db = setup_db();

    run(&mut db, "create user test_user").unwrap();

    let users = db.list_users().unwrap();
    let user = users.iter().find(|u| u.name == "test_user").unwrap();

    assert_eq!(user.name, "test_user");
}

#[test]
fn tests_test_delete_user() {
    let mut db = setup_db();

    run(&mut db, "create user test_user").unwrap();
    run(&mut db, "delete user 1").unwrap();

    let result = run(&mut db, "list user 1");

    assert!(result.is_err());
}

#[test]
fn tests_test_create_role() {
    let mut db = setup_db();

    run(&mut db, "create role test_role TestRole read,write").unwrap();

    let role = db.get_role("test_role").unwrap();

    assert_eq!(role.slug, "test_role");
    assert_eq!(role.name, "TestRole");
    assert_eq!(role.permissions, "read,write");
}

#[test]
fn tests_test_delete_role() {
    let mut db = setup_db();

    run(&mut db, "create role test_role TestRole read,write").unwrap();
    run(&mut db, "delete role test_role").unwrap();

    let result = run(&mut db, "list role test_role");

    assert!(result.is_err());
}

#[test]
fn tests_test_update_role() {
    let mut db = setup_db();

    run(&mut db, "create role test_role TestRole read,write").unwrap();
    run(&mut db, "update role test_role permissions read,write,delete").unwrap();

    let role = db.get_role("test_role").unwrap();

    assert_eq!(role.slug, "test_role");
    assert_eq!(role.name, "TestRole");
    assert_eq!(role.permissions, "read,write,delete");
}

#[test]
fn tests_test_assign_role() {
    let mut db = setup_db();

    run(&mut db, "create user test_user").unwrap();
    run(&mut db, "create role test_role TestRole read,write").unwrap();
    run(&mut db, "assign role test_role to user 1").unwrap();

    let roles = db.get_user_roles(1).unwrap();
    let slug = roles[0].slug.clone();

    assert_eq!(slug, "test_role");
}

#[test]
fn tests_test_unassign_role() {
    let mut db = setup_db();

    run(&mut db, "create user test_user").unwrap();
    run(&mut db, "create role test_role TestRole read,write").unwrap();
    run(&mut db, "assign role test_role to user 1").unwrap();
    run(&mut db, "unassign role test_role from user 1").unwrap();

    let result = db.get_user_roles(1).unwrap().into_iter().next().ok_or(StoreError::NotFound);

    assert!(result.is_err());
}

#[test]
fn tests_test_list_roles() {
    let mut db = setup_db();

    run(&mut db, "create role test_role1 TestRole1 read,write").unwrap();
    run(&mut db, "create role test_role2 TestRole2 read,write").unwrap();

    let reply = run(&mut db, "list roles").unwrap();
    let roles = match reply.data {
        Data::Roles(roles) => roles,
        other => panic!("no roles in {:?}", other),
    };

    assert_eq!(roles.len(), 2);
    assert_eq!(roles[0].slug, "test_role1");
    assert_eq!(roles[0].name, "TestRole1");
    assert_eq!(roles[0].permissions, "read,write");
    assert_eq!(roles[1].slug, "test_role2");
    assert_eq!(roles[1].name, "TestRole2");
    assert_eq!(roles[1].permissions, "read,write");
}

#[test]
fn tests_test_list_role() {
    let mut db = setup_db();

    run(&mut db, "create role test_role TestRole read,write").unwrap();

    let reply = run(&mut db, "list role test_role").unwrap();
    let role = match reply.data {
        Data::Role(role) => role,
        other => panic!("no role in {:?}", other),
    };

    assert_eq!(role.slug, "test_role");
    assert_eq!(role.name, "TestRole");
    assert_eq!(role.permissions, "read,write");
}

#[test]
fn tests_test_list_users() {
    let mut db = setup_db();

    run(&mut db, "create user test_user1").unwrap();
    run(&mut db, "create user test_user2").unwrap();

    let reply = run(&mut db, "list users").unwrap();
    let users = match reply.data {
        Data::Users(users) => users,
        other => panic!("no users in {:?}", other),
    };

    assert_eq!(users.len(), 2);
    assert_eq!(users[0].name, "test_user1");
    assert_eq!(users[1].name, "test_user2");
}

#[test]
fn tests_test_list_user() {
    let mut db = setup_db();

    run(&mut db, "create user test_user").unwrap();

    let reply = run(&mut db, "list user 1").unwrap();
    let user = match reply.data {
        Data::User(user, _) => user,
        other => panic!("no user in {:?}", other),
    };

    assert_eq!(user.id, 1);
    assert_eq!(user.name, "test_user");
}

#[test]
fn round_trip_of_a_created_user() {
    let mut db = setup_db();
    run(&mut db, "create user someone").unwrap();
    let created = run(&mut db, "create user alice").unwrap();
    assert_eq!(created.message, "Creating user with name: alice");
    let id = match created.data {
        Data::UserId(id) => id,
        other => panic!("no id in {:?}", other),
    };
    assert_eq!(id, 2);
    let listed = run(&mut db, &format!("list user {}", id)).unwrap();
    assert_eq!(
        listed,
        Reply {
            message: "Listing user with ID: 2".to_string(),
            data: Data::User(user(2, "alice"), vec![]),
        }
    );
}

#[test]
fn deleted_user_is_not_found() {
    let mut db = setup_db();
    run(&mut db, "create user a").unwrap();
    let deleted = run(&mut db, "delete user 1").unwrap();
    assert_eq!(
        deleted,
        Reply { message: "Deleting user with ID: 1".to_string(), data: Data::Nothing }
    );
    assert_eq!(run(&mut db, "list user 1"), Err(CommandError::Store(StoreError::NotFound)));
}

#[test]
fn second_role_of_a_slug_is_a_write_error() {
    let mut db = setup_db();
    assert_eq!(
        run(&mut db, "create role r R p"),
        Ok(Reply {
            message: "Creating role with slug: r, name: R, permissions: p".to_string(),
            data: Data::Nothing,
        })
    );
    assert_eq!(run(&mut db, "create role r R p"), Err(CommandError::Store(StoreError::Write)));
    assert_eq!(db.list_roles().unwrap(), vec![role("r", "R", "p")]);
}

#[test]
fn assignment_shows_up_and_goes_away() {
    let mut db = setup_db();
    run(&mut db, "create user u").unwrap();
    run(&mut db, "create role r R p").unwrap();
    let assigned = run(&mut db, "assign role r to user 1").unwrap();
    assert_eq!(assigned.message, "Assigning role r to user with ID 1");
    assert_eq!(
        run(&mut db, "list user 1").unwrap().data,
        Data::User(user(1, "u"), vec![role("r", "R", "p")])
    );
    let unassigned = run(&mut db, "unassign role r from user 1").unwrap();
    assert_eq!(unassigned.message, "Unassigning role r from user with ID 1");
    assert_eq!(run(&mut db, "list user 1").unwrap().data, Data::User(user(1, "u"), vec![]));
}

#[test]
fn update_of_permissions_leaves_the_name() {
    let mut db = setup_db();
    run(&mut db, "create role r R p").unwrap();
    let updated = run(&mut db, "update role r permissions x,y").unwrap();
    assert_eq!(updated.message, "Updating field permissions of role with slug r: x,y");
    assert_eq!(db.list_roles().unwrap(), vec![role("r", "R", "x,y")]);
}

#[test]
fn update_of_a_user_changes_the_name() {
    let mut db = setup_db();
    run(&mut db, "create user u").unwrap();
    let updated = run(&mut db, "update user 1 name v").unwrap();
    assert_eq!(updated.message, "Updating field name of user with ID 1: v");
    assert_eq!(db.list_users().unwrap(), vec![user(1, "v")]);
}

#[test]
fn forbidden_fields_never_reach_the_store() {
    let mut db = setup_db();
    run(&mut db, "create user u").unwrap();
    run(&mut db, "create role r R p").unwrap();
    assert_eq!(run(&mut db, "update role r slug s"), Err(CommandError::Field));
    assert_eq!(run(&mut db, "update user 1 id 9"), Err(CommandError::Field));
    assert_eq!(
        run(&mut db, "update user 1 name=name,id x"),
        Err(CommandError::Field)
    );
    assert_eq!(run(&mut db, "update user 1 permissions x"), Err(CommandError::Field));
    assert_eq!(db.list_users().unwrap(), vec![user(1, "u")]);
    assert_eq!(db.list_roles().unwrap(), vec![role("r", "R", "p")]);
}

#[test]
fn unrecognized_tokens_change_nothing() {
    let mut db = setup_db();
    run(&mut db, "create user u").unwrap();
    assert_eq!(handle_command(&mut db, vec!["foo", "bar"]), Err(CommandError::Unrecognized));
    assert_eq!(run(&mut db, ""), Err(CommandError::Unrecognized));
    assert_eq!(run(&mut db, "create user"), Err(CommandError::Unrecognized));
    assert_eq!(run(&mut db, "create user a b"), Err(CommandError::Unrecognized));
    assert_eq!(run(&mut db, "Create user a"), Err(CommandError::Unrecognized));
    assert_eq!(run(&mut db, "assign role r for user 1"), Err(CommandError::Unrecognized));
    assert_eq!(run(&mut db, "unassign role r to user 1"), Err(CommandError::Unrecognized));
    assert_eq!(run(&mut db, "list user"), Err(CommandError::Unrecognized));
    assert_eq!(run(&mut db, "list users now"), Err(CommandError::Unrecognized));
    assert_eq!(db.list_users().unwrap(), vec![user(1, "u")]);
}

#[test]
fn id_that_is_no_integer_is_a_parse_error() {
    let mut db = setup_db();
    run(&mut db, "create user u").unwrap();
    assert_eq!(
        run(&mut db, "delete user one"),
        Err(CommandError::Parse(ParseError::InvalidDigit))
    );
    assert_eq!(
        run(&mut db, "list user 99999999999"),
        Err(CommandError::Parse(ParseError::OutOfRange))
    );
    assert_eq!(
        run(&mut db, "update user x password y"),
        Err(CommandError::Parse(ParseError::InvalidDigit))
    );
    assert_eq!(
        handle_command(&mut db, vec!["delete", "user", ""]),
        Err(CommandError::Parse(ParseError::Empty))
    );
    assert_eq!(db.list_users().unwrap(), vec![user(1, "u")]);
}

#[test]
fn description_quotes_the_id_as_typed() {
    let mut db = setup_db();
    run(&mut db, "create user u").unwrap();
    let reply = run(&mut db, "list user +001").unwrap();
    assert_eq!(reply.message, "Listing user with ID: +001");
    assert_eq!(reply.data, Data::User(user(1, "u"), vec![]));
}

#[test]
fn list_commands_of_an_empty_store() {
    let mut db = setup_db();
    assert_eq!(
        run(&mut db, "list users"),
        Ok(Reply { message: "Listing all users".to_string(), data: Data::Users(vec![]) })
    );
    assert_eq!(
        run(&mut db, "list roles"),
        Ok(Reply { message: "Listing all roles".to_string(), data: Data::Roles(vec![]) })
    );
    assert_eq!(run(&mut db, "list role r"), Err(CommandError::Store(StoreError::NotFound)));
}

#[test]
fn two_creations_get_two_ids() {
    let mut db = setup_db();
    let first = run(&mut db, "create user a").unwrap().data;
    let second = run(&mut db, "create user b").unwrap().data;
    assert_eq!(first, Data::UserId(1));
    assert_eq!(second, Data::UserId(2));
}

#[test]
fn delete_commands_describe_what_they_did() {
    let mut db = setup_db();
    assert_eq!(
        run(&mut db, "delete role r"),
        Ok(Reply { message: "Deleting role with slug: r".to_string(), data: Data::Nothing })
    );
    run(&mut db, "create role r R p").unwrap();
    assert_eq!(
        run(&mut db, "list role r"),
        Ok(Reply {
            message: "Listing role with slug: r".to_string(),
            data: Data::Role(role("r", "R", "p")),
        })
    );
}
