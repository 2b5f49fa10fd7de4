use rbac::database::DataBase;
use rbac::model::{Role, RoleField, StoreError, User, UserField};

fn setup_db() -> DataBase {
    let db = DataBase::create_database("sqlite://:memory:").unwrap();
    db.create_tables().unwrap();
    db
}

fn user_named(db: &DataBase, name: &str) -> Option<User> {
    db.list_users().unwrap().into_iter().find(|u| u.name == name)
}

#[test]
fn test_create_user() {
    let mut db = setup_db();

    db.create_user("test_user").unwrap();

    let user = user_named(&db, "test_user").unwrap();

    assert_eq!(user.name, "test_user");
}

#[test]
fn test_delete_user() {
    let mut db = setup_db();

    db.create_user("test_user").unwrap();
    db.delete_user(1).unwrap();

    let result = db.get_user(1);

    assert!(result.is_err());
}

#[test]
fn test_update_user() {
    let mut db = setup_db();

    db.create_user("test_user").unwrap();

    let user = user_named(&db, "test_user").unwrap();

    db.update_user(user.id, UserField::Name, "updated_user").unwrap();

    let updated_user = db.get_user(user.id).unwrap();

    assert_eq!(updated_user.name, "updated_user");
}

#[test]
fn test_create_role() {
    let mut db = setup_db();

    db.create_role("test_role", "Test Role", "read,write").unwrap();

    let role = db.get_role("test_role").unwrap();

    assert_eq!(role.slug, "test_role");
    assert_eq!(role.name, "Test Role");
    assert_eq!(role.permissions, "read,write");
}

#[test]
fn test_delete_role() {
    let mut db = setup_db();

    db.create_role("test_role", "Test Role", "read,write").unwrap();
    db.delete_role("test_role").unwrap();

    let result = db.get_role("test_role");

    assert!(result.is_err());
}

#[test]
fn test_update_role() {
    let mut db = setup_db();

    db.create_role("test_role", "Test Role", "read,write").unwrap();
    db.update_role("test_role", RoleField::Permissions, "read,write,delete").unwrap();

    let role = db.get_role("test_role").unwrap();

    assert_eq!(role.slug, "test_role");
    assert_eq!(role.name, "Test Role");
    assert_eq!(role.permissions, "read,write,delete");
}

#[test]
fn test_assign_role() {
    let mut db = setup_db();

    db.create_user("test_user").unwrap();
    db.create_role("test_role", "Test Role", "read,write").unwrap();
    db.assign_role(1, "test_role").unwrap();

    let roles = db.get_user_roles(1).unwrap();
    let slug = roles[0].slug.clone();

    assert_eq!(slug, "test_role");
}

#[test]
fn test_unassign_role() {
    let mut db = setup_db();

    db.create_user("test_user").unwrap();
    db.create_role("test_role", "Test Role", "read,write").unwrap();
    db.assign_role(1, "test_role").unwrap();
    db.unassign_role(1, "test_role").unwrap();

    let result = db.get_user_roles(1).unwrap().into_iter().next().ok_or(StoreError::NotFound);

    assert!(result.is_err());
}

#[test]
fn test_list_roles() {
    let mut db = setup_db();

    db.create_role("test_role1", "Test Role 1", "read,write").unwrap();
    db.create_role("test_role2", "Test Role 2", "read,write").unwrap();

    let roles = db.list_roles().unwrap();

    assert_eq!(roles.len(), 2);
    assert_eq!(roles[0].slug, "test_role1");
    assert_eq!(roles[0].name, "Test Role 1");
    assert_eq!(roles[0].permissions, "read,write");
    assert_eq!(roles[1].slug, "test_role2");
    assert_eq!(roles[1].name, "Test Role 2");
    assert_eq!(roles[1].permissions, "read,write");
}

#[test]
fn test_list_role() {
    let mut db = setup_db();

    db.create_role("test_role", "Test Role", "read,write").unwrap();

    let role = db.list_role("test_role").unwrap();

    assert_eq!(role.slug, "test_role");
    assert_eq!(role.name, "Test Role");
    assert_eq!(role.permissions, "read,write");
}

#[test]
fn test_list_users() {
    let mut db = setup_db();

    db.create_user("test_user1").unwrap();
    db.create_user("test_user2").unwrap();

    let users = db.list_users().unwrap();

    assert_eq!(users.len(), 2);
    assert_eq!(users[0].name, "test_user1");
    assert_eq!(users[1].name, "test_user2");
}

#[test]
fn test_list_user() {
    let mut db = setup_db();

    db.create_user("test_user").unwrap();

    let (user, roles) = db.list_user(1).unwrap();

    assert_eq!(user.id, 1);
    assert_eq!(user.name, "test_user");
    assert!(roles.is_empty());
}

#[test]
fn create_database_opens_only_stores_in_memory() {
    assert!(DataBase::create_database("sqlite::memory:").is_ok());
    assert!(DataBase::create_database("sqlite://:memory:").is_ok());
    assert_eq!(
        DataBase::create_database("sqlite://db.sqlite3").err(),
        Some(StoreError::Connection)
    );
    assert_eq!(DataBase::create_database("").err(), Some(StoreError::Connection));
}

#[test]
fn create_tables_may_be_called_again_and_again() {
    let mut db = setup_db();
    db.create_user("a").unwrap();
    db.create_tables().unwrap();
    db.create_tables().unwrap();
    assert_eq!(db.list_users().unwrap(), vec![User { id: 1, name: "a".to_string() }]);
}

#[test]
fn ids_count_up_and_are_not_handed_out_again() {
    let mut db = DataBase::new();
    assert_eq!(db.create_user("a"), Ok(1));
    assert_eq!(db.create_user("b"), Ok(2));
    db.delete_user(2).unwrap();
    assert_eq!(db.create_user("c"), Ok(3));
    db.delete_user(1).unwrap();
    db.delete_user(3).unwrap();
    assert_eq!(db.create_user("d"), Ok(4));
    assert_eq!(db.list_users().unwrap(), vec![User { id: 4, name: "d".to_string() }]);
}

#[test]
fn names_of_users_may_repeat() {
    let mut db = DataBase::new();
    assert_eq!(db.create_user("same"), Ok(1));
    assert_eq!(db.create_user("same"), Ok(2));
}

#[test]
fn delete_of_a_missing_row_succeeds() {
    let mut db = DataBase::new();
    db.create_user("a").unwrap();
    assert_eq!(db.delete_user(7), Ok(()));
    assert_eq!(db.delete_user(-1), Ok(()));
    assert_eq!(db.delete_role("none"), Ok(()));
    assert_eq!(db.unassign_role(1, "none"), Ok(()));
    assert_eq!(db.list_users().unwrap().len(), 1);
}

#[test]
fn update_of_a_missing_row_succeeds_and_changes_nothing() {
    let mut db = DataBase::new();
    db.create_user("a").unwrap();
    db.create_role("r", "R", "p").unwrap();
    assert_eq!(db.update_user(2, UserField::Name, "x"), Ok(()));
    assert_eq!(db.update_role("q", RoleField::Name, "x"), Ok(()));
    assert_eq!(db.get_user(1).unwrap().name, "a");
    assert_eq!(db.get_role("r").unwrap().name, "R");
}

#[test]
fn update_touches_one_row_and_one_field() {
    let mut db = DataBase::new();
    db.create_role("r", "R", "p").unwrap();
    db.create_role("s", "S", "q").unwrap();
    db.update_role("r", RoleField::Permissions, "x,y").unwrap();
    db.update_role("s", RoleField::Name, "T").unwrap();
    assert_eq!(
        db.list_roles().unwrap(),
        vec![
            Role { slug: "r".to_string(), name: "R".to_string(), permissions: "x,y".to_string() },
            Role { slug: "s".to_string(), name: "T".to_string(), permissions: "q".to_string() },
        ]
    );
}

#[test]
fn duplicate_slug_is_a_write_error() {
    let mut db = DataBase::new();
    assert_eq!(db.create_role("r", "R", "p"), Ok(()));
    assert_eq!(db.create_role("r", "Other", "q"), Err(StoreError::Write));
    assert_eq!(db.list_roles().unwrap().len(), 1);
    assert_eq!(db.get_role("r").unwrap().name, "R");
}

#[test]
fn assignment_needs_user_and_role_and_is_made_once() {
    let mut db = DataBase::new();
    db.create_user("u").unwrap();
    db.create_role("r", "R", "p").unwrap();
    assert_eq!(db.assign_role(2, "r"), Err(StoreError::Write));
    assert_eq!(db.assign_role(1, "q"), Err(StoreError::Write));
    assert_eq!(db.assign_role(1, "r"), Ok(()));
    assert_eq!(db.assign_role(1, "r"), Err(StoreError::Write));
    assert_eq!(db.get_user_roles(1).unwrap().len(), 1);
}

#[test]
fn rows_that_are_referred_to_cannot_be_deleted() {
    let mut db = DataBase::new();
    db.create_user("u").unwrap();
    db.create_role("r", "R", "p").unwrap();
    db.assign_role(1, "r").unwrap();
    assert_eq!(db.delete_user(1), Err(StoreError::Write));
    assert_eq!(db.delete_role("r"), Err(StoreError::Write));
    assert!(db.get_user(1).is_ok());
    assert!(db.get_role("r").is_ok());
    db.unassign_role(1, "r").unwrap();
    assert_eq!(db.delete_user(1), Ok(()));
    assert_eq!(db.delete_role("r"), Ok(()));
    assert_eq!(db.get_user(1).err(), Some(StoreError::NotFound));
    assert_eq!(db.get_role("r").err(), Some(StoreError::NotFound));
}

#[test]
fn roles_of_a_user_come_in_the_order_of_the_roles() {
    let mut db = DataBase::new();
    db.create_user("u").unwrap();
    db.create_user("v").unwrap();
    db.create_role("a", "A", "").unwrap();
    db.create_role("b", "B", "").unwrap();
    db.create_role("c", "C", "").unwrap();
    db.assign_role(1, "c").unwrap();
    db.assign_role(2, "b").unwrap();
    db.assign_role(1, "a").unwrap();
    let slugs: Vec<String> = db.get_user_roles(1).unwrap().into_iter().map(|r| r.slug).collect();
    assert_eq!(slugs, vec!["a", "c"]);
    let slugs: Vec<String> = db.get_user_roles(2).unwrap().into_iter().map(|r| r.slug).collect();
    assert_eq!(slugs, vec!["b"]);
    assert!(db.get_user_roles(3).unwrap().is_empty());
}

#[test]
fn role_line_shows_the_three_fields() {
    let role = Role {
        slug: "admin".to_string(),
        name: "Administrator".to_string(),
        permissions: "read,write".to_string(),
    };
    assert_eq!(role.line(), "Role: slug=admin, name=Administrator, permissions=read,write");
}

#[test]
fn clone_keeps_the_fields() {
    let user = User { id: 5, name: "n".to_string() };
    assert_eq!(user.clone(), user);
    let role = Role { slug: "s".to_string(), name: "n".to_string(), permissions: "p".to_string() };
    assert_eq!(role.clone(), role);
}
