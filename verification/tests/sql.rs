use rbac::model::{RoleField, UserField};
use rbac::request::Request;
use rbac::sql::{schema, statement, Param, Statement};

fn text(s: &str) -> Param {
    Param::Text(s.to_string())
}

fn stmt(text: &str, params: Vec<Param>) -> Statement {
    Statement { text: text.to_string(), params }
}

#[test]
fn schema_creates_three_tables_where_missing() {
    let s = schema();
    assert!(s.params.is_empty());
    let expected = [
        "CREATE TABLE IF NOT EXISTS users (id INTEGER PRIMARY KEY AUTOINCREMENT, name TEXT);",
        "CREATE TABLE IF NOT EXISTS roles (slug TEXT PRIMARY KEY, name TEXT, permissions TEXT);",
        "CREATE TABLE IF NOT EXISTS users_roles (user_id INTEGER REFERENCES users(id), \
         role_slug TEXT REFERENCES roles(slug), PRIMARY KEY (user_id, role_slug));",
    ];
    assert_eq!(s.text, expected.join(" "));
}

#[test]
fn statements_of_users() {
    assert_eq!(
        statement(&Request::CreateUser { name: "n".to_string() }),
        stmt("INSERT INTO users (name) VALUES (?)", vec![text("n")])
    );
    assert_eq!(
        statement(&Request::DeleteUser { id: 3 }),
        stmt("DELETE FROM users WHERE id = ?", vec![Param::Int(3)])
    );
    assert_eq!(
        statement(&Request::UpdateUser { id: 3, field: UserField::Name, value: "v".to_string() }),
        stmt("UPDATE users SET name = ? WHERE id = ?", vec![text("v"), Param::Int(3)])
    );
    assert_eq!(
        statement(&Request::GetUser { id: 3 }),
        stmt("SELECT id, name FROM users WHERE id = ?", vec![Param::Int(3)])
    );
    assert_eq!(statement(&Request::ListUsers), stmt("SELECT id, name FROM users", vec![]));
}

#[test]
fn statements_of_roles() {
    assert_eq!(
        statement(&Request::CreateRole {
            slug: "s".to_string(),
            name: "n".to_string(),
            permissions: "p".to_string(),
        }),
        stmt(
            "INSERT INTO roles (slug, name, permissions) VALUES (?, ?, ?)",
            vec![text("s"), text("n"), text("p")]
        )
    );
    assert_eq!(
        statement(&Request::DeleteRole { slug: "s".to_string() }),
        stmt("DELETE FROM roles WHERE slug = ?", vec![text("s")])
    );
    assert_eq!(
        statement(&Request::UpdateRole {
            slug: "s".to_string(),
            field: RoleField::Name,
            value: "v".to_string(),
        }),
        stmt("UPDATE roles SET name = ? WHERE slug = ?", vec![text("v"), text("s")])
    );
    assert_eq!(
        statement(&Request::UpdateRole {
            slug: "s".to_string(),
            field: RoleField::Permissions,
            value: "v".to_string(),
        }),
        stmt("UPDATE roles SET permissions = ? WHERE slug = ?", vec![text("v"), text("s")])
    );
    assert_eq!(
        statement(&Request::GetRole { slug: "s".to_string() }),
        stmt("SELECT slug, name, permissions FROM roles WHERE slug = ?", vec![text("s")])
    );
    assert_eq!(
        statement(&Request::ListRoles),
        stmt("SELECT slug, name, permissions FROM roles", vec![])
    );
}

#[test]
fn statements_of_assignments() {
    assert_eq!(
        statement(&Request::AssignRole { user_id: 3, slug: "s".to_string() }),
        stmt(
            "INSERT INTO users_roles (user_id, role_slug) VALUES (?, ?)",
            vec![Param::Int(3), text("s")]
        )
    );
    assert_eq!(
        statement(&Request::UnassignRole { user_id: 3, slug: "s".to_string() }),
        stmt(
            "DELETE FROM users_roles WHERE user_id = ? AND role_slug = ?",
            vec![Param::Int(3), text("s")]
        )
    );
    assert_eq!(
        statement(&Request::GetUserRoles { user_id: 3 }),
        stmt(
            "SELECT roles.slug, roles.name, roles.permissions FROM roles \
             JOIN users_roles ON roles.slug = users_roles.role_slug \
             WHERE users_roles.user_id = ?",
            vec![Param::Int(3)]
        )
    );
}

#[test]
fn values_never_reach_the_text() {
    let hostile = "x'; DROP TABLE users; --";
    let one = statement(&Request::UpdateUser {
        id: 1,
        field: UserField::Name,
        value: hostile.to_string(),
    });
    let other = statement(&Request::UpdateUser {
        id: 2,
        field: UserField::Name,
        value: "plain".to_string(),
    });
    assert_eq!(one.text, other.text);
    assert!(!one.text.contains("DROP"));
    assert_eq!(one.params, vec![text(hostile), Param::Int(1)]);
    assert_eq!(one.text.matches('?').count(), one.params.len());
}
