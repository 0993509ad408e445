use pg_txn::statement::{
    bootstrap_statement, delete_statement, insert_statement, select_statement, update_statement,
    Param, StatementKind, WorkPlan,
};

#[test]
fn demo_plan_is_bob_25_then_30() {
    let p = WorkPlan::demo();
    assert_eq!(p.name, "Bob");
    assert_eq!(p.age, 25);
    assert_eq!(p.new_age, 30);
}

#[test]
fn sql_text_uses_positional_placeholders() {
    assert_eq!(StatementKind::InsertUser.sql(), "INSERT INTO users (name, age) VALUES ($1, $2)");
    assert_eq!(StatementKind::UpdateAge.sql(), "UPDATE users SET age = $1 WHERE name = $2");
    assert_eq!(StatementKind::SelectByName.sql(), "SELECT id, name, age FROM users WHERE name = $1");
    assert_eq!(StatementKind::DeleteByName.sql(), "DELETE FROM users WHERE name = $1");
    assert!(StatementKind::CreateUsersTable.sql().starts_with("CREATE TABLE IF NOT EXISTS users"));
}

#[test]
fn values_are_bound_not_written_into_the_text() {
    let p = WorkPlan::new("x'; DROP TABLE users; --".to_string(), 1, 2);
    let s = insert_statement(&p);
    assert_eq!(s.kind.sql(), "INSERT INTO users (name, age) VALUES ($1, $2)");
    assert!(matches!(&s.params[0], Param::Text(t) if t == "x'; DROP TABLE users; --"));
    assert!(matches!(&s.params[1], Param::Int(1)));
}

#[test]
fn statements_bind_the_plan_values() {
    let p = WorkPlan::new("Zoe".to_string(), 7, 8);
    let u = update_statement(&p);
    assert_eq!(u.kind, StatementKind::UpdateAge);
    assert!(matches!(&u.params[0], Param::Int(8)));
    assert!(matches!(&u.params[1], Param::Text(t) if t == "Zoe"));
    let s = select_statement(&p);
    assert_eq!(s.params.len(), 1);
    assert!(matches!(&s.params[0], Param::Text(t) if t == "Zoe"));
    let d = delete_statement(&p);
    assert_eq!(d.kind, StatementKind::DeleteByName);
    assert!(matches!(&d.params[0], Param::Text(t) if t == "Zoe"));
}

#[test]
fn bootstrap_has_no_parameters() {
    let b = bootstrap_statement();
    assert_eq!(b.kind, StatementKind::CreateUsersTable);
    assert!(b.params.is_empty());
    assert_eq!(
        b.kind.sql(),
        "CREATE TABLE IF NOT EXISTS users (id SERIAL PRIMARY KEY, name TEXT NOT NULL, age INT NOT NULL)"
    );
}
