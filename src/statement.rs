//! The statements of the unit of work. Values are always bound as positional
//! parameters: the text of a statement depends on its kind alone.
use vstd::prelude::*;

verus! {

/// The statements this library issues.
#[derive(Debug, Clone, Copy, PartialEq, Eq, Structural)]
pub enum StatementKind {
    /// Creates the `users` table unless it exists; no parameters.
    CreateUsersTable,
    /// Inserts one user; parameters `name`, `age`.
    InsertUser,
    /// Sets the age of every user of a name; parameters `age`, `name`.
    UpdateAge,
    /// Reads `id`, `name`, `age` of every user of a name; parameter `name`.
    SelectByName,
    /// Deletes every user of a name; parameter `name`.
    DeleteByName,
}

impl StatementKind {
    pub open spec fn spec_sql(self) -> &'static str {
        match self {
            StatementKind::CreateUsersTable =>
                "CREATE TABLE IF NOT EXISTS users (id SERIAL PRIMARY KEY, name TEXT NOT NULL, age INT NOT NULL)",
            StatementKind::InsertUser => "INSERT INTO users (name, age) VALUES ($1, $2)",
            StatementKind::UpdateAge => "UPDATE users SET age = $1 WHERE name = $2",
            StatementKind::SelectByName => "SELECT id, name, age FROM users WHERE name = $1",
            StatementKind::DeleteByName => "DELETE FROM users WHERE name = $1",
        }
    }

    /// The SQL text of the statement, with `$n` placeholders for its parameters.
    pub fn sql(&self) -> (r: &'static str)
        ensures
            r == self.spec_sql(),
    {
        match self {
            StatementKind::CreateUsersTable =>
                "CREATE TABLE IF NOT EXISTS users (id SERIAL PRIMARY KEY, name TEXT NOT NULL, age INT NOT NULL)",
            StatementKind::InsertUser => "INSERT INTO users (name, age) VALUES ($1, $2)",
            StatementKind::UpdateAge => "UPDATE users SET age = $1 WHERE name = $2",
            StatementKind::SelectByName => "SELECT id, name, age FROM users WHERE name = $1",
            StatementKind::DeleteByName => "DELETE FROM users WHERE name = $1",
        }
    }
}

/// A value bound to a placeholder.
#[derive(Debug)]
pub enum Param {
    Text(String),
    Int(i32),
}

pub enum ParamV {
    Text(Seq<char>),
    Int(int),
}

impl View for Param {
    type V = ParamV;

    open spec fn view(&self) -> ParamV {
        match self {
            Param::Text(s) => ParamV::Text(s@),
            Param::Int(v) => ParamV::Int(*v as int),
        }
    }
}

/// A statement together with the values bound to its placeholders, `$1` first.
#[derive(Debug)]
pub struct Statement {
    pub kind: StatementKind,
    pub params: Vec<Param>,
}

pub struct StatementV {
    pub kind: StatementKind,
    pub params: Seq<ParamV>,
}

impl View for Statement {
    type V = StatementV;

    open spec fn view(&self) -> StatementV {
        StatementV { kind: self.kind, params: self.params@.map_values(|p: Param| p@) }
    }
}

/// What one unit of work writes and reads: it inserts a user `name` of age
/// `age`, sets the age of the users of that name to `new_age`, reads them back
/// and deletes them.
#[derive(Debug)]
pub struct WorkPlan {
    pub name: String,
    pub age: i32,
    pub new_age: i32,
}

pub struct PlanV {
    pub name: Seq<char>,
    pub age: int,
    pub new_age: int,
}

impl View for WorkPlan {
    type V = PlanV;

    open spec fn view(&self) -> PlanV {
        PlanV { name: self.name@, age: self.age as int, new_age: self.new_age as int }
    }
}

impl WorkPlan {
    pub fn new(name: String, age: i32, new_age: i32) -> (r: WorkPlan)
        ensures
            r@ == (PlanV { name: name@, age: age as int, new_age: new_age as int }),
    {
        WorkPlan { name, age, new_age }
    }

    /// The plan of the demonstration: user "Bob", aged 25, then 30.
    pub fn demo() -> (r: WorkPlan)
        ensures
            r@ == (PlanV { name: "Bob"@, age: 25, new_age: 30 }),
    {
        WorkPlan { name: String::from_str("Bob"), age: 25, new_age: 30 }
    }
}

pub open spec fn bootstrap_spec() -> StatementV {
    StatementV { kind: StatementKind::CreateUsersTable, params: Seq::empty() }
}

pub open spec fn insert_spec(p: PlanV) -> StatementV {
    StatementV { kind: StatementKind::InsertUser, params: seq![ParamV::Text(p.name), ParamV::Int(p.age)] }
}

pub open spec fn update_spec(p: PlanV) -> StatementV {
    StatementV { kind: StatementKind::UpdateAge, params: seq![ParamV::Int(p.new_age), ParamV::Text(p.name)] }
}

pub open spec fn select_spec(p: PlanV) -> StatementV {
    StatementV { kind: StatementKind::SelectByName, params: seq![ParamV::Text(p.name)] }
}

pub open spec fn delete_spec(p: PlanV) -> StatementV {
    StatementV { kind: StatementKind::DeleteByName, params: seq![ParamV::Text(p.name)] }
}

/// The statement that creates the `users` table where it is absent.
pub fn bootstrap_statement() -> (r: Statement)
    ensures
        r@ == bootstrap_spec(),
{
    let r = Statement { kind: StatementKind::CreateUsersTable, params: Vec::new() };
    assert(r@.params =~= Seq::<ParamV>::empty());
    r
}

pub fn insert_statement(plan: &WorkPlan) -> (r: Statement)
    ensures
        r@ == insert_spec(plan@),
{
    let r = Statement {
        kind: StatementKind::InsertUser,
        params: vec![Param::Text(plan.name.clone()), Param::Int(plan.age)],
    };
    assert(r@.params =~= insert_spec(plan@).params);
    r
}

pub fn update_statement(plan: &WorkPlan) -> (r: Statement)
    ensures
        r@ == update_spec(plan@),
{
    let r = Statement {
        kind: StatementKind::UpdateAge,
        params: vec![Param::Int(plan.new_age), Param::Text(plan.name.clone())],
    };
    assert(r@.params =~= update_spec(plan@).params);
    r
}

pub fn select_statement(plan: &WorkPlan) -> (r: Statement)
    ensures
        r@ == select_spec(plan@),
{
    let r = Statement { kind: StatementKind::SelectByName, params: vec![Param::Text(plan.name.clone())] };
    assert(r@.params =~= select_spec(plan@).params);
    r
}

pub fn delete_statement(plan: &WorkPlan) -> (r: Statement)
    ensures
        r@ == delete_spec(plan@),
{
    let r = Statement { kind: StatementKind::DeleteByName, params: vec![Param::Text(plan.name.clone())] };
    assert(r@.params =~= delete_spec(plan@).params);
    r
}

} // verus!
