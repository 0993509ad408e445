use pg_txn::record::{Cell, DecodeError, DecodeFault};
use pg_txn::statement::{Param, Statement, StatementKind, WorkPlan};
use pg_txn::unit_of_work::{Action, Event, Phase, UnitOfWork, UowError};

fn bob_row(id: i32, age: i32) -> Vec<Cell> {
    vec![Cell::Int(id), Cell::Text("Bob".to_string()), Cell::Int(age)]
}

fn is_text(p: &Param, s: &str) -> bool {
    matches!(p, Param::Text(t) if t == s)
}

fn is_int(p: &Param, v: i32) -> bool {
    matches!(p, Param::Int(x) if *x == v)
}

fn expect_execute(a: Action) -> Statement {
    match a {
        Action::Execute(s) => s,
        other => panic!("expected Execute, got {:?}", other),
    }
}

fn expect_query(a: Action) -> Statement {
    match a {
        Action::Query(s) => s,
        other => panic!("expected Query, got {:?}", other),
    }
}

fn expect_abandon(a: Action) -> UowError {
    match a {
        Action::Abandon(e) => e,
        other => panic!("expected Abandon, got {:?}", other),
    }
}

#[test]
fn end_to_end_demo_selects_one_row_and_commits() {
    let (mut uow, a) = UnitOfWork::start(WorkPlan::demo());
    assert!(matches!(a, Action::Begin));
    assert_eq!(uow.phase(), Phase::Beginning);

    let ins = expect_execute(uow.on_event(Event::Begun));
    assert_eq!(ins.kind, StatementKind::InsertUser);
    assert_eq!(ins.params.len(), 2);
    assert!(is_text(&ins.params[0], "Bob"));
    assert!(is_int(&ins.params[1], 25));

    let upd = expect_execute(uow.on_event(Event::Executed(1)));
    assert_eq!(upd.kind, StatementKind::UpdateAge);
    assert_eq!(upd.params.len(), 2);
    assert!(is_int(&upd.params[0], 30));
    assert!(is_text(&upd.params[1], "Bob"));

    let sel = expect_query(uow.on_event(Event::Executed(1)));
    assert_eq!(sel.kind, StatementKind::SelectByName);
    assert_eq!(sel.params.len(), 1);
    assert!(is_text(&sel.params[0], "Bob"));

    let del = expect_execute(uow.on_event(Event::Rows(vec![bob_row(7, 30)])));
    assert_eq!(del.kind, StatementKind::DeleteByName);
    assert_eq!(del.params.len(), 1);
    assert!(is_text(&del.params[0], "Bob"));
    assert_eq!(uow.selected().len(), 1);
    assert_eq!(uow.selected()[0].id, 7);
    assert_eq!(uow.selected()[0].name, "Bob");
    assert_eq!(uow.selected()[0].age, 30);

    assert!(matches!(uow.on_event(Event::Executed(1)), Action::Commit));
    assert!(!uow.is_committed());
    assert!(matches!(uow.on_event(Event::Committed), Action::Done));
    assert!(uow.is_committed());
    assert_eq!(uow.phase(), Phase::Finished);
    assert!(matches!(uow.on_event(Event::Failed), Action::Done));
}

#[test]
fn program_order_of_actions() {
    let (mut uow, first) = UnitOfWork::start(WorkPlan::new("Ann".to_string(), 40, 41));
    let mut kinds: Vec<&str> = vec![];
    if matches!(first, Action::Begin) {
        kinds.push("begin");
    }
    let events = vec![
        Event::Begun,
        Event::Executed(1),
        Event::Executed(1),
        Event::Rows(vec![]),
        Event::Executed(0),
        Event::Committed,
    ];
    for ev in events {
        let k = match uow.on_event(ev) {
            Action::Begin => "begin",
            Action::Execute(s) => match s.kind {
                StatementKind::InsertUser => "insert",
                StatementKind::UpdateAge => "update",
                StatementKind::DeleteByName => "delete",
                _ => "other",
            },
            Action::Query(_) => "select",
            Action::Commit => "commit",
            Action::Done => "done",
            Action::Abandon(_) => "abandon",
        };
        kinds.push(k);
    }
    assert_eq!(kinds, vec!["begin", "insert", "update", "select", "delete", "commit", "done"]);
}

#[test]
fn zero_row_update_and_delete_still_commit() {
    let (mut uow, _) = UnitOfWork::start(WorkPlan::demo());
    uow.on_event(Event::Begun);
    uow.on_event(Event::Executed(1));
    let a = uow.on_event(Event::Executed(0));
    assert!(matches!(a, Action::Query(_)));
    uow.on_event(Event::Rows(vec![]));
    assert_eq!(uow.selected().len(), 0);
    assert!(matches!(uow.on_event(Event::Executed(0)), Action::Commit));
    assert!(matches!(uow.on_event(Event::Committed), Action::Done));
    assert!(uow.is_committed());
}

#[test]
fn failing_begin_abandons_with_transaction_start() {
    let (mut uow, _) = UnitOfWork::start(WorkPlan::demo());
    assert_eq!(expect_abandon(uow.on_event(Event::Failed)), UowError::TransactionStart);
    assert_eq!(uow.phase(), Phase::Aborted(UowError::TransactionStart));
}

#[test]
fn failing_insert_abandons() {
    let (mut uow, _) = UnitOfWork::start(WorkPlan::demo());
    uow.on_event(Event::Begun);
    let e = expect_abandon(uow.on_event(Event::Failed));
    assert_eq!(e, UowError::Statement(StatementKind::InsertUser));
}

#[test]
fn failing_update_abandons_and_never_commits() {
    let (mut uow, _) = UnitOfWork::start(WorkPlan::demo());
    uow.on_event(Event::Begun);
    uow.on_event(Event::Executed(1));
    let e = expect_abandon(uow.on_event(Event::Failed));
    assert_eq!(e, UowError::Statement(StatementKind::UpdateAge));
    // Whatever comes after, the unit of work does not ask for a commit.
    let again = expect_abandon(uow.on_event(Event::Committed));
    assert_eq!(again, UowError::Statement(StatementKind::UpdateAge));
    assert!(!uow.is_committed());
}

#[test]
fn select_answered_without_rows_abandons() {
    let (mut uow, _) = UnitOfWork::start(WorkPlan::demo());
    uow.on_event(Event::Begun);
    uow.on_event(Event::Executed(1));
    uow.on_event(Event::Executed(1));
    let e = expect_abandon(uow.on_event(Event::Executed(1)));
    assert_eq!(e, UowError::Statement(StatementKind::SelectByName));
}

#[test]
fn failing_delete_abandons() {
    let (mut uow, _) = UnitOfWork::start(WorkPlan::demo());
    uow.on_event(Event::Begun);
    uow.on_event(Event::Executed(1));
    uow.on_event(Event::Executed(1));
    uow.on_event(Event::Rows(vec![bob_row(1, 30)]));
    let e = expect_abandon(uow.on_event(Event::Failed));
    assert_eq!(e, UowError::Statement(StatementKind::DeleteByName));
}

#[test]
fn failing_commit_abandons() {
    let (mut uow, _) = UnitOfWork::start(WorkPlan::demo());
    uow.on_event(Event::Begun);
    uow.on_event(Event::Executed(1));
    uow.on_event(Event::Executed(1));
    uow.on_event(Event::Rows(vec![bob_row(1, 30)]));
    uow.on_event(Event::Executed(1));
    assert_eq!(expect_abandon(uow.on_event(Event::Failed)), UowError::Commit);
    assert!(!uow.is_committed());
}

#[test]
fn undecodable_row_abandons_with_decode_error() {
    let (mut uow, _) = UnitOfWork::start(WorkPlan::demo());
    uow.on_event(Event::Begun);
    uow.on_event(Event::Executed(1));
    uow.on_event(Event::Executed(1));
    let rows = vec![bob_row(1, 30), vec![Cell::Int(2), Cell::Text("Bob".to_string()), Cell::Null]];
    let e = expect_abandon(uow.on_event(Event::Rows(rows)));
    assert_eq!(e, UowError::Decode(DecodeError { row: 1, column: 2, fault: DecodeFault::Null }));
    assert_eq!(uow.selected().len(), 0);
}

#[test]
fn plan_is_kept() {
    let (uow, _) = UnitOfWork::start(WorkPlan::new("Eve".to_string(), 1, 2));
    assert_eq!(uow.plan().name, "Eve");
    assert_eq!(uow.plan().age, 1);
    assert_eq!(uow.plan().new_age, 2);
}
