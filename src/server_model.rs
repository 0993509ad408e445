//! A mathematical model of how the database answers the unit of work, and the
//! laws that hold of the pipeline run against it.
//!
//! The model keeps the committed rows, the next identity to hand out, and the
//! working copy of an open transaction. A transaction that ends without a
//! commit is dropped with its working copy: that is the rollback. The identity
//! counter is not rolled back, as a database sequence is not.
use vstd::prelude::*;
use crate::record::{CellV, UserRec, decode_row_spec, decode_rows_spec};
use crate::statement::{
    ParamV, PlanV, StatementKind, StatementV, bootstrap_spec, delete_spec, insert_spec,
    select_spec, update_spec,
};
use crate::unit_of_work::{ActionV, EventV, Phase, UowState, initial_state, step_spec};

verus! {

pub struct Server {
    /// The committed rows of the `users` table.
    pub rows: Seq<UserRec>,
    pub next_id: int,
    /// The rows as the open transaction sees them, if one is open.
    pub work: Option<Seq<UserRec>>,
}

/// The rows of the given name, in table order.
pub open spec fn named(rows: Seq<UserRec>, name: Seq<char>) -> Seq<UserRec>
    decreases rows.len(),
{
    if rows.len() == 0 {
        Seq::empty()
    } else if rows.last().name == name {
        named(rows.drop_last(), name).push(rows.last())
    } else {
        named(rows.drop_last(), name)
    }
}

/// The rows of other names, in table order.
pub open spec fn without(rows: Seq<UserRec>, name: Seq<char>) -> Seq<UserRec>
    decreases rows.len(),
{
    if rows.len() == 0 {
        Seq::empty()
    } else if rows.last().name == name {
        without(rows.drop_last(), name)
    } else {
        without(rows.drop_last(), name).push(rows.last())
    }
}

pub open spec fn set_age(u: UserRec, name: Seq<char>, age: int) -> UserRec {
    if u.name == name {
        UserRec { id: u.id, name: u.name, age }
    } else {
        u
    }
}

pub open spec fn with_age(rows: Seq<UserRec>, name: Seq<char>, age: int) -> Seq<UserRec> {
    rows.map_values(|u: UserRec| set_age(u, name, age))
}

pub open spec fn row_cells(u: UserRec) -> Seq<CellV> {
    seq![CellV::Int(u.id), CellV::Text(u.name), CellV::Int(u.age)]
}

pub open spec fn is_text(p: ParamV) -> bool {
    p is Text
}

pub open spec fn is_int(p: ParamV) -> bool {
    p is Int
}

pub open spec fn text_of(p: ParamV) -> Seq<char> {
    match p {
        ParamV::Text(s) => s,
        ParamV::Int(_) => Seq::empty(),
    }
}

pub open spec fn int_of(p: ParamV) -> int {
    match p {
        ParamV::Int(v) => v,
        ParamV::Text(_) => 0,
    }
}

pub open spec fn with_work(sv: Server, w: Seq<UserRec>) -> Server {
    Server { rows: sv.rows, next_id: sv.next_id, work: Some(w) }
}

/// A statement run in a transaction whose working copy is `w`.
pub open spec fn run_statement(sv: Server, w: Seq<UserRec>, st: StatementV) -> (Server, EventV) {
    let ps = st.params;
    match st.kind {
        StatementKind::InsertUser => if ps.len() == 2 && is_text(ps[0]) && is_int(ps[1]) {
            let u = UserRec { id: sv.next_id, name: text_of(ps[0]), age: int_of(ps[1]) };
            (Server { rows: sv.rows, next_id: sv.next_id + 1, work: Some(w.push(u)) }, EventV::Executed(1))
        } else {
            (sv, EventV::Failed)
        },
        StatementKind::UpdateAge => if ps.len() == 2 && is_int(ps[0]) && is_text(ps[1]) {
            let n = text_of(ps[1]);
            (with_work(sv, with_age(w, n, int_of(ps[0]))), EventV::Executed(named(w, n).len() as u64))
        } else {
            (sv, EventV::Failed)
        },
        StatementKind::DeleteByName => if ps.len() == 1 && is_text(ps[0]) {
            let n = text_of(ps[0]);
            (with_work(sv, without(w, n)), EventV::Executed(named(w, n).len() as u64))
        } else {
            (sv, EventV::Failed)
        },
        StatementKind::SelectByName => if ps.len() == 1 && is_text(ps[0]) {
            (sv, EventV::Executed(named(w, text_of(ps[0])).len() as u64))
        } else {
            (sv, EventV::Failed)
        },
        StatementKind::CreateUsersTable => (sv, EventV::Executed(0)),
    }
}

/// A query run in a transaction whose working copy is `w`.
pub open spec fn run_query(sv: Server, w: Seq<UserRec>, st: StatementV) -> (Server, EventV) {
    if st.kind == StatementKind::SelectByName && st.params.len() == 1 && is_text(st.params[0]) {
        (sv, EventV::Rows(named(w, text_of(st.params[0])).map_values(|u: UserRec| row_cells(u))))
    } else {
        (sv, EventV::Failed)
    }
}

/// The transaction, if any, ends without a commit: its working copy is gone.
pub open spec fn close(sv: Server) -> Server {
    Server { rows: sv.rows, next_id: sv.next_id, work: None }
}

/// How the server answers one action of the pipeline.
pub open spec fn respond(sv: Server, a: ActionV) -> (Server, EventV) {
    match a {
        ActionV::Begin => match sv.work {
            Some(_) => (sv, EventV::Failed),
            None => (with_work(sv, sv.rows), EventV::Begun),
        },
        ActionV::Execute(st) => match sv.work {
            Some(w) => run_statement(sv, w, st),
            None => (sv, EventV::Failed),
        },
        ActionV::Query(st) => match sv.work {
            Some(w) => run_query(sv, w, st),
            None => (sv, EventV::Failed),
        },
        ActionV::Commit => match sv.work {
            Some(w) => (Server { rows: w, next_id: sv.next_id, work: None }, EventV::Committed),
            None => (sv, EventV::Failed),
        },
        _ => (close(sv), EventV::Failed),
    }
}

/// Runs the pipeline from state `s` with action `a` outstanding. The operation
/// `fail_at` steps from now fails without effect, as a forced failure; a
/// negative `fail_at` forces none.
pub open spec fn drive(s: UowState, sv: Server, a: ActionV, fail_at: int, fuel: nat) -> (
    UowState,
    Server,
    ActionV,
)
    decreases fuel,
{
    if fuel == 0 || a is Done || a is Abandon {
        (s, close(sv), a)
    } else {
        let (sv2, ev) = if fail_at == 0 {
            (sv, EventV::Failed)
        } else {
            respond(sv, a)
        };
        let (s2, a2) = step_spec(s, ev);
        drive(s2, sv2, a2, fail_at - 1, (fuel - 1) as nat)
    }
}

/// One whole unit of work against the server: the final state of the
/// pipeline, of the server, and the last action.
pub open spec fn run_unit(plan: PlanV, sv: Server, fail_at: int) -> (UowState, Server, ActionV) {
    drive(initial_state(plan), sv, ActionV::Begin, fail_at, 7)
}

/// The actions that answer a sequence of outcomes, from state `s` on.
pub open spec fn trace(s: UowState, evs: Seq<EventV>) -> (UowState, Seq<ActionV>)
    decreases evs.len(),
{
    if evs.len() == 0 {
        (s, Seq::empty())
    } else {
        let (s2, a) = step_spec(s, evs[0]);
        let (s3, acts) = trace(s2, evs.drop_first());
        (s3, seq![a] + acts)
    }
}

/// The table as the bootstrap statement leaves it: created empty where it
/// was absent, untouched where it exists.
pub open spec fn bootstrap_effect(st: StatementV, table: Option<Seq<UserRec>>) -> Option<Seq<UserRec>> {
    if st.kind == StatementKind::CreateUsersTable {
        match table {
            Some(rows) => Some(rows),
            None => Some(Seq::empty()),
        }
    } else {
        table
    }
}

/// The number of rows a statement affected never changes the course of the
/// unit of work: an update or delete that matches no row is a success like
/// any other.
pub proof fn lemma_affected_count_ignored(s: UowState, a: u64, b: u64)
    ensures
        step_spec(s, EventV::Executed(a)) == step_spec(s, EventV::Executed(b)),
{
}

/// When every operation succeeds, the pipeline asks for begin, insert,
/// update, select, delete and commit, one at a time and in that order, and
/// then for nothing more.
pub proof fn lemma_program_order(plan: PlanV, a: u64, b: u64, c: u64, rows: Seq<Seq<CellV>>)
    requires
        decode_rows_spec(rows) is Ok,
    ensures
        trace(
            initial_state(plan),
            seq![EventV::Begun, EventV::Executed(a), EventV::Executed(b), EventV::Rows(rows), EventV::Executed(c), EventV::Committed],
        ).1 == seq![
            ActionV::Execute(insert_spec(plan)),
            ActionV::Execute(update_spec(plan)),
            ActionV::Query(select_spec(plan)),
            ActionV::Execute(delete_spec(plan)),
            ActionV::Commit,
            ActionV::Done,
        ],
{
    let evs = seq![EventV::Begun, EventV::Executed(a), EventV::Executed(b), EventV::Rows(rows), EventV::Executed(c), EventV::Committed];
    reveal_with_fuel(trace, 7);
    assert(evs.drop_first() =~= seq![EventV::Executed(a), EventV::Executed(b), EventV::Rows(rows), EventV::Executed(c), EventV::Committed]);
    assert(evs.drop_first().drop_first() =~= seq![EventV::Executed(b), EventV::Rows(rows), EventV::Executed(c), EventV::Committed]);
    assert(evs.drop_first().drop_first().drop_first() =~= seq![EventV::Rows(rows), EventV::Executed(c), EventV::Committed]);
    assert(evs.drop_first().drop_first().drop_first().drop_first() =~= seq![EventV::Executed(c), EventV::Committed]);
    assert(evs.drop_first().drop_first().drop_first().drop_first().drop_first() =~= seq![EventV::Committed]);
    assert(seq![EventV::Committed].drop_first() =~= Seq::<EventV>::empty());
    let t = trace(initial_state(plan), evs).1;
    assert(t =~= seq![
        ActionV::Execute(insert_spec(plan)),
        ActionV::Execute(update_spec(plan)),
        ActionV::Query(select_spec(plan)),
        ActionV::Execute(delete_spec(plan)),
        ActionV::Commit,
        ActionV::Done,
    ]);
}

/// Creating the table where absent is idempotent: a second run changes
/// nothing, and a run on an existing table leaves its rows as they are.
pub proof fn lemma_bootstrap_idempotent(table: Option<Seq<UserRec>>)
    ensures
        bootstrap_effect(bootstrap_spec(), bootstrap_effect(bootstrap_spec(), table))
            == bootstrap_effect(bootstrap_spec(), table),
        bootstrap_effect(bootstrap_spec(), table) is Some,
        table is Some ==> bootstrap_effect(bootstrap_spec(), table) == table,
{
}

/// A failure of any operation of the unit of work, from the begin up to and
/// including the commit, leaves the committed rows as they were: the insert
/// and every other write of the transaction are rolled back.
pub proof fn lemma_failure_rolls_back(plan: PlanV, sv: Server, k: int)
    requires
        sv.work is None,
        0 <= k <= 5,
    ensures
        run_unit(plan, sv, k).2 is Abandon,
        run_unit(plan, sv, k).1.rows == sv.rows,
        run_unit(plan, sv, k).1.work is None,
{
    reveal_with_fuel(drive, 8);
}

pub open spec fn has_no_name(rows: Seq<UserRec>, name: Seq<char>) -> bool {
    forall|i: int| 0 <= i < rows.len() ==> rows[i].name != name
}

proof fn lemma_no_name(rows: Seq<UserRec>, name: Seq<char>, age: int)
    requires
        has_no_name(rows, name),
    ensures
        named(rows, name) == Seq::<UserRec>::empty(),
        without(rows, name) == rows,
        with_age(rows, name, age) == rows,
    decreases rows.len(),
{
    assert(with_age(rows, name, age) =~= rows);
    if rows.len() > 0 {
        let p = rows.drop_last();
        assert(has_no_name(p, name)) by {
            assert forall|i: int| 0 <= i < p.len() implies p[i].name != name by {
                assert(p[i] == rows[i]);
            }
        }
        lemma_no_name(p, name, age);
        assert(rows.last() == rows[rows.len() - 1]);
        assert(p.push(rows.last()) =~= rows);
    }
}

/// An update or a delete whose name no row has succeeds, reports no affected
/// row, and leaves the working copy as it was.
pub proof fn lemma_zero_row_statements(sv: Server, w: Seq<UserRec>, plan: PlanV)
    requires
        has_no_name(w, plan.name),
    ensures
        run_statement(sv, w, update_spec(plan)) == (with_work(sv, w), EventV::Executed(0)),
        run_statement(sv, w, delete_spec(plan)) == (with_work(sv, w), EventV::Executed(0)),
{
    lemma_no_name(w, plan.name, plan.new_age);
}

/// A row inserted with a name that no row has, then given its new age, is
/// read back as exactly one row: the identity the server handed out, that
/// name and the new age. The transaction commits, and leaves the committed
/// rows as they were, since it deletes the row again.
pub proof fn lemma_round_trip(plan: PlanV, sv: Server)
    requires
        sv.work is None,
        has_no_name(sv.rows, plan.name),
    ensures
        run_unit(plan, sv, -1).2 == ActionV::Done,
        run_unit(plan, sv, -1).0.phase == Phase::Finished,
        run_unit(plan, sv, -1).0.selected == seq![UserRec { id: sv.next_id, name: plan.name, age: plan.new_age }],
        run_unit(plan, sv, -1).1.rows == sv.rows,
{
    let n = plan.name;
    let u1 = UserRec { id: sv.next_id, name: n, age: plan.age };
    let u2 = UserRec { id: sv.next_id, name: n, age: plan.new_age };
    let w1 = sv.rows.push(u1);
    lemma_no_name(sv.rows, n, plan.new_age);
    assert(with_age(w1, n, plan.new_age) =~= sv.rows.push(u2)) by {
        assert(with_age(w1, n, plan.new_age) =~= with_age(sv.rows, n, plan.new_age).push(u2));
    }
    let w2 = sv.rows.push(u2);
    assert(w2.drop_last() =~= sv.rows);
    assert(named(w2, n) =~= seq![u2]);
    assert(without(w2, n) == sv.rows);
    let rows = seq![u2].map_values(|u: UserRec| row_cells(u));
    assert(rows =~= seq![row_cells(u2)]);
    assert(rows.drop_last() =~= Seq::<Seq<CellV>>::empty());
    assert(decode_rows_spec(rows) == Ok::<Seq<UserRec>, crate::record::DecodeError>(seq![u2])) by {
        reveal_with_fuel(decode_rows_spec, 2);
        assert(rows.last() == row_cells(u2));
        assert(decode_row_spec(row_cells(u2)) == Ok::<UserRec, (usize, crate::record::DecodeFault)>(u2));
        assert(Seq::<UserRec>::empty().push(u2) =~= seq![u2]);
    }
    reveal_with_fuel(drive, 8);
}

/// From an empty table, one unit of work selects exactly one row, with the
/// identity the server handed out, the plan's name and new age, commits, and
/// leaves the table empty.
pub proof fn lemma_end_to_end(plan: PlanV, next_id: int)
    ensures
        run_unit(plan, Server { rows: Seq::empty(), next_id, work: None }, -1).2 == ActionV::Done,
        run_unit(plan, Server { rows: Seq::empty(), next_id, work: None }, -1).0.selected
            == seq![UserRec { id: next_id, name: plan.name, age: plan.new_age }],
        run_unit(plan, Server { rows: Seq::empty(), next_id, work: None }, -1).1.rows
            == Seq::<UserRec>::empty(),
{
    lemma_round_trip(plan, Server { rows: Seq::empty(), next_id, work: None });
}

/// Rows as the server sends them always decode, to themselves.
pub proof fn lemma_server_rows_decode(xs: Seq<UserRec>)
    ensures
        decode_rows_spec(xs.map_values(|u: UserRec| row_cells(u))) == Ok::<Seq<UserRec>, crate::record::DecodeError>(xs),
    decreases xs.len(),
{
    let cs = xs.map_values(|u: UserRec| row_cells(u));
    if xs.len() > 0 {
        let p = xs.drop_last();
        assert(cs.drop_last() =~= p.map_values(|u: UserRec| row_cells(u)));
        lemma_server_rows_decode(p);
        assert(cs.last() == row_cells(xs.last()));
        assert(decode_row_spec(row_cells(xs.last())) == Ok::<UserRec, (usize, crate::record::DecodeFault)>(xs.last()));
        assert(p.push(xs.last()) =~= xs);
    } else {
        assert(xs =~= Seq::<UserRec>::empty());
    }
}

/// The rows a transaction of the plan leaves when it commits: the row is
/// inserted, every row of its name gets the new age, and every row of its
/// name is deleted.
pub open spec fn committed_effect(plan: PlanV, sv: Server) -> Seq<UserRec> {
    let u = UserRec { id: sv.next_id, name: plan.name, age: plan.age };
    without(with_age(sv.rows.push(u), plan.name, plan.new_age), plan.name)
}

/// All or nothing: without a forced failure the unit of work commits and the
/// committed rows are exactly its effect; with one, it commits nothing.
pub proof fn lemma_all_or_nothing(plan: PlanV, sv: Server, k: int)
    requires
        sv.work is None,
    ensures
        (k < 0 || k > 5) ==> run_unit(plan, sv, k).2 == ActionV::Done
            && run_unit(plan, sv, k).1.rows == committed_effect(plan, sv),
        (0 <= k <= 5) ==> run_unit(plan, sv, k).2 is Abandon
            && run_unit(plan, sv, k).1.rows == sv.rows,
{
    if 0 <= k <= 5 {
        lemma_failure_rolls_back(plan, sv, k);
    } else {
        let u = UserRec { id: sv.next_id, name: plan.name, age: plan.age };
        let w2 = with_age(sv.rows.push(u), plan.name, plan.new_age);
        lemma_server_rows_decode(named(w2, plan.name));
        reveal_with_fuel(drive, 8);
    }
}

} // verus!
