//! The unit of work as a state machine: from its state and the outcome of the
//! last operation to its next state and the next operation to perform.
//!
//! The pipeline is linear: begin, insert, update, select, delete, commit. The
//! first failure ends it; the caller then abandons the transaction without
//! committing, which makes the database roll back every write made in it.
//! One unit of work drives one transaction: it is not meant to be shared
//! between concurrent callers of one connection.
use vstd::prelude::*;
use crate::record::{
    Cell, CellV, DecodeError, User, UserRec, decode_rows, decode_rows_spec, rows_view, users_view,
};
use crate::statement::{
    PlanV, Statement, StatementKind, StatementV, WorkPlan, delete_spec, delete_statement,
    insert_spec, insert_statement, select_spec, select_statement, update_spec, update_statement,
};

verus! {

/// Why a unit of work ended without committing.
#[derive(Debug, Clone, Copy, PartialEq, Eq, Structural)]
pub enum UowError {
    /// The transaction could not be started.
    TransactionStart,
    /// The statement of this kind failed.
    Statement(StatementKind),
    /// A row that the select returned could not be decoded.
    Decode(DecodeError),
    /// The server did not commit.
    Commit,
}

/// Where the unit of work stands: the operation it waits on, or its end.
#[derive(Debug, Clone, Copy, PartialEq, Eq, Structural)]
pub enum Phase {
    Beginning,
    Inserting,
    Updating,
    Selecting,
    Deleting,
    Committing,
    Finished,
    Aborted(UowError),
}

/// The outcome of the operation last asked for.
#[derive(Debug)]
pub enum Event {
    /// The transaction was started.
    Begun,
    /// A statement ran and affected this many rows.
    Executed(u64),
    /// A query ran and returned these rows.
    Rows(Vec<Vec<Cell>>),
    /// The transaction was committed.
    Committed,
    /// The operation failed.
    Failed,
}

pub enum EventV {
    Begun,
    Executed(u64),
    Rows(Seq<Seq<CellV>>),
    Committed,
    Failed,
}

impl View for Event {
    type V = EventV;

    open spec fn view(&self) -> EventV {
        match self {
            Event::Begun => EventV::Begun,
            Event::Executed(n) => EventV::Executed(*n),
            Event::Rows(rows) => EventV::Rows(rows_view(rows@)),
            Event::Committed => EventV::Committed,
            Event::Failed => EventV::Failed,
        }
    }
}

/// What the caller is to do next.
#[derive(Debug)]
pub enum Action {
    /// Start a transaction.
    Begin,
    /// Run the statement in the transaction.
    Execute(Statement),
    /// Run the query in the transaction and report its rows.
    Query(Statement),
    /// Commit the transaction.
    Commit,
    /// Nothing: the transaction was committed.
    Done,
    /// Abandon the transaction without committing, so that it rolls back.
    Abandon(UowError),
}

pub enum ActionV {
    Begin,
    Execute(StatementV),
    Query(StatementV),
    Commit,
    Done,
    Abandon(UowError),
}

impl View for Action {
    type V = ActionV;

    open spec fn view(&self) -> ActionV {
        match self {
            Action::Begin => ActionV::Begin,
            Action::Execute(s) => ActionV::Execute(s@),
            Action::Query(s) => ActionV::Query(s@),
            Action::Commit => ActionV::Commit,
            Action::Done => ActionV::Done,
            Action::Abandon(e) => ActionV::Abandon(*e),
        }
    }
}

pub struct UowState {
    pub plan: PlanV,
    pub phase: Phase,
    /// The users that the select returned, once it has.
    pub selected: Seq<UserRec>,
}

pub open spec fn initial_state(plan: PlanV) -> UowState {
    UowState { plan, phase: Phase::Beginning, selected: Seq::empty() }
}

pub open spec fn with_phase(s: UowState, phase: Phase) -> UowState {
    UowState { plan: s.plan, phase, selected: s.selected }
}

pub open spec fn abort_spec(s: UowState, e: UowError) -> (UowState, ActionV) {
    (with_phase(s, Phase::Aborted(e)), ActionV::Abandon(e))
}

/// One step of the pipeline. An outcome other than the one the awaited
/// operation succeeds with ends the unit of work with the error of that
/// operation. The number of rows a statement affected is not looked at.
pub open spec fn step_spec(s: UowState, e: EventV) -> (UowState, ActionV) {
    match s.phase {
        Phase::Beginning => if e is Begun {
            (with_phase(s, Phase::Inserting), ActionV::Execute(insert_spec(s.plan)))
        } else {
            abort_spec(s, UowError::TransactionStart)
        },
        Phase::Inserting => if e is Executed {
            (with_phase(s, Phase::Updating), ActionV::Execute(update_spec(s.plan)))
        } else {
            abort_spec(s, UowError::Statement(StatementKind::InsertUser))
        },
        Phase::Updating => if e is Executed {
            (with_phase(s, Phase::Selecting), ActionV::Query(select_spec(s.plan)))
        } else {
            abort_spec(s, UowError::Statement(StatementKind::UpdateAge))
        },
        Phase::Selecting => match e {
            EventV::Rows(rows) => match decode_rows_spec(rows) {
                Ok(us) => (
                    UowState { plan: s.plan, phase: Phase::Deleting, selected: us },
                    ActionV::Execute(delete_spec(s.plan)),
                ),
                Err(d) => abort_spec(s, UowError::Decode(d)),
            },
            _ => abort_spec(s, UowError::Statement(StatementKind::SelectByName)),
        },
        Phase::Deleting => if e is Executed {
            (with_phase(s, Phase::Committing), ActionV::Commit)
        } else {
            abort_spec(s, UowError::Statement(StatementKind::DeleteByName))
        },
        Phase::Committing => if e is Committed {
            (with_phase(s, Phase::Finished), ActionV::Done)
        } else {
            abort_spec(s, UowError::Commit)
        },
        Phase::Finished => (s, ActionV::Done),
        Phase::Aborted(err) => (s, ActionV::Abandon(err)),
    }
}

/// A running unit of work.
pub struct UnitOfWork {
    plan: WorkPlan,
    phase: Phase,
    selected: Vec<User>,
}

impl View for UnitOfWork {
    type V = UowState;

    closed spec fn view(&self) -> UowState {
        UowState { plan: self.plan@, phase: self.phase, selected: users_view(self.selected@) }
    }
}

impl UnitOfWork {
    /// Starts a unit of work; its first action is to begin a transaction.
    pub fn start(plan: WorkPlan) -> (r: (UnitOfWork, Action))
        ensures
            r.0@ == initial_state(plan@),
            r.1@ == ActionV::Begin,
    {
        let u = UnitOfWork { plan, phase: Phase::Beginning, selected: Vec::new() };
        assert(users_view(u.selected@) =~= Seq::<UserRec>::empty());
        (u, Action::Begin)
    }

    fn abort(&mut self, e: UowError) -> (a: Action)
        ensures
            (final(self)@, a@) == abort_spec(old(self)@, e),
    {
        self.phase = Phase::Aborted(e);
        Action::Abandon(e)
    }

    /// Takes the outcome of the last action and returns the next one.
    pub fn on_event(&mut self, ev: Event) -> (a: Action)
        ensures
            (final(self)@, a@) == step_spec(old(self)@, ev@),
    {
        match self.phase {
            Phase::Beginning => match ev {
                Event::Begun => {
                    self.phase = Phase::Inserting;
                    Action::Execute(insert_statement(&self.plan))
                },
                _ => self.abort(UowError::TransactionStart),
            },
            Phase::Inserting => match ev {
                Event::Executed(_) => {
                    self.phase = Phase::Updating;
                    Action::Execute(update_statement(&self.plan))
                },
                _ => self.abort(UowError::Statement(StatementKind::InsertUser)),
            },
            Phase::Updating => match ev {
                Event::Executed(_) => {
                    self.phase = Phase::Selecting;
                    Action::Query(select_statement(&self.plan))
                },
                _ => self.abort(UowError::Statement(StatementKind::UpdateAge)),
            },
            Phase::Selecting => match ev {
                Event::Rows(rows) => match decode_rows(&rows) {
                    Ok(users) => {
                        self.phase = Phase::Deleting;
                        self.selected = users;
                        Action::Execute(delete_statement(&self.plan))
                    },
                    Err(d) => self.abort(UowError::Decode(d)),
                },
                _ => self.abort(UowError::Statement(StatementKind::SelectByName)),
            },
            Phase::Deleting => match ev {
                Event::Executed(_) => {
                    self.phase = Phase::Committing;
                    Action::Commit
                },
                _ => self.abort(UowError::Statement(StatementKind::DeleteByName)),
            },
            Phase::Committing => match ev {
                Event::Committed => {
                    self.phase = Phase::Finished;
                    Action::Done
                },
                _ => self.abort(UowError::Commit),
            },
            Phase::Finished => Action::Done,
            Phase::Aborted(err) => Action::Abandon(err),
        }
    }

    pub fn phase(&self) -> (r: Phase)
        ensures
            r == self@.phase,
    {
        self.phase
    }

    /// The users that the select returned, decoded; empty before it has run.
    pub fn selected(&self) -> (r: &Vec<User>)
        ensures
            users_view(r@) == self@.selected,
    {
        &self.selected
    }

    pub fn plan(&self) -> (r: &WorkPlan)
        ensures
            r@ == self@.plan,
    {
        &self.plan
    }

    /// Whether the transaction was committed.
    pub fn is_committed(&self) -> (r: bool)
        ensures
            r == (self@.phase == Phase::Finished),
    {
        match self.phase {
            Phase::Finished => true,
            _ => false,
        }
    }
}

} // verus!
