//! A transaction as a sequence of questions: each step asks the database one
//! statement and decides from the reply what to ask next, whether to commit,
//! or with which refusal to roll back.

use vstd::prelude::*;

use crate::page::Uuid;

verus! {

/// What a statement answered, as far as a decision reads it.
#[derive(Clone, Copy, PartialEq, Eq, Structural, Debug)]
pub enum Reply {
    /// No row came back.
    Empty,
    /// A row came back, and nothing more is asked of it.
    Row,
    /// A row with a flag.
    Flag(bool),
    /// A row with a number.
    Int(i64),
    /// A row with a key.
    Key(Uuid),
}

impl Reply {
    /// Whether a row came back.
    pub open spec fn has_row(self) -> bool {
        self !is Empty
    }

    /// Whether a row came back with its flag up.
    pub open spec fn is_up(self) -> bool {
        self == Reply::Flag(true)
    }

    /// The number of the row that came back with one.
    pub open spec fn number(self) -> Option<i64> {
        match self {
            Reply::Int(value) => Some(value),
            _ => None,
        }
    }

    /// The key of the row that came back with one.
    pub open spec fn key(self) -> Option<Uuid> {
        match self {
            Reply::Key(value) => Some(value),
            _ => None,
        }
    }

    /// Whether a row came back.
    pub fn row(self) -> (there: bool)
        ensures
            there == self.has_row(),
    {
        !matches!(self, Reply::Empty)
    }

    /// Whether a row came back with its flag up.
    pub fn flag(self) -> (up: bool)
        ensures
            up == self.is_up(),
    {
        match self {
            Reply::Flag(up) => up,
            _ => false,
        }
    }

    /// The number of the row that came back with one.
    pub fn value(self) -> (number: Option<i64>)
        ensures
            number == self.number(),
    {
        match self {
            Reply::Int(value) => Some(value),
            _ => None,
        }
    }

    /// The key of the row that came back with one.
    pub fn uuid(self) -> (key: Option<Uuid>)
        ensures
            key == self.key(),
    {
        match self {
            Reply::Key(value) => Some(value),
            _ => None,
        }
    }
}

/// What a transaction does next: send the statement `S` stands for, commit
/// with the answer `A`, or roll back with the refusal `R`.
#[derive(Clone, Copy, PartialEq, Eq, Structural, Debug)]
pub enum Step<S, A, R> {
    Ask(S),
    Commit(A),
    Abort(R),
}

/// The stored rows `D` after the questions of a transaction have been
/// answered in order, and the step it stopped at. `next` is the transaction's
/// decision and `effect` what a statement does to the rows and replies.
pub open spec fn run<D, S, A, R, P>(
    db: D,
    step: Step<S, A, R>,
    next: spec_fn(S, P) -> Step<S, A, R>,
    effect: spec_fn(D, S) -> (D, P),
    fuel: nat,
) -> (D, Step<S, A, R>)
    decreases fuel,
{
    match step {
        Step::Ask(question) => if fuel == 0 {
            (db, step)
        } else {
            let (after, reply) = effect(db, question);
            run(after, next(question, reply), next, effect, (fuel - 1) as nat)
        },
        _ => (db, step),
    }
}

/// The last step of a transaction: it commits with `answer` where nothing
/// refuses it, and rolls back with the refusal otherwise.
pub open spec fn ends<S, A, R>(answer: A, refusal: Option<R>) -> Step<S, A, R> {
    match refusal {
        None => Step::Commit(answer),
        Some(refusal) => Step::Abort(refusal),
    }
}

/// What a transaction leaves stored: everything it wrote where it commits,
/// and nothing at all where it rolls back.
pub open spec fn stored<D, S, A, R>(before: D, end: (D, Step<S, A, R>)) -> D {
    if end.1 is Commit {
        end.0
    } else {
        before
    }
}

} // verus!
