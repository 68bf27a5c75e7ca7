//! The `homework_result` table: one grade per homework and student, with the
//! freeze-stamping upsert, the reads the roster and report join on, and the
//! un-grade that gives the grader's credit back.

use vstd::prelude::*;

use crate::error::{AppError, AppErrorView, DbError};
use crate::exam_result::Mark;
use crate::id::{CourseId, HomeworkId, HomeworkResultId, Timestamp, UserId};
use crate::page::{Param, ParamView, Statement, StatementView};
use crate::sql::{Cell, Cond, Conflict, Cuts, Expr, Picking, Row, Storing, Term, Text, Writing};
use crate::transaction::{Reply, Step};

verus! {

/// A grade; the mark is optional.
#[derive(Debug)]
pub struct HomeworkResult {
    pub id: HomeworkResultId,
    pub homework: HomeworkId,
    pub user: UserId,
    pub status: String,
    pub mark: Option<Mark>,
    pub graded_by: UserId,
    pub created_at: Timestamp,
}

/// The statement a grading waits for.
#[derive(Clone, Copy, PartialEq, Eq, Structural, Debug)]
pub enum Grade {
    /// Take the homework row.
    LockHomework,
    /// Read whether the pair has a grade.
    ReadBefore,
    /// Write the grade: a [`Reply::Key`] with the key it is stored under; its
    /// row is the answer.
    Store { first: bool },
    /// Stamp the student's submission with that key, which freezes it.
    Stamp { first: bool, key: HomeworkResultId },
    /// Raise the grader's `marks_given_total`.
    CreditGrader,
}

pub const LOCK_HOMEWORK: &'static str =
    "SELECT 1 AS \"row\" FROM homework WHERE id = $1 FOR UPDATE";
pub const READ_BEFORE: &'static str =
    "SELECT 1 AS \"row\" FROM homework_result WHERE homework = $1 AND app_user = $2 FOR UPDATE";
pub const STORE_GRADE: &'static str =
    "INSERT INTO homework_result (id, homework, app_user, status, mark, graded_by, created_at) \
     VALUES ($1, $2, $3, $4, $5, $6, $7) ON CONFLICT (homework, app_user) DO UPDATE SET status \
     = EXCLUDED.status, mark = EXCLUDED.mark, graded_by = EXCLUDED.graded_by, created_at = \
     EXCLUDED.created_at RETURNING id, homework, app_user AS \"user\", status, mark, graded_by, \
     created_at";
pub const STAMP_SUBMISSION: &'static str =
    "UPDATE homework_submission SET graded_by_result = $3 WHERE homework = $1 AND app_user = $2 \
     AND graded_by_result IS NULL";
pub const CREDIT_GRADER: &'static str =
    "UPDATE app_user SET marks_given_total = marks_given_total + 1 WHERE id = $1";

/// The value of an optional mark.
pub open spec fn mark_value(mark: Option<Mark>) -> Option<i64> {
    match mark {
        Some(mark) => Some(mark.0),
        None => None,
    }
}

impl Grade {
    /// The statement of this step for the grade `row`.
    pub open spec fn asks(self, row: HomeworkResult) -> StatementView {
        let homework = ParamView::Uuid(row.homework.0);
        let user = ParamView::Uuid(row.user.0);
        match self {
            Grade::LockHomework => crate::page::sends(LOCK_HOMEWORK, seq![homework]),
            Grade::ReadBefore => crate::page::sends(READ_BEFORE, seq![homework, user]),
            Grade::Store { .. } => crate::page::sends(
                STORE_GRADE,
                seq![
                    ParamView::Uuid(row.id.0),
                    homework,
                    user,
                    ParamView::Text(row.status@),
                    ParamView::OptI64(mark_value(row.mark)),
                    ParamView::Uuid(row.graded_by.0),
                    ParamView::I64(row.created_at.0),
                ],
            ),
            Grade::Stamp { key, .. } => crate::page::sends(
                STAMP_SUBMISSION,
                seq![homework, user, ParamView::Uuid(key.0)],
            ),
            Grade::CreditGrader => crate::page::sends(
                CREDIT_GRADER,
                seq![ParamView::Uuid(row.graded_by.0)],
            ),
        }
    }

    /// The statement of this step.
    pub fn statement(self, row: &HomeworkResult) -> (statement: Statement)
        ensures
            statement@ == self.asks(*row),
    {
        let homework = Param::Uuid(row.homework.0);
        let user = Param::Uuid(row.user.0);
        match self {
            Grade::LockHomework => Statement::new(LOCK_HOMEWORK, vec![homework]),
            Grade::ReadBefore => Statement::new(READ_BEFORE, vec![homework, user]),
            Grade::Store { .. } => {
                let mark: Option<i64> = match row.mark {
                    Some(mark) => Some(mark.0),
                    None => None,
                };
                Statement::new(
                    STORE_GRADE,
                    vec![
                        Param::Uuid(row.id.0),
                        homework,
                        user,
                        Param::Text(row.status.clone()),
                        Param::OptI64(mark),
                        Param::Uuid(row.graded_by.0),
                        Param::I64(row.created_at.0),
                    ],
                )
            },
            Grade::Stamp { key, .. } => Statement::new(
                STAMP_SUBMISSION,
                vec![homework, user, Param::Uuid(key.0)],
            ),
            Grade::CreditGrader => Statement::new(
                CREDIT_GRADER,
                vec![Param::Uuid(row.graded_by.0)],
            ),
        }
    }
}

/// Why a grade is not recorded.
#[derive(Clone, Copy, PartialEq, Eq, Structural, Debug)]
pub enum GradeRefusal {
    /// The homework is gone.
    Gone,
    /// The write answered with no row, which it always has.
    NoRow,
}

/// The message of a statement that answers with no row where it always has one.
pub const NO_ROW: &'static str =
    "no rows returned by a query that expected to return at least one row";

impl GradeRefusal {
    /// What a refused grade answers.
    pub fn error(self) -> (error: AppError)
        ensures
            match self {
                GradeRefusal::Gone => error@ == AppErrorView::NotFound,
                GradeRefusal::NoRow => error is Db && error->Db_0.code is None
                    && error->Db_0.constraint is None && error->Db_0.message@ == NO_ROW@,
            },
    {
        match self {
            GradeRefusal::Gone => AppError::NotFound,
            GradeRefusal::NoRow => AppError::Db(
                DbError { code: None, constraint: None, message: NO_ROW.to_owned() },
            ),
        }
    }
}

/// What a grading does once the statement of `at` is answered.
pub open spec fn grade_next(at: Grade, reply: Reply) -> Step<Grade, (), GradeRefusal> {
    match at {
        Grade::LockHomework => if reply.has_row() {
            Step::Ask(Grade::ReadBefore)
        } else {
            Step::Abort(GradeRefusal::Gone)
        },
        Grade::ReadBefore => Step::Ask(Grade::Store { first: !reply.has_row() }),
        Grade::Store { first } => match reply.key() {
            Some(key) => Step::Ask(Grade::Stamp { first, key: HomeworkResultId(key) }),
            None => Step::Abort(GradeRefusal::NoRow),
        },
        Grade::Stamp { first, .. } => if first {
            Step::Ask(Grade::CreditGrader)
        } else {
            Step::Commit(())
        },
        Grade::CreditGrader => Step::Commit(()),
    }
}

/// Record (or overwrite) a grade: the step that follows the answer to `at`.
/// A grading starts at [`Grade::LockHomework`] and answers `NotFound` where
/// that finds nothing. Only a first grade credits the grader, and the stamp
/// carries the key the grade is stored under, which a regrade keeps.
pub fn grade(at: Grade, reply: Reply) -> (step: Step<Grade, (), GradeRefusal>)
    ensures
        step == grade_next(at, reply),
{
    match at {
        Grade::LockHomework => if reply.row() {
            Step::Ask(Grade::ReadBefore)
        } else {
            Step::Abort(GradeRefusal::Gone)
        },
        Grade::ReadBefore => Step::Ask(Grade::Store { first: !reply.row() }),
        Grade::Store { first } => match reply.uuid() {
            Some(key) => Step::Ask(Grade::Stamp { first, key: HomeworkResultId(key) }),
            None => Step::Abort(GradeRefusal::NoRow),
        },
        Grade::Stamp { first, .. } => if first {
            Step::Ask(Grade::CreditGrader)
        } else {
            Step::Commit(())
        },
        Grade::CreditGrader => Step::Commit(()),
    }
}

pub const READ_FOR: &'static str =
    "SELECT id, homework, app_user AS \"user\", status, mark, graded_by, created_at FROM \
     homework_result WHERE homework = $1 AND app_user = $2";

/// The read of a student's grade for a homework.
pub fn read_for(homework: HomeworkId, user: UserId) -> (statement: Statement)
    ensures
        statement@ == crate::page::sends(
            READ_FOR,
            seq![ParamView::Uuid(homework.0), ParamView::Uuid(user.0)],
        ),
{
    Statement::new(READ_FOR, vec![Param::Uuid(homework.0), Param::Uuid(user.0)])
}

pub const LIST_FOR_HOMEWORK: &'static str =
    "SELECT id, homework, app_user AS \"user\", status, mark, graded_by, created_at FROM \
     homework_result WHERE homework = $1 ORDER BY id DESC";

/// The read of every grade for a homework.
pub fn list_for_homework(homework: HomeworkId) -> (statement: Statement)
    ensures
        statement@ == crate::page::sends(LIST_FOR_HOMEWORK, seq![ParamView::Uuid(homework.0)]),
{
    Statement::new(LIST_FOR_HOMEWORK, vec![Param::Uuid(homework.0)])
}

pub const LIST_FOR_USER_IN_COURSE: &'static str =
    "SELECT id, homework, app_user AS \"user\", status, mark, graded_by, created_at FROM \
     homework_result WHERE app_user = $1 AND homework IN (SELECT id FROM homework WHERE course \
     = $2) ORDER BY id DESC";

/// The read of a student's homework grades across one course.
pub fn list_for_user_in_course(course: CourseId, user: UserId) -> (statement: Statement)
    ensures
        statement@ == crate::page::sends(
            LIST_FOR_USER_IN_COURSE,
            seq![ParamView::Uuid(user.0), ParamView::Uuid(course.0)],
        ),
{
    Statement::new(LIST_FOR_USER_IN_COURSE, vec![Param::Uuid(user.0), Param::Uuid(course.0)])
}

/// The statement an un-grading waits for.
#[derive(Clone, Copy, PartialEq, Eq, Structural, Debug)]
pub enum Remove {
    /// Take the homework row.
    LockHomework,
    /// Clear the stamp this pair's grade left on the submission.
    ClearStamp,
    /// Delete the grade: a [`Reply::Key`] with its grader; its row is the
    /// answer.
    DeleteGrade,
    /// Lower that grader's `marks_given_total`.
    DebitGrader { grader: UserId },
}

/// What an un-grading comes to.
#[derive(Clone, Copy, PartialEq, Eq, Structural, Debug)]
pub enum Removed {
    /// The deleted row.
    Grade,
    /// There was none.
    Nothing,
}

pub const CLEAR_STAMP: &'static str =
    "UPDATE homework_submission SET graded_by_result = NULL WHERE homework = $1 AND app_user = \
     $2 AND graded_by_result IN ( SELECT id FROM homework_result WHERE homework = $1 AND \
     app_user = $2)";
pub const DELETE_GRADE: &'static str =
    "DELETE FROM homework_result WHERE homework = $1 AND app_user = $2 RETURNING id, homework, \
     app_user AS \"user\", status, mark, graded_by, created_at";
pub const DEBIT_GRADER: &'static str =
    "UPDATE app_user SET marks_given_total = GREATEST(marks_given_total - 1, 0) WHERE id = $1";

impl Remove {
    /// The statement of this step.
    pub open spec fn asks(self, homework: HomeworkId, user: UserId) -> StatementView {
        let pair = seq![ParamView::Uuid(homework.0), ParamView::Uuid(user.0)];
        match self {
            Remove::LockHomework => crate::page::sends(
                LOCK_HOMEWORK,
                seq![ParamView::Uuid(homework.0)],
            ),
            Remove::ClearStamp => crate::page::sends(CLEAR_STAMP, pair),
            Remove::DeleteGrade => crate::page::sends(DELETE_GRADE, pair),
            Remove::DebitGrader { grader } => crate::page::sends(
                DEBIT_GRADER,
                seq![ParamView::Uuid(grader.0)],
            ),
        }
    }

    /// The statement of this step.
    pub fn statement(self, homework: HomeworkId, user: UserId) -> (statement: Statement)
        ensures
            statement@ == self.asks(homework, user),
    {
        let pair = vec![Param::Uuid(homework.0), Param::Uuid(user.0)];
        match self {
            Remove::LockHomework => Statement::new(LOCK_HOMEWORK, vec![Param::Uuid(homework.0)]),
            Remove::ClearStamp => Statement::new(CLEAR_STAMP, pair),
            Remove::DeleteGrade => Statement::new(DELETE_GRADE, pair),
            Remove::DebitGrader { grader } => Statement::new(
                DEBIT_GRADER,
                vec![Param::Uuid(grader.0)],
            ),
        }
    }
}

/// What an un-grading does once the statement of `at` is answered: it is
/// never refused.
pub open spec fn remove_next(at: Remove, reply: Reply) -> Step<Remove, Removed, ()> {
    match at {
        Remove::LockHomework => if reply.has_row() {
            Step::Ask(Remove::ClearStamp)
        } else {
            Step::Commit(Removed::Nothing)
        },
        Remove::ClearStamp => Step::Ask(Remove::DeleteGrade),
        Remove::DeleteGrade => match reply.key() {
            Some(grader) => Step::Ask(Remove::DebitGrader { grader: UserId(grader) }),
            None => Step::Commit(Removed::Nothing),
        },
        Remove::DebitGrader { .. } => Step::Commit(Removed::Grade),
    }
}

/// Un-grade a pair: the step that follows the answer to `at`. An un-grading
/// starts at [`Remove::LockHomework`]. The credit goes back to the removed
/// row's own grader, and only where a row was removed.
pub fn remove(at: Remove, reply: Reply) -> (step: Step<Remove, Removed, ()>)
    ensures
        step == remove_next(at, reply),
{
    match at {
        Remove::LockHomework => if reply.row() {
            Step::Ask(Remove::ClearStamp)
        } else {
            Step::Commit(Removed::Nothing)
        },
        Remove::ClearStamp => Step::Ask(Remove::DeleteGrade),
        Remove::DeleteGrade => match reply.uuid() {
            Some(grader) => Step::Ask(Remove::DebitGrader { grader: UserId(grader) }),
            None => Step::Commit(Removed::Nothing),
        },
        Remove::DebitGrader { .. } => Step::Commit(Removed::Grade),
    }
}

/// A stored grade.
pub struct GradeRow {
    pub id: HomeworkResultId,
    pub status: Seq<char>,
    pub mark: Option<i64>,
    pub graded_by: UserId,
    pub created_at: i64,
}

/// The tables a grade touches: the homework that are there, the grade of each
/// pair, the `graded_by_result` of each pair's submission, and each grader's
/// `marks_given_total`.
#[verifier::ext_equal]
pub struct Grades {
    pub homework: Set<HomeworkId>,
    pub results: Map<(HomeworkId, UserId), GradeRow>,
    pub stamps: Map<(HomeworkId, UserId), Option<HomeworkResultId>>,
    pub given: Map<UserId, int>,
}

/// The grades that carry one grader's name.
pub open spec fn given_by(grader: UserId) -> spec_fn((HomeworkId, UserId), GradeRow) -> bool {
    |key: (HomeworkId, UserId), row: GradeRow| row.graded_by == grader
}

impl Grades {
    /// What a grader's counter holds beyond the homework grades that carry
    /// their name: the marks they gave to exams.
    pub open spec fn given_elsewhere(self, grader: UserId) -> int {
        self.given[grader] - crate::tally::tally(self.results, given_by(grader))
    }

    /// A submission that is stamped is stamped with the key of its pair's
    /// grade, and every grader was credited for each grade that carries their
    /// name.
    pub open spec fn in_order(self) -> bool {
        &&& self.results.dom().finite()
        &&& forall|key: (HomeworkId, UserId)| #[trigger]
            self.stamps.contains_key(key) && self.stamps[key] is Some
                ==> self.results.contains_key(key) && self.results[key].id == self.stamps[key]->0
        &&& forall|grader: UserId| #[trigger]
            self.given.contains_key(grader) ==> self.given_elsewhere(grader) >= 0
    }

    /// The grade that a grading with `row` leaves: all of it but the key, which
    /// an earlier grade of the pair keeps.
    pub open spec fn regraded(self, row: HomeworkResult) -> GradeRow {
        let key = (row.homework, row.user);
        GradeRow {
            id: if self.results.contains_key(key) {
                self.results[key].id
            } else {
                row.id
            },
            status: row.status@,
            mark: mark_value(row.mark),
            graded_by: row.graded_by,
            created_at: row.created_at.0,
        }
    }
}

/// What each statement of a grading does to the tables, and what it replies.
pub open spec fn grade_effect(db: Grades, row: HomeworkResult, at: Grade) -> (Grades, Reply) {
    let key = (row.homework, row.user);
    match at {
        Grade::LockHomework => (
            db,
            if db.homework.contains(row.homework) {
                Reply::Row
            } else {
                Reply::Empty
            },
        ),
        Grade::ReadBefore => (
            db,
            if db.results.contains_key(key) {
                Reply::Row
            } else {
                Reply::Empty
            },
        ),
        Grade::Store { .. } => (
            Grades { results: db.results.insert(key, db.regraded(row)), ..db },
            Reply::Key(db.regraded(row).id.0),
        ),
        Grade::Stamp { key: stamp, .. } => (
            if db.stamps.contains_key(key) && db.stamps[key] is None {
                Grades { stamps: db.stamps.insert(key, Some(stamp)), ..db }
            } else {
                db
            },
            Reply::Row,
        ),
        Grade::CreditGrader => (
            if db.given.contains_key(row.graded_by) {
                Grades {
                    given: db.given.insert(row.graded_by, db.given[row.graded_by] + 1),
                    ..db
                }
            } else {
                db
            },
            Reply::Row,
        ),
    }
}

/// A whole grading against the tables.
pub open spec fn grade_run(db: Grades, row: HomeworkResult) -> (Grades, Step<Grade, (), GradeRefusal>) {
    crate::transaction::run(
        db,
        Step::Ask(Grade::LockHomework),
        |at: Grade, reply: Reply| grade_next(at, reply),
        |tables: Grades, at: Grade| grade_effect(tables, row, at),
        5,
    )
}

/// What the tables hold after a grading.
pub open spec fn graded(db: Grades, row: HomeworkResult) -> Grades {
    crate::transaction::stored(db, grade_run(db, row))
}

/// What each statement of an un-grading does to the tables, and what it
/// replies.
pub open spec fn remove_effect(
    db: Grades,
    homework: HomeworkId,
    user: UserId,
    at: Remove,
) -> (Grades, Reply) {
    let key = (homework, user);
    match at {
        Remove::LockHomework => (
            db,
            if db.homework.contains(homework) {
                Reply::Row
            } else {
                Reply::Empty
            },
        ),
        Remove::ClearStamp => (
            if db.stamps.contains_key(key) && db.results.contains_key(key) && db.stamps[key]
                == Some(db.results[key].id) {
                Grades { stamps: db.stamps.insert(key, None), ..db }
            } else {
                db
            },
            Reply::Row,
        ),
        Remove::DeleteGrade => if db.results.contains_key(key) {
            (
                Grades { results: db.results.remove(key), ..db },
                Reply::Key(db.results[key].graded_by.0),
            )
        } else {
            (db, Reply::Empty)
        },
        Remove::DebitGrader { grader } => (
            if db.given.contains_key(grader) {
                Grades {
                    given: db.given.insert(
                        grader,
                        crate::tally::floored(db.given[grader] - 1),
                    ),
                    ..db
                }
            } else {
                db
            },
            Reply::Row,
        ),
    }
}

/// A whole un-grading against the tables.
pub open spec fn remove_run(db: Grades, homework: HomeworkId, user: UserId) -> (
    Grades,
    Step<Remove, Removed, ()>,
) {
    crate::transaction::run(
        db,
        Step::Ask(Remove::LockHomework),
        |at: Remove, reply: Reply| remove_next(at, reply),
        |tables: Grades, at: Remove| remove_effect(tables, homework, user, at),
        4,
    )
}

/// What the tables hold after an un-grading.
pub open spec fn ungraded(db: Grades, homework: HomeworkId, user: UserId) -> Grades {
    crate::transaction::stored(db, remove_run(db, homework, user))
}

/// A grading lands exactly when the homework is there. It leaves one grade
/// for the pair, with the status, the mark, the grader and the time it gives
/// and the key of the pair's first grade; it freezes the submission under that
/// key where there is one, conjures none where there is not, and touches no
/// other pair.
pub proof fn law_grade_freezes(db: Grades, row: HomeworkResult)
    ensures
        ({
            let key = (row.homework, row.user);
            let end = grade_run(db, row).1;
            let after = graded(db, row);
            if db.homework.contains(row.homework) {
                &&& end == Step::<Grade, (), GradeRefusal>::Commit(())
                &&& after.results == db.results.insert(key, db.regraded(row))
                &&& after.stamps == if db.stamps.contains_key(key) && db.stamps[key] is None {
                    db.stamps.insert(key, Some(db.regraded(row).id))
                } else {
                    db.stamps
                }
            } else {
                end == Step::<Grade, (), GradeRefusal>::Abort(GradeRefusal::Gone) && after == db
            }
        }),
{
    reveal_with_fuel(crate::transaction::run, 6);
}

/// A grading keeps the tables in order and credits its grader once for each
/// grade under their name. A regrade under another name is left out: the
/// credit stays where the first grade put it.
pub proof fn law_grade_keeps_credit(db: Grades, row: HomeworkResult, other: UserId)
    requires
        db.in_order(),
        db.given.contains_key(other),
        db.results.contains_key((row.homework, row.user)) ==> db.results[(
            row.homework,
            row.user,
        )].graded_by == row.graded_by,
    ensures
        graded(db, row).in_order(),
        graded(db, row).given.contains_key(other),
        graded(db, row).given_elsewhere(other) == db.given_elsewhere(other),
{
    reveal_with_fuel(crate::transaction::run, 6);
    law_grade_freezes(db, row);
    let key = (row.homework, row.user);
    let after = graded(db, row);
    assert forall|grader: UserId| #[trigger] after.given.contains_key(grader) implies
        db.given.contains_key(grader) && after.given_elsewhere(grader) == db.given_elsewhere(
        grader,
    ) by {
        crate::tally::lemma_tally_insert(db.results, key, db.regraded(row), given_by(grader));
    }
    assert(after.given.contains_key(other));
}

/// An un-grading removes the pair's grade and no other, gives the credit back
/// to the grader the removed row names, and leaves the pair's submission
/// writable again and every other as it was.
pub proof fn law_remove_unfreezes(db: Grades, homework: HomeworkId, user: UserId, other: UserId)
    requires
        db.in_order(),
        db.given.contains_key(other),
    ensures
        ({
            let key = (homework, user);
            let end = remove_run(db, homework, user).1;
            let after = ungraded(db, homework, user);
            &&& end == Step::<Remove, Removed, ()>::Commit(
                if db.homework.contains(homework) && db.results.contains_key(key) {
                    Removed::Grade
                } else {
                    Removed::Nothing
                },
            )
            &&& if db.homework.contains(homework) {
                &&& after.results == db.results.remove(key)
                &&& after.stamps == if db.stamps.contains_key(key) {
                    db.stamps.insert(key, None)
                } else {
                    db.stamps
                }
            } else {
                after == db
            }
            &&& after.in_order()
            &&& after.given.contains_key(other)
            &&& after.given_elsewhere(other) == db.given_elsewhere(other)
        }),
{
    reveal_with_fuel(crate::transaction::run, 5);
    let key = (homework, user);
    let after = ungraded(db, homework, user);
    if db.homework.contains(homework) {
        assert(after.results =~= db.results.remove(key));
        assert(after.stamps =~= if db.stamps.contains_key(key) {
            db.stamps.insert(key, None)
        } else {
            db.stamps
        });
    }
    assert forall|grader: UserId| #[trigger] after.given.contains_key(grader) implies
        db.given.contains_key(grader) && after.given_elsewhere(grader) == db.given_elsewhere(
        grader,
    ) by {
        assert(db.given.contains_key(grader));
        crate::tally::lemma_tally_remove(db.results, key, given_by(grader));
        crate::tally::lemma_tally_holds(db.results, key, given_by(grader));
    }
    assert(after.given.contains_key(other));
}

/// A first grade and its removal net to nothing: every grader's credit, every
/// grade and every submission stand where they stood.
pub proof fn law_grade_then_remove(db: Grades, row: HomeworkResult)
    requires
        db.in_order(),
        db.homework.contains(row.homework),
        !db.results.contains_key((row.homework, row.user)),
    ensures
        ungraded(graded(db, row), row.homework, row.user) == db,
{
    reveal_with_fuel(crate::transaction::run, 6);
    let key = (row.homework, row.user);
    let between = graded(db, row);
    let after = ungraded(between, row.homework, row.user);
    assert(after.results =~= db.results);
    if db.given.contains_key(row.graded_by) {
        assert(db.given_elsewhere(row.graded_by) >= 0);
        crate::tally::lemma_tally_holds(db.results, key, given_by(row.graded_by));
    }
    assert(after.given =~= db.given);
    if db.stamps.contains_key(key) {
        assert(db.stamps[key] is None);
    }
    assert(after.stamps =~= db.stamps);
}

/// What [`READ_FOR`] says.
pub open spec fn read_for_reading() -> Picking {
    Picking {
        skip: 76,
        head: " FROM "@,
        columns: Seq::empty(),
        table: "homework_result"@,
        conditions: seq![crate::sql::is_bound("homework"@, 1), crate::sql::is_bound("app_user"@, 2)],
        rest: Text::End,
    }
}

proof fn lemma_read_for_reads()
    ensures
        crate::sql::spells(READ_FOR@, 76, read_for_reading().text()),
{
    reveal_strlit("SELECT id, homework, app_user AS \"user\", status, mark, graded_by, created_at FROM homework_result WHERE homework = $1 AND app_user = $2");
    reveal_strlit(" FROM ");
    reveal_strlit("homework_result");
    reveal_strlit(" WHERE ");
    reveal_strlit("homework");
    reveal_strlit(" = ");
    reveal_strlit("$");
    reveal_strlit(" AND ");
    reveal_strlit("app_user");
    reveal(crate::sql::Picking::text);
    reveal_with_fuel(crate::sql::where_text, 3);
    reveal_with_fuel(crate::sql::stands, 16);
    reveal_with_fuel(crate::sql::spells_by, 11);
    crate::sql::lemma_spells_by(READ_FOR@, 76, read_for_reading().text(), crate::sql::cut(82, crate::sql::cut(97, crate::sql::cut(104, crate::sql::cut(112, crate::sql::cut(115, crate::sql::cut(117, crate::sql::cut(122, crate::sql::cut(130, crate::sql::cut(133, crate::sql::cut(135, Cuts::Last)))))))))));
}

/// [`read_for`] reads the rows it names and no other.
pub proof fn law_read_for_reads_its_rows(
    homework: HomeworkId,
    user: UserId,
    sent: Statement,
    row: Row,
)
    requires
        call_ensures(read_for, (homework, user), sent),
    ensures
        read_for_reading().is_read(sent@),
        read_for_reading().picks(sent@.binds, row) == (row["homework"@] == Cell::Uuid(homework.0) && row["app_user"@] == Cell::Uuid(user.0)),
{
    lemma_read_for_reads();
    reveal_with_fuel(crate::sql::all_hold, 3);
}

/// What [`LIST_FOR_HOMEWORK`] says.
pub open spec fn list_for_homework_reading() -> Picking {
    Picking {
        skip: 76,
        head: " FROM "@,
        columns: Seq::empty(),
        table: "homework_result"@,
        conditions: seq![crate::sql::is_bound("homework"@, 1)],
        rest: crate::sql::before(" ORDER BY id DESC"@, Text::End),
    }
}

proof fn lemma_list_for_homework_reads()
    ensures
        crate::sql::spells(LIST_FOR_HOMEWORK@, 76, list_for_homework_reading().text()),
{
    reveal_strlit("SELECT id, homework, app_user AS \"user\", status, mark, graded_by, created_at FROM homework_result WHERE homework = $1 ORDER BY id DESC");
    reveal_strlit(" FROM ");
    reveal_strlit("homework_result");
    reveal_strlit(" WHERE ");
    reveal_strlit("homework");
    reveal_strlit(" = ");
    reveal_strlit("$");
    reveal_strlit(" ORDER BY id DESC");
    reveal(crate::sql::Picking::text);
    reveal_with_fuel(crate::sql::where_text, 2);
    reveal_with_fuel(crate::sql::stands, 18);
    reveal_with_fuel(crate::sql::spells_by, 8);
    crate::sql::lemma_spells_by(LIST_FOR_HOMEWORK@, 76, list_for_homework_reading().text(), crate::sql::cut(82, crate::sql::cut(97, crate::sql::cut(104, crate::sql::cut(112, crate::sql::cut(115, crate::sql::cut(117, crate::sql::cut(134, Cuts::Last))))))));
}

/// [`list_for_homework`] reads the rows it names and no other.
pub proof fn law_list_for_homework_reads_its_rows(
    homework: HomeworkId,
    sent: Statement,
    row: Row,
)
    requires
        call_ensures(list_for_homework, (homework,), sent),
    ensures
        list_for_homework_reading().is_read(sent@),
        list_for_homework_reading().picks(sent@.binds, row) == (row["homework"@] == Cell::Uuid(homework.0)),
{
    lemma_list_for_homework_reads();
    reveal_with_fuel(crate::sql::all_hold, 2);
}

/// The text of [`LIST_FOR_USER_IN_COURSE`], taken apart at its placeholders.
pub open spec fn list_for_user_in_course_text() -> Text {
    crate::sql::before("SELECT id, homework, app_user AS \"user\","@, crate::sql::before(" status, mark, graded_by, created_at FROM"@, crate::sql::before(" homework_result WHERE app_user = "@, crate::sql::before(crate::text::placeholder(1), crate::sql::before(" AND homework IN (SELECT id FROM homework WHERE"@, crate::sql::before(" course = "@, crate::sql::before(crate::text::placeholder(2), crate::sql::before(") ORDER BY id DESC"@, Text::End))))))))
}

proof fn lemma_list_for_user_in_course_reads()
    ensures
        crate::sql::spells(LIST_FOR_USER_IN_COURSE@, 0, list_for_user_in_course_text()),
{
    reveal_strlit("SELECT id, homework, app_user AS \"user\", status, mark, graded_by, created_at FROM homework_result WHERE app_user = $1 AND homework IN (SELECT id FROM homework WHERE course = $2) ORDER BY id DESC");
    reveal_strlit("SELECT id, homework, app_user AS \"user\",");
    reveal_strlit(" status, mark, graded_by, created_at FROM");
    reveal_strlit(" homework_result WHERE app_user = ");
    reveal_strlit("$");
    reveal_strlit(" AND homework IN (SELECT id FROM homework WHERE");
    reveal_strlit(" course = ");
    reveal_strlit(") ORDER BY id DESC");
    reveal_with_fuel(crate::sql::stands, 48);
    reveal_with_fuel(crate::sql::spells_by, 9);
    crate::sql::lemma_spells_by(LIST_FOR_USER_IN_COURSE@, 0, list_for_user_in_course_text(), crate::sql::cut(40, crate::sql::cut(81, crate::sql::cut(115, crate::sql::cut(117, crate::sql::cut(164, crate::sql::cut(174, crate::sql::cut(176, crate::sql::cut(194, Cuts::Last)))))))));
}

/// [`list_for_user_in_course`] binds each value at its own place in the text.
pub proof fn law_list_for_user_in_course_binds_its_values(
    course: CourseId,
    user: UserId,
    sent: Statement,
)
    requires
        call_ensures(list_for_user_in_course, (course, user), sent),
    ensures
        crate::sql::spells(sent@.sql, 0, list_for_user_in_course_text()),
        sent@.binds.len() == 2,
        crate::sql::cell(sent@.binds[0]) == Cell::Uuid(user.0),
        crate::sql::cell(sent@.binds[1]) == Cell::Uuid(course.0),
{
    lemma_list_for_user_in_course_reads();
}

/// What [`LOCK_HOMEWORK`] says.
pub open spec fn lock_homework_reading() -> Picking {
    Picking {
        skip: 0,
        head: "SELECT "@,
        columns: seq!["1 AS \"row\""@],
        table: "homework"@,
        conditions: seq![crate::sql::is_bound("id"@, 1)],
        rest: crate::sql::before(" FOR UPDATE"@, Text::End),
    }
}

proof fn lemma_lock_homework_reads()
    ensures
        crate::sql::spells(LOCK_HOMEWORK@, 0, lock_homework_reading().text()),
{
    reveal_strlit("SELECT 1 AS \"row\" FROM homework WHERE id = $1 FOR UPDATE");
    reveal_strlit("SELECT ");
    reveal_strlit("1 AS \"row\"");
    reveal_strlit(" FROM ");
    reveal_strlit("homework");
    reveal_strlit(" WHERE ");
    reveal_strlit("id");
    reveal_strlit(" = ");
    reveal_strlit("$");
    reveal_strlit(" FOR UPDATE");
    reveal(crate::sql::Picking::text);
    reveal_with_fuel(crate::sql::where_text, 2);
    reveal_with_fuel(crate::sql::names_text, 2);
    reveal_with_fuel(crate::sql::stands, 12);
    reveal_with_fuel(crate::sql::spells_by, 10);
    crate::sql::lemma_spells_by(LOCK_HOMEWORK@, 0, lock_homework_reading().text(), crate::sql::cut(7, crate::sql::cut(17, crate::sql::cut(23, crate::sql::cut(31, crate::sql::cut(38, crate::sql::cut(40, crate::sql::cut(43, crate::sql::cut(45, crate::sql::cut(56, Cuts::Last))))))))));
}

/// [`Grade::LockHomework`] reads the rows it names and no other.
pub proof fn law_grade_lock_homework_reads_its_rows(
    row: HomeworkResult,
    stored: Row,
)
    ensures
        ({
            let sent = Grade::LockHomework.asks(row);
            &&& lock_homework_reading().is_read(sent)
            &&& lock_homework_reading().picks(sent.binds, stored) == (stored["id"@] == Cell::Uuid(row.homework.0))
        }),
{
    lemma_lock_homework_reads();
    reveal_with_fuel(crate::sql::all_hold, 2);
}

/// What [`READ_BEFORE`] says.
pub open spec fn read_before_reading() -> Picking {
    Picking {
        skip: 0,
        head: "SELECT "@,
        columns: seq!["1 AS \"row\""@],
        table: "homework_result"@,
        conditions: seq![crate::sql::is_bound("homework"@, 1), crate::sql::is_bound("app_user"@, 2)],
        rest: crate::sql::before(" FOR UPDATE"@, Text::End),
    }
}

proof fn lemma_read_before_reads()
    ensures
        crate::sql::spells(READ_BEFORE@, 0, read_before_reading().text()),
{
    reveal_strlit("SELECT 1 AS \"row\" FROM homework_result WHERE homework = $1 AND app_user = $2 FOR UPDATE");
    reveal_strlit("SELECT ");
    reveal_strlit("1 AS \"row\"");
    reveal_strlit(" FROM ");
    reveal_strlit("homework_result");
    reveal_strlit(" WHERE ");
    reveal_strlit("homework");
    reveal_strlit(" = ");
    reveal_strlit("$");
    reveal_strlit(" AND ");
    reveal_strlit("app_user");
    reveal_strlit(" FOR UPDATE");
    reveal(crate::sql::Picking::text);
    reveal_with_fuel(crate::sql::where_text, 3);
    reveal_with_fuel(crate::sql::names_text, 2);
    reveal_with_fuel(crate::sql::stands, 16);
    reveal_with_fuel(crate::sql::spells_by, 14);
    crate::sql::lemma_spells_by(READ_BEFORE@, 0, read_before_reading().text(), crate::sql::cut(7, crate::sql::cut(17, crate::sql::cut(23, crate::sql::cut(38, crate::sql::cut(45, crate::sql::cut(53, crate::sql::cut(56, crate::sql::cut(58, crate::sql::cut(63, crate::sql::cut(71, crate::sql::cut(74, crate::sql::cut(76, crate::sql::cut(87, Cuts::Last))))))))))))));
}

/// [`Grade::ReadBefore`] reads the rows it names and no other.
pub proof fn law_grade_read_before_reads_its_rows(
    row: HomeworkResult,
    stored: Row,
)
    ensures
        ({
            let sent = Grade::ReadBefore.asks(row);
            &&& read_before_reading().is_read(sent)
            &&& read_before_reading().picks(sent.binds, stored) == (stored["homework"@] == Cell::Uuid(row.homework.0) && stored["app_user"@] == Cell::Uuid(row.user.0))
        }),
{
    lemma_read_before_reads();
    reveal_with_fuel(crate::sql::all_hold, 3);
}

/// What [`STORE_GRADE`] says.
pub open spec fn store_grade_reading() -> Storing {
    Storing {
        head: "INSERT INTO "@,
        table: "homework_result"@,
        columns: seq!["id"@, "homework"@, "app_user"@, "status"@, "mark"@, "graded_by"@, "created_at"@],
        values: seq![Term::Bind(1), Term::Bind(2), Term::Bind(3), Term::Bind(4), Term::Bind(5), Term::Bind(6), Term::Bind(7)],
        selected: false,
        conflict: Conflict::Takes(seq!["homework"@, "app_user"@], seq!["status"@, "mark"@, "graded_by"@, "created_at"@]),
        rest: crate::sql::returning(),
    }
}

#[verifier::rlimit(20)]
proof fn lemma_store_grade_reads()
    ensures
        crate::sql::spells(STORE_GRADE@, 0, store_grade_reading().text()),
{
    reveal_strlit("INSERT INTO homework_result (id, homework, app_user, status, mark, graded_by, created_at) VALUES ($1, $2, $3, $4, $5, $6, $7) ON CONFLICT (homework, app_user) DO UPDATE SET status = EXCLUDED.status, mark = EXCLUDED.mark, graded_by = EXCLUDED.graded_by, created_at = EXCLUDED.created_at RETURNING id, homework, app_user AS \"user\", status, mark, graded_by, created_at");
    reveal_strlit("INSERT INTO ");
    reveal_strlit("homework_result");
    reveal_strlit(" (");
    reveal_strlit("id");
    reveal_strlit(", ");
    reveal_strlit("homework");
    reveal_strlit("app_user");
    reveal_strlit("status");
    reveal_strlit("mark");
    reveal_strlit("graded_by");
    reveal_strlit("created_at");
    reveal_strlit(") VALUES (");
    reveal_strlit("$");
    reveal_strlit(")");
    reveal_strlit(" ON CONFLICT (");
    reveal_strlit(") DO UPDATE");
    reveal_strlit(" SET ");
    reveal_strlit(" = EXCLUDED.");
    reveal_strlit(" RETURNING ");
    reveal(crate::sql::Storing::text);
    reveal_with_fuel(crate::sql::names_text, 8);
    reveal_with_fuel(crate::sql::values_text, 8);
    reveal_with_fuel(crate::sql::excluded_text, 5);
    reveal_with_fuel(crate::sql::stands, 16);
    reveal_with_fuel(crate::sql::spells_by, 54);
    crate::sql::lemma_spells_by(STORE_GRADE@, 0, store_grade_reading().text(), crate::sql::cut(12, crate::sql::cut(27, crate::sql::cut(29, crate::sql::cut(31, crate::sql::cut(33, crate::sql::cut(41, crate::sql::cut(43, crate::sql::cut(51, crate::sql::cut(53, crate::sql::cut(59, crate::sql::cut(61, crate::sql::cut(65, crate::sql::cut(67, crate::sql::cut(76, crate::sql::cut(78, crate::sql::cut(88, crate::sql::cut(98, crate::sql::cut(100, crate::sql::cut(102, crate::sql::cut(104, crate::sql::cut(106, crate::sql::cut(108, crate::sql::cut(110, crate::sql::cut(112, crate::sql::cut(114, crate::sql::cut(116, crate::sql::cut(118, crate::sql::cut(120, crate::sql::cut(122, crate::sql::cut(124, crate::sql::cut(125, crate::sql::cut(139, crate::sql::cut(147, crate::sql::cut(149, crate::sql::cut(157, crate::sql::cut(168, crate::sql::cut(173, crate::sql::cut(179, crate::sql::cut(191, crate::sql::cut(197, crate::sql::cut(199, crate::sql::cut(203, crate::sql::cut(215, crate::sql::cut(219, crate::sql::cut(221, crate::sql::cut(230, crate::sql::cut(242, crate::sql::cut(251, crate::sql::cut(253, crate::sql::cut(263, crate::sql::cut(275, crate::sql::cut(285, crate::sql::cut(296, Cuts::Last))))))))))))))))))))))))))))))))))))))))))))))))))))));
}

/// What [`Grade::Store`] stores, column by column, is what it is given.
pub proof fn law_grade_store_lands_in_its_columns(
    row: HomeworkResult,
    first: bool,
)
    ensures
        ({
            let sent = (Grade::Store { first }).asks(row);
            &&& store_grade_reading().is_read(sent)
            &&& store_grade_reading().stores(sent.binds) == seq![
                ("id"@, Cell::Uuid(row.id.0)),
                ("homework"@, Cell::Uuid(row.homework.0)),
                ("app_user"@, Cell::Uuid(row.user.0)),
                ("status"@, Cell::Text(row.status@)),
                ("mark"@, crate::sql::opt_int(mark_value(row.mark))),
                ("graded_by"@, Cell::Uuid(row.graded_by.0)),
                ("created_at"@, Cell::Int(row.created_at.0 as int)),
            ]
            &&& store_grade_reading().conflict == Conflict::Takes(seq!["homework"@, "app_user"@], seq!["status"@, "mark"@, "graded_by"@, "created_at"@])
        }),
{
    lemma_store_grade_reads();
}

/// What [`STAMP_SUBMISSION`] says.
pub open spec fn stamp_submission_reading() -> Writing {
    Writing {
        head: "UPDATE "@,
        table: "homework_submission"@,
        sets: seq![("graded_by_result"@, crate::sql::bind(3))],
        conditions: seq![crate::sql::is_bound("homework"@, 1), crate::sql::is_bound("app_user"@, 2), Cond::Null(crate::sql::column("graded_by_result"@))],
        rest: Text::End,
    }
}

proof fn lemma_stamp_submission_reads()
    ensures
        crate::sql::spells(STAMP_SUBMISSION@, 0, stamp_submission_reading().text()),
{
    reveal_strlit("UPDATE homework_submission SET graded_by_result = $3 WHERE homework = $1 AND app_user = $2 AND graded_by_result IS NULL");
    reveal_strlit("UPDATE ");
    reveal_strlit("homework_submission");
    reveal_strlit(" SET ");
    reveal_strlit("graded_by_result");
    reveal_strlit(" = ");
    reveal_strlit("$");
    reveal_strlit(" WHERE ");
    reveal_strlit("homework");
    reveal_strlit(" AND ");
    reveal_strlit("app_user");
    reveal_strlit(" IS NULL");
    reveal(crate::sql::Writing::text);
    reveal_with_fuel(crate::sql::set_text, 2);
    reveal_with_fuel(crate::sql::where_text, 4);
    reveal_with_fuel(crate::sql::stands, 20);
    reveal_with_fuel(crate::sql::spells_by, 18);
    crate::sql::lemma_spells_by(STAMP_SUBMISSION@, 0, stamp_submission_reading().text(), crate::sql::cut(7, crate::sql::cut(26, crate::sql::cut(31, crate::sql::cut(47, crate::sql::cut(50, crate::sql::cut(52, crate::sql::cut(59, crate::sql::cut(67, crate::sql::cut(70, crate::sql::cut(72, crate::sql::cut(77, crate::sql::cut(85, crate::sql::cut(88, crate::sql::cut(90, crate::sql::cut(95, crate::sql::cut(111, crate::sql::cut(119, Cuts::Last))))))))))))))))));
}

/// [`Grade::Stamp`] picks the rows it names and no other, and overwrites each column with
/// its own value.
pub proof fn law_grade_stamp_writes_its_row(
    row: HomeworkResult,
    first: bool,
    key: HomeworkResultId,
    stored: Row,
)
    ensures
        ({
            let sent = (Grade::Stamp { first, key }).asks(row);
            &&& stamp_submission_reading().is_read(sent)
            &&& stamp_submission_reading().picks(sent.binds, stored) == (stored["homework"@] == Cell::Uuid(row.homework.0) && stored["app_user"@] == Cell::Uuid(row.user.0) && stored["graded_by_result"@] is Null)
            &&& stamp_submission_reading().writes(sent.binds, stored) == seq![
                ("graded_by_result"@, Cell::Uuid(key.0)),
            ]
        }),
{
    lemma_stamp_submission_reads();
    reveal_with_fuel(crate::sql::all_hold, 4);
}

/// What [`CREDIT_GRADER`] says.
pub open spec fn credit_grader_reading() -> Writing {
    Writing {
        head: "UPDATE "@,
        table: "app_user"@,
        sets: seq![("marks_given_total"@, Expr::Plus(Term::Column("marks_given_total"@), Term::Word("1"@, Cell::Int(1))))],
        conditions: seq![crate::sql::is_bound("id"@, 1)],
        rest: Text::End,
    }
}

proof fn lemma_credit_grader_reads()
    ensures
        crate::sql::spells(CREDIT_GRADER@, 0, credit_grader_reading().text()),
{
    reveal_strlit("UPDATE app_user SET marks_given_total = marks_given_total + 1 WHERE id = $1");
    reveal_strlit("UPDATE ");
    reveal_strlit("app_user");
    reveal_strlit(" SET ");
    reveal_strlit("marks_given_total");
    reveal_strlit(" = ");
    reveal_strlit(" + ");
    reveal_strlit("1");
    reveal_strlit(" WHERE ");
    reveal_strlit("id");
    reveal_strlit("$");
    reveal(crate::sql::Writing::text);
    reveal_with_fuel(crate::sql::set_text, 2);
    reveal_with_fuel(crate::sql::where_text, 2);
    reveal_with_fuel(crate::sql::stands, 18);
    reveal_with_fuel(crate::sql::spells_by, 13);
    crate::sql::lemma_spells_by(CREDIT_GRADER@, 0, credit_grader_reading().text(), crate::sql::cut(7, crate::sql::cut(15, crate::sql::cut(20, crate::sql::cut(37, crate::sql::cut(40, crate::sql::cut(57, crate::sql::cut(60, crate::sql::cut(61, crate::sql::cut(68, crate::sql::cut(70, crate::sql::cut(73, crate::sql::cut(75, Cuts::Last)))))))))))));
}

/// [`Grade::CreditGrader`] picks the rows it names and no other, and overwrites each column with
/// its own value.
pub proof fn law_grade_credit_grader_writes_its_row(
    row: HomeworkResult,
    stored: Row,
)
    ensures
        ({
            let sent = Grade::CreditGrader.asks(row);
            &&& credit_grader_reading().is_read(sent)
            &&& credit_grader_reading().picks(sent.binds, stored) == (stored["id"@] == Cell::Uuid(row.graded_by.0))
            &&& credit_grader_reading().writes(sent.binds, stored) == seq![
                ("marks_given_total"@, Cell::Int(stored["marks_given_total"@].number() + 1)),
            ]
        }),
{
    lemma_credit_grader_reads();
    reveal_with_fuel(crate::sql::all_hold, 2);
}

/// [`Remove::LockHomework`] reads the rows it names and no other.
pub proof fn law_remove_lock_homework_reads_its_rows(
    homework: HomeworkId,
    user: UserId,
    row: Row,
)
    ensures
        ({
            let sent = Remove::LockHomework.asks(homework, user);
            &&& lock_homework_reading().is_read(sent)
            &&& lock_homework_reading().picks(sent.binds, row) == (row["id"@] == Cell::Uuid(homework.0))
        }),
{
    lemma_lock_homework_reads();
    reveal_with_fuel(crate::sql::all_hold, 2);
}

/// The text of [`CLEAR_STAMP`], taken apart at its placeholders.
pub open spec fn clear_stamp_text() -> Text {
    crate::sql::before("UPDATE homework_submission SET graded_by_result"@, crate::sql::before(" = NULL WHERE homework = "@, crate::sql::before(crate::text::placeholder(1), crate::sql::before(" AND app_user = "@, crate::sql::before(crate::text::placeholder(2), crate::sql::before(" AND graded_by_result IN ( SELECT id FROM"@, crate::sql::before(" homework_result WHERE homework = "@, crate::sql::before(crate::text::placeholder(1), crate::sql::before(" AND app_user = "@, crate::sql::before(crate::text::placeholder(2), crate::sql::before(")"@, Text::End)))))))))))
}

proof fn lemma_clear_stamp_reads()
    ensures
        crate::sql::spells(CLEAR_STAMP@, 0, clear_stamp_text()),
{
    reveal_strlit("UPDATE homework_submission SET graded_by_result = NULL WHERE homework = $1 AND app_user = $2 AND graded_by_result IN ( SELECT id FROM homework_result WHERE homework = $1 AND app_user = $2)");
    reveal_strlit("UPDATE homework_submission SET graded_by_result");
    reveal_strlit(" = NULL WHERE homework = ");
    reveal_strlit("$");
    reveal_strlit(" AND app_user = ");
    reveal_strlit(" AND graded_by_result IN ( SELECT id FROM");
    reveal_strlit(" homework_result WHERE homework = ");
    reveal_strlit(")");
    reveal_with_fuel(crate::sql::stands, 48);
    reveal_with_fuel(crate::sql::spells_by, 12);
    crate::sql::lemma_spells_by(CLEAR_STAMP@, 0, clear_stamp_text(), crate::sql::cut(47, crate::sql::cut(72, crate::sql::cut(74, crate::sql::cut(90, crate::sql::cut(92, crate::sql::cut(133, crate::sql::cut(167, crate::sql::cut(169, crate::sql::cut(185, crate::sql::cut(187, crate::sql::cut(188, Cuts::Last))))))))))));
}

/// [`Remove::ClearStamp`] binds each value at its own place in the text.
pub proof fn law_remove_clear_stamp_binds_its_values(
    homework: HomeworkId,
    user: UserId,
)
    ensures
        ({
            let sent = Remove::ClearStamp.asks(homework, user);
            &&& crate::sql::spells(sent.sql, 0, clear_stamp_text())
            &&& sent.binds.len() == 2
            &&& crate::sql::cell(sent.binds[0]) == Cell::Uuid(homework.0)
            &&& crate::sql::cell(sent.binds[1]) == Cell::Uuid(user.0)
        }),
{
    lemma_clear_stamp_reads();
}

/// What [`DELETE_GRADE`] says.
pub open spec fn delete_grade_reading() -> Picking {
    Picking {
        skip: 0,
        head: "DELETE FROM "@,
        columns: Seq::empty(),
        table: "homework_result"@,
        conditions: seq![crate::sql::is_bound("homework"@, 1), crate::sql::is_bound("app_user"@, 2)],
        rest: crate::sql::returning(),
    }
}

proof fn lemma_delete_grade_reads()
    ensures
        crate::sql::spells(DELETE_GRADE@, 0, delete_grade_reading().text()),
{
    reveal_strlit("DELETE FROM homework_result WHERE homework = $1 AND app_user = $2 RETURNING id, homework, app_user AS \"user\", status, mark, graded_by, created_at");
    reveal_strlit("DELETE FROM ");
    reveal_strlit("homework_result");
    reveal_strlit(" WHERE ");
    reveal_strlit("homework");
    reveal_strlit(" = ");
    reveal_strlit("$");
    reveal_strlit(" AND ");
    reveal_strlit("app_user");
    reveal_strlit(" RETURNING ");
    reveal(crate::sql::Picking::text);
    reveal_with_fuel(crate::sql::where_text, 3);
    reveal_with_fuel(crate::sql::stands, 16);
    reveal_with_fuel(crate::sql::spells_by, 12);
    crate::sql::lemma_spells_by(DELETE_GRADE@, 0, delete_grade_reading().text(), crate::sql::cut(12, crate::sql::cut(27, crate::sql::cut(34, crate::sql::cut(42, crate::sql::cut(45, crate::sql::cut(47, crate::sql::cut(52, crate::sql::cut(60, crate::sql::cut(63, crate::sql::cut(65, crate::sql::cut(76, Cuts::Last))))))))))));
}

/// [`Remove::DeleteGrade`] deletes the rows it names and no other.
pub proof fn law_remove_delete_grade_deletes_its_rows(
    homework: HomeworkId,
    user: UserId,
    row: Row,
)
    ensures
        ({
            let sent = Remove::DeleteGrade.asks(homework, user);
            &&& delete_grade_reading().is_read(sent)
            &&& delete_grade_reading().picks(sent.binds, row) == (row["homework"@] == Cell::Uuid(homework.0) && row["app_user"@] == Cell::Uuid(user.0))
        }),
{
    lemma_delete_grade_reads();
    reveal_with_fuel(crate::sql::all_hold, 3);
}

/// What [`DEBIT_GRADER`] says.
pub open spec fn debit_grader_reading() -> Writing {
    Writing {
        head: "UPDATE "@,
        table: "app_user"@,
        sets: seq![("marks_given_total"@, Expr::Floored(Term::Column("marks_given_total"@), Term::Word("1"@, Cell::Int(1))))],
        conditions: seq![crate::sql::is_bound("id"@, 1)],
        rest: Text::End,
    }
}

proof fn lemma_debit_grader_reads()
    ensures
        crate::sql::spells(DEBIT_GRADER@, 0, debit_grader_reading().text()),
{
    reveal_strlit("UPDATE app_user SET marks_given_total = GREATEST(marks_given_total - 1, 0) WHERE id = $1");
    reveal_strlit("UPDATE ");
    reveal_strlit("app_user");
    reveal_strlit(" SET ");
    reveal_strlit("marks_given_total");
    reveal_strlit(" = ");
    reveal_strlit("GREATEST(");
    reveal_strlit(" - ");
    reveal_strlit("1");
    reveal_strlit(", 0)");
    reveal_strlit(" WHERE ");
    reveal_strlit("id");
    reveal_strlit("$");
    reveal(crate::sql::Writing::text);
    reveal_with_fuel(crate::sql::set_text, 2);
    reveal_with_fuel(crate::sql::where_text, 2);
    reveal_with_fuel(crate::sql::stands, 18);
    reveal_with_fuel(crate::sql::spells_by, 15);
    crate::sql::lemma_spells_by(DEBIT_GRADER@, 0, debit_grader_reading().text(), crate::sql::cut(7, crate::sql::cut(15, crate::sql::cut(20, crate::sql::cut(37, crate::sql::cut(40, crate::sql::cut(49, crate::sql::cut(66, crate::sql::cut(69, crate::sql::cut(70, crate::sql::cut(74, crate::sql::cut(81, crate::sql::cut(83, crate::sql::cut(86, crate::sql::cut(88, Cuts::Last)))))))))))))));
}

/// [`Remove::DebitGrader`] picks the rows it names and no other, and overwrites each column with
/// its own value.
pub proof fn law_remove_debit_grader_writes_its_row(
    homework: HomeworkId,
    user: UserId,
    grader: UserId,
    row: Row,
)
    ensures
        ({
            let sent = (Remove::DebitGrader { grader }).asks(homework, user);
            &&& debit_grader_reading().is_read(sent)
            &&& debit_grader_reading().picks(sent.binds, row) == (row["id"@] == Cell::Uuid(grader.0))
            &&& debit_grader_reading().writes(sent.binds, row) == seq![
                ("marks_given_total"@, Cell::Int(crate::tally::floored(row["marks_given_total"@].number() - 1))),
            ]
        }),
{
    lemma_debit_grader_reads();
    reveal_with_fuel(crate::sql::all_hold, 2);
}

} // verus!
