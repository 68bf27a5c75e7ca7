//! The `homework_submission` table: one row per homework and student, with
//! the freeze-guarded upsert and its badge counters, the touch, the reads the
//! roster and report join on, and the counter-returning delete.

use vstd::prelude::*;

use crate::error::Gone;
use crate::id::{HomeworkFileId, HomeworkId, HomeworkSubmissionId, Timestamp, UserId};
use crate::page::{opt_string, Param, ParamView, Statement, StatementView};
use crate::sql::{Cell, Cond, Conflict, Cuts, Expr, Picking, Row, Storing, Term, Text, Writing};
use crate::transaction::{Reply, Step};

verus! {

/// A student's submission to a homework.
#[derive(Debug)]
pub struct HomeworkSubmission {
    pub id: HomeworkSubmissionId,
    pub homework: HomeworkId,
    pub user: UserId,
    pub text: Option<String>,
    pub submitted_at: Timestamp,
    pub updated_at: Timestamp,
}

/// A hand-in. `preserve_text` keeps the text of an existing row: an upload
/// offers none to replace it.
#[derive(Debug)]
pub struct UpsertRequest {
    pub id: HomeworkSubmissionId,
    pub homework: HomeworkId,
    pub user: UserId,
    pub text: Option<String>,
    pub preserve_text: bool,
    pub now: Timestamp,
}

/// The statement a hand-in waits for.
#[derive(Clone, Copy, PartialEq, Eq, Structural, Debug)]
pub enum Upsert {
    /// Take the homework row, where it is for this student: a
    /// [`Reply::Int`] with its deadline.
    LockHomework,
    /// Read whether the student has handed in before.
    ReadExisting { on_time: bool },
    /// Re-stamp the row, unless a grade froze it; its row is the answer.
    Restamp,
    /// Write a first hand-in with its verdict; its row is the answer.
    Insert { on_time: bool },
    /// Raise the student's counters by the same verdict.
    CountUp { on_time: bool },
}

/// What a hand-in comes to.
#[derive(Clone, Copy, PartialEq, Eq, Structural, Debug)]
pub enum Upserted {
    /// A first hand-in.
    Created,
    /// A row that was there before.
    Restamped,
    /// A grade froze the row: nothing was written.
    Frozen,
}

pub const LOCK_OPEN_HOMEWORK: &'static str =
    "SELECT due_at FROM homework WHERE id = $1 AND (cardinality(assigned) = 0 OR $2 = \
     ANY(assigned)) FOR UPDATE";
pub const READ_EXISTING: &'static str =
    "SELECT 1 AS \"row\" FROM homework_submission WHERE homework = $1 AND app_user = $2 FOR UPDATE";
pub const RESTAMP: &'static str =
    "UPDATE homework_submission SET updated_at = $3 WHERE homework = $1 AND app_user = $2 AND \
     graded_by_result IS NULL RETURNING id, homework, app_user AS \"user\", text, submitted_at, \
     updated_at";
pub const RESTAMP_WITH_TEXT: &'static str =
    "UPDATE homework_submission SET text = $3, updated_at = $4 WHERE homework = $1 AND app_user \
     = $2 AND graded_by_result IS NULL RETURNING id, homework, app_user AS \"user\", text, \
     submitted_at, updated_at";
pub const INSERT: &'static str =
    "INSERT INTO homework_submission (id, homework, app_user, text, submitted_at, updated_at, \
     file_count, counted_on_time) VALUES ($1, $2, $3, $4, $5, $5, 0, $6) RETURNING id, \
     homework, app_user AS \"user\", text, submitted_at, updated_at";
pub const COUNT_UP: &'static str =
    "UPDATE app_user SET homework_submitted_total = homework_submitted_total + 1, \
     homework_on_time_total = homework_on_time_total + $2 WHERE id = $1";

/// One for a hand-in that counts as on time.
pub open spec fn credit(on_time: bool) -> i64 {
    if on_time {
        1
    } else {
        0
    }
}

impl Upsert {
    /// The statement of this step.
    pub open spec fn asks(self, request: UpsertRequest) -> StatementView {
        let homework = ParamView::Uuid(request.homework.0);
        let user = ParamView::Uuid(request.user.0);
        let now = ParamView::I64(request.now.0);
        let text = ParamView::OptText(crate::page::opt_string_view(request.text));
        match self {
            Upsert::LockHomework => crate::page::sends(LOCK_OPEN_HOMEWORK, seq![homework, user]),
            Upsert::ReadExisting { .. } => crate::page::sends(READ_EXISTING, seq![homework, user]),
            Upsert::Restamp => if request.preserve_text {
                crate::page::sends(RESTAMP, seq![homework, user, now])
            } else {
                crate::page::sends(RESTAMP_WITH_TEXT, seq![homework, user, text, now])
            },
            Upsert::Insert { on_time } => crate::page::sends(
                INSERT,
                seq![
                    ParamView::Uuid(request.id.0),
                    homework,
                    user,
                    text,
                    now,
                    ParamView::Bool(on_time),
                ],
            ),
            Upsert::CountUp { on_time } => crate::page::sends(
                COUNT_UP,
                seq![user, ParamView::I64(credit(on_time))],
            ),
        }
    }

    /// The statement of this step.
    pub fn statement(self, request: &UpsertRequest) -> (statement: Statement)
        ensures
            statement@ == self.asks(*request),
    {
        let homework = Param::Uuid(request.homework.0);
        let user = Param::Uuid(request.user.0);
        let now = Param::I64(request.now.0);
        let text = Param::OptText(opt_string(&request.text));
        match self {
            Upsert::LockHomework => Statement::new(LOCK_OPEN_HOMEWORK, vec![homework, user]),
            Upsert::ReadExisting { .. } => Statement::new(READ_EXISTING, vec![homework, user]),
            Upsert::Restamp => if request.preserve_text {
                Statement::new(RESTAMP, vec![homework, user, now])
            } else {
                Statement::new(RESTAMP_WITH_TEXT, vec![homework, user, text, now])
            },
            Upsert::Insert { on_time } => Statement::new(
                INSERT,
                vec![
                    Param::Uuid(request.id.0),
                    homework,
                    user,
                    text,
                    now,
                    Param::Bool(on_time),
                ],
            ),
            Upsert::CountUp { on_time } => {
                let by: i64 = if on_time {
                    1
                } else {
                    0
                };
                Statement::new(COUNT_UP, vec![user, Param::I64(by)])
            },
        }
    }
}

/// What a hand-in does once the statement of `at` is answered. The only
/// refusal is that the homework is gone, or not for this student.
pub open spec fn upsert_next(at: Upsert, now: Timestamp, reply: Reply) -> Step<Upsert, Upserted, Gone> {
    match at {
        Upsert::LockHomework => match reply.number() {
            Some(due) => Step::Ask(Upsert::ReadExisting { on_time: now.0 <= due }),
            None => Step::Abort(Gone),
        },
        Upsert::ReadExisting { on_time } => if reply.has_row() {
            Step::Ask(Upsert::Restamp)
        } else {
            Step::Ask(Upsert::Insert { on_time })
        },
        Upsert::Restamp => if reply.has_row() {
            Step::Commit(Upserted::Restamped)
        } else {
            Step::Commit(Upserted::Frozen)
        },
        Upsert::Insert { on_time } => Step::Ask(Upsert::CountUp { on_time }),
        Upsert::CountUp { .. } => Step::Commit(Upserted::Created),
    }
}

/// Create or re-stamp a submission: the step that follows the answer to `at`.
/// A hand-in starts at [`Upsert::LockHomework`] and answers `NotFound` where
/// that finds nothing.
///
/// The verdict is judged against the deadline read under the homework's lock,
/// and a hand-in exactly at it is on time. Only a first hand-in moves the
/// student's counters, by the verdict stored on the row.
pub fn upsert(at: Upsert, now: Timestamp, reply: Reply) -> (step: Step<Upsert, Upserted, Gone>)
    ensures
        step == upsert_next(at, now, reply),
{
    match at {
        Upsert::LockHomework => match reply.value() {
            Some(due) => Step::Ask(Upsert::ReadExisting { on_time: now.0 <= due }),
            None => Step::Abort(Gone),
        },
        Upsert::ReadExisting { on_time } => if reply.row() {
            Step::Ask(Upsert::Restamp)
        } else {
            Step::Ask(Upsert::Insert { on_time })
        },
        Upsert::Restamp => if reply.row() {
            Step::Commit(Upserted::Restamped)
        } else {
            Step::Commit(Upserted::Frozen)
        },
        Upsert::Insert { on_time } => Step::Ask(Upsert::CountUp { on_time }),
        Upsert::CountUp { .. } => Step::Commit(Upserted::Created),
    }
}

pub const TOUCH: &'static str =
    "UPDATE homework_submission SET updated_at = $2 WHERE id = $1 RETURNING id, homework, \
     app_user AS \"user\", text, submitted_at, updated_at";

/// The re-stamp of a submission's `updated_at`, which leaves its text, its
/// files and its first stamp alone; `NotFound` where nothing comes back.
pub fn touch(id: HomeworkSubmissionId, now: Timestamp) -> (statement: Statement)
    ensures
        statement@ == crate::page::sends(TOUCH, seq![ParamView::Uuid(id.0), ParamView::I64(now.0)]),
{
    Statement::new(TOUCH, vec![Param::Uuid(id.0), Param::I64(now.0)])
}

pub const IS_GRADED: &'static str =
    "SELECT EXISTS(SELECT 1 FROM homework_submission WHERE id = $1 AND graded_by_result IS NOT \
     NULL) AS graded";

/// The read of whether a grade has frozen a submission.
pub fn is_graded(id: HomeworkSubmissionId) -> (statement: Statement)
    ensures
        statement@ == crate::page::sends(IS_GRADED, seq![ParamView::Uuid(id.0)]),
{
    Statement::new(IS_GRADED, vec![Param::Uuid(id.0)])
}

pub const READ_FOR: &'static str =
    "SELECT id, homework, app_user AS \"user\", text, submitted_at, updated_at FROM \
     homework_submission WHERE homework = $1 AND app_user = $2";

/// The read of a student's submission to a homework.
pub fn read_for(homework: HomeworkId, user: UserId) -> (statement: Statement)
    ensures
        statement@ == crate::page::sends(
            READ_FOR,
            seq![ParamView::Uuid(homework.0), ParamView::Uuid(user.0)],
        ),
{
    Statement::new(READ_FOR, vec![Param::Uuid(homework.0), Param::Uuid(user.0)])
}

pub const LIST_FOR_HOMEWORK: &'static str =
    "SELECT id, homework, app_user AS \"user\", text, submitted_at, updated_at FROM \
     homework_submission WHERE homework = $1 ORDER BY id ASC";

/// The read of every submission to a homework, in creation order.
pub fn list_for_homework(homework: HomeworkId) -> (statement: Statement)
    ensures
        statement@ == crate::page::sends(LIST_FOR_HOMEWORK, seq![ParamView::Uuid(homework.0)]),
{
    Statement::new(LIST_FOR_HOMEWORK, vec![Param::Uuid(homework.0)])
}

pub const LOCK_HOMEWORK_DUE: &'static str =
    "SELECT due_at FROM homework WHERE id = $1 FOR UPDATE";

/// The read that takes the homework row before a withdrawal, with the deadline
/// a row without a verdict is judged by.
pub fn delete_lock(homework: HomeworkId) -> (statement: Statement)
    ensures
        statement@ == crate::page::sends(LOCK_HOMEWORK_DUE, seq![ParamView::Uuid(homework.0)]),
{
    Statement::new(LOCK_HOMEWORK_DUE, vec![Param::Uuid(homework.0)])
}

pub const LOCK_OPEN_SUBMISSION: &'static str =
    "SELECT id, homework, app_user AS \"user\", text, submitted_at, updated_at, counted_on_time \
     FROM homework_submission WHERE id = $1 AND graded_by_result IS NULL FOR UPDATE";

/// The read that takes the submission row, unless a grade froze it.
pub fn delete_target(id: HomeworkSubmissionId) -> (statement: Statement)
    ensures
        statement@ == crate::page::sends(LOCK_OPEN_SUBMISSION, seq![ParamView::Uuid(id.0)]),
{
    Statement::new(LOCK_OPEN_SUBMISSION, vec![Param::Uuid(id.0)])
}

pub const DELETE_FILES: &'static str =
    "DELETE FROM homework_file WHERE submission = $1";
pub const DELETE_SUBMISSION: &'static str =
    "DELETE FROM homework_submission WHERE id = $1";
pub const COUNT_DOWN: &'static str =
    "UPDATE app_user SET homework_submitted_total = GREATEST(homework_submitted_total - 1, 0), \
     homework_on_time_total = GREATEST(homework_on_time_total - $2, 0) WHERE id = $1";

/// A submission about to be withdrawn, with the verdict stored on it, where
/// it has one.
#[derive(Clone, Copy, PartialEq, Eq, Structural, Debug)]
pub struct Withdrawal {
    pub id: HomeworkSubmissionId,
    pub user: UserId,
    pub submitted_at: Timestamp,
    pub counted_on_time: Option<bool>,
}

/// Whether a withdrawal gives an on-time credit back: the stored verdict
/// says, and a row without one is judged by the deadline, late where the
/// homework is gone.
pub open spec fn was_on_time(row: Withdrawal, due: Option<Timestamp>) -> bool {
    match row.counted_on_time {
        Some(verdict) => verdict,
        None => match due {
            Some(due) => row.submitted_at.0 <= due.0,
            None => false,
        },
    }
}

/// The statements of a withdrawal: the files before the row they hang off,
/// then the counters.
pub open spec fn withdrawal(row: Withdrawal, due: Option<Timestamp>) -> Seq<StatementView> {
    seq![
        crate::page::sends(DELETE_FILES, seq![ParamView::Uuid(row.id.0)]),
        crate::page::sends(DELETE_SUBMISSION, seq![ParamView::Uuid(row.id.0)]),
        crate::page::sends(
            COUNT_DOWN,
            seq![ParamView::Uuid(row.user.0), ParamView::I64(credit(was_on_time(row, due)))],
        ),
    ]
}

/// Withdraw a submission and its files: what follows the replies of
/// [`delete_lock`] and [`delete_target`]. A frozen row and one that is gone
/// are one refusal: nothing is deleted.
pub fn delete(due: Option<Timestamp>, target: Option<Withdrawal>) -> (statements: Option<
    Vec<Statement>,
>)
    ensures
        statements is Some == target is Some,
        statements is Some ==> crate::page::all_sent(statements->0@) == withdrawal(target->0, due),
{
    let row = match target {
        Some(row) => row,
        None => {
            return None;
        },
    };
    let on_time: bool = match row.counted_on_time {
        Some(verdict) => verdict,
        None => match due {
            Some(due) => row.submitted_at.0 <= due.0,
            None => false,
        },
    };
    let by: i64 = if on_time {
        1
    } else {
        0
    };
    let statements = vec![
        Statement::new(DELETE_FILES, vec![Param::Uuid(row.id.0)]),
        Statement::new(DELETE_SUBMISSION, vec![Param::Uuid(row.id.0)]),
        Statement::new(COUNT_DOWN, vec![Param::Uuid(row.user.0), Param::I64(by)]),
    ];
    assert(crate::page::all_sent(statements@) =~~= withdrawal(row, due));
    Some(statements)
}

/// The columns of a homework that hand-ins read; an empty audience is the
/// whole course.
pub struct HomeworkRow {
    pub due_at: i64,
    pub assigned: Set<UserId>,
}

/// A stored submission.
pub struct SubmissionRow {
    pub id: HomeworkSubmissionId,
    pub text: Option<Seq<char>>,
    pub submitted_at: i64,
    pub updated_at: i64,
    pub counted_on_time: Option<bool>,
    pub graded: bool,
}

/// A student's badge counters.
pub struct HandinTotals {
    pub submitted: int,
    pub on_time: int,
}

/// The tables a hand-in touches; `files` is the submission each file hangs off.
#[verifier::ext_equal]
pub struct Handins {
    pub homework: Map<HomeworkId, HomeworkRow>,
    pub submissions: Map<(HomeworkId, UserId), SubmissionRow>,
    pub files: Map<HomeworkFileId, HomeworkSubmissionId>,
    pub users: Map<UserId, HandinTotals>,
}

/// The submissions of one student.
pub open spec fn handed_in_by(user: UserId) -> spec_fn((HomeworkId, UserId), SubmissionRow) -> bool {
    |key: (HomeworkId, UserId), row: SubmissionRow| key.1 == user
}

/// The submissions of one student whose stored verdict is on time.
pub open spec fn on_time_by(user: UserId) -> spec_fn((HomeworkId, UserId), SubmissionRow) -> bool {
    |key: (HomeworkId, UserId), row: SubmissionRow|
        key.1 == user && row.counted_on_time == Some(true)
}

impl Handins {
    /// What a student's `homework_submitted_total` holds beyond the
    /// submissions that stand: the ones a teacher's delete took.
    pub open spec fn submitted_before(self, user: UserId) -> int {
        self.users[user].submitted - crate::tally::tally(self.submissions, handed_in_by(user))
    }

    /// The same for `homework_on_time_total`.
    pub open spec fn on_time_before(self, user: UserId) -> int {
        self.users[user].on_time - crate::tally::tally(self.submissions, on_time_by(user))
    }

    /// Every submission that stands is counted once, with its own verdict.
    pub open spec fn counted(self) -> bool {
        &&& self.submissions.dom().finite()
        &&& forall|user: UserId| #[trigger]
            self.users.contains_key(user) ==> 0 <= self.on_time_before(user)
                <= self.submitted_before(user)
    }

    /// Whether a homework is there and for this student.
    pub open spec fn is_for(self, homework: HomeworkId, user: UserId) -> bool {
        self.homework.contains_key(homework) && (self.homework[homework].assigned
            == Set::<UserId>::empty() || self.homework[homework].assigned.contains(user))
    }
}

/// The row a first hand-in stores.
pub open spec fn first_row(request: UpsertRequest, on_time: bool) -> SubmissionRow {
    SubmissionRow {
        id: request.id,
        text: crate::page::opt_string_view(request.text),
        submitted_at: request.now.0,
        updated_at: request.now.0,
        counted_on_time: Some(on_time),
        graded: false,
    }
}

/// The row a later hand-in leaves: a new stamp, and the text it gives unless
/// it keeps the old one.
pub open spec fn restamped(row: SubmissionRow, request: UpsertRequest) -> SubmissionRow {
    SubmissionRow {
        text: if request.preserve_text {
            row.text
        } else {
            crate::page::opt_string_view(request.text)
        },
        updated_at: request.now.0,
        ..row
    }
}

/// What each statement of a hand-in does to the tables, and what it replies.
pub open spec fn upsert_effect(db: Handins, request: UpsertRequest, at: Upsert) -> (
    Handins,
    Reply,
) {
    let key = (request.homework, request.user);
    match at {
        Upsert::LockHomework => (
            db,
            if db.is_for(request.homework, request.user) {
                Reply::Int(db.homework[request.homework].due_at)
            } else {
                Reply::Empty
            },
        ),
        Upsert::ReadExisting { .. } => (
            db,
            if db.submissions.contains_key(key) {
                Reply::Row
            } else {
                Reply::Empty
            },
        ),
        Upsert::Restamp => if db.submissions.contains_key(key) && !db.submissions[key].graded {
            (
                Handins {
                    submissions: db.submissions.insert(
                        key,
                        restamped(db.submissions[key], request),
                    ),
                    ..db
                },
                Reply::Row,
            )
        } else {
            (db, Reply::Empty)
        },
        Upsert::Insert { on_time } => (
            Handins {
                submissions: db.submissions.insert(
                    key,
                    first_row(request, on_time),
                ),
                ..db
            },
            Reply::Row,
        ),
        Upsert::CountUp { on_time } => (
            Handins {
                users: if db.users.contains_key(request.user) {
                    db.users.insert(
                        request.user,
                        HandinTotals {
                            submitted: db.users[request.user].submitted + 1,
                            on_time: db.users[request.user].on_time + credit(on_time),
                        },
                    )
                } else {
                    db.users
                },
                ..db
            },
            Reply::Row,
        ),
    }
}

/// A whole hand-in against the tables.
pub open spec fn upsert_run(db: Handins, request: UpsertRequest) -> (Handins, Step<Upsert, Upserted, Gone>) {
    crate::transaction::run(
        db,
        Step::Ask(Upsert::LockHomework),
        |at: Upsert, reply: Reply| upsert_next(at, request.now, reply),
        |tables: Handins, at: Upsert| upsert_effect(tables, request, at),
        4,
    )
}

/// What the tables hold after a hand-in.
pub open spec fn handed_in(db: Handins, request: UpsertRequest) -> Handins {
    crate::transaction::stored(db, upsert_run(db, request))
}

/// A hand-in is refused exactly where the homework is gone or not for the
/// student, and then changes nothing; a graded row answers that it is frozen
/// and changes nothing either; an existing row keeps its key, its first stamp,
/// its verdict and both counters, and its text where the hand-in says so; a new
/// one stores the verdict on the stored deadline. No file is touched.
pub proof fn law_upsert_answers(db: Handins, request: UpsertRequest)
    ensures
        ({
            let key = (request.homework, request.user);
            let end = upsert_run(db, request).1;
            let after = handed_in(db, request);
            &&& after.files == db.files
            &&& after.homework == db.homework
            &&& if !db.is_for(request.homework, request.user) {
                end == Step::<Upsert, Upserted, Gone>::Abort(Gone) && after == db
            } else if !db.submissions.contains_key(key) {
                &&& end == Step::<Upsert, Upserted, Gone>::Commit(Upserted::Created)
                &&& after.submissions == db.submissions.insert(
                    key,
                    first_row(request, request.now.0 <= db.homework[request.homework].due_at),
                )
            } else if db.submissions[key].graded {
                end == Step::<Upsert, Upserted, Gone>::Commit(Upserted::Frozen) && after == db
            } else {
                &&& end == Step::<Upsert, Upserted, Gone>::Commit(Upserted::Restamped)
                &&& after.users == db.users
                &&& after.submissions == db.submissions.insert(
                    key,
                    restamped(db.submissions[key], request),
                )
            }
        }),
{
    reveal_with_fuel(crate::transaction::run, 5);
}

/// A hand-in keeps the counters: each student's totals move exactly with the
/// submissions that stand.
pub proof fn law_upsert_keeps_counters(db: Handins, request: UpsertRequest, user: UserId)
    requires
        db.submissions.dom().finite(),
        db.users.contains_key(user),
    ensures
        handed_in(db, request).submissions.dom().finite(),
        handed_in(db, request).users.contains_key(user),
        handed_in(db, request).submitted_before(user) == db.submitted_before(user),
        handed_in(db, request).on_time_before(user) == db.on_time_before(user),
{
    reveal_with_fuel(crate::transaction::run, 5);
    let key = (request.homework, request.user);
    let after = handed_in(db, request);
    law_upsert_answers(db, request);
    if after != db {
        crate::tally::lemma_tally_insert(
            db.submissions,
            key,
            after.submissions[key],
            handed_in_by(user),
        );
        crate::tally::lemma_tally_insert(
            db.submissions,
            key,
            after.submissions[key],
            on_time_by(user),
        );
    }
}

/// The row a withdrawal of a stored submission reads: nothing where another
/// submission of the pair has taken its place, or a grade has frozen it.
pub open spec fn withdrawal_of(
    db: Handins,
    homework: HomeworkId,
    user: UserId,
    id: HomeworkSubmissionId,
) -> Option<Withdrawal> {
    let key = (homework, user);
    if db.submissions.contains_key(key) && db.submissions[key].id == id
        && !db.submissions[key].graded {
        Some(
            Withdrawal {
                id,
                user,
                submitted_at: Timestamp(db.submissions[key].submitted_at),
                counted_on_time: db.submissions[key].counted_on_time,
            },
        )
    } else {
        None
    }
}

/// The deadline a withdrawal reads.
pub open spec fn due_of(db: Handins, homework: HomeworkId) -> Option<Timestamp> {
    if db.homework.contains_key(homework) {
        Some(Timestamp(db.homework[homework].due_at))
    } else {
        None
    }
}

/// The files of one submission.
pub open spec fn files_of(db: Handins, id: HomeworkSubmissionId) -> Set<HomeworkFileId> {
    db.files.dom().filter(|file: HomeworkFileId| db.files[file] == id)
}

/// What the tables hold after a withdrawal.
pub open spec fn withdrawn(
    db: Handins,
    homework: HomeworkId,
    user: UserId,
    id: HomeworkSubmissionId,
) -> Handins {
    match withdrawal_of(db, homework, user, id) {
        None => db,
        Some(row) => {
            let by = credit(was_on_time(row, due_of(db, homework)));
            Handins {
                submissions: db.submissions.remove((homework, user)),
                files: db.files.remove_keys(files_of(db, row.id)),
                users: if db.users.contains_key(user) {
                    db.users.insert(
                        user,
                        HandinTotals {
                            submitted: crate::tally::floored(db.users[user].submitted - 1),
                            on_time: crate::tally::floored(db.users[user].on_time - by),
                        },
                    )
                } else {
                    db.users
                },
                ..db
            }
        },
    }
}

/// A withdrawal gives back exactly what the hand-in took, by the verdict
/// stored on the row, however the deadline has moved since. A row without a
/// stored verdict is left out: what it took left no trace.
pub proof fn law_withdrawal_keeps_counters(
    db: Handins,
    homework: HomeworkId,
    user: UserId,
    id: HomeworkSubmissionId,
    other: UserId,
)
    requires
        db.counted(),
        db.users.contains_key(other),
        db.submissions.contains_key((homework, user)) ==> db.submissions[(
            homework,
            user,
        )].counted_on_time is Some,
    ensures
        withdrawn(db, homework, user, id).users.contains_key(other),
        withdrawn(db, homework, user, id).submitted_before(other) == db.submitted_before(other),
        withdrawn(db, homework, user, id).on_time_before(other) == db.on_time_before(other),
{
    let key = (homework, user);
    crate::tally::lemma_tally_remove(db.submissions, key, handed_in_by(other));
    crate::tally::lemma_tally_remove(db.submissions, key, on_time_by(other));
    crate::tally::lemma_tally_holds(db.submissions, key, handed_in_by(other));
    crate::tally::lemma_tally_holds(db.submissions, key, on_time_by(other));
}

/// A withdrawal takes the submission and every file of it, and nothing of any
/// other; a frozen submission, and one that is gone, stay as they are.
pub proof fn law_withdrawal_takes_its_files(
    db: Handins,
    homework: HomeworkId,
    user: UserId,
    id: HomeworkSubmissionId,
    other: (HomeworkId, UserId),
    file: HomeworkFileId,
)
    ensures
        ({
            let key = (homework, user);
            let after = withdrawn(db, homework, user, id);
            if db.submissions.contains_key(key) && db.submissions[key].id == id
                && !db.submissions[key].graded {
                &&& !after.submissions.contains_key(key)
                &&& other != key ==> after.submissions.contains_key(other)
                    == db.submissions.contains_key(other) && after.submissions[other]
                    == db.submissions[other]
                &&& after.files.contains_key(file) == (db.files.contains_key(file)
                    && db.files[file] != id)
                &&& after.files.contains_key(file) ==> after.files[file] == db.files[file]
            } else {
                after == db
            }
        }),
{
}

/// A first hand-in and its withdrawal net to nothing, so handing one homework
/// in again and again is worth one submission. No file hangs off a key that is
/// new.
pub proof fn law_submit_then_withdraw(db: Handins, request: UpsertRequest)
    requires
        db.counted(),
        !db.submissions.contains_key((request.homework, request.user)),
        forall|file: HomeworkFileId| #[trigger]
            db.files.contains_key(file) ==> db.files[file] != request.id,
    ensures
        withdrawn(handed_in(db, request), request.homework, request.user, request.id) == db,
{
    reveal_with_fuel(crate::transaction::run, 5);
    law_upsert_answers(db, request);
    let key = (request.homework, request.user);
    let between = handed_in(db, request);
    let after = withdrawn(between, request.homework, request.user, request.id);
    if db.is_for(request.homework, request.user) {
        assert(after.files =~= db.files);
        assert(after.submissions =~= db.submissions);
        if db.users.contains_key(request.user) {
            assert(0 <= db.on_time_before(request.user) <= db.submitted_before(request.user));
        }
        assert(after.users =~= db.users);
    }
}

/// No student has more on-time submissions than submissions: it holds
/// wherever the counters are in order, and both operations keep them so.
pub proof fn law_on_time_within_submitted(db: Handins, user: UserId)
    requires
        db.counted(),
        db.users.contains_key(user),
    ensures
        db.users[user].on_time <= db.users[user].submitted,
{
    let all = crate::tally::matching(db.submissions, handed_in_by(user));
    let on_time = crate::tally::matching(db.submissions, on_time_by(user));
    assert(all.finite()) by {
        db.submissions.dom().lemma_len_filter(
            |k: (HomeworkId, UserId)| handed_in_by(user)(k, db.submissions[k]),
        );
    }
    assert(on_time.subset_of(all));
    vstd::set_lib::lemma_len_subset(on_time, all);
}

/// What [`LOCK_OPEN_HOMEWORK`] says.
pub open spec fn lock_open_homework_reading() -> Picking {
    Picking {
        skip: 0,
        head: "SELECT "@,
        columns: seq!["due_at"@],
        table: "homework"@,
        conditions: seq![crate::sql::is_bound("id"@, 1), Cond::OpenTo("assigned"@, Term::Bind(2))],
        rest: crate::sql::before(" FOR UPDATE"@, Text::End),
    }
}

proof fn lemma_lock_open_homework_reads()
    ensures
        crate::sql::spells(LOCK_OPEN_HOMEWORK@, 0, lock_open_homework_reading().text()),
{
    reveal_strlit("SELECT due_at FROM homework WHERE id = $1 AND (cardinality(assigned) = 0 OR $2 = ANY(assigned)) FOR UPDATE");
    reveal_strlit("SELECT ");
    reveal_strlit("due_at");
    reveal_strlit(" FROM ");
    reveal_strlit("homework");
    reveal_strlit(" WHERE ");
    reveal_strlit("id");
    reveal_strlit(" = ");
    reveal_strlit("$");
    reveal_strlit(" AND ");
    reveal_strlit("(cardinality(");
    reveal_strlit("assigned");
    reveal_strlit(") = 0 OR ");
    reveal_strlit(" = ANY(");
    reveal_strlit("))");
    reveal_strlit(" FOR UPDATE");
    reveal(crate::sql::Picking::text);
    reveal_with_fuel(crate::sql::where_text, 3);
    reveal_with_fuel(crate::sql::names_text, 2);
    reveal_with_fuel(crate::sql::stands, 14);
    reveal_with_fuel(crate::sql::spells_by, 18);
    crate::sql::lemma_spells_by(LOCK_OPEN_HOMEWORK@, 0, lock_open_homework_reading().text(), crate::sql::cut(7, crate::sql::cut(13, crate::sql::cut(19, crate::sql::cut(27, crate::sql::cut(34, crate::sql::cut(36, crate::sql::cut(39, crate::sql::cut(41, crate::sql::cut(46, crate::sql::cut(59, crate::sql::cut(67, crate::sql::cut(76, crate::sql::cut(78, crate::sql::cut(85, crate::sql::cut(93, crate::sql::cut(95, crate::sql::cut(106, Cuts::Last))))))))))))))))));
}

/// What [`READ_EXISTING`] says.
pub open spec fn read_existing_reading() -> Picking {
    Picking {
        skip: 0,
        head: "SELECT "@,
        columns: seq!["1 AS \"row\""@],
        table: "homework_submission"@,
        conditions: seq![crate::sql::is_bound("homework"@, 1), crate::sql::is_bound("app_user"@, 2)],
        rest: crate::sql::before(" FOR UPDATE"@, Text::End),
    }
}

proof fn lemma_read_existing_reads()
    ensures
        crate::sql::spells(READ_EXISTING@, 0, read_existing_reading().text()),
{
    reveal_strlit("SELECT 1 AS \"row\" FROM homework_submission WHERE homework = $1 AND app_user = $2 FOR UPDATE");
    reveal_strlit("SELECT ");
    reveal_strlit("1 AS \"row\"");
    reveal_strlit(" FROM ");
    reveal_strlit("homework_submission");
    reveal_strlit(" WHERE ");
    reveal_strlit("homework");
    reveal_strlit(" = ");
    reveal_strlit("$");
    reveal_strlit(" AND ");
    reveal_strlit("app_user");
    reveal_strlit(" FOR UPDATE");
    reveal(crate::sql::Picking::text);
    reveal_with_fuel(crate::sql::where_text, 3);
    reveal_with_fuel(crate::sql::names_text, 2);
    reveal_with_fuel(crate::sql::stands, 20);
    reveal_with_fuel(crate::sql::spells_by, 14);
    crate::sql::lemma_spells_by(READ_EXISTING@, 0, read_existing_reading().text(), crate::sql::cut(7, crate::sql::cut(17, crate::sql::cut(23, crate::sql::cut(42, crate::sql::cut(49, crate::sql::cut(57, crate::sql::cut(60, crate::sql::cut(62, crate::sql::cut(67, crate::sql::cut(75, crate::sql::cut(78, crate::sql::cut(80, crate::sql::cut(91, Cuts::Last))))))))))))));
}

/// What [`RESTAMP`] says.
pub open spec fn restamp_reading() -> Writing {
    Writing {
        head: "UPDATE "@,
        table: "homework_submission"@,
        sets: seq![("updated_at"@, crate::sql::bind(3))],
        conditions: seq![crate::sql::is_bound("homework"@, 1), crate::sql::is_bound("app_user"@, 2), Cond::Null(crate::sql::column("graded_by_result"@))],
        rest: crate::sql::returning(),
    }
}

proof fn lemma_restamp_reads()
    ensures
        crate::sql::spells(RESTAMP@, 0, restamp_reading().text()),
{
    reveal_strlit("UPDATE homework_submission SET updated_at = $3 WHERE homework = $1 AND app_user = $2 AND graded_by_result IS NULL RETURNING id, homework, app_user AS \"user\", text, submitted_at, updated_at");
    reveal_strlit("UPDATE ");
    reveal_strlit("homework_submission");
    reveal_strlit(" SET ");
    reveal_strlit("updated_at");
    reveal_strlit(" = ");
    reveal_strlit("$");
    reveal_strlit(" WHERE ");
    reveal_strlit("homework");
    reveal_strlit(" AND ");
    reveal_strlit("app_user");
    reveal_strlit("graded_by_result");
    reveal_strlit(" IS NULL");
    reveal_strlit(" RETURNING ");
    reveal(crate::sql::Writing::text);
    reveal_with_fuel(crate::sql::set_text, 2);
    reveal_with_fuel(crate::sql::where_text, 4);
    reveal_with_fuel(crate::sql::stands, 20);
    reveal_with_fuel(crate::sql::spells_by, 19);
    crate::sql::lemma_spells_by(RESTAMP@, 0, restamp_reading().text(), crate::sql::cut(7, crate::sql::cut(26, crate::sql::cut(31, crate::sql::cut(41, crate::sql::cut(44, crate::sql::cut(46, crate::sql::cut(53, crate::sql::cut(61, crate::sql::cut(64, crate::sql::cut(66, crate::sql::cut(71, crate::sql::cut(79, crate::sql::cut(82, crate::sql::cut(84, crate::sql::cut(89, crate::sql::cut(105, crate::sql::cut(113, crate::sql::cut(124, Cuts::Last)))))))))))))))))));
}

/// What [`RESTAMP_WITH_TEXT`] says.
pub open spec fn restamp_with_text_reading() -> Writing {
    Writing {
        head: "UPDATE "@,
        table: "homework_submission"@,
        sets: seq![("text"@, crate::sql::bind(3)), ("updated_at"@, crate::sql::bind(4))],
        conditions: seq![crate::sql::is_bound("homework"@, 1), crate::sql::is_bound("app_user"@, 2), Cond::Null(crate::sql::column("graded_by_result"@))],
        rest: crate::sql::returning(),
    }
}

proof fn lemma_restamp_with_text_reads()
    ensures
        crate::sql::spells(RESTAMP_WITH_TEXT@, 0, restamp_with_text_reading().text()),
{
    reveal_strlit("UPDATE homework_submission SET text = $3, updated_at = $4 WHERE homework = $1 AND app_user = $2 AND graded_by_result IS NULL RETURNING id, homework, app_user AS \"user\", text, submitted_at, updated_at");
    reveal_strlit("UPDATE ");
    reveal_strlit("homework_submission");
    reveal_strlit(" SET ");
    reveal_strlit("text");
    reveal_strlit(" = ");
    reveal_strlit("$");
    reveal_strlit(", ");
    reveal_strlit("updated_at");
    reveal_strlit(" WHERE ");
    reveal_strlit("homework");
    reveal_strlit(" AND ");
    reveal_strlit("app_user");
    reveal_strlit("graded_by_result");
    reveal_strlit(" IS NULL");
    reveal_strlit(" RETURNING ");
    reveal(crate::sql::Writing::text);
    reveal_with_fuel(crate::sql::set_text, 3);
    reveal_with_fuel(crate::sql::where_text, 4);
    reveal_with_fuel(crate::sql::stands, 20);
    reveal_with_fuel(crate::sql::spells_by, 23);
    crate::sql::lemma_spells_by(RESTAMP_WITH_TEXT@, 0, restamp_with_text_reading().text(), crate::sql::cut(7, crate::sql::cut(26, crate::sql::cut(31, crate::sql::cut(35, crate::sql::cut(38, crate::sql::cut(40, crate::sql::cut(42, crate::sql::cut(52, crate::sql::cut(55, crate::sql::cut(57, crate::sql::cut(64, crate::sql::cut(72, crate::sql::cut(75, crate::sql::cut(77, crate::sql::cut(82, crate::sql::cut(90, crate::sql::cut(93, crate::sql::cut(95, crate::sql::cut(100, crate::sql::cut(116, crate::sql::cut(124, crate::sql::cut(135, Cuts::Last)))))))))))))))))))))));
}

/// What [`INSERT`] says.
pub open spec fn insert_reading() -> Storing {
    Storing {
        head: "INSERT INTO "@,
        table: "homework_submission"@,
        columns: seq!["id"@, "homework"@, "app_user"@, "text"@, "submitted_at"@, "updated_at"@, "file_count"@, "counted_on_time"@],
        values: seq![Term::Bind(1), Term::Bind(2), Term::Bind(3), Term::Bind(4), Term::Bind(5), Term::Bind(5), Term::Word("0"@, Cell::Int(0)), Term::Bind(6)],
        selected: false,
        conflict: Conflict::Unread,
        rest: crate::sql::returning(),
    }
}

proof fn lemma_insert_reads()
    ensures
        crate::sql::spells(INSERT@, 0, insert_reading().text()),
{
    reveal_strlit("INSERT INTO homework_submission (id, homework, app_user, text, submitted_at, updated_at, file_count, counted_on_time) VALUES ($1, $2, $3, $4, $5, $5, 0, $6) RETURNING id, homework, app_user AS \"user\", text, submitted_at, updated_at");
    reveal_strlit("INSERT INTO ");
    reveal_strlit("homework_submission");
    reveal_strlit(" (");
    reveal_strlit("id");
    reveal_strlit(", ");
    reveal_strlit("homework");
    reveal_strlit("app_user");
    reveal_strlit("text");
    reveal_strlit("submitted_at");
    reveal_strlit("updated_at");
    reveal_strlit("file_count");
    reveal_strlit("counted_on_time");
    reveal_strlit(") VALUES (");
    reveal_strlit("$");
    reveal_strlit("0");
    reveal_strlit(")");
    reveal_strlit(" RETURNING ");
    reveal(crate::sql::Storing::text);
    reveal_with_fuel(crate::sql::names_text, 9);
    reveal_with_fuel(crate::sql::values_text, 9);
    reveal_with_fuel(crate::sql::stands, 20);
    reveal_with_fuel(crate::sql::spells_by, 37);
    crate::sql::lemma_spells_by(INSERT@, 0, insert_reading().text(), crate::sql::cut(12, crate::sql::cut(31, crate::sql::cut(33, crate::sql::cut(35, crate::sql::cut(37, crate::sql::cut(45, crate::sql::cut(47, crate::sql::cut(55, crate::sql::cut(57, crate::sql::cut(61, crate::sql::cut(63, crate::sql::cut(75, crate::sql::cut(77, crate::sql::cut(87, crate::sql::cut(89, crate::sql::cut(99, crate::sql::cut(101, crate::sql::cut(116, crate::sql::cut(126, crate::sql::cut(128, crate::sql::cut(130, crate::sql::cut(132, crate::sql::cut(134, crate::sql::cut(136, crate::sql::cut(138, crate::sql::cut(140, crate::sql::cut(142, crate::sql::cut(144, crate::sql::cut(146, crate::sql::cut(148, crate::sql::cut(150, crate::sql::cut(151, crate::sql::cut(153, crate::sql::cut(155, crate::sql::cut(156, crate::sql::cut(167, Cuts::Last)))))))))))))))))))))))))))))))))))));
}

/// What [`COUNT_UP`] says.
pub open spec fn count_up_reading() -> Writing {
    Writing {
        head: "UPDATE "@,
        table: "app_user"@,
        sets: seq![("homework_submitted_total"@, Expr::Plus(Term::Column("homework_submitted_total"@), Term::Word("1"@, Cell::Int(1)))), ("homework_on_time_total"@, Expr::Plus(Term::Column("homework_on_time_total"@), Term::Bind(2)))],
        conditions: seq![crate::sql::is_bound("id"@, 1)],
        rest: Text::End,
    }
}

proof fn lemma_count_up_reads()
    ensures
        crate::sql::spells(COUNT_UP@, 0, count_up_reading().text()),
{
    reveal_strlit("UPDATE app_user SET homework_submitted_total = homework_submitted_total + 1, homework_on_time_total = homework_on_time_total + $2 WHERE id = $1");
    reveal_strlit("UPDATE ");
    reveal_strlit("app_user");
    reveal_strlit(" SET ");
    reveal_strlit("homework_submitted_total");
    reveal_strlit(" = ");
    reveal_strlit(" + ");
    reveal_strlit("1");
    reveal_strlit(", ");
    reveal_strlit("homework_on_time_total");
    reveal_strlit("$");
    reveal_strlit(" WHERE ");
    reveal_strlit("id");
    reveal(crate::sql::Writing::text);
    reveal_with_fuel(crate::sql::set_text, 3);
    reveal_with_fuel(crate::sql::where_text, 2);
    reveal_with_fuel(crate::sql::stands, 25);
    reveal_with_fuel(crate::sql::spells_by, 19);
    crate::sql::lemma_spells_by(COUNT_UP@, 0, count_up_reading().text(), crate::sql::cut(7, crate::sql::cut(15, crate::sql::cut(20, crate::sql::cut(44, crate::sql::cut(47, crate::sql::cut(71, crate::sql::cut(74, crate::sql::cut(75, crate::sql::cut(77, crate::sql::cut(99, crate::sql::cut(102, crate::sql::cut(124, crate::sql::cut(127, crate::sql::cut(129, crate::sql::cut(136, crate::sql::cut(138, crate::sql::cut(141, crate::sql::cut(143, Cuts::Last)))))))))))))))))));
}

/// What [`DELETE_FILES`] says.
pub open spec fn delete_files_reading() -> Picking {
    Picking {
        skip: 0,
        head: "DELETE FROM "@,
        columns: Seq::empty(),
        table: "homework_file"@,
        conditions: seq![crate::sql::is_bound("submission"@, 1)],
        rest: Text::End,
    }
}

proof fn lemma_delete_files_reads()
    ensures
        crate::sql::spells(DELETE_FILES@, 0, delete_files_reading().text()),
{
    reveal_strlit("DELETE FROM homework_file WHERE submission = $1");
    reveal_strlit("DELETE FROM ");
    reveal_strlit("homework_file");
    reveal_strlit(" WHERE ");
    reveal_strlit("submission");
    reveal_strlit(" = ");
    reveal_strlit("$");
    reveal(crate::sql::Picking::text);
    reveal_with_fuel(crate::sql::where_text, 2);
    reveal_with_fuel(crate::sql::stands, 14);
    reveal_with_fuel(crate::sql::spells_by, 7);
    crate::sql::lemma_spells_by(DELETE_FILES@, 0, delete_files_reading().text(), crate::sql::cut(12, crate::sql::cut(25, crate::sql::cut(32, crate::sql::cut(42, crate::sql::cut(45, crate::sql::cut(47, Cuts::Last)))))));
}

/// What [`DELETE_SUBMISSION`] says.
pub open spec fn delete_submission_reading() -> Picking {
    Picking {
        skip: 0,
        head: "DELETE FROM "@,
        columns: Seq::empty(),
        table: "homework_submission"@,
        conditions: seq![crate::sql::is_bound("id"@, 1)],
        rest: Text::End,
    }
}

proof fn lemma_delete_submission_reads()
    ensures
        crate::sql::spells(DELETE_SUBMISSION@, 0, delete_submission_reading().text()),
{
    reveal_strlit("DELETE FROM homework_submission WHERE id = $1");
    reveal_strlit("DELETE FROM ");
    reveal_strlit("homework_submission");
    reveal_strlit(" WHERE ");
    reveal_strlit("id");
    reveal_strlit(" = ");
    reveal_strlit("$");
    reveal(crate::sql::Picking::text);
    reveal_with_fuel(crate::sql::where_text, 2);
    reveal_with_fuel(crate::sql::stands, 20);
    reveal_with_fuel(crate::sql::spells_by, 7);
    crate::sql::lemma_spells_by(DELETE_SUBMISSION@, 0, delete_submission_reading().text(), crate::sql::cut(12, crate::sql::cut(31, crate::sql::cut(38, crate::sql::cut(40, crate::sql::cut(43, crate::sql::cut(45, Cuts::Last)))))));
}

/// What [`COUNT_DOWN`] says.
pub open spec fn count_down_reading() -> Writing {
    Writing {
        head: "UPDATE "@,
        table: "app_user"@,
        sets: seq![("homework_submitted_total"@, Expr::Floored(Term::Column("homework_submitted_total"@), Term::Word("1"@, Cell::Int(1)))), ("homework_on_time_total"@, Expr::Floored(Term::Column("homework_on_time_total"@), Term::Bind(2)))],
        conditions: seq![crate::sql::is_bound("id"@, 1)],
        rest: Text::End,
    }
}

proof fn lemma_count_down_reads()
    ensures
        crate::sql::spells(COUNT_DOWN@, 0, count_down_reading().text()),
{
    reveal_strlit("UPDATE app_user SET homework_submitted_total = GREATEST(homework_submitted_total - 1, 0), homework_on_time_total = GREATEST(homework_on_time_total - $2, 0) WHERE id = $1");
    reveal_strlit("UPDATE ");
    reveal_strlit("app_user");
    reveal_strlit(" SET ");
    reveal_strlit("homework_submitted_total");
    reveal_strlit(" = ");
    reveal_strlit("GREATEST(");
    reveal_strlit(" - ");
    reveal_strlit("1");
    reveal_strlit(", 0)");
    reveal_strlit(", ");
    reveal_strlit("homework_on_time_total");
    reveal_strlit("$");
    reveal_strlit(" WHERE ");
    reveal_strlit("id");
    reveal(crate::sql::Writing::text);
    reveal_with_fuel(crate::sql::set_text, 3);
    reveal_with_fuel(crate::sql::where_text, 2);
    reveal_with_fuel(crate::sql::stands, 25);
    reveal_with_fuel(crate::sql::spells_by, 23);
    crate::sql::lemma_spells_by(COUNT_DOWN@, 0, count_down_reading().text(), crate::sql::cut(7, crate::sql::cut(15, crate::sql::cut(20, crate::sql::cut(44, crate::sql::cut(47, crate::sql::cut(56, crate::sql::cut(80, crate::sql::cut(83, crate::sql::cut(84, crate::sql::cut(88, crate::sql::cut(90, crate::sql::cut(112, crate::sql::cut(115, crate::sql::cut(124, crate::sql::cut(146, crate::sql::cut(149, crate::sql::cut(151, crate::sql::cut(155, crate::sql::cut(162, crate::sql::cut(164, crate::sql::cut(167, crate::sql::cut(169, Cuts::Last)))))))))))))))))))))));
}

/// Whether a row of the submissions' table holds a submission.
pub open spec fn holds_submission(
    row: Row,
    pair: (HomeworkId, UserId),
    submission: SubmissionRow,
) -> bool {
    &&& row["id"@] == Cell::Uuid(submission.id.0)
    &&& row["homework"@] == Cell::Uuid(pair.0.0)
    &&& row["app_user"@] == Cell::Uuid(pair.1.0)
    &&& row["text"@] == crate::sql::opt_text(submission.text)
    &&& row["submitted_at"@] == Cell::Int(submission.submitted_at as int)
    &&& row["updated_at"@] == Cell::Int(submission.updated_at as int)
    &&& row["graded_by_result"@] is Null == !submission.graded
}

/// Whether a row of the users' table holds a student's totals.
pub open spec fn holds_totals(row: Row, user: UserId, totals: HandinTotals) -> bool {
    &&& row["id"@] == Cell::Uuid(user.0)
    &&& row["homework_submitted_total"@] == Cell::Int(totals.submitted)
    &&& row["homework_on_time_total"@] == Cell::Int(totals.on_time)
}

/// A first hand-in stores what was handed in: read off its columns, the row has
/// the request's key, homework, student and text, both stamps are now, it has no
/// file and its verdict is the one of the step. It is the row the tables hold of
/// the pair after, so reading it back gives the text that was handed in.
pub proof fn law_first_handin_lands_in_its_columns(
    db: Handins,
    request: UpsertRequest,
    on_time: bool,
)
    ensures
        ({
            let sent = Upsert::Insert { on_time }.asks(request);
            let after = upsert_effect(db, request, Upsert::Insert { on_time }).0;
            let kept = after.submissions[(request.homework, request.user)];
            &&& insert_reading().is_read(sent)
            &&& insert_reading().stores(sent.binds) == seq![
                ("id"@, Cell::Uuid(request.id.0)),
                ("homework"@, Cell::Uuid(request.homework.0)),
                ("app_user"@, Cell::Uuid(request.user.0)),
                ("text"@, crate::sql::opt_text(crate::page::opt_string_view(request.text))),
                ("submitted_at"@, Cell::Int(request.now.0 as int)),
                ("updated_at"@, Cell::Int(request.now.0 as int)),
                ("file_count"@, Cell::Int(0)),
                ("counted_on_time"@, Cell::Bool(on_time)),
            ]
            &&& kept == (SubmissionRow {
                id: request.id,
                text: crate::page::opt_string_view(request.text),
                submitted_at: request.now.0,
                updated_at: request.now.0,
                counted_on_time: Some(on_time),
                graded: false,
            })
        }),
{
    lemma_insert_reads();
}

/// A later hand-in re-stamps the pair's own row, unless a grade froze it, and
/// gives it the request's text unless the text is kept: carried out on a row, it
/// leaves what the tables hold of it after.
#[verifier::rlimit(40)]
#[verifier::spinoff_prover]
pub proof fn law_later_handin_lands_in_its_columns(
    db: Handins,
    request: UpsertRequest,
    pair: (HomeworkId, UserId),
    row: Row,
)
    requires
        db.submissions.contains_key(pair),
        holds_submission(row, pair, db.submissions[pair]),
    ensures
        ({
            let sent = Upsert::Restamp.asks(request);
            let (after, reply) = upsert_effect(db, request, Upsert::Restamp);
            let own = pair == (request.homework, request.user) && !db.submissions[pair].graded;
            let kept = after.submissions[pair];
            &&& if request.preserve_text {
                &&& restamp_reading().is_read(sent)
                &&& restamp_reading().picks(sent.binds, row) == own
                &&& own ==> restamp_reading().writes(sent.binds, row) == seq![
                    ("updated_at"@, Cell::Int(kept.updated_at as int)),
                ] && kept.text == db.submissions[pair].text
            } else {
                &&& restamp_with_text_reading().is_read(sent)
                &&& restamp_with_text_reading().picks(sent.binds, row) == own
                &&& own ==> restamp_with_text_reading().writes(sent.binds, row) == seq![
                    ("text"@, crate::sql::opt_text(kept.text)),
                    ("updated_at"@, Cell::Int(kept.updated_at as int)),
                ] && kept.text == crate::page::opt_string_view(request.text)
            }
            &&& own ==> reply.has_row() && kept.updated_at == request.now.0
            &&& !own ==> kept == db.submissions[pair]
        }),
{
    lemma_restamp_reads();
    lemma_restamp_with_text_reads();
    reveal_with_fuel(crate::sql::all_hold, 4);
}

/// A first hand-in counts for its own student, and as on time where its verdict
/// says so: carried out on a student's row, it leaves the totals that the tables
/// hold after.
pub proof fn law_handin_counts_for_its_student(
    db: Handins,
    request: UpsertRequest,
    on_time: bool,
    user: UserId,
    row: Row,
)
    requires
        db.users.contains_key(user),
        holds_totals(row, user, db.users[user]),
    ensures
        ({
            let sent = Upsert::CountUp { on_time }.asks(request);
            let after = upsert_effect(db, request, Upsert::CountUp { on_time }).0;
            &&& count_up_reading().is_read(sent)
            &&& count_up_reading().picks(sent.binds, row) == (user == request.user)
            &&& if user == request.user {
                &&& count_up_reading().writes(sent.binds, row) == seq![
                    ("homework_submitted_total"@, Cell::Int(after.users[user].submitted)),
                    ("homework_on_time_total"@, Cell::Int(after.users[user].on_time)),
                ]
                &&& after.users[user].submitted == db.users[user].submitted + 1
                &&& after.users[user].on_time == db.users[user].on_time + if on_time {
                    1int
                } else {
                    0int
                }
            } else {
                after.users[user] == db.users[user]
            }
        }),
{
    lemma_count_up_reads();
    reveal_with_fuel(crate::sql::all_hold, 2);
}

/// A hand-in asks about its own homework, where that is for the whole course or
/// for this student, and about its own pair's row.
pub proof fn law_handin_asks_about_its_pair(
    request: UpsertRequest,
    on_time: bool,
    row: Row,
)
    ensures
        ({
            let lock = Upsert::LockHomework.asks(request);
            let existing = Upsert::ReadExisting { on_time }.asks(request);
            &&& lock_open_homework_reading().is_read(lock)
            &&& lock_open_homework_reading().columns == seq!["due_at"@]
            &&& lock_open_homework_reading().picks(lock.binds, row) == (row["id"@] == Cell::Uuid(
                request.homework.0,
            ) && row["assigned"@] is Uuids && (row["assigned"@]->Uuids_0.len() == 0
                || row["assigned"@]->Uuids_0.contains(request.user.0)))
            &&& read_existing_reading().is_read(existing)
            &&& read_existing_reading().picks(existing.binds, row) == (row["homework"@]
                == Cell::Uuid(request.homework.0) && row["app_user"@] == Cell::Uuid(
                request.user.0,
            ))
        }),
{
    lemma_lock_open_homework_reads();
    lemma_read_existing_reads();
    reveal_with_fuel(crate::sql::all_hold, 3);
}

/// A withdrawal deletes the files of its own submission, then the submission,
/// and takes one hand-in off its own student's totals, an on-time one where the
/// row was; no total falls below zero.
pub proof fn law_withdrawal_lands_in_its_columns(
    row: Withdrawal,
    due: Option<Timestamp>,
    file: Row,
    submission: Row,
    student: Row,
)
    ensures
        ({
            let sent = withdrawal(row, due);
            &&& sent.len() == 3
            &&& delete_files_reading().is_read(sent[0])
            &&& delete_files_reading().picks(sent[0].binds, file) == (file["submission"@]
                == Cell::Uuid(row.id.0))
            &&& delete_submission_reading().is_read(sent[1])
            &&& delete_submission_reading().picks(sent[1].binds, submission) == (submission["id"@]
                == Cell::Uuid(row.id.0))
            &&& count_down_reading().is_read(sent[2])
            &&& count_down_reading().picks(sent[2].binds, student) == (student["id"@]
                == Cell::Uuid(row.user.0))
            &&& count_down_reading().writes(sent[2].binds, student) == seq![
                (
                    "homework_submitted_total"@,
                    Cell::Int(
                        crate::tally::floored(student["homework_submitted_total"@].number() - 1),
                    ),
                ),
                (
                    "homework_on_time_total"@,
                    Cell::Int(
                        crate::tally::floored(
                            student["homework_on_time_total"@].number() - if was_on_time(row, due) {
                                1int
                            } else {
                                0int
                            },
                        ),
                    ),
                ),
            ]
        }),
{
    lemma_delete_files_reads();
    lemma_delete_submission_reads();
    lemma_count_down_reads();
    reveal_with_fuel(crate::sql::all_hold, 2);
}

/// What [`TOUCH`] says.
pub open spec fn touch_reading() -> Writing {
    Writing {
        head: "UPDATE "@,
        table: "homework_submission"@,
        sets: seq![("updated_at"@, crate::sql::bind(2))],
        conditions: seq![crate::sql::is_bound("id"@, 1)],
        rest: crate::sql::returning(),
    }
}

proof fn lemma_touch_reads()
    ensures
        crate::sql::spells(TOUCH@, 0, touch_reading().text()),
{
    reveal_strlit("UPDATE homework_submission SET updated_at = $2 WHERE id = $1 RETURNING id, homework, app_user AS \"user\", text, submitted_at, updated_at");
    reveal_strlit("UPDATE ");
    reveal_strlit("homework_submission");
    reveal_strlit(" SET ");
    reveal_strlit("updated_at");
    reveal_strlit(" = ");
    reveal_strlit("$");
    reveal_strlit(" WHERE ");
    reveal_strlit("id");
    reveal_strlit(" RETURNING ");
    reveal(crate::sql::Writing::text);
    reveal_with_fuel(crate::sql::set_text, 2);
    reveal_with_fuel(crate::sql::where_text, 2);
    reveal_with_fuel(crate::sql::stands, 20);
    reveal_with_fuel(crate::sql::spells_by, 12);
    crate::sql::lemma_spells_by(TOUCH@, 0, touch_reading().text(), crate::sql::cut(7, crate::sql::cut(26, crate::sql::cut(31, crate::sql::cut(41, crate::sql::cut(44, crate::sql::cut(46, crate::sql::cut(53, crate::sql::cut(55, crate::sql::cut(58, crate::sql::cut(60, crate::sql::cut(71, Cuts::Last))))))))))));
}

/// [`touch`] picks the rows it names and no other, and overwrites each column with
/// its own value.
pub proof fn law_touch_writes_its_row(
    id: HomeworkSubmissionId,
    now: Timestamp,
    sent: Statement,
    row: Row,
)
    requires
        call_ensures(touch, (id, now), sent),
    ensures
        touch_reading().is_read(sent@),
        touch_reading().picks(sent@.binds, row) == (row["id"@] == Cell::Uuid(id.0)),
        touch_reading().writes(sent@.binds, row) == seq![
            ("updated_at"@, Cell::Int(now.0 as int)),
        ],
{
    lemma_touch_reads();
    reveal_with_fuel(crate::sql::all_hold, 2);
}

/// What [`IS_GRADED`] says.
pub open spec fn is_graded_reading() -> Picking {
    Picking {
        skip: 0,
        head: "SELECT EXISTS(SELECT 1 FROM "@,
        columns: Seq::empty(),
        table: "homework_submission"@,
        conditions: seq![crate::sql::is_bound("id"@, 1), Cond::NotNull(crate::sql::column("graded_by_result"@))],
        rest: crate::sql::before(") AS graded"@, Text::End),
    }
}

proof fn lemma_is_graded_reads()
    ensures
        crate::sql::spells(IS_GRADED@, 0, is_graded_reading().text()),
{
    reveal_strlit("SELECT EXISTS(SELECT 1 FROM homework_submission WHERE id = $1 AND graded_by_result IS NOT NULL) AS graded");
    reveal_strlit("SELECT EXISTS(SELECT 1 FROM ");
    reveal_strlit("homework_submission");
    reveal_strlit(" WHERE ");
    reveal_strlit("id");
    reveal_strlit(" = ");
    reveal_strlit("$");
    reveal_strlit(" AND ");
    reveal_strlit("graded_by_result");
    reveal_strlit(" IS NOT NULL");
    reveal_strlit(") AS graded");
    reveal(crate::sql::Picking::text);
    reveal_with_fuel(crate::sql::where_text, 3);
    reveal_with_fuel(crate::sql::stands, 29);
    reveal_with_fuel(crate::sql::spells_by, 11);
    crate::sql::lemma_spells_by(IS_GRADED@, 0, is_graded_reading().text(), crate::sql::cut(28, crate::sql::cut(47, crate::sql::cut(54, crate::sql::cut(56, crate::sql::cut(59, crate::sql::cut(61, crate::sql::cut(66, crate::sql::cut(82, crate::sql::cut(94, crate::sql::cut(105, Cuts::Last)))))))))));
}

/// [`is_graded`] reads the rows it names and no other.
pub proof fn law_is_graded_reads_its_rows(
    id: HomeworkSubmissionId,
    sent: Statement,
    row: Row,
)
    requires
        call_ensures(is_graded, (id,), sent),
    ensures
        is_graded_reading().is_read(sent@),
        is_graded_reading().picks(sent@.binds, row) == (row["id"@] == Cell::Uuid(id.0) && row["graded_by_result"@] !is Null),
{
    lemma_is_graded_reads();
    reveal_with_fuel(crate::sql::all_hold, 3);
}

/// What [`READ_FOR`] says.
pub open spec fn read_for_reading() -> Picking {
    Picking {
        skip: 71,
        head: " FROM "@,
        columns: Seq::empty(),
        table: "homework_submission"@,
        conditions: seq![crate::sql::is_bound("homework"@, 1), crate::sql::is_bound("app_user"@, 2)],
        rest: Text::End,
    }
}

proof fn lemma_read_for_reads()
    ensures
        crate::sql::spells(READ_FOR@, 71, read_for_reading().text()),
{
    reveal_strlit("SELECT id, homework, app_user AS \"user\", text, submitted_at, updated_at FROM homework_submission WHERE homework = $1 AND app_user = $2");
    reveal_strlit(" FROM ");
    reveal_strlit("homework_submission");
    reveal_strlit(" WHERE ");
    reveal_strlit("homework");
    reveal_strlit(" = ");
    reveal_strlit("$");
    reveal_strlit(" AND ");
    reveal_strlit("app_user");
    reveal(crate::sql::Picking::text);
    reveal_with_fuel(crate::sql::where_text, 3);
    reveal_with_fuel(crate::sql::stands, 20);
    reveal_with_fuel(crate::sql::spells_by, 11);
    crate::sql::lemma_spells_by(READ_FOR@, 71, read_for_reading().text(), crate::sql::cut(77, crate::sql::cut(96, crate::sql::cut(103, crate::sql::cut(111, crate::sql::cut(114, crate::sql::cut(116, crate::sql::cut(121, crate::sql::cut(129, crate::sql::cut(132, crate::sql::cut(134, Cuts::Last)))))))))));
}

/// [`read_for`] reads the rows it names and no other.
pub proof fn law_read_for_reads_its_rows(
    homework: HomeworkId,
    user: UserId,
    sent: Statement,
    row: Row,
)
    requires
        call_ensures(read_for, (homework, user), sent),
    ensures
        read_for_reading().is_read(sent@),
        read_for_reading().picks(sent@.binds, row) == (row["homework"@] == Cell::Uuid(homework.0) && row["app_user"@] == Cell::Uuid(user.0)),
{
    lemma_read_for_reads();
    reveal_with_fuel(crate::sql::all_hold, 3);
}

/// What [`LIST_FOR_HOMEWORK`] says.
pub open spec fn list_for_homework_reading() -> Picking {
    Picking {
        skip: 71,
        head: " FROM "@,
        columns: Seq::empty(),
        table: "homework_submission"@,
        conditions: seq![crate::sql::is_bound("homework"@, 1)],
        rest: crate::sql::before(" ORDER BY id ASC"@, Text::End),
    }
}

proof fn lemma_list_for_homework_reads()
    ensures
        crate::sql::spells(LIST_FOR_HOMEWORK@, 71, list_for_homework_reading().text()),
{
    reveal_strlit("SELECT id, homework, app_user AS \"user\", text, submitted_at, updated_at FROM homework_submission WHERE homework = $1 ORDER BY id ASC");
    reveal_strlit(" FROM ");
    reveal_strlit("homework_submission");
    reveal_strlit(" WHERE ");
    reveal_strlit("homework");
    reveal_strlit(" = ");
    reveal_strlit("$");
    reveal_strlit(" ORDER BY id ASC");
    reveal(crate::sql::Picking::text);
    reveal_with_fuel(crate::sql::where_text, 2);
    reveal_with_fuel(crate::sql::stands, 20);
    reveal_with_fuel(crate::sql::spells_by, 8);
    crate::sql::lemma_spells_by(LIST_FOR_HOMEWORK@, 71, list_for_homework_reading().text(), crate::sql::cut(77, crate::sql::cut(96, crate::sql::cut(103, crate::sql::cut(111, crate::sql::cut(114, crate::sql::cut(116, crate::sql::cut(132, Cuts::Last))))))));
}

/// [`list_for_homework`] reads the rows it names and no other.
pub proof fn law_list_for_homework_reads_its_rows(
    homework: HomeworkId,
    sent: Statement,
    row: Row,
)
    requires
        call_ensures(list_for_homework, (homework,), sent),
    ensures
        list_for_homework_reading().is_read(sent@),
        list_for_homework_reading().picks(sent@.binds, row) == (row["homework"@] == Cell::Uuid(homework.0)),
{
    lemma_list_for_homework_reads();
    reveal_with_fuel(crate::sql::all_hold, 2);
}

/// What [`LOCK_HOMEWORK_DUE`] says.
pub open spec fn lock_homework_due_reading() -> Picking {
    Picking {
        skip: 0,
        head: "SELECT "@,
        columns: seq!["due_at"@],
        table: "homework"@,
        conditions: seq![crate::sql::is_bound("id"@, 1)],
        rest: crate::sql::before(" FOR UPDATE"@, Text::End),
    }
}

proof fn lemma_lock_homework_due_reads()
    ensures
        crate::sql::spells(LOCK_HOMEWORK_DUE@, 0, lock_homework_due_reading().text()),
{
    reveal_strlit("SELECT due_at FROM homework WHERE id = $1 FOR UPDATE");
    reveal_strlit("SELECT ");
    reveal_strlit("due_at");
    reveal_strlit(" FROM ");
    reveal_strlit("homework");
    reveal_strlit(" WHERE ");
    reveal_strlit("id");
    reveal_strlit(" = ");
    reveal_strlit("$");
    reveal_strlit(" FOR UPDATE");
    reveal(crate::sql::Picking::text);
    reveal_with_fuel(crate::sql::where_text, 2);
    reveal_with_fuel(crate::sql::names_text, 2);
    reveal_with_fuel(crate::sql::stands, 12);
    reveal_with_fuel(crate::sql::spells_by, 10);
    crate::sql::lemma_spells_by(LOCK_HOMEWORK_DUE@, 0, lock_homework_due_reading().text(), crate::sql::cut(7, crate::sql::cut(13, crate::sql::cut(19, crate::sql::cut(27, crate::sql::cut(34, crate::sql::cut(36, crate::sql::cut(39, crate::sql::cut(41, crate::sql::cut(52, Cuts::Last))))))))));
}

/// [`delete_lock`] reads the rows it names and no other.
pub proof fn law_delete_lock_reads_its_rows(
    homework: HomeworkId,
    sent: Statement,
    row: Row,
)
    requires
        call_ensures(delete_lock, (homework,), sent),
    ensures
        lock_homework_due_reading().is_read(sent@),
        lock_homework_due_reading().picks(sent@.binds, row) == (row["id"@] == Cell::Uuid(homework.0)),
{
    lemma_lock_homework_due_reads();
    reveal_with_fuel(crate::sql::all_hold, 2);
}

/// What [`LOCK_OPEN_SUBMISSION`] says.
pub open spec fn lock_open_submission_reading() -> Picking {
    Picking {
        skip: 88,
        head: " FROM "@,
        columns: Seq::empty(),
        table: "homework_submission"@,
        conditions: seq![crate::sql::is_bound("id"@, 1), Cond::Null(crate::sql::column("graded_by_result"@))],
        rest: crate::sql::before(" FOR UPDATE"@, Text::End),
    }
}

proof fn lemma_lock_open_submission_reads()
    ensures
        crate::sql::spells(LOCK_OPEN_SUBMISSION@, 88, lock_open_submission_reading().text()),
{
    reveal_strlit("SELECT id, homework, app_user AS \"user\", text, submitted_at, updated_at, counted_on_time FROM homework_submission WHERE id = $1 AND graded_by_result IS NULL FOR UPDATE");
    reveal_strlit(" FROM ");
    reveal_strlit("homework_submission");
    reveal_strlit(" WHERE ");
    reveal_strlit("id");
    reveal_strlit(" = ");
    reveal_strlit("$");
    reveal_strlit(" AND ");
    reveal_strlit("graded_by_result");
    reveal_strlit(" IS NULL");
    reveal_strlit(" FOR UPDATE");
    reveal(crate::sql::Picking::text);
    reveal_with_fuel(crate::sql::where_text, 3);
    reveal_with_fuel(crate::sql::stands, 20);
    reveal_with_fuel(crate::sql::spells_by, 11);
    crate::sql::lemma_spells_by(LOCK_OPEN_SUBMISSION@, 88, lock_open_submission_reading().text(), crate::sql::cut(94, crate::sql::cut(113, crate::sql::cut(120, crate::sql::cut(122, crate::sql::cut(125, crate::sql::cut(127, crate::sql::cut(132, crate::sql::cut(148, crate::sql::cut(156, crate::sql::cut(167, Cuts::Last)))))))))));
}

/// [`delete_target`] reads the rows it names and no other.
pub proof fn law_delete_target_reads_its_rows(
    id: HomeworkSubmissionId,
    sent: Statement,
    row: Row,
)
    requires
        call_ensures(delete_target, (id,), sent),
    ensures
        lock_open_submission_reading().is_read(sent@),
        lock_open_submission_reading().picks(sent@.binds, row) == (row["id"@] == Cell::Uuid(id.0) && row["graded_by_result"@] is Null),
{
    lemma_lock_open_submission_reads();
    reveal_with_fuel(crate::sql::all_hold, 3);
}

} // verus!
