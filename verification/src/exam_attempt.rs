//! The `exam_attempt` table: sitting reads, the two field-scoped writes
//! (`finished_at`, `left_at`), the guarded sitting create, and the freeze
//! gate, the in-transaction check every exam-child write runs before it
//! touches anything.

use vstd::prelude::*;

use crate::claim::{verdict, Claimed};
use crate::error::{AppError, AppErrorView, DbError};
use crate::id::{ExamId, Timestamp, UserId};
use crate::page::{Param, ParamView, Statement, StatementView};
use crate::sql::{Cell, Cond, Conflict, Cuts, Expr, Picking, Row, Storing, Term, Text, Writing};
use crate::transaction::{Reply, Step};

verus! {

/// One student's sitting of an exam: its key.
#[derive(Clone, Copy, PartialEq, Eq, Structural, Debug)]
pub struct Sitting {
    pub exam: ExamId,
    pub user: UserId,
    pub seq: i64,
}

/// A sitting: when it began, when it was submitted and when the student last
/// walked out of it.
#[derive(Clone, Copy, PartialEq, Eq, Structural, Debug)]
pub struct ExamAttempt {
    pub id: Sitting,
    pub started_at: Timestamp,
    pub finished_at: Option<Timestamp>,
    pub left_at: Option<Timestamp>,
}

/// The answer to a question change once a sitting has begun.
pub const FROZEN: &'static str = "cannot change questions after attempts have started";

/// The answer to a question change once a sitting has begun.
pub fn frozen_error() -> (error: AppError)
    ensures
        error@ == AppErrorView::Conflict(FROZEN@),
{
    AppError::Conflict(FROZEN)
}

/// The statement the freeze gate waits for.
#[derive(Clone, Copy, PartialEq, Eq, Structural, Debug)]
pub enum Freeze {
    /// Take the exam row.
    LockExam,
    /// Read whether anyone has started the exam: a [`Reply::Flag`].
    AnyAttempt,
}

/// Why the freeze gate refuses.
#[derive(Clone, Copy, PartialEq, Eq, Structural, Debug)]
pub enum FreezeRefusal {
    NoExam,
    Frozen,
}

pub const LOCK_EXAM: &'static str =
    "SELECT id FROM exam WHERE id = $1 FOR UPDATE";
pub const ANY_ATTEMPT: &'static str =
    "SELECT EXISTS(SELECT 1 FROM exam_attempt WHERE exam = $1) AS sat";

impl Freeze {
    /// The statement of this step.
    pub open spec fn asks(self, exam: ExamId) -> StatementView {
        match self {
            Freeze::LockExam => crate::page::sends(LOCK_EXAM, seq![ParamView::Uuid(exam.0)]),
            Freeze::AnyAttempt => crate::page::sends(ANY_ATTEMPT, seq![ParamView::Uuid(exam.0)]),
        }
    }

    /// The statement of this step.
    pub fn statement(self, exam: ExamId) -> (statement: Statement)
        ensures
            statement@ == self.asks(exam),
    {
        match self {
            Freeze::LockExam => Statement::new(LOCK_EXAM, vec![Param::Uuid(exam.0)]),
            Freeze::AnyAttempt => Statement::new(ANY_ATTEMPT, vec![Param::Uuid(exam.0)]),
        }
    }
}

/// What the freeze gate does once the statement of `at` is answered.
pub open spec fn freeze_next(at: Freeze, reply: Reply) -> Step<Freeze, (), FreezeRefusal> {
    match at {
        Freeze::LockExam => if reply.has_row() {
            Step::Ask(Freeze::AnyAttempt)
        } else {
            Step::Abort(FreezeRefusal::NoExam)
        },
        Freeze::AnyAttempt => if reply.is_up() {
            Step::Abort(FreezeRefusal::Frozen)
        } else {
            Step::Commit(())
        },
    }
}

/// The freeze gate, run inside a caller's transaction: the step that follows
/// the answer to `at`. It starts at [`Freeze::LockExam`] and refuses unless
/// the exam is there and nobody has started it.
pub fn freeze_gate(at: Freeze, reply: Reply) -> (step: Step<Freeze, (), FreezeRefusal>)
    ensures
        step == freeze_next(at, reply),
{
    match at {
        Freeze::LockExam => if reply.row() {
            Step::Ask(Freeze::AnyAttempt)
        } else {
            Step::Abort(FreezeRefusal::NoExam)
        },
        Freeze::AnyAttempt => if reply.flag() {
            Step::Abort(FreezeRefusal::Frozen)
        } else {
            Step::Commit(())
        },
    }
}

impl FreezeRefusal {
    /// What a refused gate answers.
    pub open spec fn answers(self) -> AppErrorView {
        match self {
            FreezeRefusal::NoExam => AppErrorView::NotFound,
            FreezeRefusal::Frozen => AppErrorView::Conflict(FROZEN@),
        }
    }

    /// What a refused gate answers.
    pub fn error(self) -> (error: AppError)
        ensures
            error@ == self.answers(),
    {
        match self {
            FreezeRefusal::NoExam => AppError::NotFound,
            FreezeRefusal::Frozen => frozen_error(),
        }
    }
}

/// The exams that are there, and whether anyone has started each.
pub type Sat = Map<ExamId, bool>;

/// What the statements of the freeze gate reply.
pub open spec fn freeze_reply(sat: Sat, exam: ExamId, at: Freeze) -> Reply {
    match at {
        Freeze::LockExam => if sat.contains_key(exam) {
            Reply::Row
        } else {
            Reply::Empty
        },
        Freeze::AnyAttempt => Reply::Flag(sat.contains_key(exam) && sat[exam]),
    }
}

/// The refusal the freeze gate meets, if any.
pub open spec fn freeze_refusal(sat: Sat, exam: ExamId) -> Option<FreezeRefusal> {
    if !sat.contains_key(exam) {
        Some(FreezeRefusal::NoExam)
    } else if sat[exam] {
        Some(FreezeRefusal::Frozen)
    } else {
        None
    }
}

pub const FINISH: &'static str =
    "UPDATE exam_attempt SET finished_at = $1 WHERE exam = $2 AND app_user = $3 AND seq = $4 \
     RETURNING exam, app_user AS \"user\", seq, started_at, finished_at, left_at";

/// The stamp of a submission. It writes `finished_at` alone, so it never
/// carries a stale walk-out back; `NotFound` where nothing comes back.
pub fn finish(id: Sitting, now: Timestamp) -> (statement: Statement)
    ensures
        statement@ == crate::page::sends(
            FINISH,
            seq![
                ParamView::I64(now.0),
                ParamView::Uuid(id.exam.0),
                ParamView::Uuid(id.user.0),
                ParamView::I64(id.seq),
            ],
        ),
{
    Statement::new(
        FINISH,
        vec![Param::I64(now.0), Param::Uuid(id.exam.0), Param::Uuid(id.user.0), Param::I64(id.seq)],
    )
}

pub const SET_LEFT: &'static str =
    "UPDATE exam_attempt SET left_at = $1 WHERE exam = $2 AND app_user = $3 AND seq = $4 \
     RETURNING exam, app_user AS \"user\", seq, started_at, finished_at, left_at";

/// The stamp (or clear) of the walked-out marker. It writes `left_at` alone,
/// so it never carries a stale submission back; `NotFound` where nothing
/// comes back.
pub fn set_left(id: Sitting, left_at: Option<Timestamp>) -> (statement: Statement)
    ensures
        statement@ == crate::page::sends(
            SET_LEFT,
            seq![
                ParamView::OptI64(crate::meal_booking::moment_value(left_at)),
                ParamView::Uuid(id.exam.0),
                ParamView::Uuid(id.user.0),
                ParamView::I64(id.seq),
            ],
        ),
{
    let left: Option<i64> = match left_at {
        Some(at) => Some(at.0),
        None => None,
    };
    Statement::new(
        SET_LEFT,
        vec![
            Param::OptI64(left),
            Param::Uuid(id.exam.0),
            Param::Uuid(id.user.0),
            Param::I64(id.seq),
        ],
    )
}

pub const STAMP_LEFT_IF_RUNNING: &'static str =
    "UPDATE exam_attempt a SET left_at = $4 FROM exam e WHERE e.id = a.exam AND a.exam = $1 AND \
     a.app_user = $2 AND a.seq = $3 AND a.left_at IS NULL AND a.finished_at IS NULL AND \
     (e.duration_ms IS NULL OR $4 < a.started_at + e.duration_ms) AND (e.duration_ms IS NOT \
     NULL OR e.ends_at IS NULL OR $4 < e.ends_at)";

/// The stamp of a walk-out on a sitting that is still in progress: nothing
/// stamped, nothing submitted, and the exam's live schedule not past the
/// sitting's deadline.
pub fn stamp_left_if_running(id: Sitting, now: Timestamp) -> (statement: Statement)
    ensures
        statement@ == crate::page::sends(
            STAMP_LEFT_IF_RUNNING,
            seq![
                ParamView::Uuid(id.exam.0),
                ParamView::Uuid(id.user.0),
                ParamView::I64(id.seq),
                ParamView::I64(now.0),
            ],
        ),
{
    Statement::new(
        STAMP_LEFT_IF_RUNNING,
        vec![Param::Uuid(id.exam.0), Param::Uuid(id.user.0), Param::I64(id.seq), Param::I64(now.0)],
    )
}

pub const READ: &'static str =
    "SELECT exam, app_user AS \"user\", seq, started_at, finished_at, left_at FROM exam_attempt \
     WHERE exam = $1 AND app_user = $2 AND seq = $3";

/// The read of one sitting.
pub fn read(id: Sitting) -> (statement: Statement)
    ensures
        statement@ == crate::page::sends(
            READ,
            seq![ParamView::Uuid(id.exam.0), ParamView::Uuid(id.user.0), ParamView::I64(id.seq)],
        ),
{
    Statement::new(READ, vec![Param::Uuid(id.exam.0), Param::Uuid(id.user.0), Param::I64(id.seq)])
}

pub const READ_LATEST_FOR_USER: &'static str =
    "SELECT exam, app_user AS \"user\", seq, started_at, finished_at, left_at FROM exam_attempt \
     WHERE exam = $1 AND app_user = $2 ORDER BY seq DESC LIMIT 1";

/// The read of a student's current sitting: the highest `seq`.
pub fn read_latest_for_user(exam: ExamId, user: UserId) -> (statement: Statement)
    ensures
        statement@ == crate::page::sends(
            READ_LATEST_FOR_USER,
            seq![ParamView::Uuid(exam.0), ParamView::Uuid(user.0)],
        ),
{
    Statement::new(READ_LATEST_FOR_USER, vec![Param::Uuid(exam.0), Param::Uuid(user.0)])
}

pub const LIST_FOR_USER: &'static str =
    "SELECT exam, app_user AS \"user\", seq, started_at, finished_at, left_at FROM exam_attempt \
     WHERE exam = $1 AND app_user = $2 ORDER BY seq DESC";

/// The read of every sitting of a student, newest first.
pub fn list_for_user(exam: ExamId, user: UserId) -> (statement: Statement)
    ensures
        statement@ == crate::page::sends(
            LIST_FOR_USER,
            seq![ParamView::Uuid(exam.0), ParamView::Uuid(user.0)],
        ),
{
    Statement::new(LIST_FOR_USER, vec![Param::Uuid(exam.0), Param::Uuid(user.0)])
}

pub const LIST_UNFINISHED_FOR_USER: &'static str =
    "SELECT exam, app_user AS \"user\", seq, started_at, finished_at, left_at FROM exam_attempt \
     WHERE app_user = $1 AND finished_at IS NULL ORDER BY started_at, exam";

/// The read of every sitting of a student that nobody has submitted, across all
/// exams.
pub fn list_unfinished_for_user(user: UserId) -> (statement: Statement)
    ensures
        statement@ == crate::page::sends(LIST_UNFINISHED_FOR_USER, seq![ParamView::Uuid(user.0)]),
{
    Statement::new(LIST_UNFINISHED_FOR_USER, vec![Param::Uuid(user.0)])
}

pub const LIST_FOR_EXAM: &'static str =
    "SELECT exam, app_user AS \"user\", seq, started_at, finished_at, left_at FROM exam_attempt \
     WHERE exam = $1 ORDER BY started_at DESC, seq DESC";

/// The read of every sitting of an exam.
pub fn list_for_exam(exam: ExamId) -> (statement: Statement)
    ensures
        statement@ == crate::page::sends(LIST_FOR_EXAM, seq![ParamView::Uuid(exam.0)]),
{
    Statement::new(LIST_FOR_EXAM, vec![Param::Uuid(exam.0)])
}

/// The read of whether anyone has started an exam.
pub fn any_for_exam(exam: ExamId) -> (statement: Statement)
    ensures
        statement@ == crate::page::sends(ANY_ATTEMPT, seq![ParamView::Uuid(exam.0)]),
{
    Freeze::AnyAttempt.statement(exam)
}

/// What a start is judged by: the exam row, taken inside the transaction that
/// inserts the sitting.
#[derive(Clone, Copy, PartialEq, Eq, Structural, Debug)]
pub struct ExamWindow {
    pub draft: bool,
    pub scheduled: bool,
    pub starts_at: Option<Timestamp>,
    pub ends_at: Option<Timestamp>,
}

pub const GUARD_START: &'static str =
    "SELECT draft, mode, starts_at, ends_at FROM exam WHERE id = $1 FOR UPDATE";

/// The read that takes the exam row with its schedule; an exam without a mode
/// is not scheduled.
pub fn guard_statement(exam: ExamId) -> (statement: Statement)
    ensures
        statement@ == crate::page::sends(GUARD_START, seq![ParamView::Uuid(exam.0)]),
{
    Statement::new(GUARD_START, vec![Param::Uuid(exam.0)])
}

/// The answer to a start of an exam without a mode.
pub const NOT_SCHEDULED: &'static str =
    "this exam is not scheduled — there is nothing to sit (give it a mode: sync, async, or open)";

/// The answer to a start before the window.
pub const NOT_STARTED: &'static str = "the exam has not started yet";

/// The answer to a start after the window.
pub const ENDED: &'static str = "the exam has already ended";

/// The refusal a start meets, if any. A draft is invisible to students.
pub open spec fn start_refusal(window: Option<ExamWindow>, now: Timestamp) -> Option<AppErrorView> {
    match window {
        None => Some(AppErrorView::NotFound),
        Some(window) => if window.draft {
            Some(AppErrorView::NotFound)
        } else if !window.scheduled {
            Some(AppErrorView::Conflict(NOT_SCHEDULED@))
        } else if window.starts_at is Some && now.0 < (window.starts_at->0).0 {
            Some(AppErrorView::Conflict(NOT_STARTED@))
        } else if window.ends_at is Some && now.0 >= (window.ends_at->0).0 {
            Some(AppErrorView::Conflict(ENDED@))
        } else {
            None
        },
    }
}

/// The sitting-create guard, judged on the exam row taken inside the
/// inserting transaction.
pub fn guard_start(window: Option<ExamWindow>, now: Timestamp) -> (answer: Result<(), AppError>)
    ensures
        match start_refusal(window, now) {
            None => answer is Ok,
            Some(refusal) => answer is Err && answer->Err_0@ == refusal,
        },
{
    let window = match window {
        Some(window) => window,
        None => {
            return Err(AppError::NotFound);
        },
    };
    if window.draft {
        return Err(AppError::NotFound);
    }
    if !window.scheduled {
        return Err(AppError::Conflict(NOT_SCHEDULED));
    }
    if let Some(starts_at) = window.starts_at {
        if now.0 < starts_at.0 {
            return Err(AppError::Conflict(NOT_STARTED));
        }
    }
    if let Some(ends_at) = window.ends_at {
        if now.0 >= ends_at.0 {
            return Err(AppError::Conflict(ENDED));
        }
    }
    Ok(())
}

pub const INSERT_SITTING: &'static str =
    "WITH seat AS ( UPDATE app_user SET exam_sat_total = app_user.exam_sat_total + $4 WHERE id \
     = $2 RETURNING 1) INSERT INTO exam_attempt (exam, app_user, seq, started_at, finished_at, \
     left_at) SELECT $1, $2, $3, $5, NULL, NULL WHERE EXISTS (SELECT 1 FROM seat) RETURNING \
     exam, app_user AS \"user\", seq, started_at, finished_at, left_at";

/// One for a sitting that counts as an exam sat.
pub open spec fn sat_bump(count_sitting: bool) -> i64 {
    if count_sitting {
        1
    } else {
        0
    }
}

/// The insert of a sitting, which raises the student's `exam_sat_total` in
/// the same statement where `count_sitting` says so.
pub open spec fn insert_view(
    id: Sitting,
    started_at: Timestamp,
    count_sitting: bool,
) -> StatementView {
    crate::page::sends(
        INSERT_SITTING,
        seq![
            ParamView::Uuid(id.exam.0),
            ParamView::Uuid(id.user.0),
            ParamView::I64(id.seq),
            ParamView::I64(sat_bump(count_sitting)),
            ParamView::I64(started_at.0),
        ],
    )
}

/// Start a sitting: what follows the reply of [`guard_statement`]. Where
/// nothing refuses the start, the insert to send in the same transaction;
/// [`create_in`] reads its outcome.
pub fn create(
    window: Option<ExamWindow>,
    id: Sitting,
    started_at: Timestamp,
    count_sitting: bool,
    now: Timestamp,
) -> (insert: Result<Statement, AppError>)
    ensures
        match start_refusal(window, now) {
            None => insert is Ok && insert->Ok_0@ == insert_view(id, started_at, count_sitting),
            Some(refusal) => insert is Err && insert->Err_0@ == refusal,
        },
{
    match guard_start(window, now) {
        Err(refusal) => Err(refusal),
        Ok(()) => {
            let bump: i64 = if count_sitting {
                1
            } else {
                0
            };
            Ok(
                Statement::new(
                    INSERT_SITTING,
                    vec![
                        Param::Uuid(id.exam.0),
                        Param::Uuid(id.user.0),
                        Param::I64(id.seq),
                        Param::I64(bump),
                        Param::I64(started_at.0),
                    ],
                ),
            )
        },
    }
}

/// What the insert of a sitting comes to: a rival that started this very
/// sitting is a duplicate, and nothing inserted means that the student's
/// account is missing.
pub fn create_in<T>(outcome: Result<Option<T>, DbError>) -> (claimed: Result<
    Claimed<T>,
    AppError,
>)
    ensures
        match outcome {
            Ok(Some(row)) => claimed == Ok::<Claimed<T>, AppError>(Claimed::Made(row)),
            Ok(None) => claimed == Ok::<Claimed<T>, AppError>(Claimed::Full),
            Err(error) => if error.violates_unique("exam_attempt_exam_user_seq"@) {
                claimed == Ok::<Claimed<T>, AppError>(Claimed::Duplicate)
            } else {
                claimed is Err && claimed->Err_0@ == AppErrorView::Db(error)
            },
        },
{
    verdict(outcome, "exam_attempt_exam_user_seq")
}

/// The two fields of a sitting that are written after it began.
pub struct SittingRow {
    pub finished_at: Option<i64>,
    pub left_at: Option<i64>,
}

/// The stored sittings.
pub type Sittings = Map<(ExamId, UserId, i64), SittingRow>;

/// What a submission leaves.
pub open spec fn finished(db: Sittings, key: (ExamId, UserId, i64), now: i64) -> Sittings {
    if db.contains_key(key) {
        db.insert(key, SittingRow { finished_at: Some(now), ..db[key] })
    } else {
        db
    }
}

/// What a walk-out stamp leaves.
pub open spec fn left(
    db: Sittings,
    key: (ExamId, UserId, i64),
    left_at: Option<i64>,
) -> Sittings {
    if db.contains_key(key) {
        db.insert(key, SittingRow { left_at, ..db[key] })
    } else {
        db
    }
}

/// A submission and a walk-out stamp that race each other both stand,
/// whichever lands first: neither carries the other's field back.
pub proof fn law_submit_and_walk_out_commute(
    db: Sittings,
    key: (ExamId, UserId, i64),
    now: i64,
    left_at: Option<i64>,
)
    ensures
        finished(left(db, key, left_at), key, now) == left(finished(db, key, now), key, left_at),
        db.contains_key(key) ==> left(finished(db, key, now), key, left_at)[key] == (SittingRow {
            finished_at: Some(now),
            left_at,
        }),
{
    assert(finished(left(db, key, left_at), key, now) =~= left(
        finished(db, key, now),
        key,
        left_at,
    ));
}

/// The schedule a running sitting is judged by.
pub struct Schedule {
    pub duration_ms: Option<int>,
    pub ends_at: Option<int>,
}

/// Whether a sitting is still in progress: its own time where the exam has a
/// duration, the exam's end where it has none.
pub open spec fn is_running(
    row: SittingRow,
    started_at: int,
    schedule: Schedule,
    now: int,
) -> bool {
    &&& row.left_at is None
    &&& row.finished_at is None
    &&& match schedule.duration_ms {
        Some(duration) => now < started_at + duration,
        None => schedule.ends_at is None || now < schedule.ends_at->0,
    }
}

/// What a conditional stamp leaves.
pub open spec fn stamped(
    row: SittingRow,
    started_at: int,
    schedule: Schedule,
    now: i64,
) -> SittingRow {
    if is_running(row, started_at, schedule, now as int) {
        SittingRow { left_at: Some(now), ..row }
    } else {
        row
    }
}

/// Only the first of concurrent walk-outs stamps, and a sitting that was
/// submitted is never stamped.
pub proof fn law_first_walk_out_stands(
    row: SittingRow,
    started_at: int,
    schedule: Schedule,
    now: i64,
    later: i64,
)
    ensures
        is_running(row, started_at, schedule, now as int) ==> stamped(
            stamped(row, started_at, schedule, now),
            started_at,
            schedule,
            later,
        ) == stamped(row, started_at, schedule, now),
        row.finished_at is Some ==> stamped(row, started_at, schedule, now) == row,
{
}

/// The sittings, and each student's `exam_sat_total`.
#[verifier::ext_equal]
pub struct SatTotals {
    pub sittings: Set<(ExamId, UserId, i64)>,
    pub totals: Map<UserId, int>,
}

/// The first sittings of one student: the exams they sat.
pub open spec fn exams_sat(db: SatTotals, user: UserId) -> Set<(ExamId, UserId, i64)> {
    db.sittings.filter(|key: (ExamId, UserId, i64)| key.1 == user && key.2 == 1)
}

/// What the insert of a sitting leaves: the row and the count together, or
/// neither where the sitting or the account is not to be had.
pub open spec fn started(db: SatTotals, key: (ExamId, UserId, i64), count: bool) -> SatTotals {
    if db.sittings.contains(key) || !db.totals.contains_key(key.1) {
        db
    } else {
        SatTotals {
            sittings: db.sittings.insert(key),
            totals: db.totals.insert(key.1, db.totals[key.1] + sat_bump(count)),
        }
    }
}

/// `exam_sat_total` counts exams, not sittings: counted on first sittings
/// only, it stays the number of exams each student has sat, and a retake or a
/// duplicate moves nothing.
pub proof fn law_sat_total_counts_exams(
    db: SatTotals,
    key: (ExamId, UserId, i64),
    user: UserId,
)
    requires
        db.sittings.finite(),
        db.totals.contains_key(user),
        db.totals[user] == exams_sat(db, user).len(),
    ensures
        ({
            let after = started(db, key, key.2 == 1);
            &&& after.sittings.finite()
            &&& after.totals.contains_key(user)
            &&& after.totals[user] == exams_sat(after, user).len()
        }),
{
    let after = started(db, key, key.2 == 1);
    db.sittings.lemma_len_filter(|key: (ExamId, UserId, i64)| key.1 == user && key.2 == 1);
    if after.sittings != db.sittings {
        if key.1 == user && key.2 == 1 {
            assert(exams_sat(after, user) =~= exams_sat(db, user).insert(key));
        } else {
            assert(exams_sat(after, user) =~= exams_sat(db, user));
        }
    }
}

/// What [`FINISH`] says.
pub open spec fn finish_reading() -> Writing {
    Writing {
        head: "UPDATE "@,
        table: "exam_attempt"@,
        sets: seq![("finished_at"@, crate::sql::bind(1))],
        conditions: seq![crate::sql::is_bound("exam"@, 2), crate::sql::is_bound("app_user"@, 3), crate::sql::is_bound("seq"@, 4)],
        rest: crate::sql::returning(),
    }
}

proof fn lemma_finish_reads()
    ensures
        crate::sql::spells(FINISH@, 0, finish_reading().text()),
{
    reveal_strlit("UPDATE exam_attempt SET finished_at = $1 WHERE exam = $2 AND app_user = $3 AND seq = $4 RETURNING exam, app_user AS \"user\", seq, started_at, finished_at, left_at");
    reveal_strlit("UPDATE ");
    reveal_strlit("exam_attempt");
    reveal_strlit(" SET ");
    reveal_strlit("finished_at");
    reveal_strlit(" = ");
    reveal_strlit("$");
    reveal_strlit(" WHERE ");
    reveal_strlit("exam");
    reveal_strlit(" AND ");
    reveal_strlit("app_user");
    reveal_strlit("seq");
    reveal_strlit(" RETURNING ");
    reveal(crate::sql::Writing::text);
    reveal_with_fuel(crate::sql::set_text, 2);
    reveal_with_fuel(crate::sql::where_text, 4);
    reveal_with_fuel(crate::sql::stands, 13);
    reveal_with_fuel(crate::sql::spells_by, 20);
    crate::sql::lemma_spells_by(FINISH@, 0, finish_reading().text(), crate::sql::cut(7, crate::sql::cut(19, crate::sql::cut(24, crate::sql::cut(35, crate::sql::cut(38, crate::sql::cut(40, crate::sql::cut(47, crate::sql::cut(51, crate::sql::cut(54, crate::sql::cut(56, crate::sql::cut(61, crate::sql::cut(69, crate::sql::cut(72, crate::sql::cut(74, crate::sql::cut(79, crate::sql::cut(82, crate::sql::cut(85, crate::sql::cut(87, crate::sql::cut(98, Cuts::Last))))))))))))))))))));
}

/// [`finish`] picks the rows it names and no other, and overwrites each column with
/// its own value.
pub proof fn law_finish_writes_its_row(
    id: Sitting,
    now: Timestamp,
    sent: Statement,
    row: Row,
)
    requires
        call_ensures(finish, (id, now), sent),
    ensures
        finish_reading().is_read(sent@),
        finish_reading().picks(sent@.binds, row) == (row["exam"@] == Cell::Uuid(id.exam.0) && row["app_user"@] == Cell::Uuid(id.user.0) && row["seq"@] == Cell::Int(id.seq as int)),
        finish_reading().writes(sent@.binds, row) == seq![
            ("finished_at"@, Cell::Int(now.0 as int)),
        ],
{
    lemma_finish_reads();
    reveal_with_fuel(crate::sql::all_hold, 4);
}

/// What [`SET_LEFT`] says.
pub open spec fn set_left_reading() -> Writing {
    Writing {
        head: "UPDATE "@,
        table: "exam_attempt"@,
        sets: seq![("left_at"@, crate::sql::bind(1))],
        conditions: seq![crate::sql::is_bound("exam"@, 2), crate::sql::is_bound("app_user"@, 3), crate::sql::is_bound("seq"@, 4)],
        rest: crate::sql::returning(),
    }
}

proof fn lemma_set_left_reads()
    ensures
        crate::sql::spells(SET_LEFT@, 0, set_left_reading().text()),
{
    reveal_strlit("UPDATE exam_attempt SET left_at = $1 WHERE exam = $2 AND app_user = $3 AND seq = $4 RETURNING exam, app_user AS \"user\", seq, started_at, finished_at, left_at");
    reveal_strlit("UPDATE ");
    reveal_strlit("exam_attempt");
    reveal_strlit(" SET ");
    reveal_strlit("left_at");
    reveal_strlit(" = ");
    reveal_strlit("$");
    reveal_strlit(" WHERE ");
    reveal_strlit("exam");
    reveal_strlit(" AND ");
    reveal_strlit("app_user");
    reveal_strlit("seq");
    reveal_strlit(" RETURNING ");
    reveal(crate::sql::Writing::text);
    reveal_with_fuel(crate::sql::set_text, 2);
    reveal_with_fuel(crate::sql::where_text, 4);
    reveal_with_fuel(crate::sql::stands, 13);
    reveal_with_fuel(crate::sql::spells_by, 20);
    crate::sql::lemma_spells_by(SET_LEFT@, 0, set_left_reading().text(), crate::sql::cut(7, crate::sql::cut(19, crate::sql::cut(24, crate::sql::cut(31, crate::sql::cut(34, crate::sql::cut(36, crate::sql::cut(43, crate::sql::cut(47, crate::sql::cut(50, crate::sql::cut(52, crate::sql::cut(57, crate::sql::cut(65, crate::sql::cut(68, crate::sql::cut(70, crate::sql::cut(75, crate::sql::cut(78, crate::sql::cut(81, crate::sql::cut(83, crate::sql::cut(94, Cuts::Last))))))))))))))))))));
}

/// [`set_left`] picks the rows it names and no other, and overwrites each column with
/// its own value.
pub proof fn law_set_left_writes_its_row(
    id: Sitting,
    left_at: Option<Timestamp>,
    sent: Statement,
    row: Row,
)
    requires
        call_ensures(set_left, (id, left_at), sent),
    ensures
        set_left_reading().is_read(sent@),
        set_left_reading().picks(sent@.binds, row) == (row["exam"@] == Cell::Uuid(id.exam.0) && row["app_user"@] == Cell::Uuid(id.user.0) && row["seq"@] == Cell::Int(id.seq as int)),
        set_left_reading().writes(sent@.binds, row) == seq![
            ("left_at"@, crate::sql::opt_int(crate::meal_booking::moment_value(left_at))),
        ],
{
    lemma_set_left_reads();
    reveal_with_fuel(crate::sql::all_hold, 4);
}

/// The text of [`STAMP_LEFT_IF_RUNNING`], taken apart at its placeholders.
pub open spec fn stamp_left_if_running_text() -> Text {
    crate::sql::before("UPDATE exam_attempt a SET left_at = "@, crate::sql::before(crate::text::placeholder(4), crate::sql::before(" FROM exam e WHERE e.id = a.exam AND a.exam = "@, crate::sql::before(crate::text::placeholder(1), crate::sql::before(" AND a.app_user = "@, crate::sql::before(crate::text::placeholder(2), crate::sql::before(" AND a.seq = "@, crate::sql::before(crate::text::placeholder(3), crate::sql::before(" AND a.left_at IS NULL AND a.finished_at IS"@, crate::sql::before(" NULL AND (e.duration_ms IS NULL OR "@, crate::sql::before(crate::text::placeholder(4), crate::sql::before(" < a.started_at + e.duration_ms) AND"@, crate::sql::before(" (e.duration_ms IS NOT NULL OR e.ends_at IS"@, crate::sql::before(" NULL OR "@, crate::sql::before(crate::text::placeholder(4), crate::sql::before(" < e.ends_at)"@, Text::End))))))))))))))))
}

proof fn lemma_stamp_left_if_running_reads()
    ensures
        crate::sql::spells(STAMP_LEFT_IF_RUNNING@, 0, stamp_left_if_running_text()),
{
    reveal_strlit("UPDATE exam_attempt a SET left_at = $4 FROM exam e WHERE e.id = a.exam AND a.exam = $1 AND a.app_user = $2 AND a.seq = $3 AND a.left_at IS NULL AND a.finished_at IS NULL AND (e.duration_ms IS NULL OR $4 < a.started_at + e.duration_ms) AND (e.duration_ms IS NOT NULL OR e.ends_at IS NULL OR $4 < e.ends_at)");
    reveal_strlit("UPDATE exam_attempt a SET left_at = ");
    reveal_strlit("$");
    reveal_strlit(" FROM exam e WHERE e.id = a.exam AND a.exam = ");
    reveal_strlit(" AND a.app_user = ");
    reveal_strlit(" AND a.seq = ");
    reveal_strlit(" AND a.left_at IS NULL AND a.finished_at IS");
    reveal_strlit(" NULL AND (e.duration_ms IS NULL OR ");
    reveal_strlit(" < a.started_at + e.duration_ms) AND");
    reveal_strlit(" (e.duration_ms IS NOT NULL OR e.ends_at IS");
    reveal_strlit(" NULL OR ");
    reveal_strlit(" < e.ends_at)");
    reveal_with_fuel(crate::sql::stands, 47);
    reveal_with_fuel(crate::sql::spells_by, 17);
    crate::sql::lemma_spells_by(STAMP_LEFT_IF_RUNNING@, 0, stamp_left_if_running_text(), crate::sql::cut(36, crate::sql::cut(38, crate::sql::cut(84, crate::sql::cut(86, crate::sql::cut(104, crate::sql::cut(106, crate::sql::cut(119, crate::sql::cut(121, crate::sql::cut(164, crate::sql::cut(200, crate::sql::cut(202, crate::sql::cut(238, crate::sql::cut(281, crate::sql::cut(290, crate::sql::cut(292, crate::sql::cut(305, Cuts::Last)))))))))))))))));
}

/// [`stamp_left_if_running`] binds each value at its own place in the text.
pub proof fn law_stamp_left_if_running_binds_its_values(
    id: Sitting,
    now: Timestamp,
    sent: Statement,
)
    requires
        call_ensures(stamp_left_if_running, (id, now), sent),
    ensures
        crate::sql::spells(sent@.sql, 0, stamp_left_if_running_text()),
        sent@.binds.len() == 4,
        crate::sql::cell(sent@.binds[0]) == Cell::Uuid(id.exam.0),
        crate::sql::cell(sent@.binds[1]) == Cell::Uuid(id.user.0),
        crate::sql::cell(sent@.binds[2]) == Cell::Int(id.seq as int),
        crate::sql::cell(sent@.binds[3]) == Cell::Int(now.0 as int),
{
    lemma_stamp_left_if_running_reads();
}

/// What [`READ`] says.
pub open spec fn read_reading() -> Picking {
    Picking {
        skip: 70,
        head: " FROM "@,
        columns: Seq::empty(),
        table: "exam_attempt"@,
        conditions: seq![crate::sql::is_bound("exam"@, 1), crate::sql::is_bound("app_user"@, 2), crate::sql::is_bound("seq"@, 3)],
        rest: Text::End,
    }
}

proof fn lemma_read_reads()
    ensures
        crate::sql::spells(READ@, 70, read_reading().text()),
{
    reveal_strlit("SELECT exam, app_user AS \"user\", seq, started_at, finished_at, left_at FROM exam_attempt WHERE exam = $1 AND app_user = $2 AND seq = $3");
    reveal_strlit(" FROM ");
    reveal_strlit("exam_attempt");
    reveal_strlit(" WHERE ");
    reveal_strlit("exam");
    reveal_strlit(" = ");
    reveal_strlit("$");
    reveal_strlit(" AND ");
    reveal_strlit("app_user");
    reveal_strlit("seq");
    reveal(crate::sql::Picking::text);
    reveal_with_fuel(crate::sql::where_text, 4);
    reveal_with_fuel(crate::sql::stands, 13);
    reveal_with_fuel(crate::sql::spells_by, 15);
    crate::sql::lemma_spells_by(READ@, 70, read_reading().text(), crate::sql::cut(76, crate::sql::cut(88, crate::sql::cut(95, crate::sql::cut(99, crate::sql::cut(102, crate::sql::cut(104, crate::sql::cut(109, crate::sql::cut(117, crate::sql::cut(120, crate::sql::cut(122, crate::sql::cut(127, crate::sql::cut(130, crate::sql::cut(133, crate::sql::cut(135, Cuts::Last)))))))))))))));
}

/// [`read`] reads the rows it names and no other.
pub proof fn law_read_reads_its_rows(
    id: Sitting,
    sent: Statement,
    row: Row,
)
    requires
        call_ensures(read, (id,), sent),
    ensures
        read_reading().is_read(sent@),
        read_reading().picks(sent@.binds, row) == (row["exam"@] == Cell::Uuid(id.exam.0) && row["app_user"@] == Cell::Uuid(id.user.0) && row["seq"@] == Cell::Int(id.seq as int)),
{
    lemma_read_reads();
    reveal_with_fuel(crate::sql::all_hold, 4);
}

/// What [`READ_LATEST_FOR_USER`] says.
pub open spec fn read_latest_for_user_reading() -> Picking {
    Picking {
        skip: 70,
        head: " FROM "@,
        columns: Seq::empty(),
        table: "exam_attempt"@,
        conditions: seq![crate::sql::is_bound("exam"@, 1), crate::sql::is_bound("app_user"@, 2)],
        rest: crate::sql::before(" ORDER BY seq DESC LIMIT 1"@, Text::End),
    }
}

proof fn lemma_read_latest_for_user_reads()
    ensures
        crate::sql::spells(READ_LATEST_FOR_USER@, 70, read_latest_for_user_reading().text()),
{
    reveal_strlit("SELECT exam, app_user AS \"user\", seq, started_at, finished_at, left_at FROM exam_attempt WHERE exam = $1 AND app_user = $2 ORDER BY seq DESC LIMIT 1");
    reveal_strlit(" FROM ");
    reveal_strlit("exam_attempt");
    reveal_strlit(" WHERE ");
    reveal_strlit("exam");
    reveal_strlit(" = ");
    reveal_strlit("$");
    reveal_strlit(" AND ");
    reveal_strlit("app_user");
    reveal_strlit(" ORDER BY seq DESC LIMIT 1");
    reveal(crate::sql::Picking::text);
    reveal_with_fuel(crate::sql::where_text, 3);
    reveal_with_fuel(crate::sql::stands, 27);
    reveal_with_fuel(crate::sql::spells_by, 12);
    crate::sql::lemma_spells_by(READ_LATEST_FOR_USER@, 70, read_latest_for_user_reading().text(), crate::sql::cut(76, crate::sql::cut(88, crate::sql::cut(95, crate::sql::cut(99, crate::sql::cut(102, crate::sql::cut(104, crate::sql::cut(109, crate::sql::cut(117, crate::sql::cut(120, crate::sql::cut(122, crate::sql::cut(148, Cuts::Last))))))))))));
}

/// [`read_latest_for_user`] reads the rows it names and no other.
pub proof fn law_read_latest_for_user_reads_its_rows(
    exam: ExamId,
    user: UserId,
    sent: Statement,
    row: Row,
)
    requires
        call_ensures(read_latest_for_user, (exam, user), sent),
    ensures
        read_latest_for_user_reading().is_read(sent@),
        read_latest_for_user_reading().picks(sent@.binds, row) == (row["exam"@] == Cell::Uuid(exam.0) && row["app_user"@] == Cell::Uuid(user.0)),
{
    lemma_read_latest_for_user_reads();
    reveal_with_fuel(crate::sql::all_hold, 3);
}

/// What [`LIST_FOR_USER`] says.
pub open spec fn list_for_user_reading() -> Picking {
    Picking {
        skip: 70,
        head: " FROM "@,
        columns: Seq::empty(),
        table: "exam_attempt"@,
        conditions: seq![crate::sql::is_bound("exam"@, 1), crate::sql::is_bound("app_user"@, 2)],
        rest: crate::sql::before(" ORDER BY seq DESC"@, Text::End),
    }
}

proof fn lemma_list_for_user_reads()
    ensures
        crate::sql::spells(LIST_FOR_USER@, 70, list_for_user_reading().text()),
{
    reveal_strlit("SELECT exam, app_user AS \"user\", seq, started_at, finished_at, left_at FROM exam_attempt WHERE exam = $1 AND app_user = $2 ORDER BY seq DESC");
    reveal_strlit(" FROM ");
    reveal_strlit("exam_attempt");
    reveal_strlit(" WHERE ");
    reveal_strlit("exam");
    reveal_strlit(" = ");
    reveal_strlit("$");
    reveal_strlit(" AND ");
    reveal_strlit("app_user");
    reveal_strlit(" ORDER BY seq DESC");
    reveal(crate::sql::Picking::text);
    reveal_with_fuel(crate::sql::where_text, 3);
    reveal_with_fuel(crate::sql::stands, 19);
    reveal_with_fuel(crate::sql::spells_by, 12);
    crate::sql::lemma_spells_by(LIST_FOR_USER@, 70, list_for_user_reading().text(), crate::sql::cut(76, crate::sql::cut(88, crate::sql::cut(95, crate::sql::cut(99, crate::sql::cut(102, crate::sql::cut(104, crate::sql::cut(109, crate::sql::cut(117, crate::sql::cut(120, crate::sql::cut(122, crate::sql::cut(140, Cuts::Last))))))))))));
}

/// [`list_for_user`] reads the rows it names and no other.
pub proof fn law_list_for_user_reads_its_rows(
    exam: ExamId,
    user: UserId,
    sent: Statement,
    row: Row,
)
    requires
        call_ensures(list_for_user, (exam, user), sent),
    ensures
        list_for_user_reading().is_read(sent@),
        list_for_user_reading().picks(sent@.binds, row) == (row["exam"@] == Cell::Uuid(exam.0) && row["app_user"@] == Cell::Uuid(user.0)),
{
    lemma_list_for_user_reads();
    reveal_with_fuel(crate::sql::all_hold, 3);
}

/// What [`LIST_UNFINISHED_FOR_USER`] says.
pub open spec fn list_unfinished_for_user_reading() -> Picking {
    Picking {
        skip: 70,
        head: " FROM "@,
        columns: Seq::empty(),
        table: "exam_attempt"@,
        conditions: seq![crate::sql::is_bound("app_user"@, 1), Cond::Null(crate::sql::column("finished_at"@))],
        rest: crate::sql::before(" ORDER BY started_at, exam"@, Text::End),
    }
}

proof fn lemma_list_unfinished_for_user_reads()
    ensures
        crate::sql::spells(LIST_UNFINISHED_FOR_USER@, 70, list_unfinished_for_user_reading().text()),
{
    reveal_strlit("SELECT exam, app_user AS \"user\", seq, started_at, finished_at, left_at FROM exam_attempt WHERE app_user = $1 AND finished_at IS NULL ORDER BY started_at, exam");
    reveal_strlit(" FROM ");
    reveal_strlit("exam_attempt");
    reveal_strlit(" WHERE ");
    reveal_strlit("app_user");
    reveal_strlit(" = ");
    reveal_strlit("$");
    reveal_strlit(" AND ");
    reveal_strlit("finished_at");
    reveal_strlit(" IS NULL");
    reveal_strlit(" ORDER BY started_at, exam");
    reveal(crate::sql::Picking::text);
    reveal_with_fuel(crate::sql::where_text, 3);
    reveal_with_fuel(crate::sql::stands, 27);
    reveal_with_fuel(crate::sql::spells_by, 11);
    crate::sql::lemma_spells_by(LIST_UNFINISHED_FOR_USER@, 70, list_unfinished_for_user_reading().text(), crate::sql::cut(76, crate::sql::cut(88, crate::sql::cut(95, crate::sql::cut(103, crate::sql::cut(106, crate::sql::cut(108, crate::sql::cut(113, crate::sql::cut(124, crate::sql::cut(132, crate::sql::cut(158, Cuts::Last)))))))))));
}

/// [`list_unfinished_for_user`] reads the rows it names and no other.
pub proof fn law_list_unfinished_for_user_reads_its_rows(
    user: UserId,
    sent: Statement,
    row: Row,
)
    requires
        call_ensures(list_unfinished_for_user, (user,), sent),
    ensures
        list_unfinished_for_user_reading().is_read(sent@),
        list_unfinished_for_user_reading().picks(sent@.binds, row) == (row["app_user"@] == Cell::Uuid(user.0) && row["finished_at"@] is Null),
{
    lemma_list_unfinished_for_user_reads();
    reveal_with_fuel(crate::sql::all_hold, 3);
}

/// What [`LIST_FOR_EXAM`] says.
pub open spec fn list_for_exam_reading() -> Picking {
    Picking {
        skip: 70,
        head: " FROM "@,
        columns: Seq::empty(),
        table: "exam_attempt"@,
        conditions: seq![crate::sql::is_bound("exam"@, 1)],
        rest: crate::sql::before(" ORDER BY started_at DESC, seq DESC"@, Text::End),
    }
}

proof fn lemma_list_for_exam_reads()
    ensures
        crate::sql::spells(LIST_FOR_EXAM@, 70, list_for_exam_reading().text()),
{
    reveal_strlit("SELECT exam, app_user AS \"user\", seq, started_at, finished_at, left_at FROM exam_attempt WHERE exam = $1 ORDER BY started_at DESC, seq DESC");
    reveal_strlit(" FROM ");
    reveal_strlit("exam_attempt");
    reveal_strlit(" WHERE ");
    reveal_strlit("exam");
    reveal_strlit(" = ");
    reveal_strlit("$");
    reveal_strlit(" ORDER BY started_at DESC, seq DESC");
    reveal(crate::sql::Picking::text);
    reveal_with_fuel(crate::sql::where_text, 2);
    reveal_with_fuel(crate::sql::stands, 36);
    reveal_with_fuel(crate::sql::spells_by, 8);
    crate::sql::lemma_spells_by(LIST_FOR_EXAM@, 70, list_for_exam_reading().text(), crate::sql::cut(76, crate::sql::cut(88, crate::sql::cut(95, crate::sql::cut(99, crate::sql::cut(102, crate::sql::cut(104, crate::sql::cut(139, Cuts::Last))))))));
}

/// [`list_for_exam`] reads the rows it names and no other.
pub proof fn law_list_for_exam_reads_its_rows(
    exam: ExamId,
    sent: Statement,
    row: Row,
)
    requires
        call_ensures(list_for_exam, (exam,), sent),
    ensures
        list_for_exam_reading().is_read(sent@),
        list_for_exam_reading().picks(sent@.binds, row) == (row["exam"@] == Cell::Uuid(exam.0)),
{
    lemma_list_for_exam_reads();
    reveal_with_fuel(crate::sql::all_hold, 2);
}

/// What [`ANY_ATTEMPT`] says.
pub open spec fn any_attempt_reading() -> Picking {
    Picking {
        skip: 0,
        head: "SELECT EXISTS(SELECT 1 FROM "@,
        columns: Seq::empty(),
        table: "exam_attempt"@,
        conditions: seq![crate::sql::is_bound("exam"@, 1)],
        rest: crate::sql::before(") AS sat"@, Text::End),
    }
}

proof fn lemma_any_attempt_reads()
    ensures
        crate::sql::spells(ANY_ATTEMPT@, 0, any_attempt_reading().text()),
{
    reveal_strlit("SELECT EXISTS(SELECT 1 FROM exam_attempt WHERE exam = $1) AS sat");
    reveal_strlit("SELECT EXISTS(SELECT 1 FROM ");
    reveal_strlit("exam_attempt");
    reveal_strlit(" WHERE ");
    reveal_strlit("exam");
    reveal_strlit(" = ");
    reveal_strlit("$");
    reveal_strlit(") AS sat");
    reveal(crate::sql::Picking::text);
    reveal_with_fuel(crate::sql::where_text, 2);
    reveal_with_fuel(crate::sql::stands, 29);
    reveal_with_fuel(crate::sql::spells_by, 8);
    crate::sql::lemma_spells_by(ANY_ATTEMPT@, 0, any_attempt_reading().text(), crate::sql::cut(28, crate::sql::cut(40, crate::sql::cut(47, crate::sql::cut(51, crate::sql::cut(54, crate::sql::cut(56, crate::sql::cut(64, Cuts::Last))))))));
}

/// [`any_for_exam`] reads the rows it names and no other.
pub proof fn law_any_for_exam_reads_its_rows(
    exam: ExamId,
    sent: Statement,
    row: Row,
)
    requires
        call_ensures(any_for_exam, (exam,), sent),
    ensures
        any_attempt_reading().is_read(sent@),
        any_attempt_reading().picks(sent@.binds, row) == (row["exam"@] == Cell::Uuid(exam.0)),
{
    lemma_any_attempt_reads();
    reveal_with_fuel(crate::sql::all_hold, 2);
}

/// What [`GUARD_START`] says.
pub open spec fn guard_start_reading() -> Picking {
    Picking {
        skip: 0,
        head: "SELECT "@,
        columns: seq!["draft"@, "mode"@, "starts_at"@, "ends_at"@],
        table: "exam"@,
        conditions: seq![crate::sql::is_bound("id"@, 1)],
        rest: crate::sql::before(" FOR UPDATE"@, Text::End),
    }
}

proof fn lemma_guard_start_reads()
    ensures
        crate::sql::spells(GUARD_START@, 0, guard_start_reading().text()),
{
    reveal_strlit("SELECT draft, mode, starts_at, ends_at FROM exam WHERE id = $1 FOR UPDATE");
    reveal_strlit("SELECT ");
    reveal_strlit("draft");
    reveal_strlit(", ");
    reveal_strlit("mode");
    reveal_strlit("starts_at");
    reveal_strlit("ends_at");
    reveal_strlit(" FROM ");
    reveal_strlit("exam");
    reveal_strlit(" WHERE ");
    reveal_strlit("id");
    reveal_strlit(" = ");
    reveal_strlit("$");
    reveal_strlit(" FOR UPDATE");
    reveal(crate::sql::Picking::text);
    reveal_with_fuel(crate::sql::where_text, 2);
    reveal_with_fuel(crate::sql::names_text, 5);
    reveal_with_fuel(crate::sql::stands, 12);
    reveal_with_fuel(crate::sql::spells_by, 16);
    crate::sql::lemma_spells_by(GUARD_START@, 0, guard_start_reading().text(), crate::sql::cut(7, crate::sql::cut(12, crate::sql::cut(14, crate::sql::cut(18, crate::sql::cut(20, crate::sql::cut(29, crate::sql::cut(31, crate::sql::cut(38, crate::sql::cut(44, crate::sql::cut(48, crate::sql::cut(55, crate::sql::cut(57, crate::sql::cut(60, crate::sql::cut(62, crate::sql::cut(73, Cuts::Last))))))))))))))));
}

/// [`guard_statement`] reads the rows it names and no other.
pub proof fn law_guard_statement_reads_its_rows(
    exam: ExamId,
    sent: Statement,
    row: Row,
)
    requires
        call_ensures(guard_statement, (exam,), sent),
    ensures
        guard_start_reading().is_read(sent@),
        guard_start_reading().picks(sent@.binds, row) == (row["id"@] == Cell::Uuid(exam.0)),
{
    lemma_guard_start_reads();
    reveal_with_fuel(crate::sql::all_hold, 2);
}

/// What [`LOCK_EXAM`] says.
pub open spec fn lock_exam_reading() -> Picking {
    Picking {
        skip: 0,
        head: "SELECT "@,
        columns: seq!["id"@],
        table: "exam"@,
        conditions: seq![crate::sql::is_bound("id"@, 1)],
        rest: crate::sql::before(" FOR UPDATE"@, Text::End),
    }
}

proof fn lemma_lock_exam_reads()
    ensures
        crate::sql::spells(LOCK_EXAM@, 0, lock_exam_reading().text()),
{
    reveal_strlit("SELECT id FROM exam WHERE id = $1 FOR UPDATE");
    reveal_strlit("SELECT ");
    reveal_strlit("id");
    reveal_strlit(" FROM ");
    reveal_strlit("exam");
    reveal_strlit(" WHERE ");
    reveal_strlit(" = ");
    reveal_strlit("$");
    reveal_strlit(" FOR UPDATE");
    reveal(crate::sql::Picking::text);
    reveal_with_fuel(crate::sql::where_text, 2);
    reveal_with_fuel(crate::sql::names_text, 2);
    reveal_with_fuel(crate::sql::stands, 12);
    reveal_with_fuel(crate::sql::spells_by, 10);
    crate::sql::lemma_spells_by(LOCK_EXAM@, 0, lock_exam_reading().text(), crate::sql::cut(7, crate::sql::cut(9, crate::sql::cut(15, crate::sql::cut(19, crate::sql::cut(26, crate::sql::cut(28, crate::sql::cut(31, crate::sql::cut(33, crate::sql::cut(44, Cuts::Last))))))))));
}

/// [`Freeze::LockExam`] reads the rows it names and no other.
pub proof fn law_freeze_lock_exam_reads_its_rows(
    exam: ExamId,
    row: Row,
)
    ensures
        ({
            let sent = Freeze::LockExam.asks(exam);
            &&& lock_exam_reading().is_read(sent)
            &&& lock_exam_reading().picks(sent.binds, row) == (row["id"@] == Cell::Uuid(exam.0))
        }),
{
    lemma_lock_exam_reads();
    reveal_with_fuel(crate::sql::all_hold, 2);
}

/// [`Freeze::AnyAttempt`] reads the rows it names and no other.
pub proof fn law_freeze_any_attempt_reads_its_rows(
    exam: ExamId,
    row: Row,
)
    ensures
        ({
            let sent = Freeze::AnyAttempt.asks(exam);
            &&& any_attempt_reading().is_read(sent)
            &&& any_attempt_reading().picks(sent.binds, row) == (row["exam"@] == Cell::Uuid(exam.0))
        }),
{
    lemma_any_attempt_reads();
    reveal_with_fuel(crate::sql::all_hold, 2);
}

/// The row that [`INSERT_SITTING`] inserts where its first part wrote.
pub open spec fn insert_sitting_row() -> Storing {
    Storing {
        head: "INSERT INTO "@,
        table: "exam_attempt"@,
        columns: seq!["exam"@, "app_user"@, "seq"@, "started_at"@, "finished_at"@, "left_at"@],
        values: seq![Term::Bind(1), Term::Bind(2), Term::Bind(3), Term::Bind(5), Term::Word("NULL"@, Cell::Null), Term::Word("NULL"@, Cell::Null)],
        selected: true,
        conflict: Conflict::Unread,
        rest: crate::sql::before(" WHERE EXISTS (SELECT 1 FROM seat)"@, crate::sql::returning()),
    }
}

/// What [`INSERT_SITTING`] says.
pub open spec fn insert_sitting_reading() -> Writing {
    Writing {
        head: "WITH seat AS ( UPDATE "@,
        table: "app_user"@,
        sets: seq![("exam_sat_total"@, Expr::Plus(Term::Of("app_user"@, "exam_sat_total"@), Term::Bind(4)))],
        conditions: seq![crate::sql::is_bound("id"@, 2)],
        rest: crate::sql::before(" RETURNING 1) "@, insert_sitting_row().text()),
    }
}

#[verifier::rlimit(20)]
proof fn lemma_insert_sitting_reads()
    ensures
        crate::sql::spells(INSERT_SITTING@, 0, insert_sitting_reading().text()),
{
    reveal_strlit("WITH seat AS ( UPDATE app_user SET exam_sat_total = app_user.exam_sat_total + $4 WHERE id = $2 RETURNING 1) INSERT INTO exam_attempt (exam, app_user, seq, started_at, finished_at, left_at) SELECT $1, $2, $3, $5, NULL, NULL WHERE EXISTS (SELECT 1 FROM seat) RETURNING exam, app_user AS \"user\", seq, started_at, finished_at, left_at");
    reveal_strlit("WITH seat AS ( UPDATE ");
    reveal_strlit("app_user");
    reveal_strlit(" SET ");
    reveal_strlit("exam_sat_total");
    reveal_strlit(" = ");
    reveal_strlit(".");
    reveal_strlit(" + ");
    reveal_strlit("$");
    reveal_strlit(" WHERE ");
    reveal_strlit("id");
    reveal_strlit(" RETURNING 1) ");
    reveal_strlit("INSERT INTO ");
    reveal_strlit("exam_attempt");
    reveal_strlit(" (");
    reveal_strlit("exam");
    reveal_strlit(", ");
    reveal_strlit("seq");
    reveal_strlit("started_at");
    reveal_strlit("finished_at");
    reveal_strlit("left_at");
    reveal_strlit(") SELECT ");
    reveal_strlit("NULL");
    reveal_strlit(" WHERE EXISTS (SELECT 1 FROM seat)");
    reveal_strlit(" RETURNING ");
    reveal(crate::sql::Writing::text);
    reveal(crate::sql::Storing::text);
    reveal_with_fuel(crate::sql::set_text, 2);
    reveal_with_fuel(crate::sql::where_text, 2);
    reveal_with_fuel(crate::sql::names_text, 7);
    reveal_with_fuel(crate::sql::values_text, 7);
    reveal_with_fuel(crate::sql::stands, 35);
    reveal_with_fuel(crate::sql::spells_by, 44);
    crate::sql::lemma_spells_by(INSERT_SITTING@, 0, insert_sitting_reading().text(), crate::sql::cut(22, crate::sql::cut(30, crate::sql::cut(35, crate::sql::cut(49, crate::sql::cut(52, crate::sql::cut(60, crate::sql::cut(61, crate::sql::cut(75, crate::sql::cut(78, crate::sql::cut(80, crate::sql::cut(87, crate::sql::cut(89, crate::sql::cut(92, crate::sql::cut(94, crate::sql::cut(108, crate::sql::cut(120, crate::sql::cut(132, crate::sql::cut(134, crate::sql::cut(138, crate::sql::cut(140, crate::sql::cut(148, crate::sql::cut(150, crate::sql::cut(153, crate::sql::cut(155, crate::sql::cut(165, crate::sql::cut(167, crate::sql::cut(178, crate::sql::cut(180, crate::sql::cut(187, crate::sql::cut(196, crate::sql::cut(198, crate::sql::cut(200, crate::sql::cut(202, crate::sql::cut(204, crate::sql::cut(206, crate::sql::cut(208, crate::sql::cut(210, crate::sql::cut(212, crate::sql::cut(216, crate::sql::cut(218, crate::sql::cut(222, crate::sql::cut(256, crate::sql::cut(267, Cuts::Last))))))))))))))))))))))))))))))))))))))))))));
}

/// A sitting is stored with its exam, student, number and start, each in its own
/// column, and counts for its own student where it is to be counted.
pub proof fn law_sitting_lands_in_its_columns(
    id: Sitting,
    started_at: Timestamp,
    count_sitting: bool,
    row: Row,
)
    ensures
        insert_sitting_reading().is_read(insert_view(id, started_at, count_sitting)),
        insert_sitting_reading().picks(insert_view(id, started_at, count_sitting).binds, row) == (row["id"@] == Cell::Uuid(id.user.0)),
        insert_sitting_reading().writes(insert_view(id, started_at, count_sitting).binds, row) == seq![
            ("exam_sat_total"@, Cell::Int(row["exam_sat_total"@].number() + sat_bump(count_sitting) as int)),
        ],
        insert_sitting_row().stores(insert_view(id, started_at, count_sitting).binds) == seq![
            ("exam"@, Cell::Uuid(id.exam.0)),
            ("app_user"@, Cell::Uuid(id.user.0)),
            ("seq"@, Cell::Int(id.seq as int)),
            ("started_at"@, Cell::Int(started_at.0 as int)),
            ("finished_at"@, Cell::Null),
            ("left_at"@, Cell::Null),
        ],
        sat_bump(count_sitting) == (if count_sitting { 1int } else { 0int }),
{
    lemma_insert_sitting_reads();
    reveal_with_fuel(crate::sql::all_hold, 4);
}

} // verus!
