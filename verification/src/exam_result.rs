//! The `exam_result` table: the mark's claim-riding upsert, the per-sitting
//! history reads, and the refunding delete.
//!
//! A mark carries four counters with it: a reference on the exam's kind, the
//! exam's `result_count`, its grader's `marks_given_total` and, where it
//! reaches [`HIGH_MARK_MIN`], its student's `high_mark_total`. They move in
//! the transaction that writes or deletes the row.

use vstd::prelude::*;

use crate::error::{AppError, AppErrorView};
use crate::id::{CourseId, ExamId, UserId};
use crate::page::{Param, ParamView, Statement, StatementView, Uuid};
use crate::sql::{Cell, Cond, Conflict, Cuts, Expr, Picking, Row, Storing, Term, Text, Writing};
use crate::transaction::{Reply, Step};

verus! {

/// The lowest mark that counts as a high one.
pub const HIGH_MARK_MIN: i64 = 90;

/// The marks a sitting can be given.
#[derive(Clone, Copy, PartialEq, Eq, Structural, Debug)]
pub struct Mark(pub i64);

/// One sitting's mark.
#[derive(Clone, Copy, PartialEq, Eq, Structural, Debug)]
pub struct ExamResult {
    pub exam: ExamId,
    pub user: UserId,
    pub seq: i64,
    pub mark: Mark,
    pub graded_by: UserId,
}

/// A mark to record for the `seq`th sitting of an exam of kind `kind`.
#[derive(Debug)]
pub struct GradeRequest {
    pub exam: ExamId,
    pub user: UserId,
    pub seq: i64,
    pub mark: Mark,
    pub graded_by: UserId,
    pub kind: String,
}

/// The statement a grading waits for.
#[derive(Clone, Copy, PartialEq, Eq, Structural, Debug)]
pub enum Grade {
    /// Take the exam row: a [`Reply::Flag`] with its `draft`.
    LockExam,
    /// Read the sitting's stored mark: a [`Reply::Int`], where there is one.
    ReadMark,
    /// Take a reference on the kind, which a retired kind refuses.
    ClaimKind,
    /// Raise the exam's `result_count`.
    CountMark,
    /// Raise the grader's `marks_given_total`.
    CreditGrader,
    /// Move the student's `high_mark_total`.
    MoveHigh { by: i64 },
    /// Write the mark; its row is the answer.
    StoreMark,
}

/// Why a mark is not recorded.
#[derive(Clone, Copy, PartialEq, Eq, Structural, Debug)]
pub enum GradeRefusal {
    NoExam,
    Draft,
    RetiredKind,
}

pub const LOCK_EXAM: &'static str = "SELECT draft FROM exam WHERE id = $1 FOR UPDATE";

pub const READ_MARK: &'static str =
    "SELECT mark FROM exam_result WHERE exam = $1 AND app_user = $2 AND seq = $3";

pub const CLAIM_KIND: &'static str =
    "INSERT INTO kind_ref (name, count, retired) VALUES ($1, 1, false) ON CONFLICT (name) DO \
     UPDATE SET count = kind_ref.count + 1 WHERE kind_ref.retired IS DISTINCT FROM TRUE \
     RETURNING 1 AS n";

pub const COUNT_MARK: &'static str =
    "UPDATE exam SET result_count = exam.result_count + 1 WHERE id = $1";

pub const CREDIT_GRADER: &'static str =
    "UPDATE app_user SET marks_given_total = app_user.marks_given_total + 1 WHERE id = $1";

pub const MOVE_HIGH: &'static str =
    "UPDATE app_user SET high_mark_total = GREATEST(high_mark_total + $2, 0) WHERE id = $1";

pub const STORE_MARK: &'static str =
    "INSERT INTO exam_result (exam, app_user, seq, mark, graded_by) VALUES ($1, $2, $3, $4, $5) \
     ON CONFLICT (exam, app_user, seq) DO UPDATE SET mark = EXCLUDED.mark, graded_by = \
     EXCLUDED.graded_by RETURNING exam, app_user AS \"user\", seq, mark, graded_by";

impl Grade {
    /// The statement of this step.
    pub open spec fn asks(self, request: GradeRequest) -> StatementView {
        let exam = ParamView::Uuid(request.exam.0);
        let user = ParamView::Uuid(request.user.0);
        let grader = ParamView::Uuid(request.graded_by.0);
        let seq = ParamView::I64(request.seq);
        match self {
            Grade::LockExam => crate::page::sends(LOCK_EXAM, seq![exam]),
            Grade::ReadMark => crate::page::sends(READ_MARK, seq![exam, user, seq]),
            Grade::ClaimKind => crate::page::sends(
                CLAIM_KIND,
                seq![ParamView::Text(request.kind@)],
            ),
            Grade::CountMark => crate::page::sends(COUNT_MARK, seq![exam]),
            Grade::CreditGrader => crate::page::sends(CREDIT_GRADER, seq![grader]),
            Grade::MoveHigh { by } => crate::page::sends(
                MOVE_HIGH,
                seq![user, ParamView::I64(by)],
            ),
            Grade::StoreMark => crate::page::sends(
                STORE_MARK,
                seq![exam, user, seq, ParamView::I64(request.mark.0), grader],
            ),
        }
    }

    /// The statement of this step.
    pub fn statement(self, request: &GradeRequest) -> (statement: Statement)
        ensures
            statement@ == self.asks(*request),
    {
        let exam = Param::Uuid(request.exam.0);
        let user = Param::Uuid(request.user.0);
        let grader = Param::Uuid(request.graded_by.0);
        let seq = Param::I64(request.seq);
        match self {
            Grade::LockExam => Statement::new(LOCK_EXAM, vec![exam]),
            Grade::ReadMark => Statement::new(READ_MARK, vec![exam, user, seq]),
            Grade::ClaimKind => Statement::new(CLAIM_KIND, vec![Param::Text(request.kind.clone())]),
            Grade::CountMark => Statement::new(COUNT_MARK, vec![exam]),
            Grade::CreditGrader => Statement::new(CREDIT_GRADER, vec![grader]),
            Grade::MoveHigh { by } => Statement::new(MOVE_HIGH, vec![user, Param::I64(by)]),
            Grade::StoreMark => Statement::new(
                STORE_MARK,
                vec![exam, user, seq, Param::I64(request.mark.0), grader],
            ),
        }
    }
}

/// One for a mark that counts as high.
pub open spec fn high(mark: int) -> int {
    if mark >= HIGH_MARK_MIN {
        1
    } else {
        0
    }
}

/// How far a student's high marks move when `mark` replaces what the sitting
/// held: one up or down when the line is crossed, else not at all.
pub open spec fn high_change(before: Option<i64>, mark: i64) -> int {
    high(mark as int) - match before {
        Some(stored) => high(stored as int),
        None => 0,
    }
}

/// The student's counter moves only when the line was crossed.
pub open spec fn after_counters(change: int) -> Step<Grade, (), GradeRefusal> {
    if change == 0 {
        Step::Ask(Grade::StoreMark)
    } else {
        Step::Ask(Grade::MoveHigh { by: change as i64 })
    }
}

/// What a grading does once the statement of `at` is answered.
pub open spec fn grade_next(at: Grade, mark: Mark, reply: Reply) -> Step<Grade, (), GradeRefusal> {
    match at {
        Grade::LockExam => if !reply.has_row() {
            Step::Abort(GradeRefusal::NoExam)
        } else if reply.is_up() {
            Step::Abort(GradeRefusal::Draft)
        } else {
            Step::Ask(Grade::ReadMark)
        },
        Grade::ReadMark => match reply.number() {
            Some(stored) => after_counters(high_change(Some(stored), mark.0)),
            None => Step::Ask(Grade::ClaimKind),
        },
        Grade::ClaimKind => if reply.has_row() {
            Step::Ask(Grade::CountMark)
        } else {
            Step::Abort(GradeRefusal::RetiredKind)
        },
        Grade::CountMark => Step::Ask(Grade::CreditGrader),
        Grade::CreditGrader => after_counters(high_change(None, mark.0)),
        Grade::MoveHigh { .. } => Step::Ask(Grade::StoreMark),
        Grade::StoreMark => Step::Commit(()),
    }
}

fn high_step(before: Option<i64>, mark: i64) -> (step: Step<Grade, (), GradeRefusal>)
    ensures
        step == after_counters(high_change(before, mark)),
{
    let stored: bool = match before {
        Some(stored) => stored >= HIGH_MARK_MIN,
        None => false,
    };
    let now: bool = mark >= HIGH_MARK_MIN;
    if now == stored {
        Step::Ask(Grade::StoreMark)
    } else if now {
        Step::Ask(Grade::MoveHigh { by: 1 })
    } else {
        Step::Ask(Grade::MoveHigh { by: -1 })
    }
}

/// Record (or overwrite) a mark: the step that follows the answer to `at`.
/// A grading starts at [`Grade::LockExam`].
///
/// A missing exam and a draft refuse the mark. A sitting that holds no mark
/// claims: the kind, the exam's count and the grader's credit. An overwrite
/// claims nothing, and moves the student's high marks only where the mark
/// crosses the line.
pub fn grade(at: Grade, mark: Mark, reply: Reply) -> (step: Step<Grade, (), GradeRefusal>)
    ensures
        step == grade_next(at, mark, reply),
{
    match at {
        Grade::LockExam => if !reply.row() {
            Step::Abort(GradeRefusal::NoExam)
        } else if reply.flag() {
            Step::Abort(GradeRefusal::Draft)
        } else {
            Step::Ask(Grade::ReadMark)
        },
        Grade::ReadMark => match reply.value() {
            Some(stored) => high_step(Some(stored), mark.0),
            None => Step::Ask(Grade::ClaimKind),
        },
        Grade::ClaimKind => if reply.row() {
            Step::Ask(Grade::CountMark)
        } else {
            Step::Abort(GradeRefusal::RetiredKind)
        },
        Grade::CountMark => Step::Ask(Grade::CreditGrader),
        Grade::CreditGrader => high_step(None, mark.0),
        Grade::MoveHigh { .. } => Step::Ask(Grade::StoreMark),
        Grade::StoreMark => Step::Commit(()),
    }
}

/// The answer to a mark on a draft.
pub const DRAFT_EXAM: &'static str = "a draft exam cannot be graded — publish it first";

/// The answer to a mark under a kind that has left the settings.
pub open spec fn retired_kind(kind: Seq<char>) -> Seq<char> {
    "the '"@ + kind + "' exam kind has been removed from the school's settings"@
}

impl GradeRefusal {
    /// What a refused grading answers.
    pub open spec fn answers(self, kind: Seq<char>) -> AppErrorView {
        match self {
            GradeRefusal::NoExam => AppErrorView::NotFound,
            GradeRefusal::Draft => AppErrorView::Conflict(DRAFT_EXAM@),
            GradeRefusal::RetiredKind => AppErrorView::ConflictOwned(retired_kind(kind)),
        }
    }

    /// What a refused grading answers.
    pub fn error(self, kind: &str) -> (error: AppError)
        ensures
            error@ == self.answers(kind@),
    {
        match self {
            GradeRefusal::NoExam => AppError::NotFound,
            GradeRefusal::Draft => AppError::Conflict(DRAFT_EXAM),
            GradeRefusal::RetiredKind => {
                let mut text = "the '".to_owned();
                text.append(kind);
                text.append("' exam kind has been removed from the school's settings");
                AppError::ConflictOwned(text)
            },
        }
    }
}

/// A mark a removal deleted.
#[derive(Clone, Copy, PartialEq, Eq, Structural, Debug)]
pub struct GoneMark {
    pub seq: i64,
    pub mark: Mark,
    pub graded_by: UserId,
}

/// What a removal that deleted something leaves to do: the first sitting's
/// row to answer with, and the counters to give back.
pub struct Removal {
    pub row: ExamResult,
    pub refunds: Vec<Statement>,
}

pub const DELETE_MARKS: &'static str =
    "WITH gone AS ( DELETE FROM exam_result WHERE exam = $1 AND app_user = $2 RETURNING mark, \
     graded_by, seq) SELECT seq, mark, graded_by FROM gone ORDER BY seq ASC";

pub const REFUND_KIND: &'static str =
    "UPDATE kind_ref SET count = GREATEST(kind_ref.count - $2, 0) WHERE name = $1";

pub const REFUND_EXAM: &'static str =
    "UPDATE exam SET result_count = GREATEST(exam.result_count - $2, 0) WHERE id = $1";

pub const REFUND_HIGH: &'static str =
    "UPDATE app_user SET high_mark_total = GREATEST(high_mark_total - $2, 0) WHERE id = $1";

pub const REFUND_GRADER: &'static str =
    "UPDATE app_user SET marks_given_total = GREATEST(marks_given_total - $2, 0) WHERE id = $1";

/// How many of the deleted marks were high.
pub open spec fn high_in(gone: Seq<GoneMark>) -> int
    decreases gone.len(),
{
    if gone.len() == 0 {
        0
    } else {
        high_in(gone.drop_last()) + high(gone.last().mark.0 as int)
    }
}

/// How many of the deleted marks a grader had given.
pub open spec fn given_in(gone: Seq<GoneMark>, grader: UserId) -> int
    decreases gone.len(),
{
    if gone.len() == 0 {
        0
    } else {
        given_in(gone.drop_last(), grader) + (if gone.last().graded_by == grader {
            1int
        } else {
            0int
        })
    }
}

/// The graders of the deleted marks, each once, in the order they first occur.
pub open spec fn graders_in(gone: Seq<GoneMark>) -> Seq<UserId>
    decreases gone.len(),
{
    if gone.len() == 0 {
        Seq::empty()
    } else {
        let before = graders_in(gone.drop_last());
        if before.contains(gone.last().graded_by) {
            before
        } else {
            before.push(gone.last().graded_by)
        }
    }
}

/// Each grader of the deleted marks with the number they had given.
pub open spec fn per_grader(gone: Seq<GoneMark>) -> Seq<(UserId, int)> {
    let graders = graders_in(gone);
    Seq::new(graders.len(), |i: int| (graders[i], given_in(gone, graders[i])))
}

/// The counters a removal gives back: the kind's, the exam's and the student's.
pub open spec fn shared_refunds(
    exam: ExamId,
    user: UserId,
    kind: Seq<char>,
    gone: Seq<GoneMark>,
) -> Seq<StatementView> {
    let count = ParamView::I64(gone.len() as i64);
    let shared = seq![
        crate::page::sends(REFUND_KIND, seq![ParamView::Text(kind), count]),
        crate::page::sends(REFUND_EXAM, seq![ParamView::Uuid(exam.0), count]),
    ];
    let student = if high_in(gone) > 0 {
        seq![
            crate::page::sends(
                REFUND_HIGH,
                seq![ParamView::Uuid(user.0), ParamView::I64(high_in(gone) as i64)],
            ),
        ]
    } else {
        Seq::empty()
    };
    shared + student
}

/// The counters a removal gives back: the shared ones, then each grader's.
pub open spec fn refunds(
    exam: ExamId,
    user: UserId,
    kind: Seq<char>,
    gone: Seq<GoneMark>,
) -> Seq<StatementView> {
    shared_refunds(exam, user, kind, gone) + grader_refunds(per_grader(gone))
}

/// One refund for each grader.
pub open spec fn grader_refunds(graders: Seq<(UserId, int)>) -> Seq<StatementView> {
    Seq::new(
        graders.len(),
        |i: int|
            crate::page::sends(
                REFUND_GRADER,
                seq![ParamView::Uuid(graders[i].0.0), ParamView::I64(graders[i].1 as i64)],
            ),
    )
}

proof fn lemma_counts_bounded(gone: Seq<GoneMark>, grader: UserId)
    ensures
        0 <= high_in(gone) <= gone.len(),
        0 <= given_in(gone, grader) <= gone.len(),
        given_in(gone, grader) > 0 <==> graders_in(gone).contains(grader),
        graders_in(gone).no_duplicates(),
    decreases gone.len(),
{
    if gone.len() > 0 {
        let before = graders_in(gone.drop_last());
        lemma_counts_bounded(gone.drop_last(), grader);
        if !before.contains(gone.last().graded_by) {
            let after = before.push(gone.last().graded_by);
            assert(after.last() == gone.last().graded_by);
            assert(forall|i: int| 0 <= i < before.len() ==> after[i] == before[i]);
            assert(after.contains(gone.last().graded_by));
            if before.contains(grader) {
                let i = before.index_of(grader);
                assert(after[i] == grader);
            }
        }
    }
}

/// The deletion of every sitting's mark for one student of one exam, which
/// replies what it deleted, first sitting first.
pub fn remove_statement(exam: ExamId, user: UserId) -> (statement: Statement)
    ensures
        statement@ == crate::page::sends(
            DELETE_MARKS,
            seq![ParamView::Uuid(exam.0), ParamView::Uuid(user.0)],
        ),
{
    Statement::new(DELETE_MARKS, vec![Param::Uuid(exam.0), Param::Uuid(user.0)])
}

fn grader_counts(gone: &Vec<GoneMark>) -> (counts: Vec<(UserId, i64)>)
    requires
        gone.len() <= i64::MAX,
    ensures
        counts.len() == per_grader(gone@).len(),
        forall|i: int|
            0 <= i < counts.len() ==> #[trigger] counts@[i].0 == per_grader(gone@)[i].0
                && counts@[i].1 == per_grader(gone@)[i].1,
{
    let mut counts: Vec<(UserId, i64)> = Vec::new();
    let mut i: usize = 0;
    assert(gone@.take(0) =~= Seq::empty());
    while i < gone.len()
        invariant
            0 <= i <= gone.len() <= i64::MAX,
            counts.len() == graders_in(gone@.take(i as int)).len(),
            forall|k: int|
                0 <= k < counts.len() ==> #[trigger] counts@[k].0 == graders_in(
                    gone@.take(i as int),
                )[k] && counts@[k].1 == given_in(gone@.take(i as int), counts@[k].0),
        decreases gone.len() - i,
    {
        let grader = gone[i].graded_by;
        let ghost seen = gone@.take(i as int);
        let ghost next = gone@.take(i + 1);
        assert(next.drop_last() =~= seen);
        assert(next.last() == gone@[i as int]);
        proof {
            lemma_counts_bounded(seen, grader);
        }
        let mut at: usize = 0;
        while at < counts.len() && counts[at].0 != grader
            invariant
                0 <= at <= counts.len(),
                forall|k: int| 0 <= k < at ==> #[trigger] counts@[k].0 != grader,
            decreases counts.len() - at,
        {
            at += 1;
        }
        let ghost listed = graders_in(seen);
        if at < counts.len() {
            assert(listed[at as int] == grader);
            assert(listed.contains(grader));
            let given: i64 = counts[at].1;
            counts.set(at, (grader, given + 1));
            assert forall|k: int| 0 <= k < counts.len() implies #[trigger] counts@[k].0
                == graders_in(next)[k] && counts@[k].1 == given_in(next, counts@[k].0) by {
                if k != at {
                    assert(listed[k] != listed[at as int]);
                }
            }
        } else {
            proof {
                if listed.contains(grader) {
                    let k = listed.index_of(grader);
                    assert(counts@[k].0 == grader);
                }
            }
            counts.push((grader, 1));
            assert forall|k: int| 0 <= k < counts.len() implies #[trigger] counts@[k].0
                == graders_in(next)[k] && counts@[k].1 == given_in(next, counts@[k].0) by {
                if k < listed.len() {
                    assert(listed[k] == counts@[k].0);
                    assert(listed.contains(counts@[k].0));
                }
            }
        }
        i += 1;
    }
    assert(gone@.take(gone.len() as int) =~= gone@);
    counts
}

fn count_high(gone: &Vec<GoneMark>) -> (count: i64)
    requires
        gone.len() <= i64::MAX,
    ensures
        count == high_in(gone@),
{
    let mut count: i64 = 0;
    let mut i: usize = 0;
    assert(gone@.take(0) =~= Seq::empty());
    while i < gone.len()
        invariant
            0 <= i <= gone.len() <= i64::MAX,
            0 <= count <= i,
            count == high_in(gone@.take(i as int)),
        decreases gone.len() - i,
    {
        assert(gone@.take(i + 1).drop_last() =~= gone@.take(i as int));
        if gone[i].mark.0 >= HIGH_MARK_MIN {
            count += 1;
        }
        i += 1;
    }
    assert(gone@.take(gone.len() as int) =~= gone@);
    count
}

/// Delete every sitting's mark for one student of one exam: what follows the
/// reply of [`remove_statement`]. Nothing deleted is nothing to give back.
/// Each counter is given back off the deleted rows: the kind and the exam by
/// their number, the student by the high ones, each grader by their own.
pub fn remove(exam: ExamId, user: UserId, kind: &str, gone: &Vec<GoneMark>) -> (removal: Option<
    Removal,
>)
    requires
        gone.len() <= i64::MAX,
    ensures
        removal is Some == (gone.len() > 0),
        removal is Some ==> removal->0.row == (ExamResult {
            exam,
            user,
            seq: gone@[0].seq,
            mark: gone@[0].mark,
            graded_by: gone@[0].graded_by,
        }) && crate::page::all_sent(removal->0.refunds@) == refunds(exam, user, kind@, gone@),
{
    if gone.len() == 0 {
        return None;
    }
    let count: i64 = gone.len() as i64;
    let mut refund_list: Vec<Statement> = Vec::new();
    refund_list.push(
        Statement::new(REFUND_KIND, vec![Param::Text(kind.to_owned()), Param::I64(count)]),
    );
    refund_list.push(Statement::new(REFUND_EXAM, vec![Param::Uuid(exam.0), Param::I64(count)]));
    let high_count: i64 = count_high(gone);
    if high_count > 0 {
        refund_list.push(
            Statement::new(REFUND_HIGH, vec![Param::Uuid(user.0), Param::I64(high_count)]),
        );
    }
    let ghost shared = crate::page::all_sent(refund_list@);
    assert(shared =~~= shared_refunds(exam, user, kind@, gone@));
    let counts = grader_counts(gone);
    let mut i: usize = 0;
    while i < counts.len()
        invariant
            0 <= i <= counts.len(),
            counts.len() == per_grader(gone@).len(),
            forall|k: int|
                0 <= k < counts.len() ==> #[trigger] counts@[k].0 == per_grader(gone@)[k].0
                    && counts@[k].1 == per_grader(gone@)[k].1,
            crate::page::all_sent(refund_list@) == shared + grader_refunds(
                per_grader(gone@),
            ).take(i as int),
        decreases counts.len() - i,
    {
        let ghost before = crate::page::all_sent(refund_list@);
        refund_list.push(
            Statement::new(
                REFUND_GRADER,
                vec![Param::Uuid(counts[i].0.0), Param::I64(counts[i].1)],
            ),
        );
        proof {
            let sent = refund_list@.last()@;
            assert(counts@[i as int].0 == per_grader(gone@)[i as int].0);
            assert(sent == grader_refunds(per_grader(gone@))[i as int]);
            assert(crate::page::all_sent(refund_list@) =~= before.push(sent));
        }
        i += 1;
    }
    assert(crate::page::all_sent(refund_list@) =~= refunds(exam, user, kind@, gone@));
    let first = gone[0];
    Some(
        Removal {
            row: ExamResult {
                exam,
                user,
                seq: first.seq,
                mark: first.mark,
                graded_by: first.graded_by,
            },
            refunds: refund_list,
        },
    )
}

pub const FIND_RESULT: &'static str =
    "SELECT exam, app_user AS \"user\", seq, mark, graded_by FROM exam_result WHERE exam = $1 \
     AND app_user = $2 ORDER BY seq DESC LIMIT 1";

/// The read of a student's mark of record: the latest sitting's.
pub fn read_for_user(exam: ExamId, user: UserId) -> (statement: Statement)
    ensures
        statement@ == crate::page::sends(
            FIND_RESULT,
            seq![ParamView::Uuid(exam.0), ParamView::Uuid(user.0)],
        ),
{
    Statement::new(FIND_RESULT, vec![Param::Uuid(exam.0), Param::Uuid(user.0)])
}

pub const LIST_FOR_USER_IN_COURSE: &'static str =
    "SELECT r.exam, r.app_user AS \"user\", r.seq, r.mark, r.graded_by FROM exam_result r JOIN \
     exam e ON e.id = r.exam WHERE r.app_user = $1 AND e.course = $2 ORDER BY r.exam DESC, \
     r.seq DESC";

/// The read of a student's marks in one course, latest sitting first; the
/// list is [`latest_per_pair`] of its rows.
pub fn list_for_user_in_course(course: CourseId, user: UserId) -> (statement: Statement)
    ensures
        statement@ == crate::page::sends(
            LIST_FOR_USER_IN_COURSE,
            seq![ParamView::Uuid(user.0), ParamView::Uuid(course.0)],
        ),
{
    Statement::new(LIST_FOR_USER_IN_COURSE, vec![Param::Uuid(user.0), Param::Uuid(course.0)])
}

pub const LIST_FOR_EXAM: &'static str =
    "SELECT exam, app_user AS \"user\", seq, mark, graded_by FROM exam_result WHERE exam = $1 \
     ORDER BY exam DESC, seq DESC";

/// The read of an exam's marks, latest sitting first; the roster is
/// [`latest_per_pair`] of its rows.
pub fn list_for_exam(exam: ExamId) -> (statement: Statement)
    ensures
        statement@ == crate::page::sends(LIST_FOR_EXAM, seq![ParamView::Uuid(exam.0)]),
{
    Statement::new(LIST_FOR_EXAM, vec![Param::Uuid(exam.0)])
}

pub const LIST_ALL_FOR_EXAM_USER: &'static str =
    "SELECT exam, app_user AS \"user\", seq, mark, graded_by FROM exam_result WHERE exam = $1 \
     AND app_user = $2 ORDER BY seq ASC";

/// The read of every sitting's mark of one student, oldest first.
pub fn list_all_for_exam_user(exam: ExamId, user: UserId) -> (statement: Statement)
    ensures
        statement@ == crate::page::sends(
            LIST_ALL_FOR_EXAM_USER,
            seq![ParamView::Uuid(exam.0), ParamView::Uuid(user.0)],
        ),
{
    Statement::new(LIST_ALL_FOR_EXAM_USER, vec![Param::Uuid(exam.0), Param::Uuid(user.0)])
}

/// Whether two rows are sittings of the same student at the same exam.
pub open spec fn same_pair(a: ExamResult, b: ExamResult) -> bool {
    a.exam == b.exam && a.user == b.user
}

/// Whether a row of the same pair stands in the list.
pub open spec fn pair_listed(rows: Seq<ExamResult>, row: ExamResult) -> bool {
    exists|i: int| 0 <= i < rows.len() && same_pair(#[trigger] rows[i], row)
}

/// The first row of each pair, in order.
pub open spec fn first_per_pair(rows: Seq<ExamResult>) -> Seq<ExamResult>
    decreases rows.len(),
{
    if rows.len() == 0 {
        Seq::empty()
    } else {
        let before = first_per_pair(rows.drop_last());
        if pair_listed(before, rows.last()) {
            before
        } else {
            before.push(rows.last())
        }
    }
}

/// One row per student and exam: of rows that come latest sitting first, the
/// mark of record.
pub fn latest_per_pair(rows: &Vec<ExamResult>) -> (latest: Vec<ExamResult>)
    ensures
        latest@ == first_per_pair(rows@),
{
    let mut latest: Vec<ExamResult> = Vec::new();
    let mut i: usize = 0;
    assert(rows@.take(0) =~= Seq::empty());
    while i < rows.len()
        invariant
            0 <= i <= rows.len(),
            latest@ == first_per_pair(rows@.take(i as int)),
        decreases rows.len() - i,
    {
        let row = rows[i];
        assert(rows@.take(i + 1).drop_last() =~= rows@.take(i as int));
        let mut at: usize = 0;
        while at < latest.len() && !(latest[at].exam == row.exam && latest[at].user == row.user)
            invariant
                0 <= at <= latest.len(),
                forall|k: int| 0 <= k < at ==> !same_pair(#[trigger] latest@[k], row),
            decreases latest.len() - at,
        {
            at += 1;
        }
        if at == latest.len() {
            assert(!pair_listed(latest@, row));
            latest.push(row);
        } else {
            assert(same_pair(latest@[at as int], row));
        }
        i += 1;
    }
    assert(rows@.take(rows.len() as int) =~= rows@);
    latest
}

/// The columns of an exam that marks read and write.
pub struct ExamRow {
    pub draft: bool,
    pub kind: Seq<char>,
    pub result_count: int,
}

/// The references on a kind, and whether it has left the settings.
pub struct KindRow {
    pub count: int,
    pub retired: bool,
}

/// The badge counters of a user.
pub struct BadgeRow {
    pub marks_given: int,
    pub high_marks: int,
}

/// A stored mark.
pub struct MarkRow {
    pub mark: i64,
    pub graded_by: UserId,
}

/// The tables a mark touches.
#[verifier::ext_equal]
pub struct Marks {
    pub exams: Map<ExamId, ExamRow>,
    pub kinds: Map<Seq<char>, KindRow>,
    pub users: Map<UserId, BadgeRow>,
    pub results: Map<(ExamId, UserId, i64), MarkRow>,
}

/// The marks of one exam.
pub open spec fn at_exam(exam: ExamId) -> spec_fn((ExamId, UserId, i64), MarkRow) -> bool {
    |key: (ExamId, UserId, i64), row: MarkRow| key.0 == exam
}

/// The marks under one kind.
pub open spec fn under_kind(
    exams: Map<ExamId, ExamRow>,
    kind: Seq<char>,
) -> spec_fn((ExamId, UserId, i64), MarkRow) -> bool {
    |key: (ExamId, UserId, i64), row: MarkRow|
        exams.contains_key(key.0) && exams[key.0].kind == kind
}

/// The high marks of one student.
pub open spec fn high_of(user: UserId) -> spec_fn((ExamId, UserId, i64), MarkRow) -> bool {
    |key: (ExamId, UserId, i64), row: MarkRow| key.1 == user && row.mark >= HIGH_MARK_MIN
}

/// The marks that carry one grader's name.
pub open spec fn given_by(grader: UserId) -> spec_fn((ExamId, UserId, i64), MarkRow) -> bool {
    |key: (ExamId, UserId, i64), row: MarkRow| row.graded_by == grader
}

impl Marks {
    /// The references on a kind: a kind without a row has none.
    pub open spec fn kind_count(self, kind: Seq<char>) -> int {
        if self.kinds.contains_key(kind) {
            self.kinds[kind].count
        } else {
            0
        }
    }

    /// Whether a kind has left the settings.
    pub open spec fn is_retired(self, kind: Seq<char>) -> bool {
        self.kinds.contains_key(kind) && self.kinds[kind].retired
    }

    /// How many marks an exam holds.
    pub open spec fn marks_of_exam(self, exam: ExamId) -> int {
        crate::tally::tally(self.results, at_exam(exam))
    }

    /// How many marks stand under a kind.
    pub open spec fn marks_of_kind(self, kind: Seq<char>) -> int {
        crate::tally::tally(self.results, under_kind(self.exams, kind))
    }

    /// How many high marks a student holds.
    pub open spec fn high_marks_of(self, user: UserId) -> int {
        crate::tally::tally(self.results, high_of(user))
    }

    /// How many stored marks carry a grader's name.
    pub open spec fn marks_by(self, grader: UserId) -> int {
        crate::tally::tally(self.results, given_by(grader))
    }

    /// Every exam's `result_count` is the number of its marks.
    pub open spec fn exams_counted(self) -> bool {
        forall|exam: ExamId| #[trigger]
            self.exams.contains_key(exam) ==> self.exams[exam].result_count == self.marks_of_exam(
                exam,
            )
    }

    /// Every kind's references are the marks that stand under it.
    pub open spec fn kinds_counted(self) -> bool {
        forall|kind: Seq<char>| #[trigger] self.kind_count(kind) == self.marks_of_kind(kind)
    }

    /// Every student's `high_mark_total` is the number of their high marks.
    pub open spec fn high_counted(self) -> bool {
        forall|user: UserId| #[trigger]
            self.users.contains_key(user) ==> self.users[user].high_marks == self.high_marks_of(
                user,
            )
    }

    /// What a grader's `marks_given_total` holds beyond the exam marks that
    /// carry their name: the marks they gave to homework.
    pub open spec fn given_elsewhere(self, grader: UserId) -> int {
        self.users[grader].marks_given - self.marks_by(grader)
    }

    /// Every grader was credited for each mark that carries their name.
    pub open spec fn graders_credited(self) -> bool {
        forall|grader: UserId| #[trigger]
            self.users.contains_key(grader) ==> self.given_elsewhere(grader) >= 0
    }

    /// No counter stands below zero.
    pub open spec fn none_below_zero(self) -> bool {
        &&& forall|exam: ExamId| #[trigger]
            self.exams.contains_key(exam) ==> self.exams[exam].result_count >= 0
        &&& forall|kind: Seq<char>| #[trigger] self.kind_count(kind) >= 0
        &&& forall|user: UserId| #[trigger]
            self.users.contains_key(user) ==> self.users[user].marks_given >= 0
                && self.users[user].high_marks >= 0
    }

    /// The tables are finite, and every mark belongs to an exam that is there.
    pub open spec fn is_sound(self) -> bool {
        &&& self.results.dom().finite()
        &&& forall|key: (ExamId, UserId, i64)| #[trigger]
            self.results.contains_key(key) ==> self.exams.contains_key(key.0)
    }
}

impl GradeRequest {
    /// The key of the sitting this request marks.
    pub open spec fn sitting(self) -> (ExamId, UserId, i64) {
        (self.exam, self.user, self.seq)
    }
}

/// What each statement of a grading does to the tables, and what it replies.
pub open spec fn grade_effect(db: Marks, request: GradeRequest, at: Grade) -> (Marks, Reply) {
    match at {
        Grade::LockExam => (
            db,
            if db.exams.contains_key(request.exam) {
                Reply::Flag(db.exams[request.exam].draft)
            } else {
                Reply::Empty
            },
        ),
        Grade::ReadMark => (
            db,
            if db.results.contains_key(request.sitting()) {
                Reply::Int(db.results[request.sitting()].mark)
            } else {
                Reply::Empty
            },
        ),
        Grade::ClaimKind => if db.is_retired(request.kind@) {
            (db, Reply::Empty)
        } else {
            (
                Marks {
                    kinds: db.kinds.insert(
                        request.kind@,
                        KindRow { count: db.kind_count(request.kind@) + 1, retired: false },
                    ),
                    ..db
                },
                Reply::Row,
            )
        },
        Grade::CountMark => (
            Marks {
                exams: if db.exams.contains_key(request.exam) {
                    let exam = db.exams[request.exam];
                    db.exams.insert(
                        request.exam,
                        ExamRow { result_count: exam.result_count + 1, ..exam },
                    )
                } else {
                    db.exams
                },
                ..db
            },
            Reply::Row,
        ),
        Grade::CreditGrader => (
            Marks {
                users: if db.users.contains_key(request.graded_by) {
                    let grader = db.users[request.graded_by];
                    db.users.insert(
                        request.graded_by,
                        BadgeRow { marks_given: grader.marks_given + 1, ..grader },
                    )
                } else {
                    db.users
                },
                ..db
            },
            Reply::Row,
        ),
        Grade::MoveHigh { by } => (
            Marks {
                users: if db.users.contains_key(request.user) {
                    let student = db.users[request.user];
                    db.users.insert(
                        request.user,
                        BadgeRow {
                            high_marks: crate::tally::floored(student.high_marks + by),
                            ..student
                        },
                    )
                } else {
                    db.users
                },
                ..db
            },
            Reply::Row,
        ),
        Grade::StoreMark => (
            Marks {
                results: db.results.insert(
                    request.sitting(),
                    MarkRow { mark: request.mark.0, graded_by: request.graded_by },
                ),
                ..db
            },
            Reply::Row,
        ),
    }
}

/// A whole grading against the stored tables.
pub open spec fn grade_run(db: Marks, request: GradeRequest) -> (Marks, Step<
    Grade,
    (),
    GradeRefusal,
>) {
    crate::transaction::run(
        db,
        Step::Ask(Grade::LockExam),
        |at: Grade, reply: Reply| grade_next(at, request.mark, reply),
        |tables: Marks, at: Grade| grade_effect(tables, request, at),
        7,
    )
}

/// What the tables hold after a grading, committed or rolled back.
pub open spec fn graded(db: Marks, request: GradeRequest) -> Marks {
    crate::transaction::stored(db, grade_run(db, request))
}

/// The refusal a grading meets, if any.
pub open spec fn grade_refusal(db: Marks, request: GradeRequest) -> Option<GradeRefusal> {
    if !db.exams.contains_key(request.exam) {
        Some(GradeRefusal::NoExam)
    } else if db.exams[request.exam].draft {
        Some(GradeRefusal::Draft)
    } else if !db.results.contains_key(request.sitting()) && db.is_retired(request.kind@) {
        Some(GradeRefusal::RetiredKind)
    } else {
        None
    }
}

/// The mark the sitting held before a grading.
pub open spec fn mark_before(db: Marks, request: GradeRequest) -> Option<i64> {
    if db.results.contains_key(request.sitting()) {
        Some(db.results[request.sitting()].mark)
    } else {
        None
    }
}

/// A grading commits exactly when nothing refuses it, and answers the
/// refusal otherwise; a refused mark leaves every table as it was.
pub proof fn law_grade_answers(db: Marks, request: GradeRequest)
    ensures
        grade_run(db, request).1 == crate::transaction::ends::<Grade, (), GradeRefusal>(
            (),
            grade_refusal(db, request),
        ),
        grade_refusal(db, request) is Some ==> graded(db, request) == db,
{
    reveal_with_fuel(crate::transaction::run, 8);
}

/// What a committed grading writes: the mark itself, always; a reference on
/// the kind, the exam's count and the grader's credit for a sitting that held
/// no mark; and the student's high marks where the line was crossed.
pub proof fn law_grade_writes(db: Marks, request: GradeRequest)
    requires
        grade_refusal(db, request) is None,
    ensures
        graded(db, request).results == db.results.insert(
            request.sitting(),
            MarkRow { mark: request.mark.0, graded_by: request.graded_by },
        ),
        graded(db, request).exams == (if mark_before(db, request) is None {
            db.exams.insert(
                request.exam,
                ExamRow {
                    result_count: db.exams[request.exam].result_count + 1,
                    ..db.exams[request.exam]
                },
            )
        } else {
            db.exams
        }),
        graded(db, request).kinds == (if mark_before(db, request) is None {
            db.kinds.insert(
                request.kind@,
                KindRow { count: db.kind_count(request.kind@) + 1, retired: false },
            )
        } else {
            db.kinds
        }),
        forall|user: UserId| #[trigger]
            db.users.contains_key(user) == graded(db, request).users.contains_key(user),
        forall|user: UserId| #[trigger]
            db.users.contains_key(user) ==> graded(db, request).users[user].marks_given
                == db.users[user].marks_given + (if mark_before(db, request) is None && user
                == request.graded_by {
                1int
            } else {
                0int
            }),
        forall|user: UserId| #[trigger]
            db.users.contains_key(user) ==> graded(db, request).users[user].high_marks == (if user
                == request.user && high_change(mark_before(db, request), request.mark.0) != 0 {
                crate::tally::floored(
                    db.users[user].high_marks + high_change(
                        mark_before(db, request),
                        request.mark.0,
                    ),
                )
            } else {
                db.users[user].high_marks
            }),
{
    reveal_with_fuel(crate::transaction::run, 8);
}

/// A grading keeps what the counters promise: every exam counts its marks,
/// every kind the marks under it where `kind` is the exam's own, every student
/// their high marks.
pub proof fn law_grade_keeps_counters(db: Marks, request: GradeRequest)
    requires
        db.is_sound(),
    ensures
        graded(db, request).is_sound(),
        db.exams_counted() ==> graded(db, request).exams_counted(),
        db.kinds_counted() && (db.exams.contains_key(request.exam) ==> request.kind@
            == db.exams[request.exam].kind) ==> graded(db, request).kinds_counted(),
        db.high_counted() ==> graded(db, request).high_counted(),
{
    law_grade_answers(db, request);
    if grade_refusal(db, request) is None {
        law_grade_writes(db, request);
        let after = graded(db, request);
        let key = request.sitting();
        let row = MarkRow { mark: request.mark.0, graded_by: request.graded_by };
        if db.exams_counted() {
            assert forall|exam: ExamId| #[trigger] after.exams.contains_key(exam) implies
                after.exams[exam].result_count == after.marks_of_exam(exam) by {
                assert(db.exams.contains_key(exam));
                crate::tally::lemma_tally_insert(db.results, key, row, at_exam(exam));
            }
        }
        if db.kinds_counted() && request.kind@ == db.exams[request.exam].kind {
            assert forall|kind: Seq<char>| #[trigger]
                after.kind_count(kind) == after.marks_of_kind(kind) by {
                let under = under_kind(db.exams, kind);
                let under_after = under_kind(after.exams, kind);
                assert(db.kind_count(kind) == db.marks_of_kind(kind));
                crate::tally::lemma_tally_insert(db.results, key, row, under);
                assert(crate::tally::matching(after.results, under_after)
                    =~= crate::tally::matching(after.results, under));
            }
        }
        if db.high_counted() {
            assert forall|user: UserId| #[trigger] after.users.contains_key(user) implies
                after.users[user].high_marks == after.high_marks_of(user) by {
                assert(db.users.contains_key(user));
                crate::tally::lemma_tally_insert(db.results, key, row, high_of(user));
                crate::tally::lemma_tally_holds(db.results, key, high_of(user));
            }
        }
    }
}

/// A grading credits its grader once for each mark that carries their name,
/// and nobody else: what `marks_given_total` holds beyond those marks stays
/// the same. A regrade under another grader's name is left out: the credit
/// stays where the first grading put it.
pub proof fn law_grade_keeps_credit(db: Marks, request: GradeRequest, grader: UserId)
    requires
        db.is_sound(),
        db.users.contains_key(grader),
        db.results.contains_key(request.sitting()) ==> db.results[request.sitting()].graded_by
            == request.graded_by,
    ensures
        graded(db, request).users.contains_key(grader),
        graded(db, request).given_elsewhere(grader) == db.given_elsewhere(grader),
{
    law_grade_answers(db, request);
    if grade_refusal(db, request) is None {
        law_grade_writes(db, request);
        crate::tally::lemma_tally_insert(
            db.results,
            request.sitting(),
            MarkRow { mark: request.mark.0, graded_by: request.graded_by },
            given_by(grader),
        );
    }
}

/// A regrade of a sitting already marked claims nothing: the kinds, the exams
/// and every grader's credit stay as they were, and so do the high marks
/// where both marks stand on the same side of the line.
pub proof fn law_regrade_claims_nothing(db: Marks, request: GradeRequest, user: UserId)
    requires
        db.results.contains_key(request.sitting()),
        db.users.contains_key(user),
    ensures
        graded(db, request).kinds == db.kinds,
        graded(db, request).exams == db.exams,
        graded(db, request).users[user].marks_given == db.users[user].marks_given,
        high(request.mark.0 as int) == high(db.results[request.sitting()].mark as int)
            ==> graded(db, request).users[user].high_marks == db.users[user].high_marks,
{
    law_grade_answers(db, request);
    if grade_refusal(db, request) is None {
        law_grade_writes(db, request);
    }
}

/// A grading touches no other sitting: a retake never rewrites an earlier
/// mark.
pub proof fn law_grade_leaves_other_sittings(
    db: Marks,
    request: GradeRequest,
    other: (ExamId, UserId, i64),
)
    requires
        other != request.sitting(),
    ensures
        graded(db, request).results.contains_key(other) == db.results.contains_key(other),
        db.results.contains_key(other) ==> graded(db, request).results[other] == db.results[other],
{
    law_grade_answers(db, request);
    if grade_refusal(db, request) is None {
        law_grade_writes(db, request);
    }
}

/// The row a deleted mark was.
pub open spec fn gone_row(gone: GoneMark) -> MarkRow {
    MarkRow { mark: gone.mark.0, graded_by: gone.graded_by }
}

/// Whether `gone` is what the deletion of a student's marks at an exam
/// replies: each of their marks once, by sitting.
pub open spec fn deletes(db: Marks, exam: ExamId, user: UserId, gone: Seq<GoneMark>) -> bool {
    &&& forall|i: int|
        0 <= i < gone.len() ==> db.results.contains_key((exam, user, (#[trigger] gone[i]).seq))
            && db.results[(exam, user, gone[i].seq)] == gone_row(gone[i])
    &&& forall|i: int, j: int| 0 <= i < j < gone.len() ==> gone[i].seq < gone[j].seq
    &&& forall|seq: i64| #[trigger]
        db.results.contains_key((exam, user, seq)) ==> exists|i: int|
            0 <= i < gone.len() && gone[i].seq == seq
}

/// The marks without the deleted ones.
pub open spec fn without(
    results: Map<(ExamId, UserId, i64), MarkRow>,
    exam: ExamId,
    user: UserId,
    gone: Seq<GoneMark>,
) -> Map<(ExamId, UserId, i64), MarkRow>
    decreases gone.len(),
{
    if gone.len() == 0 {
        results
    } else {
        without(results, exam, user, gone.drop_last()).remove((exam, user, gone.last().seq))
    }
}

/// Each grader's credit lowered by what they had given of the deleted marks.
pub open spec fn debited(
    users: Map<UserId, BadgeRow>,
    graders: Seq<(UserId, int)>,
) -> Map<UserId, BadgeRow>
    decreases graders.len(),
{
    if graders.len() == 0 {
        users
    } else {
        let before = debited(users, graders.drop_last());
        let (grader, given) = graders.last();
        if before.contains_key(grader) {
            before.insert(
                grader,
                BadgeRow {
                    marks_given: crate::tally::floored(before[grader].marks_given - given),
                    ..before[grader]
                },
            )
        } else {
            before
        }
    }
}

/// What the tables hold after a removal that deleted `gone`.
pub open spec fn removed(
    db: Marks,
    exam: ExamId,
    user: UserId,
    kind: Seq<char>,
    gone: Seq<GoneMark>,
) -> Marks {
    if gone.len() == 0 {
        db
    } else {
        Marks {
            exams: if db.exams.contains_key(exam) {
                db.exams.insert(
                    exam,
                    ExamRow {
                        result_count: crate::tally::floored(
                            db.exams[exam].result_count - gone.len(),
                        ),
                        ..db.exams[exam]
                    },
                )
            } else {
                db.exams
            },
            kinds: if db.kinds.contains_key(kind) {
                db.kinds.insert(
                    kind,
                    KindRow {
                        count: crate::tally::floored(db.kinds[kind].count - gone.len()),
                        ..db.kinds[kind]
                    },
                )
            } else {
                db.kinds
            },
            users: debited(
                if high_in(gone) > 0 && db.users.contains_key(user) {
                    db.users.insert(
                        user,
                        BadgeRow {
                            high_marks: crate::tally::floored(
                                db.users[user].high_marks - high_in(gone),
                            ),
                            ..db.users[user]
                        },
                    )
                } else {
                    db.users
                },
                per_grader(gone),
            ),
            results: without(db.results, exam, user, gone),
        }
    }
}

/// How many of the deleted rows met a condition.
pub open spec fn met_in(
    exam: ExamId,
    user: UserId,
    gone: Seq<GoneMark>,
    counts: spec_fn((ExamId, UserId, i64), MarkRow) -> bool,
) -> int
    decreases gone.len(),
{
    if gone.len() == 0 {
        0
    } else {
        met_in(exam, user, gone.drop_last(), counts) + (if counts(
            (exam, user, gone.last().seq),
            gone_row(gone.last()),
        ) {
            1int
        } else {
            0int
        })
    }
}

proof fn lemma_without(
    results: Map<(ExamId, UserId, i64), MarkRow>,
    exam: ExamId,
    user: UserId,
    gone: Seq<GoneMark>,
    counts: spec_fn((ExamId, UserId, i64), MarkRow) -> bool,
)
    requires
        results.dom().finite(),
        forall|i: int|
            0 <= i < gone.len() ==> results.contains_key((exam, user, (#[trigger] gone[i]).seq))
                && results[(exam, user, gone[i].seq)] == gone_row(gone[i]),
        forall|i: int, j: int| 0 <= i < j < gone.len() ==> gone[i].seq < gone[j].seq,
    ensures
        ({
            let after = without(results, exam, user, gone);
            &&& after.dom().finite()
            &&& crate::tally::tally(after, counts) == crate::tally::tally(results, counts) - met_in(
                exam,
                user,
                gone,
                counts,
            )
            &&& forall|key: (ExamId, UserId, i64)| #[trigger]
                after.contains_key(key) <==> results.contains_key(key) && !(key.0 == exam && key.1
                    == user && exists|i: int| 0 <= i < gone.len() && gone[i].seq == key.2)
            &&& forall|key: (ExamId, UserId, i64)| #[trigger]
                after.contains_key(key) ==> after[key] == results[key]
        }),
    decreases gone.len(),
{
    if gone.len() > 0 {
        let earlier = gone.drop_last();
        lemma_without(results, exam, user, earlier, counts);
        let before = without(results, exam, user, earlier);
        let key = (exam, user, gone.last().seq);
        assert(before.contains_key(key));
        assert(before[key] == gone_row(gone.last()));
        crate::tally::lemma_tally_remove(before, key, counts);
        let after = without(results, exam, user, gone);
        assert forall|key: (ExamId, UserId, i64)| #[trigger] after.contains_key(key) <==> (
        results.contains_key(key) && !(key.0 == exam && key.1 == user && exists|i: int|
            0 <= i < gone.len() && gone[i].seq == key.2)) by {
            if exists|i: int| 0 <= i < gone.len() && gone[i].seq == key.2 {
                let i = choose|i: int| 0 <= i < gone.len() && gone[i].seq == key.2;
                if i < earlier.len() {
                    assert(earlier[i].seq == key.2);
                }
            }
            if exists|i: int| 0 <= i < earlier.len() && earlier[i].seq == key.2 {
                let i = choose|i: int| 0 <= i < earlier.len() && earlier[i].seq == key.2;
                assert(gone[i].seq == key.2);
            }
            if key.2 == gone.last().seq {
                assert(gone[gone.len() - 1].seq == key.2);
            }
        }
    }
}

proof fn lemma_met(
    exam: ExamId,
    user: UserId,
    gone: Seq<GoneMark>,
    other_exam: ExamId,
    other: UserId,
    under: spec_fn((ExamId, UserId, i64), MarkRow) -> bool,
    is_under: bool,
)
    requires
        forall|seq: i64, row: MarkRow| #[trigger] under((exam, user, seq), row) == is_under,
    ensures
        met_in(exam, user, gone, at_exam(other_exam)) == (if exam == other_exam {
            gone.len() as int
        } else {
            0
        }),
        met_in(exam, user, gone, high_of(other)) == (if user == other {
            high_in(gone)
        } else {
            0
        }),
        met_in(exam, user, gone, given_by(other)) == given_in(gone, other),
        met_in(exam, user, gone, under) == (if is_under {
            gone.len() as int
        } else {
            0
        }),
    decreases gone.len(),
{
    if gone.len() > 0 {
        lemma_met(exam, user, gone.drop_last(), other_exam, other, under, is_under);
        assert(under((exam, user, gone.last().seq), gone_row(gone.last())) == is_under);
    }
}

proof fn lemma_debited(users: Map<UserId, BadgeRow>, graders: Seq<(UserId, int)>, user: UserId)
    requires
        forall|i: int, j: int| 0 <= i < j < graders.len() ==> graders[i].0 != graders[j].0,
    ensures
        debited(users, graders).contains_key(user) == users.contains_key(user),
        users.contains_key(user) ==> debited(users, graders)[user].high_marks
            == users[user].high_marks,
        forall|i: int|
            0 <= i < graders.len() && users.contains_key(user) && (#[trigger] graders[i]).0 == user
                ==> debited(users, graders)[user].marks_given == crate::tally::floored(
                users[user].marks_given - graders[i].1,
            ),
        users.contains_key(user) && (forall|i: int|
            0 <= i < graders.len() ==> (#[trigger] graders[i]).0 != user) ==> debited(
            users,
            graders,
        )[user].marks_given == users[user].marks_given,
    decreases graders.len(),
{
    if graders.len() > 0 {
        let earlier = graders.drop_last();
        lemma_debited(users, earlier, user);
        assert(forall|i: int| 0 <= i < earlier.len() ==> earlier[i] == graders[i]);
        if graders.last().0 == user {
            assert(forall|i: int| 0 <= i < earlier.len() ==> (#[trigger] earlier[i]).0 != user);
        } else {
            assert(graders[graders.len() - 1].0 != user);
        }
    }
}

/// Each user's counters after a removal: the grader's lowered by the marks
/// they had given, the student's by the high ones.
proof fn lemma_removed_users(
    db: Marks,
    exam: ExamId,
    user: UserId,
    kind: Seq<char>,
    gone: Seq<GoneMark>,
    other: UserId,
)
    ensures
        removed(db, exam, user, kind, gone).users.contains_key(other) == db.users.contains_key(
            other,
        ),
        db.users.contains_key(other) ==> {
            let after = removed(db, exam, user, kind, gone).users[other];
            &&& after.marks_given == (if given_in(gone, other) > 0 {
                crate::tally::floored(db.users[other].marks_given - given_in(gone, other))
            } else {
                db.users[other].marks_given
            })
            &&& after.high_marks == (if other == user && high_in(gone) > 0 {
                crate::tally::floored(db.users[other].high_marks - high_in(gone))
            } else {
                db.users[other].high_marks
            })
        },
{
    let graders = per_grader(gone);
    lemma_counts_bounded(gone, other);
    if gone.len() > 0 {
        let marked = if high_in(gone) > 0 && db.users.contains_key(user) {
            db.users.insert(
                user,
                BadgeRow {
                    high_marks: crate::tally::floored(db.users[user].high_marks - high_in(gone)),
                    ..db.users[user]
                },
            )
        } else {
            db.users
        };
        lemma_debited(marked, graders, other);
        if given_in(gone, other) > 0 {
            let i = graders_in(gone).index_of(other);
            assert(graders[i].0 == other);
        } else {
            assert forall|i: int| 0 <= i < graders.len() implies (#[trigger] graders[i]).0
                != other by {
                assert(graders_in(gone).contains(graders_in(gone)[i]));
            }
        }
    }
}

/// A removal keeps what the counters promise, those of the kinds where `kind`
/// is the exam's own.
pub proof fn law_remove_keeps_counters(
    db: Marks,
    exam: ExamId,
    user: UserId,
    kind: Seq<char>,
    gone: Seq<GoneMark>,
)
    requires
        db.is_sound(),
        deletes(db, exam, user, gone),
    ensures
        removed(db, exam, user, kind, gone).is_sound(),
        db.exams_counted() ==> removed(db, exam, user, kind, gone).exams_counted(),
        db.kinds_counted() && (db.exams.contains_key(exam) ==> kind == db.exams[exam].kind)
            ==> removed(db, exam, user, kind, gone).kinds_counted(),
        db.high_counted() ==> removed(db, exam, user, kind, gone).high_counted(),
{
    let after = removed(db, exam, user, kind, gone);
    if gone.len() > 0 {
        let everything = |key: (ExamId, UserId, i64), row: MarkRow| true;
        lemma_without(db.results, exam, user, gone, everything);
        assert(db.results.contains_key((exam, user, gone[0].seq)));
        if db.exams_counted() {
            assert forall|other: ExamId| #[trigger] after.exams.contains_key(other) implies
                after.exams[other].result_count == after.marks_of_exam(other) by {
                assert(db.exams.contains_key(other));
                lemma_without(db.results, exam, user, gone, at_exam(other));
                lemma_met(exam, user, gone, other, user, everything, true);
            }
        }
        if db.kinds_counted() && kind == db.exams[exam].kind {
            assert forall|other: Seq<char>| #[trigger]
                after.kind_count(other) == after.marks_of_kind(other) by {
                let under = under_kind(db.exams, other);
                let under_after = under_kind(after.exams, other);
                assert(db.kind_count(other) == db.marks_of_kind(other));
                lemma_without(db.results, exam, user, gone, under);
                lemma_met(exam, user, gone, exam, user, under, kind == other);
                assert(crate::tally::matching(after.results, under_after)
                    =~= crate::tally::matching(after.results, under));
            }
        }
        if db.high_counted() {
            assert forall|other: UserId| #[trigger] after.users.contains_key(other) implies
                after.users[other].high_marks == after.high_marks_of(other) by {
                lemma_removed_users(db, exam, user, kind, gone, other);
                assert(db.users.contains_key(other));
                lemma_without(db.results, exam, user, gone, high_of(other));
                lemma_met(exam, user, gone, exam, other, everything, true);
                lemma_counts_bounded(gone, other);
            }
        }
    }
}

/// A removal takes from each grader exactly the credit of the marks it
/// deleted under their name: what their counter holds beyond the marks that
/// stand stays the same.
pub proof fn law_remove_keeps_credit(
    db: Marks,
    exam: ExamId,
    user: UserId,
    kind: Seq<char>,
    gone: Seq<GoneMark>,
    grader: UserId,
)
    requires
        db.is_sound(),
        deletes(db, exam, user, gone),
        db.graders_credited(),
        db.users.contains_key(grader),
    ensures
        removed(db, exam, user, kind, gone).users.contains_key(grader),
        removed(db, exam, user, kind, gone).given_elsewhere(grader) == db.given_elsewhere(grader),
{
    lemma_without(db.results, exam, user, gone, given_by(grader));
    lemma_met(
        exam,
        user,
        gone,
        exam,
        grader,
        |key: (ExamId, UserId, i64), row: MarkRow| true,
        true,
    );
    lemma_removed_users(db, exam, user, kind, gone, grader);
    lemma_counts_bounded(gone, grader);
}

/// A removal leaves no mark of the student at the exam, and every other mark
/// as it was.
pub proof fn law_remove_takes_the_pair(
    db: Marks,
    exam: ExamId,
    user: UserId,
    kind: Seq<char>,
    gone: Seq<GoneMark>,
    key: (ExamId, UserId, i64),
)
    requires
        db.results.dom().finite(),
        deletes(db, exam, user, gone),
    ensures
        ({
            let after = removed(db, exam, user, kind, gone).results;
            &&& key.0 == exam && key.1 == user ==> !after.contains_key(key)
            &&& !(key.0 == exam && key.1 == user) ==> after.contains_key(key)
                == db.results.contains_key(key)
            &&& after.contains_key(key) ==> after[key] == db.results[key]
        }),
{
    lemma_without(
        db.results,
        exam,
        user,
        gone,
        |key: (ExamId, UserId, i64), row: MarkRow| true,
    );
    if key.0 == exam && key.1 == user && db.results.contains_key(key) {
        assert(db.results.contains_key((exam, user, key.2)));
    }
}

/// What the tables hold after one grading after the other.
pub open spec fn graded_all(db: Marks, requests: Seq<GradeRequest>) -> Marks
    decreases requests.len(),
{
    if requests.len() == 0 {
        db
    } else {
        graded(graded_all(db, requests.drop_last()), requests.last())
    }
}

/// Whether every request marks a sitting of `user` at `exam`, under `kind`, and
/// a sitting is always marked in one grader's name.
pub open spec fn marks_one_student(
    requests: Seq<GradeRequest>,
    exam: ExamId,
    user: UserId,
    kind: Seq<char>,
) -> bool {
    &&& forall|i: int|
        0 <= i < requests.len() ==> (#[trigger] requests[i]).exam == exam && requests[i].user
            == user && requests[i].kind@ == kind
    &&& forall|i: int, j: int|
        0 <= i < j < requests.len() && (#[trigger] requests[i]).seq == (#[trigger] requests[j]).seq
            ==> requests[i].graded_by == requests[j].graded_by
}

/// The marks of one student at one exam.
pub open spec fn at_pair(exam: ExamId, user: UserId) -> spec_fn((ExamId, UserId, i64), MarkRow) -> bool {
    |key: (ExamId, UserId, i64), row: MarkRow| key.0 == exam && key.1 == user
}

/// The high marks of one student at one exam.
pub open spec fn high_at_pair(
    exam: ExamId,
    user: UserId,
) -> spec_fn((ExamId, UserId, i64), MarkRow) -> bool {
    |key: (ExamId, UserId, i64), row: MarkRow|
        key.0 == exam && key.1 == user && row.mark >= HIGH_MARK_MIN
}

/// The marks of one student at one exam that carry one grader's name.
pub open spec fn given_at_pair(
    exam: ExamId,
    user: UserId,
    grader: UserId,
) -> spec_fn((ExamId, UserId, i64), MarkRow) -> bool {
    |key: (ExamId, UserId, i64), row: MarkRow|
        key.0 == exam && key.1 == user && row.graded_by == grader
}

/// What any number of gradings of one student leave: each counter stands above
/// where it stood by the student's marks at the exam that it counts.
pub open spec fn stands_above(
    after: Marks,
    db: Marks,
    exam: ExamId,
    user: UserId,
    kind: Seq<char>,
) -> bool {
    let marks = crate::tally::tally(after.results, at_pair(exam, user));
    &&& after.results.dom().finite()
    &&& after.exams.dom() == db.exams.dom()
    &&& forall|other: ExamId| #[trigger]
        db.exams.contains_key(other) ==> after.exams[other] == (ExamRow {
            result_count: db.exams[other].result_count + if other == exam {
                marks
            } else {
                0
            },
            ..db.exams[other]
        })
    &&& forall|other: Seq<char>| #[trigger]
        after.kind_count(other) == db.kind_count(other) + if other == kind {
            marks
        } else {
            0
        }
    &&& forall|other: Seq<char>| #[trigger] after.is_retired(other) == db.is_retired(other)
    &&& forall|other: UserId| #[trigger]
        after.users.contains_key(other) == db.users.contains_key(other)
    &&& forall|other: UserId| #[trigger]
        db.users.contains_key(other) ==> after.users[other] == (BadgeRow {
            marks_given: db.users[other].marks_given + crate::tally::tally(
                after.results,
                given_at_pair(exam, user, other),
            ),
            high_marks: db.users[other].high_marks + if other == user {
                crate::tally::tally(after.results, high_at_pair(exam, user))
            } else {
                0
            },
        })
    &&& forall|key: (ExamId, UserId, i64)|
        !(key.0 == exam && key.1 == user) ==> #[trigger] after.results.contains_key(key)
            == db.results.contains_key(key) && (db.results.contains_key(key)
            ==> after.results[key] == db.results[key])
    &&& marks > 0 ==> db.exams.contains_key(exam) && after.kinds.contains_key(kind)
}

proof fn lemma_graded_all(
    db: Marks,
    requests: Seq<GradeRequest>,
    exam: ExamId,
    user: UserId,
    kind: Seq<char>,
)
    requires
        db.results.dom().finite(),
        db.users.contains_key(user) ==> db.users[user].high_marks >= 0,
        forall|seq: i64| !#[trigger] db.results.contains_key((exam, user, seq)),
        marks_one_student(requests, exam, user, kind),
    ensures
        stands_above(graded_all(db, requests), db, exam, user, kind),
        forall|seq: i64| #[trigger]
            graded_all(db, requests).results.contains_key((exam, user, seq)) ==> exists|i: int|
                0 <= i < requests.len() && (#[trigger] requests[i]).seq == seq && graded_all(
                    db,
                    requests,
                ).results[(exam, user, seq)].graded_by == requests[i].graded_by,
    decreases requests.len(),
{
    if requests.len() == 0 {
        assert forall|counts: spec_fn((ExamId, UserId, i64), MarkRow) -> bool|
            (forall|key: (ExamId, UserId, i64), row: MarkRow| #[trigger]
                counts(key, row) ==> key.0 == exam && key.1 == user) implies
            #[trigger] crate::tally::tally(db.results, counts) == 0 by {
            assert forall|key: (ExamId, UserId, i64)|
                !crate::tally::matching(db.results, counts).contains(key) by {
                assert(!db.results.contains_key((exam, user, key.2)));
            }
            assert(crate::tally::matching(db.results, counts) =~= Set::empty());
        }
        assert(crate::tally::tally(db.results, at_pair(exam, user)) == 0);
        assert(crate::tally::tally(db.results, high_at_pair(exam, user)) == 0);
        assert forall|other: UserId| #[trigger] db.users.contains_key(other) implies
            crate::tally::tally(db.results, given_at_pair(exam, user, other)) == 0 by {}
    } else {
        let earlier = requests.drop_last();
        let last = requests.last();
        assert forall|i: int| 0 <= i < earlier.len() implies (#[trigger] earlier[i]).exam == exam
            && earlier[i].user == user && earlier[i].kind@ == kind by {
            assert(earlier[i] == requests[i]);
        }
        lemma_graded_all(db, earlier, exam, user, kind);
        let between = graded_all(db, earlier);
        let after = graded(between, last);
        assert(requests[requests.len() - 1] == last);
        assert(last.exam == exam && last.user == user && last.kind@ == kind);
        law_grade_answers(between, last);
        if grade_refusal(between, last) is None {
            lemma_grade_stands_above(db, earlier, last, exam, user, kind);
        }
        assert forall|seq: i64| #[trigger]
            after.results.contains_key((exam, user, seq)) implies exists|i: int|
            0 <= i < requests.len() && (#[trigger] requests[i]).seq == seq && after.results[(
                exam,
                user,
                seq,
            )].graded_by == requests[i].graded_by by {
            if seq == last.seq && grade_refusal(between, last) is None {
                law_grade_writes(between, last);
                assert(requests[requests.len() - 1].seq == seq);
            } else {
                if grade_refusal(between, last) is None {
                    law_grade_leaves_other_sittings(between, last, (exam, user, seq));
                }
                assert(between.results.contains_key((exam, user, seq)));
                let i = choose|i: int|
                    0 <= i < earlier.len() && (#[trigger] earlier[i]).seq == seq
                        && between.results[(exam, user, seq)].graded_by == earlier[i].graded_by;
                assert(requests[i] == earlier[i]);
            }
        }
    }
}

proof fn lemma_grade_stands_above(
    db: Marks,
    earlier: Seq<GradeRequest>,
    last: GradeRequest,
    exam: ExamId,
    user: UserId,
    kind: Seq<char>,
)
    requires
        db.users.contains_key(user) ==> db.users[user].high_marks >= 0,
        stands_above(graded_all(db, earlier), db, exam, user, kind),
        forall|seq: i64| #[trigger]
            graded_all(db, earlier).results.contains_key((exam, user, seq)) ==> exists|i: int|
                0 <= i < earlier.len() && (#[trigger] earlier[i]).seq == seq && graded_all(
                    db,
                    earlier,
                ).results[(exam, user, seq)].graded_by == earlier[i].graded_by,
        marks_one_student(earlier.push(last), exam, user, kind),
        grade_refusal(graded_all(db, earlier), last) is None,
    ensures
        stands_above(graded(graded_all(db, earlier), last), db, exam, user, kind),
{
    let between = graded_all(db, earlier);
    let after = graded(between, last);
    let all = earlier.push(last);
    let key = last.sitting();
    let row = MarkRow { mark: last.mark.0, graded_by: last.graded_by };
    assert(all[earlier.len() as int] == last);
    assert(last.exam == exam && last.user == user && last.kind@ == kind);
    law_grade_writes(between, last);
    if between.results.contains_key(key) {
        let i = choose|i: int|
            0 <= i < earlier.len() && (#[trigger] earlier[i]).seq == last.seq
                && between.results[(exam, user, last.seq)].graded_by == earlier[i].graded_by;
        assert(all[i] == earlier[i]);
        assert(between.results[key].graded_by == last.graded_by);
    }
    crate::tally::lemma_tally_insert(between.results, key, row, at_pair(exam, user));
    crate::tally::lemma_tally_insert(between.results, key, row, high_at_pair(exam, user));
    crate::tally::lemma_tally_holds(between.results, key, high_at_pair(exam, user));
    crate::tally::lemma_tally_holds(after.results, key, at_pair(exam, user));
    crate::tally::lemma_tally_holds(between.results, key, at_pair(exam, user));
    assert(after.exams.dom() =~= db.exams.dom());
    let marks = crate::tally::tally(after.results, at_pair(exam, user));
    assert forall|other: ExamId| #[trigger] db.exams.contains_key(other) implies
        after.exams[other] == (ExamRow {
        result_count: db.exams[other].result_count + if other == exam {
            marks
        } else {
            0
        },
        ..db.exams[other]
    }) by {
        assert(between.exams.contains_key(other));
    }
    assert forall|other: Seq<char>| #[trigger]
        after.kind_count(other) == db.kind_count(other) + if other == kind {
            marks
        } else {
            0
        } by {
        assert(between.kind_count(other) == db.kind_count(other) + if other == kind {
            crate::tally::tally(between.results, at_pair(exam, user))
        } else {
            0
        });
    }
    assert forall|other: Seq<char>| #[trigger] after.is_retired(other) == db.is_retired(other) by {
        assert(between.is_retired(other) == db.is_retired(other));
    }
    assert forall|other: UserId| #[trigger]
        after.users.contains_key(other) == db.users.contains_key(other) by {
        assert(between.users.contains_key(other) == db.users.contains_key(other));
    }
    assert forall|other: UserId| #[trigger] db.users.contains_key(other) implies
        after.users[other] == (BadgeRow {
        marks_given: db.users[other].marks_given + crate::tally::tally(
            after.results,
            given_at_pair(exam, user, other),
        ),
        high_marks: db.users[other].high_marks + if other == user {
            crate::tally::tally(after.results, high_at_pair(exam, user))
        } else {
            0
        },
    }) by {
        assert(between.users.contains_key(other));
        crate::tally::lemma_tally_insert(
            between.results,
            key,
            row,
            given_at_pair(exam, user, other),
        );
    }
    assert forall|each: (ExamId, UserId, i64)|
        !(each.0 == exam && each.1 == user) implies #[trigger] after.results.contains_key(each)
        == db.results.contains_key(each) && (db.results.contains_key(each)
        ==> after.results[each] == db.results[each]) by {
        law_grade_leaves_other_sittings(between, last, each);
        assert(between.results.contains_key(each) == db.results.contains_key(each));
    }
    assert(after.results.dom().finite());
    assert(db.exams.contains_key(exam) && after.kinds.contains_key(kind));
    assert(stands_above(after, db, exam, user, kind));
}

/// What a removal deletes of a student's marks at an exam is what stands there.
proof fn lemma_gone_is_the_pair(
    db: Marks,
    exam: ExamId,
    user: UserId,
    gone: Seq<GoneMark>,
    grader: UserId,
)
    requires
        db.results.dom().finite(),
        deletes(db, exam, user, gone),
    ensures
        crate::tally::tally(db.results, at_pair(exam, user)) == gone.len(),
        crate::tally::tally(db.results, high_at_pair(exam, user)) == high_in(gone),
        crate::tally::tally(db.results, given_at_pair(exam, user, grader)) == given_in(
            gone,
            grader,
        ),
{
    lemma_gone_of_pair(exam, user, gone, grader);
    lemma_nothing_left(db, exam, user, gone, at_pair(exam, user));
    lemma_nothing_left(db, exam, user, gone, high_at_pair(exam, user));
    lemma_nothing_left(db, exam, user, gone, given_at_pair(exam, user, grader));
}

proof fn lemma_nothing_left(
    db: Marks,
    exam: ExamId,
    user: UserId,
    gone: Seq<GoneMark>,
    counts: spec_fn((ExamId, UserId, i64), MarkRow) -> bool,
)
    requires
        db.results.dom().finite(),
        deletes(db, exam, user, gone),
        forall|key: (ExamId, UserId, i64), row: MarkRow| #[trigger]
            counts(key, row) ==> key.0 == exam && key.1 == user,
    ensures
        crate::tally::tally(db.results, counts) == met_in(exam, user, gone, counts),
{
    lemma_without(db.results, exam, user, gone, counts);
    let left = without(db.results, exam, user, gone);
    assert forall|key: (ExamId, UserId, i64)| !crate::tally::matching(left, counts).contains(
        key,
    ) by {
        if left.contains_key(key) && counts(key, left[key]) {
            assert(db.results.contains_key((exam, user, key.2)));
        }
    }
    assert(crate::tally::matching(left, counts) =~= Set::empty());
}

proof fn lemma_gone_of_pair(exam: ExamId, user: UserId, gone: Seq<GoneMark>, grader: UserId)
    ensures
        met_in(exam, user, gone, at_pair(exam, user)) == gone.len(),
        met_in(exam, user, gone, high_at_pair(exam, user)) == high_in(gone),
        met_in(exam, user, gone, given_at_pair(exam, user, grader)) == given_in(gone, grader),
    decreases gone.len(),
{
    if gone.len() > 0 {
        lemma_gone_of_pair(exam, user, gone.drop_last(), grader);
    }
}

/// Grading a student any number of times, retakes and regrades among them, and
/// removing their marks again under the kind they were given under nets to
/// nothing, whether or not it is the exam's own: with no mark of the student at
/// the exam before, every mark and every counter stands where it stood,
/// whichever of the gradings were refused. That the counters were in order is
/// not asked, only that none stood below zero. A regrade under another grader's
/// name is left out: the credit stays where the first grading put it.
pub proof fn law_grades_then_remove_net_to_nothing(
    db: Marks,
    requests: Seq<GradeRequest>,
    exam: ExamId,
    user: UserId,
    kind: Seq<char>,
    gone: Seq<GoneMark>,
)
    requires
        db.results.dom().finite(),
        db.none_below_zero(),
        forall|seq: i64| !#[trigger] db.results.contains_key((exam, user, seq)),
        marks_one_student(requests, exam, user, kind),
        deletes(graded_all(db, requests), exam, user, gone),
    ensures
        ({
            let after = removed(graded_all(db, requests), exam, user, kind, gone);
            &&& after.results == db.results
            &&& after.exams == db.exams
            &&& after.users == db.users
            &&& forall|other: Seq<char>| #[trigger]
                after.kind_count(other) == db.kind_count(other)
            &&& forall|other: Seq<char>| #[trigger] after.is_retired(other) == db.is_retired(other)
        }),
{
    let between = graded_all(db, requests);
    let after = removed(between, exam, user, kind, gone);
    lemma_graded_all(db, requests, exam, user, kind);
    assert forall|key: (ExamId, UserId, i64)| #[trigger]
        after.results.contains_key(key) == db.results.contains_key(key) && (
    db.results.contains_key(key) ==> after.results[key] == db.results[key]) by {
        law_remove_takes_the_pair(between, exam, user, kind, gone, key);
        if key.0 == exam && key.1 == user {
            assert(!db.results.contains_key((exam, user, key.2)));
        } else {
            assert(between.results.contains_key(key) == db.results.contains_key(key));
        }
    }
    assert(after.results =~= db.results);
    lemma_gone_is_the_pair(between, exam, user, gone, user);
    assert(between.kind_count(kind) == db.kind_count(kind) + gone.len());
    assert(db.kind_count(kind) >= 0);
    assert(after.exams =~= db.exams);
    assert forall|other: Seq<char>| #[trigger] after.kind_count(other) == db.kind_count(other) by {
        assert(between.kind_count(other) == db.kind_count(other) + if other == kind {
            gone.len() as int
        } else {
            0
        });
    }
    assert forall|other: Seq<char>| #[trigger] after.is_retired(other) == db.is_retired(other) by {
        assert(between.is_retired(other) == db.is_retired(other));
    }
    assert forall|other: UserId| #[trigger]
        after.users.contains_key(other) == db.users.contains_key(other) && (
    db.users.contains_key(other) ==> after.users[other] == db.users[other]) by {
        assert(between.users.contains_key(other) == db.users.contains_key(other));
        lemma_removed_users(between, exam, user, kind, gone, other);
        lemma_gone_is_the_pair(between, exam, user, gone, other);
        lemma_counts_bounded(gone, other);
    }
    assert(after.users =~= db.users);
}

proof fn lemma_first_is_listed(rows: Seq<ExamResult>, k: int) -> (i: int)
    requires
        0 <= k < first_per_pair(rows).len(),
    ensures
        0 <= i < rows.len(),
        rows[i] == first_per_pair(rows)[k],
    decreases rows.len(),
{
    let earlier = rows.drop_last();
    if k < first_per_pair(earlier).len() {
        lemma_first_is_listed(earlier, k)
    } else {
        rows.len() - 1
    }
}

proof fn lemma_first_is_earliest(rows: Seq<ExamResult>, i: int) -> (k: int)
    requires
        0 <= i < rows.len(),
        forall|a: int, b: int|
            0 <= a < b < rows.len() && same_pair(#[trigger] rows[a], #[trigger] rows[b])
                ==> rows[a].seq >= rows[b].seq,
    ensures
        0 <= k < first_per_pair(rows).len(),
        same_pair(first_per_pair(rows)[k], rows[i]),
        first_per_pair(rows)[k].seq >= rows[i].seq,
    decreases rows.len(),
{
    let earlier = rows.drop_last();
    let before = first_per_pair(earlier);
    if i < earlier.len() {
        lemma_first_is_earliest(earlier, i)
    } else if pair_listed(before, rows.last()) {
        let k = choose|k: int| 0 <= k < before.len() && same_pair(#[trigger] before[k], rows.last());
        let at = lemma_first_is_listed(earlier, k);
        assert(same_pair(rows[at], rows[i]));
        k
    } else {
        before.len() as int
    }
}

/// The list of [`latest_per_pair`] names no pair twice.
pub proof fn law_latest_per_pair_is_one_per_pair(rows: Seq<ExamResult>, a: int, b: int)
    requires
        0 <= a < b < first_per_pair(rows).len(),
    ensures
        !same_pair(first_per_pair(rows)[a], first_per_pair(rows)[b]),
    decreases rows.len(),
{
    let before = first_per_pair(rows.drop_last());
    if b < before.len() {
        law_latest_per_pair_is_one_per_pair(rows.drop_last(), a, b);
    } else {
        assert(!pair_listed(before, rows.last()));
        assert(!same_pair(before[a], rows.last()));
    }
}

/// Of rows that come latest sitting first, every pair keeps its latest one:
/// the mark of record.
pub proof fn law_latest_per_pair_keeps_the_latest(rows: Seq<ExamResult>, row: ExamResult)
    requires
        rows.contains(row),
        forall|a: int, b: int|
            0 <= a < b < rows.len() && same_pair(#[trigger] rows[a], #[trigger] rows[b])
                ==> rows[a].seq >= rows[b].seq,
    ensures
        exists|k: int|
            0 <= k < first_per_pair(rows).len() && rows.contains(
                #[trigger] first_per_pair(rows)[k],
            ) && same_pair(first_per_pair(rows)[k], row) && first_per_pair(rows)[k].seq >= row.seq,
{
    let k = lemma_first_is_earliest(rows, rows.index_of(row));
    let i = lemma_first_is_listed(rows, k);
    assert(rows.contains(first_per_pair(rows)[k]));
}

/// What [`LOCK_EXAM`] says.
pub open spec fn lock_exam_reading() -> Picking {
    Picking {
        skip: 0,
        head: "SELECT "@,
        columns: seq!["draft"@],
        table: "exam"@,
        conditions: seq![crate::sql::is_bound("id"@, 1)],
        rest: crate::sql::before(" FOR UPDATE"@, Text::End),
    }
}

proof fn lemma_lock_exam_reads()
    ensures
        crate::sql::spells(LOCK_EXAM@, 0, lock_exam_reading().text()),
{
    reveal_strlit("SELECT draft FROM exam WHERE id = $1 FOR UPDATE");
    reveal_strlit("SELECT ");
    reveal_strlit("draft");
    reveal_strlit(" FROM ");
    reveal_strlit("exam");
    reveal_strlit(" WHERE ");
    reveal_strlit("id");
    reveal_strlit(" = ");
    reveal_strlit("$");
    reveal_strlit(" FOR UPDATE");
    reveal(crate::sql::Picking::text);
    reveal_with_fuel(crate::sql::where_text, 2);
    reveal_with_fuel(crate::sql::names_text, 2);
    reveal_with_fuel(crate::sql::stands, 12);
    reveal_with_fuel(crate::sql::spells_by, 10);
    crate::sql::lemma_spells_by(LOCK_EXAM@, 0, lock_exam_reading().text(), crate::sql::cut(7, crate::sql::cut(12, crate::sql::cut(18, crate::sql::cut(22, crate::sql::cut(29, crate::sql::cut(31, crate::sql::cut(34, crate::sql::cut(36, crate::sql::cut(47, Cuts::Last))))))))));
}

/// What [`READ_MARK`] says.
pub open spec fn read_mark_reading() -> Picking {
    Picking {
        skip: 0,
        head: "SELECT "@,
        columns: seq!["mark"@],
        table: "exam_result"@,
        conditions: seq![crate::sql::is_bound("exam"@, 1), crate::sql::is_bound("app_user"@, 2), crate::sql::is_bound("seq"@, 3)],
        rest: Text::End,
    }
}

proof fn lemma_read_mark_reads()
    ensures
        crate::sql::spells(READ_MARK@, 0, read_mark_reading().text()),
{
    reveal_strlit("SELECT mark FROM exam_result WHERE exam = $1 AND app_user = $2 AND seq = $3");
    reveal_strlit("SELECT ");
    reveal_strlit("mark");
    reveal_strlit(" FROM ");
    reveal_strlit("exam_result");
    reveal_strlit(" WHERE ");
    reveal_strlit("exam");
    reveal_strlit(" = ");
    reveal_strlit("$");
    reveal_strlit(" AND ");
    reveal_strlit("app_user");
    reveal_strlit("seq");
    reveal(crate::sql::Picking::text);
    reveal_with_fuel(crate::sql::where_text, 4);
    reveal_with_fuel(crate::sql::names_text, 2);
    reveal_with_fuel(crate::sql::stands, 12);
    reveal_with_fuel(crate::sql::spells_by, 17);
    crate::sql::lemma_spells_by(READ_MARK@, 0, read_mark_reading().text(), crate::sql::cut(7, crate::sql::cut(11, crate::sql::cut(17, crate::sql::cut(28, crate::sql::cut(35, crate::sql::cut(39, crate::sql::cut(42, crate::sql::cut(44, crate::sql::cut(49, crate::sql::cut(57, crate::sql::cut(60, crate::sql::cut(62, crate::sql::cut(67, crate::sql::cut(70, crate::sql::cut(73, crate::sql::cut(75, Cuts::Last)))))))))))))))));
}

/// What [`CLAIM_KIND`] says.
pub open spec fn claim_kind_reading() -> Storing {
    Storing {
        head: "INSERT INTO "@,
        table: "kind_ref"@,
        columns: seq!["name"@, "count"@, "retired"@],
        values: seq![Term::Bind(1), Term::Word("1"@, Cell::Int(1)), Term::Word("false"@, Cell::Bool(false))],
        selected: false,
        conflict: Conflict::Moves(seq!["name"@], seq![("count"@, Expr::Plus(Term::Of("kind_ref"@, "count"@), Term::Word("1"@, Cell::Int(1))))], seq![Cond::Other(Expr::Is(Term::Of("kind_ref"@, "retired"@)), crate::sql::word("TRUE"@, Cell::Bool(true)))]),
        rest: crate::sql::returning(),
    }
}

proof fn lemma_claim_kind_reads()
    ensures
        crate::sql::spells(CLAIM_KIND@, 0, claim_kind_reading().text()),
{
    reveal_strlit("INSERT INTO kind_ref (name, count, retired) VALUES ($1, 1, false) ON CONFLICT (name) DO UPDATE SET count = kind_ref.count + 1 WHERE kind_ref.retired IS DISTINCT FROM TRUE RETURNING 1 AS n");
    reveal_strlit("INSERT INTO ");
    reveal_strlit("kind_ref");
    reveal_strlit(" (");
    reveal_strlit("name");
    reveal_strlit(", ");
    reveal_strlit("count");
    reveal_strlit("retired");
    reveal_strlit(") VALUES (");
    reveal_strlit("$");
    reveal_strlit("1");
    reveal_strlit("false");
    reveal_strlit(")");
    reveal_strlit(" ON CONFLICT (");
    reveal_strlit(") DO UPDATE");
    reveal_strlit(" SET ");
    reveal_strlit(" = ");
    reveal_strlit(".");
    reveal_strlit(" + ");
    reveal_strlit(" WHERE ");
    reveal_strlit(" IS DISTINCT FROM ");
    reveal_strlit("TRUE");
    reveal_strlit(" RETURNING ");
    reveal(crate::sql::Storing::text);
    reveal_with_fuel(crate::sql::names_text, 4);
    reveal_with_fuel(crate::sql::values_text, 4);
    reveal_with_fuel(crate::sql::set_text, 2);
    reveal_with_fuel(crate::sql::where_text, 2);
    reveal_with_fuel(crate::sql::stands, 19);
    reveal_with_fuel(crate::sql::spells_by, 34);
    crate::sql::lemma_spells_by(CLAIM_KIND@, 0, claim_kind_reading().text(), crate::sql::cut(12, crate::sql::cut(20, crate::sql::cut(22, crate::sql::cut(26, crate::sql::cut(28, crate::sql::cut(33, crate::sql::cut(35, crate::sql::cut(42, crate::sql::cut(52, crate::sql::cut(54, crate::sql::cut(56, crate::sql::cut(57, crate::sql::cut(59, crate::sql::cut(64, crate::sql::cut(65, crate::sql::cut(79, crate::sql::cut(83, crate::sql::cut(94, crate::sql::cut(99, crate::sql::cut(104, crate::sql::cut(107, crate::sql::cut(115, crate::sql::cut(116, crate::sql::cut(121, crate::sql::cut(124, crate::sql::cut(125, crate::sql::cut(132, crate::sql::cut(140, crate::sql::cut(141, crate::sql::cut(148, crate::sql::cut(166, crate::sql::cut(170, crate::sql::cut(181, Cuts::Last))))))))))))))))))))))))))))))))));
}

/// What [`COUNT_MARK`] says.
pub open spec fn count_mark_reading() -> Writing {
    Writing {
        head: "UPDATE "@,
        table: "exam"@,
        sets: seq![("result_count"@, Expr::Plus(Term::Of("exam"@, "result_count"@), Term::Word("1"@, Cell::Int(1))))],
        conditions: seq![crate::sql::is_bound("id"@, 1)],
        rest: Text::End,
    }
}

proof fn lemma_count_mark_reads()
    ensures
        crate::sql::spells(COUNT_MARK@, 0, count_mark_reading().text()),
{
    reveal_strlit("UPDATE exam SET result_count = exam.result_count + 1 WHERE id = $1");
    reveal_strlit("UPDATE ");
    reveal_strlit("exam");
    reveal_strlit(" SET ");
    reveal_strlit("result_count");
    reveal_strlit(" = ");
    reveal_strlit(".");
    reveal_strlit(" + ");
    reveal_strlit("1");
    reveal_strlit(" WHERE ");
    reveal_strlit("id");
    reveal_strlit("$");
    reveal(crate::sql::Writing::text);
    reveal_with_fuel(crate::sql::set_text, 2);
    reveal_with_fuel(crate::sql::where_text, 2);
    reveal_with_fuel(crate::sql::stands, 13);
    reveal_with_fuel(crate::sql::spells_by, 15);
    crate::sql::lemma_spells_by(COUNT_MARK@, 0, count_mark_reading().text(), crate::sql::cut(7, crate::sql::cut(11, crate::sql::cut(16, crate::sql::cut(28, crate::sql::cut(31, crate::sql::cut(35, crate::sql::cut(36, crate::sql::cut(48, crate::sql::cut(51, crate::sql::cut(52, crate::sql::cut(59, crate::sql::cut(61, crate::sql::cut(64, crate::sql::cut(66, Cuts::Last)))))))))))))));
}

/// What [`CREDIT_GRADER`] says.
pub open spec fn credit_grader_reading() -> Writing {
    Writing {
        head: "UPDATE "@,
        table: "app_user"@,
        sets: seq![("marks_given_total"@, Expr::Plus(Term::Of("app_user"@, "marks_given_total"@), Term::Word("1"@, Cell::Int(1))))],
        conditions: seq![crate::sql::is_bound("id"@, 1)],
        rest: Text::End,
    }
}

proof fn lemma_credit_grader_reads()
    ensures
        crate::sql::spells(CREDIT_GRADER@, 0, credit_grader_reading().text()),
{
    reveal_strlit("UPDATE app_user SET marks_given_total = app_user.marks_given_total + 1 WHERE id = $1");
    reveal_strlit("UPDATE ");
    reveal_strlit("app_user");
    reveal_strlit(" SET ");
    reveal_strlit("marks_given_total");
    reveal_strlit(" = ");
    reveal_strlit(".");
    reveal_strlit(" + ");
    reveal_strlit("1");
    reveal_strlit(" WHERE ");
    reveal_strlit("id");
    reveal_strlit("$");
    reveal(crate::sql::Writing::text);
    reveal_with_fuel(crate::sql::set_text, 2);
    reveal_with_fuel(crate::sql::where_text, 2);
    reveal_with_fuel(crate::sql::stands, 18);
    reveal_with_fuel(crate::sql::spells_by, 15);
    crate::sql::lemma_spells_by(CREDIT_GRADER@, 0, credit_grader_reading().text(), crate::sql::cut(7, crate::sql::cut(15, crate::sql::cut(20, crate::sql::cut(37, crate::sql::cut(40, crate::sql::cut(48, crate::sql::cut(49, crate::sql::cut(66, crate::sql::cut(69, crate::sql::cut(70, crate::sql::cut(77, crate::sql::cut(79, crate::sql::cut(82, crate::sql::cut(84, Cuts::Last)))))))))))))));
}

/// What [`MOVE_HIGH`] says.
pub open spec fn move_high_reading() -> Writing {
    Writing {
        head: "UPDATE "@,
        table: "app_user"@,
        sets: seq![("high_mark_total"@, Expr::Raised(Term::Column("high_mark_total"@), Term::Bind(2)))],
        conditions: seq![crate::sql::is_bound("id"@, 1)],
        rest: Text::End,
    }
}

proof fn lemma_move_high_reads()
    ensures
        crate::sql::spells(MOVE_HIGH@, 0, move_high_reading().text()),
{
    reveal_strlit("UPDATE app_user SET high_mark_total = GREATEST(high_mark_total + $2, 0) WHERE id = $1");
    reveal_strlit("UPDATE ");
    reveal_strlit("app_user");
    reveal_strlit(" SET ");
    reveal_strlit("high_mark_total");
    reveal_strlit(" = ");
    reveal_strlit("GREATEST(");
    reveal_strlit(" + ");
    reveal_strlit("$");
    reveal_strlit(", 0)");
    reveal_strlit(" WHERE ");
    reveal_strlit("id");
    reveal(crate::sql::Writing::text);
    reveal_with_fuel(crate::sql::set_text, 2);
    reveal_with_fuel(crate::sql::where_text, 2);
    reveal_with_fuel(crate::sql::stands, 16);
    reveal_with_fuel(crate::sql::spells_by, 15);
    crate::sql::lemma_spells_by(MOVE_HIGH@, 0, move_high_reading().text(), crate::sql::cut(7, crate::sql::cut(15, crate::sql::cut(20, crate::sql::cut(35, crate::sql::cut(38, crate::sql::cut(47, crate::sql::cut(62, crate::sql::cut(65, crate::sql::cut(67, crate::sql::cut(71, crate::sql::cut(78, crate::sql::cut(80, crate::sql::cut(83, crate::sql::cut(85, Cuts::Last)))))))))))))));
}

/// What [`STORE_MARK`] says.
pub open spec fn store_mark_reading() -> Storing {
    Storing {
        head: "INSERT INTO "@,
        table: "exam_result"@,
        columns: seq!["exam"@, "app_user"@, "seq"@, "mark"@, "graded_by"@],
        values: seq![Term::Bind(1), Term::Bind(2), Term::Bind(3), Term::Bind(4), Term::Bind(5)],
        selected: false,
        conflict: Conflict::Takes(seq!["exam"@, "app_user"@, "seq"@], seq!["mark"@, "graded_by"@]),
        rest: crate::sql::returning(),
    }
}

proof fn lemma_store_mark_reads()
    ensures
        crate::sql::spells(STORE_MARK@, 0, store_mark_reading().text()),
{
    reveal_strlit("INSERT INTO exam_result (exam, app_user, seq, mark, graded_by) VALUES ($1, $2, $3, $4, $5) ON CONFLICT (exam, app_user, seq) DO UPDATE SET mark = EXCLUDED.mark, graded_by = EXCLUDED.graded_by RETURNING exam, app_user AS \"user\", seq, mark, graded_by");
    reveal_strlit("INSERT INTO ");
    reveal_strlit("exam_result");
    reveal_strlit(" (");
    reveal_strlit("exam");
    reveal_strlit(", ");
    reveal_strlit("app_user");
    reveal_strlit("seq");
    reveal_strlit("mark");
    reveal_strlit("graded_by");
    reveal_strlit(") VALUES (");
    reveal_strlit("$");
    reveal_strlit(")");
    reveal_strlit(" ON CONFLICT (");
    reveal_strlit(") DO UPDATE");
    reveal_strlit(" SET ");
    reveal_strlit(" = EXCLUDED.");
    reveal_strlit(" RETURNING ");
    reveal(crate::sql::Storing::text);
    reveal_with_fuel(crate::sql::names_text, 6);
    reveal_with_fuel(crate::sql::values_text, 6);
    reveal_with_fuel(crate::sql::excluded_text, 3);
    reveal_with_fuel(crate::sql::stands, 15);
    reveal_with_fuel(crate::sql::spells_by, 40);
    crate::sql::lemma_spells_by(STORE_MARK@, 0, store_mark_reading().text(), crate::sql::cut(12, crate::sql::cut(23, crate::sql::cut(25, crate::sql::cut(29, crate::sql::cut(31, crate::sql::cut(39, crate::sql::cut(41, crate::sql::cut(44, crate::sql::cut(46, crate::sql::cut(50, crate::sql::cut(52, crate::sql::cut(61, crate::sql::cut(71, crate::sql::cut(73, crate::sql::cut(75, crate::sql::cut(77, crate::sql::cut(79, crate::sql::cut(81, crate::sql::cut(83, crate::sql::cut(85, crate::sql::cut(87, crate::sql::cut(89, crate::sql::cut(90, crate::sql::cut(104, crate::sql::cut(108, crate::sql::cut(110, crate::sql::cut(118, crate::sql::cut(120, crate::sql::cut(123, crate::sql::cut(134, crate::sql::cut(139, crate::sql::cut(143, crate::sql::cut(155, crate::sql::cut(159, crate::sql::cut(161, crate::sql::cut(170, crate::sql::cut(182, crate::sql::cut(191, crate::sql::cut(202, Cuts::Last))))))))))))))))))))))))))))))))))))))));
}

/// What [`DELETE_MARKS`] says.
pub open spec fn delete_marks_reading() -> Picking {
    Picking {
        skip: 0,
        head: "WITH gone AS ( DELETE FROM "@,
        columns: Seq::empty(),
        table: "exam_result"@,
        conditions: seq![crate::sql::is_bound("exam"@, 1), crate::sql::is_bound("app_user"@, 2)],
        rest: crate::sql::returning(),
    }
}

proof fn lemma_delete_marks_reads()
    ensures
        crate::sql::spells(DELETE_MARKS@, 0, delete_marks_reading().text()),
{
    reveal_strlit("WITH gone AS ( DELETE FROM exam_result WHERE exam = $1 AND app_user = $2 RETURNING mark, graded_by, seq) SELECT seq, mark, graded_by FROM gone ORDER BY seq ASC");
    reveal_strlit("WITH gone AS ( DELETE FROM ");
    reveal_strlit("exam_result");
    reveal_strlit(" WHERE ");
    reveal_strlit("exam");
    reveal_strlit(" = ");
    reveal_strlit("$");
    reveal_strlit(" AND ");
    reveal_strlit("app_user");
    reveal_strlit(" RETURNING ");
    reveal(crate::sql::Picking::text);
    reveal_with_fuel(crate::sql::where_text, 3);
    reveal_with_fuel(crate::sql::stands, 28);
    reveal_with_fuel(crate::sql::spells_by, 12);
    crate::sql::lemma_spells_by(DELETE_MARKS@, 0, delete_marks_reading().text(), crate::sql::cut(27, crate::sql::cut(38, crate::sql::cut(45, crate::sql::cut(49, crate::sql::cut(52, crate::sql::cut(54, crate::sql::cut(59, crate::sql::cut(67, crate::sql::cut(70, crate::sql::cut(72, crate::sql::cut(83, Cuts::Last))))))))))));
}

/// What [`REFUND_KIND`] says.
pub open spec fn refund_kind_reading() -> Writing {
    Writing {
        head: "UPDATE "@,
        table: "kind_ref"@,
        sets: seq![("count"@, Expr::Floored(Term::Of("kind_ref"@, "count"@), Term::Bind(2)))],
        conditions: seq![crate::sql::is_bound("name"@, 1)],
        rest: Text::End,
    }
}

proof fn lemma_refund_kind_reads()
    ensures
        crate::sql::spells(REFUND_KIND@, 0, refund_kind_reading().text()),
{
    reveal_strlit("UPDATE kind_ref SET count = GREATEST(kind_ref.count - $2, 0) WHERE name = $1");
    reveal_strlit("UPDATE ");
    reveal_strlit("kind_ref");
    reveal_strlit(" SET ");
    reveal_strlit("count");
    reveal_strlit(" = ");
    reveal_strlit("GREATEST(");
    reveal_strlit(".");
    reveal_strlit(" - ");
    reveal_strlit("$");
    reveal_strlit(", 0)");
    reveal_strlit(" WHERE ");
    reveal_strlit("name");
    reveal(crate::sql::Writing::text);
    reveal_with_fuel(crate::sql::set_text, 2);
    reveal_with_fuel(crate::sql::where_text, 2);
    reveal_with_fuel(crate::sql::stands, 10);
    reveal_with_fuel(crate::sql::spells_by, 17);
    crate::sql::lemma_spells_by(REFUND_KIND@, 0, refund_kind_reading().text(), crate::sql::cut(7, crate::sql::cut(15, crate::sql::cut(20, crate::sql::cut(25, crate::sql::cut(28, crate::sql::cut(37, crate::sql::cut(45, crate::sql::cut(46, crate::sql::cut(51, crate::sql::cut(54, crate::sql::cut(56, crate::sql::cut(60, crate::sql::cut(67, crate::sql::cut(71, crate::sql::cut(74, crate::sql::cut(76, Cuts::Last)))))))))))))))));
}

/// What [`REFUND_EXAM`] says.
pub open spec fn refund_exam_reading() -> Writing {
    Writing {
        head: "UPDATE "@,
        table: "exam"@,
        sets: seq![("result_count"@, Expr::Floored(Term::Of("exam"@, "result_count"@), Term::Bind(2)))],
        conditions: seq![crate::sql::is_bound("id"@, 1)],
        rest: Text::End,
    }
}

proof fn lemma_refund_exam_reads()
    ensures
        crate::sql::spells(REFUND_EXAM@, 0, refund_exam_reading().text()),
{
    reveal_strlit("UPDATE exam SET result_count = GREATEST(exam.result_count - $2, 0) WHERE id = $1");
    reveal_strlit("UPDATE ");
    reveal_strlit("exam");
    reveal_strlit(" SET ");
    reveal_strlit("result_count");
    reveal_strlit(" = ");
    reveal_strlit("GREATEST(");
    reveal_strlit(".");
    reveal_strlit(" - ");
    reveal_strlit("$");
    reveal_strlit(", 0)");
    reveal_strlit(" WHERE ");
    reveal_strlit("id");
    reveal(crate::sql::Writing::text);
    reveal_with_fuel(crate::sql::set_text, 2);
    reveal_with_fuel(crate::sql::where_text, 2);
    reveal_with_fuel(crate::sql::stands, 13);
    reveal_with_fuel(crate::sql::spells_by, 17);
    crate::sql::lemma_spells_by(REFUND_EXAM@, 0, refund_exam_reading().text(), crate::sql::cut(7, crate::sql::cut(11, crate::sql::cut(16, crate::sql::cut(28, crate::sql::cut(31, crate::sql::cut(40, crate::sql::cut(44, crate::sql::cut(45, crate::sql::cut(57, crate::sql::cut(60, crate::sql::cut(62, crate::sql::cut(66, crate::sql::cut(73, crate::sql::cut(75, crate::sql::cut(78, crate::sql::cut(80, Cuts::Last)))))))))))))))));
}

/// What [`REFUND_HIGH`] says.
pub open spec fn refund_high_reading() -> Writing {
    Writing {
        head: "UPDATE "@,
        table: "app_user"@,
        sets: seq![("high_mark_total"@, Expr::Floored(Term::Column("high_mark_total"@), Term::Bind(2)))],
        conditions: seq![crate::sql::is_bound("id"@, 1)],
        rest: Text::End,
    }
}

proof fn lemma_refund_high_reads()
    ensures
        crate::sql::spells(REFUND_HIGH@, 0, refund_high_reading().text()),
{
    reveal_strlit("UPDATE app_user SET high_mark_total = GREATEST(high_mark_total - $2, 0) WHERE id = $1");
    reveal_strlit("UPDATE ");
    reveal_strlit("app_user");
    reveal_strlit(" SET ");
    reveal_strlit("high_mark_total");
    reveal_strlit(" = ");
    reveal_strlit("GREATEST(");
    reveal_strlit(" - ");
    reveal_strlit("$");
    reveal_strlit(", 0)");
    reveal_strlit(" WHERE ");
    reveal_strlit("id");
    reveal(crate::sql::Writing::text);
    reveal_with_fuel(crate::sql::set_text, 2);
    reveal_with_fuel(crate::sql::where_text, 2);
    reveal_with_fuel(crate::sql::stands, 16);
    reveal_with_fuel(crate::sql::spells_by, 15);
    crate::sql::lemma_spells_by(REFUND_HIGH@, 0, refund_high_reading().text(), crate::sql::cut(7, crate::sql::cut(15, crate::sql::cut(20, crate::sql::cut(35, crate::sql::cut(38, crate::sql::cut(47, crate::sql::cut(62, crate::sql::cut(65, crate::sql::cut(67, crate::sql::cut(71, crate::sql::cut(78, crate::sql::cut(80, crate::sql::cut(83, crate::sql::cut(85, Cuts::Last)))))))))))))));
}

/// What [`REFUND_GRADER`] says.
pub open spec fn refund_grader_reading() -> Writing {
    Writing {
        head: "UPDATE "@,
        table: "app_user"@,
        sets: seq![("marks_given_total"@, Expr::Floored(Term::Column("marks_given_total"@), Term::Bind(2)))],
        conditions: seq![crate::sql::is_bound("id"@, 1)],
        rest: Text::End,
    }
}

proof fn lemma_refund_grader_reads()
    ensures
        crate::sql::spells(REFUND_GRADER@, 0, refund_grader_reading().text()),
{
    reveal_strlit("UPDATE app_user SET marks_given_total = GREATEST(marks_given_total - $2, 0) WHERE id = $1");
    reveal_strlit("UPDATE ");
    reveal_strlit("app_user");
    reveal_strlit(" SET ");
    reveal_strlit("marks_given_total");
    reveal_strlit(" = ");
    reveal_strlit("GREATEST(");
    reveal_strlit(" - ");
    reveal_strlit("$");
    reveal_strlit(", 0)");
    reveal_strlit(" WHERE ");
    reveal_strlit("id");
    reveal(crate::sql::Writing::text);
    reveal_with_fuel(crate::sql::set_text, 2);
    reveal_with_fuel(crate::sql::where_text, 2);
    reveal_with_fuel(crate::sql::stands, 18);
    reveal_with_fuel(crate::sql::spells_by, 15);
    crate::sql::lemma_spells_by(REFUND_GRADER@, 0, refund_grader_reading().text(), crate::sql::cut(7, crate::sql::cut(15, crate::sql::cut(20, crate::sql::cut(37, crate::sql::cut(40, crate::sql::cut(49, crate::sql::cut(66, crate::sql::cut(69, crate::sql::cut(71, crate::sql::cut(75, crate::sql::cut(82, crate::sql::cut(84, crate::sql::cut(87, crate::sql::cut(89, Cuts::Last)))))))))))))));
}

/// A mark lands under its own sitting: the row that is stored, column by column,
/// is the request's exam, student, sitting, mark and grader, and it is the row
/// that the tables hold of that sitting after the step. A sitting that has a
/// mark takes the new mark and grader and nothing else.
pub proof fn law_mark_lands_in_its_columns(db: Marks, request: GradeRequest)
    ensures
        ({
            let sent = Grade::StoreMark.asks(request);
            let after = grade_effect(db, request, Grade::StoreMark).0;
            let key = (request.exam, request.user, request.seq);
            &&& store_mark_reading().is_read(sent)
            &&& store_mark_reading().stores(sent.binds) == seq![
                ("exam"@, Cell::Uuid(request.exam.0)),
                ("app_user"@, Cell::Uuid(request.user.0)),
                ("seq"@, Cell::Int(request.seq as int)),
                ("mark"@, Cell::Int(request.mark.0 as int)),
                ("graded_by"@, Cell::Uuid(request.graded_by.0)),
            ]
            &&& store_mark_reading().conflict == Conflict::Takes(
                seq!["exam"@, "app_user"@, "seq"@],
                seq!["mark"@, "graded_by"@],
            )
            &&& after.results == db.results.insert(
                key,
                MarkRow { mark: request.mark.0, graded_by: request.graded_by },
            )
        }),
{
    lemma_store_mark_reads();
}

/// Whether a row of the exams' table holds an exam's counters.
pub open spec fn holds_exam(row: Row, id: ExamId, exam: ExamRow) -> bool {
    &&& row["id"@] == Cell::Uuid(id.0)
    &&& row["draft"@] == Cell::Bool(exam.draft)
    &&& row["result_count"@] == Cell::Int(exam.result_count)
}

/// Whether a row of the users' table holds a user's badge counters.
pub open spec fn holds_badges(row: Row, id: UserId, user: BadgeRow) -> bool {
    &&& row["id"@] == Cell::Uuid(id.0)
    &&& row["marks_given_total"@] == Cell::Int(user.marks_given)
    &&& row["high_mark_total"@] == Cell::Int(user.high_marks)
}

/// Whether a row of the kinds' table holds a kind's references.
pub open spec fn holds_kind(row: Row, name: Seq<char>, kind: KindRow) -> bool {
    &&& row["name"@] == Cell::Text(name)
    &&& row["count"@] == Cell::Int(kind.count)
    &&& row["retired"@] == Cell::Bool(kind.retired)
}

/// A new mark is counted on the request's own exam: carried out on an exam's
/// row, the count leaves what the tables hold of it after the step.
pub proof fn law_mark_is_counted_on_its_exam(
    db: Marks,
    request: GradeRequest,
    exam: ExamId,
    row: Row,
)
    requires
        db.exams.contains_key(exam),
        holds_exam(row, exam, db.exams[exam]),
    ensures
        ({
            let sent = Grade::CountMark.asks(request);
            let after = grade_effect(db, request, Grade::CountMark).0;
            &&& count_mark_reading().is_read(sent)
            &&& count_mark_reading().picks(sent.binds, row) == (exam == request.exam)
            &&& if exam == request.exam {
                count_mark_reading().writes(sent.binds, row) == seq![
                    ("result_count"@, Cell::Int(after.exams[exam].result_count)),
                ]
            } else {
                after.exams[exam] == db.exams[exam]
            }
        }),
{
    lemma_count_mark_reads();
    reveal_with_fuel(crate::sql::all_hold, 2);
}

/// A new mark credits the request's own grader, and the line a mark crosses
/// moves the request's own student: carried out on a user's row, each leaves
/// what the tables hold of the user after the step.
pub proof fn law_mark_credits_its_people(
    db: Marks,
    request: GradeRequest,
    by: i64,
    user: UserId,
    row: Row,
)
    requires
        db.users.contains_key(user),
        holds_badges(row, user, db.users[user]),
    ensures
        ({
            let credit = Grade::CreditGrader.asks(request);
            let after = grade_effect(db, request, Grade::CreditGrader).0;
            &&& credit_grader_reading().is_read(credit)
            &&& credit_grader_reading().picks(credit.binds, row) == (user == request.graded_by)
            &&& if user == request.graded_by {
                credit_grader_reading().writes(credit.binds, row) == seq![
                    ("marks_given_total"@, Cell::Int(after.users[user].marks_given)),
                ]
            } else {
                after.users[user] == db.users[user]
            }
        }),
        ({
            let sent = Grade::MoveHigh { by }.asks(request);
            let after = grade_effect(db, request, Grade::MoveHigh { by }).0;
            &&& move_high_reading().is_read(sent)
            &&& move_high_reading().picks(sent.binds, row) == (user == request.user)
            &&& if user == request.user {
                move_high_reading().writes(sent.binds, row) == seq![
                    ("high_mark_total"@, Cell::Int(after.users[user].high_marks)),
                ]
            } else {
                after.users[user] == db.users[user]
            }
        }),
{
    lemma_credit_grader_reads();
    lemma_move_high_reads();
    reveal_with_fuel(crate::sql::all_hold, 2);
}

/// A new mark claims the request's own kind: a kind without a row gets one with
/// a single reference, and a kind that has one gets a reference more unless it
/// is retired.
pub proof fn law_mark_claims_its_kind(db: Marks, request: GradeRequest, row: Row)
    ensures
        ({
            let sent = Grade::ClaimKind.asks(request);
            let (after, reply) = grade_effect(db, request, Grade::ClaimKind);
            let kind = request.kind@;
            &&& claim_kind_reading().is_read(sent)
            &&& claim_kind_reading().stores(sent.binds) == seq![
                ("name"@, Cell::Text(kind)),
                ("count"@, Cell::Int(1)),
                ("retired"@, Cell::Bool(false)),
            ]
            &&& !db.kinds.contains_key(kind) ==> after.kinds[kind] == (KindRow {
                count: 1,
                retired: false,
            })
            &&& db.kinds.contains_key(kind) && holds_kind(row, kind, db.kinds[kind]) ==> (
            claim_kind_reading().conflict matches Conflict::Moves(keys, sets, conditions) && {
                &&& keys == seq!["name"@]
                &&& sets.len() == 1
                &&& sets[0].0 == "count"@
                &&& crate::sql::all_hold(conditions, sent.binds, row, conditions.len())
                    == reply.has_row()
                &&& reply.has_row() ==> sets[0].1.value(sent.binds, row) == Cell::Int(
                    after.kinds[kind].count,
                )
            })
        }),
{
    lemma_claim_kind_reads();
    reveal_with_fuel(crate::sql::all_hold, 2);
}

/// A grading looks at the request's own exam and at the mark of its own sitting.
pub proof fn law_grading_reads_its_sitting(request: GradeRequest, row: Row)
    ensures
        lock_exam_reading().is_read(Grade::LockExam.asks(request)),
        lock_exam_reading().picks(Grade::LockExam.asks(request).binds, row) == (row["id"@]
            == Cell::Uuid(request.exam.0)),
        lock_exam_reading().columns == seq!["draft"@],
        read_mark_reading().is_read(Grade::ReadMark.asks(request)),
        read_mark_reading().picks(Grade::ReadMark.asks(request).binds, row) == (row["exam"@]
            == Cell::Uuid(request.exam.0) && row["app_user"@] == Cell::Uuid(request.user.0)
            && row["seq"@] == Cell::Int(request.seq as int)),
        read_mark_reading().columns == seq!["mark"@],
{
    lemma_lock_exam_reads();
    lemma_read_mark_reads();
    reveal_with_fuel(crate::sql::all_hold, 4);
}

/// A removal deletes the marks of its own exam and student, at every sitting.
pub proof fn law_removal_picks_the_pair(exam: ExamId, user: UserId, sent: Statement, row: Row)
    requires
        call_ensures(remove_statement, (exam, user), sent),
    ensures
        delete_marks_reading().is_read(sent@),
        delete_marks_reading().picks(sent@.binds, row) == (row["exam"@] == Cell::Uuid(exam.0)
            && row["app_user"@] == Cell::Uuid(user.0)),
{
    lemma_delete_marks_reads();
    reveal_with_fuel(crate::sql::all_hold, 3);
}

/// What a removal gives back lands on its own kind, exam and student: the kind
/// and the exam by the number of the deleted marks, the student by the high ones,
/// each as the tables hold it after the removal.
#[verifier::rlimit(40)]
#[verifier::spinoff_prover]
pub proof fn law_refunds_land_in_their_columns(
    db: Marks,
    exam: ExamId,
    user: UserId,
    kind: Seq<char>,
    gone: Seq<GoneMark>,
    row: Row,
)
    requires
        0 < gone.len() <= i64::MAX,
    ensures
        ({
            let sent = refunds(exam, user, kind, gone);
            let after = removed(db, exam, user, kind, gone);
            &&& refund_kind_reading().is_read(sent[0])
            &&& refund_kind_reading().picks(sent[0].binds, row) == (row["name"@] == Cell::Text(
                kind,
            ))
            &&& db.kinds.contains_key(kind) && holds_kind(row, kind, db.kinds[kind])
                ==> refund_kind_reading().writes(sent[0].binds, row) == seq![
                ("count"@, Cell::Int(after.kinds[kind].count)),
            ]
            &&& refund_exam_reading().is_read(sent[1])
            &&& refund_exam_reading().picks(sent[1].binds, row) == (row["id"@] == Cell::Uuid(
                exam.0,
            ))
            &&& db.exams.contains_key(exam) && holds_exam(row, exam, db.exams[exam])
                ==> refund_exam_reading().writes(sent[1].binds, row) == seq![
                ("result_count"@, Cell::Int(after.exams[exam].result_count)),
            ]
            &&& high_in(gone) > 0 ==> refund_high_reading().is_read(sent[2])
                && refund_high_reading().picks(sent[2].binds, row) == (row["id"@] == Cell::Uuid(
                user.0,
            )) && (row["high_mark_total"@] is Int ==> refund_high_reading().writes(
                sent[2].binds,
                row,
            ) == seq![
                (
                    "high_mark_total"@,
                    Cell::Int(
                        crate::tally::floored(row["high_mark_total"@].number() - high_in(gone)),
                    ),
                ),
            ])
        }),
{
    lemma_refund_kind_reads();
    lemma_refund_exam_reads();
    lemma_refund_high_reads();
    lemma_counts_bounded(gone, user);
    reveal_with_fuel(crate::sql::all_hold, 2);
}

/// Each grader of a deleted mark gives back, on their own row, as many marks as
/// they had given of the deleted ones.
#[verifier::rlimit(40)]
#[verifier::spinoff_prover]
pub proof fn law_graders_refund_their_own(
    exam: ExamId,
    user: UserId,
    kind: Seq<char>,
    gone: Seq<GoneMark>,
    i: int,
    row: Row,
)
    requires
        gone.len() <= i64::MAX,
        0 <= i < graders_in(gone).len(),
    ensures
        ({
            let shared = shared_refunds(exam, user, kind, gone).len();
            let sent = refunds(exam, user, kind, gone)[shared + i];
            let grader = graders_in(gone)[i];
            &&& refund_grader_reading().is_read(sent)
            &&& refund_grader_reading().picks(sent.binds, row) == (row["id"@] == Cell::Uuid(
                grader.0,
            ))
            &&& refund_grader_reading().writes(sent.binds, row) == seq![
                (
                    "marks_given_total"@,
                    Cell::Int(
                        crate::tally::floored(
                            row["marks_given_total"@].number() - given_in(gone, grader),
                        ),
                    ),
                ),
            ]
        }),
{
    let shared = shared_refunds(exam, user, kind, gone);
    assert((shared + grader_refunds(per_grader(gone)))[shared.len() + i] == grader_refunds(
        per_grader(gone),
    )[i]);
    lemma_refund_grader_reads();
    lemma_counts_bounded(gone, graders_in(gone)[i]);
    reveal_with_fuel(crate::sql::all_hold, 2);
}

/// What [`FIND_RESULT`] says.
pub open spec fn find_result_reading() -> Picking {
    Picking {
        skip: 0,
        head: "SELECT "@,
        columns: seq!["exam"@, "app_user AS \"user\""@, "seq"@, "mark"@, "graded_by"@],
        table: "exam_result"@,
        conditions: seq![crate::sql::is_bound("exam"@, 1), crate::sql::is_bound("app_user"@, 2)],
        rest: crate::sql::before(" ORDER BY seq DESC LIMIT 1"@, Text::End),
    }
}

proof fn lemma_find_result_reads()
    ensures
        crate::sql::spells(FIND_RESULT@, 0, find_result_reading().text()),
{
    reveal_strlit("SELECT exam, app_user AS \"user\", seq, mark, graded_by FROM exam_result WHERE exam = $1 AND app_user = $2 ORDER BY seq DESC LIMIT 1");
    reveal_strlit("SELECT ");
    reveal_strlit("exam");
    reveal_strlit(", ");
    reveal_strlit("app_user AS \"user\"");
    reveal_strlit("seq");
    reveal_strlit("mark");
    reveal_strlit("graded_by");
    reveal_strlit(" FROM ");
    reveal_strlit("exam_result");
    reveal_strlit(" WHERE ");
    reveal_strlit(" = ");
    reveal_strlit("$");
    reveal_strlit(" AND ");
    reveal_strlit("app_user");
    reveal_strlit(" ORDER BY seq DESC LIMIT 1");
    reveal(crate::sql::Picking::text);
    reveal_with_fuel(crate::sql::where_text, 3);
    reveal_with_fuel(crate::sql::names_text, 6);
    reveal_with_fuel(crate::sql::stands, 27);
    reveal_with_fuel(crate::sql::spells_by, 22);
    crate::sql::lemma_spells_by(FIND_RESULT@, 0, find_result_reading().text(), crate::sql::cut(7, crate::sql::cut(11, crate::sql::cut(13, crate::sql::cut(31, crate::sql::cut(33, crate::sql::cut(36, crate::sql::cut(38, crate::sql::cut(42, crate::sql::cut(44, crate::sql::cut(53, crate::sql::cut(59, crate::sql::cut(70, crate::sql::cut(77, crate::sql::cut(81, crate::sql::cut(84, crate::sql::cut(86, crate::sql::cut(91, crate::sql::cut(99, crate::sql::cut(102, crate::sql::cut(104, crate::sql::cut(130, Cuts::Last))))))))))))))))))))));
}

/// [`read_for_user`] reads the rows it names and no other.
pub proof fn law_read_for_user_reads_its_rows(
    exam: ExamId,
    user: UserId,
    sent: Statement,
    row: Row,
)
    requires
        call_ensures(read_for_user, (exam, user), sent),
    ensures
        find_result_reading().is_read(sent@),
        find_result_reading().picks(sent@.binds, row) == (row["exam"@] == Cell::Uuid(exam.0) && row["app_user"@] == Cell::Uuid(user.0)),
{
    lemma_find_result_reads();
    reveal_with_fuel(crate::sql::all_hold, 3);
}

/// What [`LIST_FOR_USER_IN_COURSE`] says.
pub open spec fn list_for_user_in_course_reading() -> Picking {
    Picking {
        skip: 63,
        head: " FROM "@,
        columns: Seq::empty(),
        table: "exam_result r JOIN exam e ON e.id = r.exam"@,
        conditions: seq![crate::sql::is_bound("r.app_user"@, 1), crate::sql::is_bound("e.course"@, 2)],
        rest: crate::sql::before(" ORDER BY r.exam DESC, r.seq DESC"@, Text::End),
    }
}

proof fn lemma_list_for_user_in_course_reads()
    ensures
        crate::sql::spells(LIST_FOR_USER_IN_COURSE@, 63, list_for_user_in_course_reading().text()),
{
    reveal_strlit("SELECT r.exam, r.app_user AS \"user\", r.seq, r.mark, r.graded_by FROM exam_result r JOIN exam e ON e.id = r.exam WHERE r.app_user = $1 AND e.course = $2 ORDER BY r.exam DESC, r.seq DESC");
    reveal_strlit(" FROM ");
    reveal_strlit("exam_result r JOIN exam e ON e.id = r.exam");
    reveal_strlit(" WHERE ");
    reveal_strlit("r.app_user");
    reveal_strlit(" = ");
    reveal_strlit("$");
    reveal_strlit(" AND ");
    reveal_strlit("e.course");
    reveal_strlit(" ORDER BY r.exam DESC, r.seq DESC");
    reveal(crate::sql::Picking::text);
    reveal_with_fuel(crate::sql::where_text, 3);
    reveal_with_fuel(crate::sql::stands, 43);
    reveal_with_fuel(crate::sql::spells_by, 12);
    crate::sql::lemma_spells_by(LIST_FOR_USER_IN_COURSE@, 63, list_for_user_in_course_reading().text(), crate::sql::cut(69, crate::sql::cut(111, crate::sql::cut(118, crate::sql::cut(128, crate::sql::cut(131, crate::sql::cut(133, crate::sql::cut(138, crate::sql::cut(146, crate::sql::cut(149, crate::sql::cut(151, crate::sql::cut(184, Cuts::Last))))))))))));
}

/// [`list_for_user_in_course`] reads the rows it names and no other.
pub proof fn law_list_for_user_in_course_reads_its_rows(
    course: CourseId,
    user: UserId,
    sent: Statement,
    row: Row,
)
    requires
        call_ensures(list_for_user_in_course, (course, user), sent),
    ensures
        list_for_user_in_course_reading().is_read(sent@),
        list_for_user_in_course_reading().picks(sent@.binds, row) == (row["r.app_user"@] == Cell::Uuid(user.0) && row["e.course"@] == Cell::Uuid(course.0)),
{
    lemma_list_for_user_in_course_reads();
    reveal_with_fuel(crate::sql::all_hold, 3);
}

/// What [`LIST_FOR_EXAM`] says.
pub open spec fn list_for_exam_reading() -> Picking {
    Picking {
        skip: 0,
        head: "SELECT "@,
        columns: seq!["exam"@, "app_user AS \"user\""@, "seq"@, "mark"@, "graded_by"@],
        table: "exam_result"@,
        conditions: seq![crate::sql::is_bound("exam"@, 1)],
        rest: crate::sql::before(" ORDER BY exam DESC, seq DESC"@, Text::End),
    }
}

proof fn lemma_list_for_exam_reads()
    ensures
        crate::sql::spells(LIST_FOR_EXAM@, 0, list_for_exam_reading().text()),
{
    reveal_strlit("SELECT exam, app_user AS \"user\", seq, mark, graded_by FROM exam_result WHERE exam = $1 ORDER BY exam DESC, seq DESC");
    reveal_strlit("SELECT ");
    reveal_strlit("exam");
    reveal_strlit(", ");
    reveal_strlit("app_user AS \"user\"");
    reveal_strlit("seq");
    reveal_strlit("mark");
    reveal_strlit("graded_by");
    reveal_strlit(" FROM ");
    reveal_strlit("exam_result");
    reveal_strlit(" WHERE ");
    reveal_strlit(" = ");
    reveal_strlit("$");
    reveal_strlit(" ORDER BY exam DESC, seq DESC");
    reveal(crate::sql::Picking::text);
    reveal_with_fuel(crate::sql::where_text, 2);
    reveal_with_fuel(crate::sql::names_text, 6);
    reveal_with_fuel(crate::sql::stands, 30);
    reveal_with_fuel(crate::sql::spells_by, 18);
    crate::sql::lemma_spells_by(LIST_FOR_EXAM@, 0, list_for_exam_reading().text(), crate::sql::cut(7, crate::sql::cut(11, crate::sql::cut(13, crate::sql::cut(31, crate::sql::cut(33, crate::sql::cut(36, crate::sql::cut(38, crate::sql::cut(42, crate::sql::cut(44, crate::sql::cut(53, crate::sql::cut(59, crate::sql::cut(70, crate::sql::cut(77, crate::sql::cut(81, crate::sql::cut(84, crate::sql::cut(86, crate::sql::cut(115, Cuts::Last))))))))))))))))));
}

/// [`list_for_exam`] reads the rows it names and no other.
pub proof fn law_list_for_exam_reads_its_rows(
    exam: ExamId,
    sent: Statement,
    row: Row,
)
    requires
        call_ensures(list_for_exam, (exam,), sent),
    ensures
        list_for_exam_reading().is_read(sent@),
        list_for_exam_reading().picks(sent@.binds, row) == (row["exam"@] == Cell::Uuid(exam.0)),
{
    lemma_list_for_exam_reads();
    reveal_with_fuel(crate::sql::all_hold, 2);
}

/// What [`LIST_ALL_FOR_EXAM_USER`] says.
pub open spec fn list_all_for_exam_user_reading() -> Picking {
    Picking {
        skip: 0,
        head: "SELECT "@,
        columns: seq!["exam"@, "app_user AS \"user\""@, "seq"@, "mark"@, "graded_by"@],
        table: "exam_result"@,
        conditions: seq![crate::sql::is_bound("exam"@, 1), crate::sql::is_bound("app_user"@, 2)],
        rest: crate::sql::before(" ORDER BY seq ASC"@, Text::End),
    }
}

proof fn lemma_list_all_for_exam_user_reads()
    ensures
        crate::sql::spells(LIST_ALL_FOR_EXAM_USER@, 0, list_all_for_exam_user_reading().text()),
{
    reveal_strlit("SELECT exam, app_user AS \"user\", seq, mark, graded_by FROM exam_result WHERE exam = $1 AND app_user = $2 ORDER BY seq ASC");
    reveal_strlit("SELECT ");
    reveal_strlit("exam");
    reveal_strlit(", ");
    reveal_strlit("app_user AS \"user\"");
    reveal_strlit("seq");
    reveal_strlit("mark");
    reveal_strlit("graded_by");
    reveal_strlit(" FROM ");
    reveal_strlit("exam_result");
    reveal_strlit(" WHERE ");
    reveal_strlit(" = ");
    reveal_strlit("$");
    reveal_strlit(" AND ");
    reveal_strlit("app_user");
    reveal_strlit(" ORDER BY seq ASC");
    reveal(crate::sql::Picking::text);
    reveal_with_fuel(crate::sql::where_text, 3);
    reveal_with_fuel(crate::sql::names_text, 6);
    reveal_with_fuel(crate::sql::stands, 19);
    reveal_with_fuel(crate::sql::spells_by, 22);
    crate::sql::lemma_spells_by(LIST_ALL_FOR_EXAM_USER@, 0, list_all_for_exam_user_reading().text(), crate::sql::cut(7, crate::sql::cut(11, crate::sql::cut(13, crate::sql::cut(31, crate::sql::cut(33, crate::sql::cut(36, crate::sql::cut(38, crate::sql::cut(42, crate::sql::cut(44, crate::sql::cut(53, crate::sql::cut(59, crate::sql::cut(70, crate::sql::cut(77, crate::sql::cut(81, crate::sql::cut(84, crate::sql::cut(86, crate::sql::cut(91, crate::sql::cut(99, crate::sql::cut(102, crate::sql::cut(104, crate::sql::cut(121, Cuts::Last))))))))))))))))))))));
}

/// [`list_all_for_exam_user`] reads the rows it names and no other.
pub proof fn law_list_all_for_exam_user_reads_its_rows(
    exam: ExamId,
    user: UserId,
    sent: Statement,
    row: Row,
)
    requires
        call_ensures(list_all_for_exam_user, (exam, user), sent),
    ensures
        list_all_for_exam_user_reading().is_read(sent@),
        list_all_for_exam_user_reading().picks(sent@.binds, row) == (row["exam"@] == Cell::Uuid(exam.0) && row["app_user"@] == Cell::Uuid(user.0)),
{
    lemma_list_all_for_exam_user_reads();
    reveal_with_fuel(crate::sql::all_hold, 3);
}

} // verus!
