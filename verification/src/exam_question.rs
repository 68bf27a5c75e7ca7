//! The `exam_question` table: row reads and listings, the answer-key join
//! behind review hiding, and the field-scoped writes that tie the freeze gate
//! and the subject's reference counter into their own transaction.

use vstd::prelude::*;

use crate::error::{AppError, AppErrorView, ValidationError, ValidationErrorView};
use crate::exam_attempt::{freeze_gate, Freeze, FreezeRefusal, Sat};
use crate::id::{BankQuestionId, ExamId, ExamQuestionId, SubjectId};
use crate::json::opt_json;
use crate::page::{opt_string, paged, Param, ParamView, Statement, StatementView, Uuid};
use crate::reference::References;
use crate::sql::{Cell, Conflict, Cuts, Expr, Picking, Row, Storing, Term, Text, Writing};
use crate::transaction::{Reply, Step};

verus! {

/// What a question asks and how it is marked: the kind, the choices as they
/// are stored, and the key of the correct one.
#[derive(Debug)]
pub struct QuestionSpec {
    pub kind: String,
    pub choices: Option<serde_json::Value>,
    pub correct: Option<String>,
}

/// An exam question. `from_bank` is the template it was instantiated from and
/// `banked_as` the template it was saved as.
#[derive(Debug)]
pub struct ExamQuestion {
    pub id: ExamQuestionId,
    pub exam: ExamId,
    pub subject: SubjectId,
    pub text: String,
    pub points: i64,
    pub spec: QuestionSpec,
    pub from_bank: Option<BankQuestionId>,
    pub banked_as: Option<BankQuestionId>,
}

/// The answer to a subject that is not there.
pub open spec fn dead_subject_view() -> AppErrorView {
    AppErrorView::Validation(
        ValidationErrorView::Invalid {
            field: "subject_id"@,
            reason: "subject does not exist"@,
        },
    )
}

/// The answer to a subject that is not there.
pub fn dead_subject() -> (error: AppError)
    ensures
        error@ == dead_subject_view(),
{
    AppError::Validation(
        ValidationError::Invalid { field: "subject_id", reason: "subject does not exist" },
    )
}

/// The statement an insert waits for.
#[derive(Clone, Copy, PartialEq, Eq, Structural, Debug)]
pub enum Insert {
    /// A step of the freeze gate.
    Gate(Freeze),
    /// Take the subject's reference and insert the row; its row is the
    /// answer.
    ClaimAndInsert,
}

/// Why a question is not inserted.
#[derive(Clone, Copy, PartialEq, Eq, Structural, Debug)]
pub enum InsertRefusal {
    Gate(FreezeRefusal),
    DeadSubject,
}

pub const CLAIM_AND_INSERT: &'static str =
    "WITH seat AS ( UPDATE subject SET exam_question_count = subject.exam_question_count + 1 \
     WHERE id = $1 RETURNING 1) INSERT INTO exam_question (id, exam, subject, text, kind, \
     points, choices, correct, from_bank, banked_as) SELECT $2, $3, $1, $4, $5, $6, $7, $8, $9, \
     NULL WHERE EXISTS (SELECT 1 FROM seat) RETURNING id, exam, subject, text, kind, points, \
     choices, correct, from_bank, banked_as";

/// The key of an optional template.
pub open spec fn template_key(template: Option<BankQuestionId>) -> Option<Uuid> {
    match template {
        Some(template) => Some(template.0),
        None => None,
    }
}

impl Insert {
    /// The statement of this step. A new question was never saved to the bank.
    pub open spec fn asks(self, question: ExamQuestion) -> StatementView {
        match self {
            Insert::Gate(at) => at.asks(question.exam),
            Insert::ClaimAndInsert => crate::page::sends(
                CLAIM_AND_INSERT,
                seq![
                    ParamView::Uuid(question.subject.0),
                    ParamView::Uuid(question.id.0),
                    ParamView::Uuid(question.exam.0),
                    ParamView::Text(question.text@),
                    ParamView::Text(question.spec.kind@),
                    ParamView::I64(question.points),
                    ParamView::OptJson(question.spec.choices),
                    ParamView::OptText(crate::page::opt_string_view(question.spec.correct)),
                    ParamView::OptUuid(template_key(question.from_bank)),
                ],
            ),
        }
    }

    /// The statement of this step.
    pub fn statement(self, question: &ExamQuestion) -> (statement: Statement)
        ensures
            statement@ == self.asks(*question),
    {
        match self {
            Insert::Gate(at) => at.statement(question.exam),
            Insert::ClaimAndInsert => {
                let template: Option<Uuid> = match question.from_bank {
                    Some(template) => Some(template.0),
                    None => None,
                };
                Statement::new(
                    CLAIM_AND_INSERT,
                    vec![
                        Param::Uuid(question.subject.0),
                        Param::Uuid(question.id.0),
                        Param::Uuid(question.exam.0),
                        Param::Text(question.text.clone()),
                        Param::Text(question.spec.kind.clone()),
                        Param::I64(question.points),
                        Param::OptJson(opt_json(&question.spec.choices)),
                        Param::OptText(opt_string(&question.spec.correct)),
                        Param::OptUuid(template),
                    ],
                )
            },
        }
    }
}

/// What an insert does once the statement of `at` is answered.
pub open spec fn insert_next(at: Insert, reply: Reply) -> Step<Insert, (), InsertRefusal> {
    match at {
        Insert::Gate(gate) => match crate::exam_attempt::freeze_next(gate, reply) {
            Step::Ask(next) => Step::Ask(Insert::Gate(next)),
            Step::Commit(_) => Step::Ask(Insert::ClaimAndInsert),
            Step::Abort(refusal) => Step::Abort(InsertRefusal::Gate(refusal)),
        },
        Insert::ClaimAndInsert => if reply.has_row() {
            Step::Commit(())
        } else {
            Step::Abort(InsertRefusal::DeadSubject)
        },
    }
}

/// Insert a question: the step that follows the answer to `at`. An insert
/// starts at the freeze gate.
pub fn insert(at: Insert, reply: Reply) -> (step: Step<Insert, (), InsertRefusal>)
    ensures
        step == insert_next(at, reply),
{
    match at {
        Insert::Gate(gate) => match freeze_gate(gate, reply) {
            Step::Ask(next) => Step::Ask(Insert::Gate(next)),
            Step::Commit(_) => Step::Ask(Insert::ClaimAndInsert),
            Step::Abort(refusal) => Step::Abort(InsertRefusal::Gate(refusal)),
        },
        Insert::ClaimAndInsert => if reply.row() {
            Step::Commit(())
        } else {
            Step::Abort(InsertRefusal::DeadSubject)
        },
    }
}

impl InsertRefusal {
    /// What a refused insert answers.
    pub open spec fn answers(self) -> AppErrorView {
        match self {
            InsertRefusal::Gate(refusal) => refusal.answers(),
            InsertRefusal::DeadSubject => dead_subject_view(),
        }
    }

    /// What a refused insert answers.
    pub fn error(self) -> (error: AppError)
        ensures
            error@ == self.answers(),
    {
        match self {
            InsertRefusal::Gate(refusal) => refusal.error(),
            InsertRefusal::DeadSubject => dead_subject(),
        }
    }
}

/// The row of a new question, written by hand.
pub fn create(
    id: ExamQuestionId,
    exam: ExamId,
    subject: SubjectId,
    text: String,
    points: i64,
    spec: QuestionSpec,
) -> (question: ExamQuestion)
    ensures
        question == (ExamQuestion {
            id,
            exam,
            subject,
            text,
            points,
            spec,
            from_bank: None,
            banked_as: None,
        }),
{
    ExamQuestion { id, exam, subject, text, points, spec, from_bank: None, banked_as: None }
}

/// The row of a new question, instantiated from a bank template.
pub fn create_from_bank(
    id: ExamQuestionId,
    exam: ExamId,
    subject: SubjectId,
    text: String,
    points: i64,
    spec: QuestionSpec,
    source: BankQuestionId,
) -> (question: ExamQuestion)
    ensures
        question == (ExamQuestion {
            id,
            exam,
            subject,
            text,
            points,
            spec,
            from_bank: Some(source),
            banked_as: None,
        }),
{
    ExamQuestion {
        id,
        exam,
        subject,
        text,
        points,
        spec,
        from_bank: Some(source),
        banked_as: None,
    }
}

pub const READ: &'static str =
    "SELECT id, exam, subject, text, kind, points, choices, correct, from_bank, banked_as FROM \
     exam_question WHERE id = $1";

/// The read of one question.
pub fn read(id: ExamQuestionId) -> (statement: Statement)
    ensures
        statement@ == crate::page::sends(READ, seq![ParamView::Uuid(id.0)]),
{
    Statement::new(READ, vec![Param::Uuid(id.0)])
}

pub const LIST_FOR_EXAM_FROM: &'static str =
    "exam_question WHERE exam = $1";

pub const LIST_FOR_EXAM_ORDER: &'static str = "ORDER BY id ASC";

/// The read of an exam's questions in presentation order.
pub fn list_for_exam(
    exam: ExamId,
    limit: Option<i64>,
    offset: i64,
) -> (both: (Statement, Option<Statement>))
    ensures
        crate::page::pages(
            both,
            LIST_FOR_EXAM_FROM@,
            LIST_FOR_EXAM_ORDER@,
            seq![ParamView::Uuid(exam.0)],
            limit,
            offset,
        ),
{
    let binds: Vec<Param> = vec![Param::Uuid(exam.0)];
    assert(crate::page::bound(binds@) =~= seq![ParamView::Uuid(exam.0)]);
    paged(LIST_FOR_EXAM_FROM, LIST_FOR_EXAM_ORDER, binds, limit, offset)
}

pub const LIST_SHARED_WITH: &'static str =
    "WITH shared AS ( SELECT from_bank AS t FROM exam_question WHERE exam = ANY($1) AND \
     from_bank IS NOT NULL UNION SELECT banked_as FROM exam_question WHERE exam = ANY($1) AND \
     banked_as IS NOT NULL) SELECT q.id FROM exam_question q WHERE q.exam = $2 AND (q.from_bank \
     IN (SELECT t FROM shared) OR q.banked_as IN (SELECT t FROM shared))";

/// The keys behind a list of exams.
pub open spec fn exam_keys(exams: Seq<ExamId>) -> Seq<Uuid> {
    Seq::new(exams.len(), |i: int| exams[i].0)
}

/// The read of an exam's questions that share a bank template with a question
/// of one of the `live` exams, by either link on either side. No live exam is
/// no read, and nothing shared.
pub fn list_shared_with(exam: ExamId, live: &Vec<ExamId>) -> (statement: Option<Statement>)
    ensures
        statement is Some == (live.len() > 0),
        statement is Some ==> statement->0@ == crate::page::sends(
            LIST_SHARED_WITH,
            seq![ParamView::Uuids(exam_keys(live@)), ParamView::Uuid(exam.0)],
        ),
{
    if live.len() == 0 {
        return None;
    }
    let mut keys: Vec<Uuid> = Vec::new();
    let mut i: usize = 0;
    while i < live.len()
        invariant
            0 <= i <= live.len(),
            keys.len() == i,
            forall|k: int| 0 <= k < i ==> #[trigger] keys@[k] == live@[k].0,
        decreases live.len() - i,
    {
        keys.push(live[i].0);
        i += 1;
    }
    assert(keys@ =~= exam_keys(live@));
    Some(Statement::new(LIST_SHARED_WITH, vec![Param::Uuids(keys), Param::Uuid(exam.0)]))
}

/// The statement an update waits for.
#[derive(Clone, Copy, PartialEq, Eq, Structural, Debug)]
pub enum Update {
    /// A step of the freeze gate.
    Gate(Freeze),
    /// Give the reference on the subject that was read back.
    Release,
    /// Take a reference on the new subject.
    Claim,
    /// Write the row, only while it has the subject that was read; its row is
    /// the answer.
    Write,
    /// Read whether the row is still there: a [`Reply::Flag`].
    Probe,
}

/// Why an update is refused.
#[derive(Clone, Copy, PartialEq, Eq, Structural, Debug)]
pub enum UpdateRefusal {
    Gate(FreezeRefusal),
    DeadSubject,
    Gone,
    Stale,
}

/// An update of a question: the row as it was read, and the values to write.
pub struct UpdateRequest {
    pub id: ExamQuestionId,
    pub exam: ExamId,
    pub snapshot: SubjectId,
    pub subject: SubjectId,
    pub text: String,
    pub points: i64,
    pub spec: QuestionSpec,
}

pub const RELEASE_SUBJECT: &'static str =
    "UPDATE subject SET exam_question_count = GREATEST(exam_question_count - 1, 0) WHERE id = $1";
pub const CLAIM_SUBJECT: &'static str =
    "UPDATE subject SET exam_question_count = subject.exam_question_count + 1 WHERE id = $1 \
     RETURNING 1 AS n";
pub const WRITE_QUESTION: &'static str =
    "UPDATE exam_question SET subject = $2, text = $3, points = $4, kind = $5, choices = $6, \
     correct = $7 WHERE id = $1 AND subject = $8 RETURNING id, exam, subject, text, kind, \
     points, choices, correct, from_bank, banked_as";
pub const QUESTION_LIVE: &'static str =
    "SELECT EXISTS(SELECT 1 FROM exam_question WHERE id = $1) AS live";

impl UpdateRequest {
    /// Whether the rewrite moves the question to another subject than the one it
    /// was read on.
    pub open spec fn moves_subject(self) -> bool {
        self.subject != self.snapshot
    }

    /// Whether the rewrite moves the question to another subject than the one it
    /// was read on: the `retag` of [`update`].
    pub fn retags(&self) -> (retags: bool)
        ensures
            retags == self.moves_subject(),
    {
        self.subject != self.snapshot
    }

    /// The statement of a step.
    pub open spec fn asks(self, at: Update) -> StatementView {
        match at {
            Update::Gate(gate) => gate.asks(self.exam),
            Update::Release => crate::page::sends(
                RELEASE_SUBJECT,
                seq![ParamView::Uuid(self.snapshot.0)],
            ),
            Update::Claim => crate::page::sends(
                CLAIM_SUBJECT,
                seq![ParamView::Uuid(self.subject.0)],
            ),
            Update::Write => crate::page::sends(
                WRITE_QUESTION,
                seq![
                    ParamView::Uuid(self.id.0),
                    ParamView::Uuid(self.subject.0),
                    ParamView::Text(self.text@),
                    ParamView::I64(self.points),
                    ParamView::Text(self.spec.kind@),
                    ParamView::OptJson(self.spec.choices),
                    ParamView::OptText(crate::page::opt_string_view(self.spec.correct)),
                    ParamView::Uuid(self.snapshot.0),
                ],
            ),
            Update::Probe => crate::page::sends(QUESTION_LIVE, seq![ParamView::Uuid(self.id.0)]),
        }
    }

    /// The statement of a step.
    pub fn statement(&self, at: Update) -> (statement: Statement)
        ensures
            statement@ == self.asks(at),
    {
        match at {
            Update::Gate(gate) => gate.statement(self.exam),
            Update::Release => Statement::new(RELEASE_SUBJECT, vec![Param::Uuid(self.snapshot.0)]),
            Update::Claim => Statement::new(CLAIM_SUBJECT, vec![Param::Uuid(self.subject.0)]),
            Update::Write => Statement::new(
                WRITE_QUESTION,
                vec![
                    Param::Uuid(self.id.0),
                    Param::Uuid(self.subject.0),
                    Param::Text(self.text.clone()),
                    Param::I64(self.points),
                    Param::Text(self.spec.kind.clone()),
                    Param::OptJson(opt_json(&self.spec.choices)),
                    Param::OptText(opt_string(&self.spec.correct)),
                    Param::Uuid(self.snapshot.0),
                ],
            ),
            Update::Probe => Statement::new(QUESTION_LIVE, vec![Param::Uuid(self.id.0)]),
        }
    }
}

/// What an update does once the statement of `at` is answered. `retag` is
/// whether it moves the question to another subject than it was read on.
pub open spec fn update_next(at: Update, retag: bool, reply: Reply) -> Step<
    Update,
    (),
    UpdateRefusal,
> {
    match at {
        Update::Gate(gate) => match crate::exam_attempt::freeze_next(gate, reply) {
            Step::Ask(next) => Step::Ask(Update::Gate(next)),
            Step::Commit(_) => if retag {
                Step::Ask(Update::Release)
            } else {
                Step::Ask(Update::Write)
            },
            Step::Abort(refusal) => Step::Abort(UpdateRefusal::Gate(refusal)),
        },
        Update::Release => Step::Ask(Update::Claim),
        Update::Claim => if reply.has_row() {
            Step::Ask(Update::Write)
        } else {
            Step::Abort(UpdateRefusal::DeadSubject)
        },
        Update::Write => if reply.has_row() {
            Step::Commit(())
        } else {
            Step::Ask(Update::Probe)
        },
        Update::Probe => if reply.is_up() {
            Step::Abort(UpdateRefusal::Stale)
        } else {
            Step::Abort(UpdateRefusal::Gone)
        },
    }
}

/// Write a question's editable fields: the step that follows the answer to
/// `at`. An update starts at the freeze gate. The counters move only where
/// the subject changes, but the write compares the subject always: every one
/// of these updates carries it.
pub fn update(at: Update, retag: bool, reply: Reply) -> (step: Step<Update, (), UpdateRefusal>)
    ensures
        step == update_next(at, retag, reply),
{
    match at {
        Update::Gate(gate) => match freeze_gate(gate, reply) {
            Step::Ask(next) => Step::Ask(Update::Gate(next)),
            Step::Commit(_) => if retag {
                Step::Ask(Update::Release)
            } else {
                Step::Ask(Update::Write)
            },
            Step::Abort(refusal) => Step::Abort(UpdateRefusal::Gate(refusal)),
        },
        Update::Release => Step::Ask(Update::Claim),
        Update::Claim => if reply.row() {
            Step::Ask(Update::Write)
        } else {
            Step::Abort(UpdateRefusal::DeadSubject)
        },
        Update::Write => if reply.row() {
            Step::Commit(())
        } else {
            Step::Ask(Update::Probe)
        },
        Update::Probe => if reply.flag() {
            Step::Abort(UpdateRefusal::Stale)
        } else {
            Step::Abort(UpdateRefusal::Gone)
        },
    }
}

/// The answer to an update off a subject that had changed since it was read.
pub const STALE_SUBJECT: &'static str =
    "the subject this question was read on changed since; re-read and retry";

impl UpdateRefusal {
    /// What a refused update answers.
    pub open spec fn answers(self) -> AppErrorView {
        match self {
            UpdateRefusal::Gate(refusal) => refusal.answers(),
            UpdateRefusal::DeadSubject => dead_subject_view(),
            UpdateRefusal::Gone => AppErrorView::NotFound,
            UpdateRefusal::Stale => AppErrorView::Conflict(STALE_SUBJECT@),
        }
    }

    /// What a refused update answers.
    pub fn error(self) -> (error: AppError)
        ensures
            error@ == self.answers(),
    {
        match self {
            UpdateRefusal::Gate(refusal) => refusal.error(),
            UpdateRefusal::DeadSubject => dead_subject(),
            UpdateRefusal::Gone => AppError::NotFound,
            UpdateRefusal::Stale => AppError::Conflict(STALE_SUBJECT),
        }
    }
}

pub const LINK_BANKED_AS: &'static str =
    "UPDATE exam_question SET banked_as = $2 WHERE id = $1 RETURNING id, exam, subject, text, \
     kind, points, choices, correct, from_bank, banked_as";

/// The write that points a question at the bank template it was saved as, and
/// nothing else; `NotFound` where nothing comes back.
pub fn link_banked_as(id: ExamQuestionId, template: BankQuestionId) -> (statement: Statement)
    ensures
        statement@ == crate::page::sends(
            LINK_BANKED_AS,
            seq![ParamView::Uuid(id.0), ParamView::Uuid(template.0)],
        ),
{
    Statement::new(LINK_BANKED_AS, vec![Param::Uuid(id.0), Param::Uuid(template.0)])
}

/// The statement a delete waits for.
#[derive(Clone, Copy, PartialEq, Eq, Structural, Debug)]
pub enum Delete {
    /// A step of the freeze gate.
    Gate(Freeze),
    WipeAnswers,
    WipeImages,
    /// Delete the row: a [`Reply::Key`] with its subject; its row is the
    /// answer.
    DeleteRow,
    /// Give the subject's reference back.
    Release { subject: SubjectId },
}

/// Why a delete is refused.
#[derive(Clone, Copy, PartialEq, Eq, Structural, Debug)]
pub enum DeleteRefusal {
    Gate(FreezeRefusal),
    Gone,
}

pub const WIPE_ANSWERS: &'static str =
    "DELETE FROM exam_answer WHERE question = $1";
pub const WIPE_IMAGES: &'static str =
    "DELETE FROM question_image WHERE question = $1";
pub const DELETE_QUESTION: &'static str =
    "DELETE FROM exam_question WHERE id = $1 RETURNING id, exam, subject, text, kind, points, \
     choices, correct, from_bank, banked_as";

impl Delete {
    /// The statement of this step.
    pub open spec fn asks(self, id: ExamQuestionId, exam: ExamId) -> StatementView {
        let key = seq![ParamView::Uuid(id.0)];
        match self {
            Delete::Gate(gate) => gate.asks(exam),
            Delete::WipeAnswers => crate::page::sends(WIPE_ANSWERS, key),
            Delete::WipeImages => crate::page::sends(WIPE_IMAGES, key),
            Delete::DeleteRow => crate::page::sends(DELETE_QUESTION, key),
            Delete::Release { subject } => crate::page::sends(
                RELEASE_SUBJECT,
                seq![ParamView::Uuid(subject.0)],
            ),
        }
    }

    /// The statement of this step.
    pub fn statement(self, id: ExamQuestionId, exam: ExamId) -> (statement: Statement)
        ensures
            statement@ == self.asks(id, exam),
    {
        let key = vec![Param::Uuid(id.0)];
        match self {
            Delete::Gate(gate) => gate.statement(exam),
            Delete::WipeAnswers => Statement::new(WIPE_ANSWERS, key),
            Delete::WipeImages => Statement::new(WIPE_IMAGES, key),
            Delete::DeleteRow => Statement::new(DELETE_QUESTION, key),
            Delete::Release { subject } => Statement::new(
                RELEASE_SUBJECT,
                vec![Param::Uuid(subject.0)],
            ),
        }
    }
}

/// What a delete does once the statement of `at` is answered.
pub open spec fn delete_next(at: Delete, reply: Reply) -> Step<Delete, (), DeleteRefusal> {
    match at {
        Delete::Gate(gate) => match crate::exam_attempt::freeze_next(gate, reply) {
            Step::Ask(next) => Step::Ask(Delete::Gate(next)),
            Step::Commit(_) => Step::Ask(Delete::WipeAnswers),
            Step::Abort(refusal) => Step::Abort(DeleteRefusal::Gate(refusal)),
        },
        Delete::WipeAnswers => Step::Ask(Delete::WipeImages),
        Delete::WipeImages => Step::Ask(Delete::DeleteRow),
        Delete::DeleteRow => match reply.key() {
            Some(key) => Step::Ask(Delete::Release { subject: SubjectId(key) }),
            None => Step::Abort(DeleteRefusal::Gone),
        },
        Delete::Release { .. } => Step::Commit(()),
    }
}

/// Delete a question with its answers and images: the step that follows the
/// answer to `at`. A delete starts at the freeze gate.
pub fn delete(at: Delete, reply: Reply) -> (step: Step<Delete, (), DeleteRefusal>)
    ensures
        step == delete_next(at, reply),
{
    match at {
        Delete::Gate(gate) => match freeze_gate(gate, reply) {
            Step::Ask(next) => Step::Ask(Delete::Gate(next)),
            Step::Commit(_) => Step::Ask(Delete::WipeAnswers),
            Step::Abort(refusal) => Step::Abort(DeleteRefusal::Gate(refusal)),
        },
        Delete::WipeAnswers => Step::Ask(Delete::WipeImages),
        Delete::WipeImages => Step::Ask(Delete::DeleteRow),
        Delete::DeleteRow => match reply.uuid() {
            Some(key) => Step::Ask(Delete::Release { subject: SubjectId(key) }),
            None => Step::Abort(DeleteRefusal::Gone),
        },
        Delete::Release { .. } => Step::Commit(()),
    }
}

impl DeleteRefusal {
    /// What a refused delete answers.
    pub open spec fn answers(self) -> AppErrorView {
        match self {
            DeleteRefusal::Gate(refusal) => refusal.answers(),
            DeleteRefusal::Gone => AppErrorView::NotFound,
        }
    }

    /// What a refused delete answers.
    pub fn error(self) -> (error: AppError)
        ensures
            error@ == self.answers(),
    {
        match self {
            DeleteRefusal::Gate(refusal) => refusal.error(),
            DeleteRefusal::Gone => AppError::NotFound,
        }
    }
}

/// The subject each question is tagged with, and each subject's
/// `exam_question_count`.
pub type Tags = References<ExamQuestionId, SubjectId>;

/// What each statement of an insert does to the tags, and what it replies.
pub open spec fn insert_effect(
    db: Tags,
    sat: Sat,
    exam: ExamId,
    id: ExamQuestionId,
    subject: SubjectId,
    at: Insert,
) -> (Tags, Reply) {
    match at {
        Insert::Gate(gate) => (db, crate::exam_attempt::freeze_reply(sat, exam, gate)),
        Insert::ClaimAndInsert => if db.counts.contains_key(subject) {
            (db.claimed(subject).linked(id, subject), Reply::Row)
        } else {
            (db, Reply::Empty)
        },
    }
}

/// A whole insert against the tags.
pub open spec fn insert_run(
    db: Tags,
    sat: Sat,
    exam: ExamId,
    id: ExamQuestionId,
    subject: SubjectId,
) -> (Tags, Step<Insert, (), InsertRefusal>) {
    crate::transaction::run(
        db,
        Step::Ask(Insert::Gate(Freeze::LockExam)),
        |at: Insert, reply: Reply| insert_next(at, reply),
        |tags: Tags, at: Insert| insert_effect(tags, sat, exam, id, subject, at),
        3,
    )
}

/// A question is inserted exactly when its exam is there and nobody has
/// started it, and its subject is there. The row and its reference land
/// together or not at all, and the counts stay in order.
pub proof fn law_insert_keeps_counts(
    db: Tags,
    sat: Sat,
    exam: ExamId,
    id: ExamQuestionId,
    subject: SubjectId,
)
    requires
        db.counted(),
        !db.links.contains_key(id),
    ensures
        ({
            let end = insert_run(db, sat, exam, id, subject);
            let after = crate::transaction::stored(db, end);
            &&& end.1 == crate::transaction::ends::<Insert, (), InsertRefusal>(
                (),
                match crate::exam_attempt::freeze_refusal(sat, exam) {
                    Some(refusal) => Some(InsertRefusal::Gate(refusal)),
                    None => if db.counts.contains_key(subject) {
                        None
                    } else {
                        Some(InsertRefusal::DeadSubject)
                    },
                },
            )
            &&& end.1 is Abort ==> after == db
            &&& end.1 is Commit ==> after.links == db.links.insert(id, subject)
            &&& after.counted()
        }),
{
    reveal_with_fuel(crate::transaction::run, 4);
    crate::reference::lemma_link_counted(db, id, subject);
}

/// What each statement of an update does to the tags, and what it replies.
pub open spec fn update_effect(
    db: Tags,
    sat: Sat,
    exam: ExamId,
    id: ExamQuestionId,
    snapshot: SubjectId,
    subject: SubjectId,
    at: Update,
) -> (Tags, Reply) {
    match at {
        Update::Gate(gate) => (db, crate::exam_attempt::freeze_reply(sat, exam, gate)),
        Update::Release => (db.released(snapshot), Reply::Row),
        Update::Claim => if db.counts.contains_key(subject) {
            (db.claimed(subject), Reply::Row)
        } else {
            (db, Reply::Empty)
        },
        Update::Write => if db.links.contains_key(id) && db.links[id] == snapshot {
            (db.linked(id, subject), Reply::Row)
        } else {
            (db, Reply::Empty)
        },
        Update::Probe => (db, Reply::Flag(db.links.contains_key(id))),
    }
}

/// A whole update against the tags.
pub open spec fn update_run(
    db: Tags,
    sat: Sat,
    exam: ExamId,
    id: ExamQuestionId,
    snapshot: SubjectId,
    subject: SubjectId,
) -> (Tags, Step<Update, (), UpdateRefusal>) {
    crate::transaction::run(
        db,
        Step::Ask(Update::Gate(Freeze::LockExam)),
        |at: Update, reply: Reply| update_next(at, subject != snapshot, reply),
        |tags: Tags, at: Update| update_effect(tags, sat, exam, id, snapshot, subject, at),
        6,
    )
}

/// The refusal an update meets, if any.
pub open spec fn update_refusal(
    db: Tags,
    sat: Sat,
    exam: ExamId,
    id: ExamQuestionId,
    snapshot: SubjectId,
    subject: SubjectId,
) -> Option<UpdateRefusal> {
    match crate::exam_attempt::freeze_refusal(sat, exam) {
        Some(refusal) => Some(UpdateRefusal::Gate(refusal)),
        None => if subject != snapshot && !db.counts.contains_key(subject) {
            Some(UpdateRefusal::DeadSubject)
        } else if !db.links.contains_key(id) {
            Some(UpdateRefusal::Gone)
        } else if db.links[id] != snapshot {
            Some(UpdateRefusal::Stale)
        } else {
            None
        },
    }
}

/// An update lands exactly when nothing freezes the exam, its subject is
/// there and the row still has the subject it was read on. A stale mover and
/// a stale re-stater are refused, a genuine re-statement lands, and a deleted
/// question is told apart from a moved one. A refused update leaves every tag
/// and count as it was, a landed one keeps the counts in order.
pub proof fn law_update_keeps_counts(
    db: Tags,
    sat: Sat,
    exam: ExamId,
    id: ExamQuestionId,
    snapshot: SubjectId,
    subject: SubjectId,
)
    requires
        db.counted(),
    ensures
        ({
            let end = update_run(db, sat, exam, id, snapshot, subject);
            let after = crate::transaction::stored(db, end);
            let refusal = update_refusal(db, sat, exam, id, snapshot, subject);
            &&& end.1 == crate::transaction::ends::<Update, (), UpdateRefusal>((), refusal)
            &&& refusal is Some ==> after == db
            &&& refusal is None ==> after.links == db.links.insert(id, subject)
            &&& refusal is None && subject == snapshot ==> after == db
            &&& after.counted()
        }),
{
    reveal_with_fuel(crate::transaction::run, 7);
    if update_refusal(db, sat, exam, id, snapshot, subject) is None {
        if subject != snapshot {
            crate::reference::lemma_relink_counted(db, id, subject);
        } else {
            assert(db.linked(id, subject) =~= db);
        }
    }
}

/// What each statement of a delete does to the tags, and what it replies.
pub open spec fn delete_effect(
    db: Tags,
    sat: Sat,
    exam: ExamId,
    id: ExamQuestionId,
    at: Delete,
) -> (Tags, Reply) {
    match at {
        Delete::Gate(gate) => (db, crate::exam_attempt::freeze_reply(sat, exam, gate)),
        Delete::DeleteRow => if db.links.contains_key(id) {
            (db.unlinked(id), Reply::Key(db.links[id].0))
        } else {
            (db, Reply::Empty)
        },
        Delete::Release { subject } => (db.released(subject), Reply::Row),
        _ => (db, Reply::Row),
    }
}

/// A whole delete against the tags.
pub open spec fn delete_run(db: Tags, sat: Sat, exam: ExamId, id: ExamQuestionId) -> (Tags, Step<
    Delete,
    (),
    DeleteRefusal,
>) {
    crate::transaction::run(
        db,
        Step::Ask(Delete::Gate(Freeze::LockExam)),
        |at: Delete, reply: Reply| delete_next(at, reply),
        |tags: Tags, at: Delete| delete_effect(tags, sat, exam, id, at),
        6,
    )
}

/// A question is deleted exactly when nothing freezes its exam and it is
/// there; its reference goes with it, and the counts stay in order.
pub proof fn law_delete_keeps_counts(db: Tags, sat: Sat, exam: ExamId, id: ExamQuestionId)
    requires
        db.counted(),
    ensures
        ({
            let end = delete_run(db, sat, exam, id);
            let after = crate::transaction::stored(db, end);
            &&& end.1 == crate::transaction::ends::<Delete, (), DeleteRefusal>(
                (),
                match crate::exam_attempt::freeze_refusal(sat, exam) {
                    Some(refusal) => Some(DeleteRefusal::Gate(refusal)),
                    None => if db.links.contains_key(id) {
                        None
                    } else {
                        Some(DeleteRefusal::Gone)
                    },
                },
            )
            &&& end.1 is Abort ==> after == db
            &&& end.1 is Commit ==> after.links == db.links.remove(id)
            &&& after.counted()
        }),
{
    reveal_with_fuel(crate::transaction::run, 7);
    if db.links.contains_key(id) {
        crate::reference::lemma_unlink_counted(db, id);
    }
}

/// The questions with the subject of each, and the answers and the images that
/// hang off them.
#[verifier::ext_equal]
pub struct Paper {
    pub questions: Map<ExamQuestionId, SubjectId>,
    pub answers: Map<Uuid, ExamQuestionId>,
    pub images: Map<(ExamQuestionId, Option<Seq<char>>), Seq<char>>,
}

/// What each statement of a delete does to the questions and what hangs off
/// them, and what it replies.
pub open spec fn cascade_effect(
    db: Paper,
    sat: Sat,
    exam: ExamId,
    id: ExamQuestionId,
    at: Delete,
) -> (Paper, Reply) {
    match at {
        Delete::Gate(gate) => (db, crate::exam_attempt::freeze_reply(sat, exam, gate)),
        Delete::WipeAnswers => (
            Paper {
                answers: db.answers.remove_keys(
                    db.answers.dom().filter(|answer: Uuid| db.answers[answer] == id),
                ),
                ..db
            },
            Reply::Row,
        ),
        Delete::WipeImages => (
            Paper {
                images: db.images.remove_keys(
                    db.images.dom().filter(
                        |slot: (ExamQuestionId, Option<Seq<char>>)| slot.0 == id,
                    ),
                ),
                ..db
            },
            Reply::Row,
        ),
        Delete::DeleteRow => if db.questions.contains_key(id) {
            (Paper { questions: db.questions.remove(id), ..db }, Reply::Key(db.questions[id].0))
        } else {
            (db, Reply::Empty)
        },
        Delete::Release { .. } => (db, Reply::Row),
    }
}

/// A whole delete against the questions and what hangs off them.
pub open spec fn cascade_run(db: Paper, sat: Sat, exam: ExamId, id: ExamQuestionId) -> (
    Paper,
    Step<Delete, (), DeleteRefusal>,
) {
    crate::transaction::run(
        db,
        Step::Ask(Delete::Gate(Freeze::LockExam)),
        |at: Delete, reply: Reply| delete_next(at, reply),
        |paper: Paper, at: Delete| cascade_effect(paper, sat, exam, id, at),
        6,
    )
}

/// No answer and no image outlives its question: a delete takes them together
/// and nothing of any other question, and one that the freeze gate or a missing
/// row refuses takes nothing.
pub proof fn law_delete_takes_answers_and_images(
    db: Paper,
    sat: Sat,
    exam: ExamId,
    id: ExamQuestionId,
    answer: Uuid,
    slot: (ExamQuestionId, Option<Seq<char>>),
)
    ensures
        ({
            let end = cascade_run(db, sat, exam, id);
            let after = crate::transaction::stored(db, end);
            if crate::exam_attempt::freeze_refusal(sat, exam) is None && db.questions.contains_key(
                id,
            ) {
                &&& end.1 is Commit
                &&& after.questions == db.questions.remove(id)
                &&& after.answers.contains_key(answer) <==> db.answers.contains_key(answer)
                    && db.answers[answer] != id
                &&& after.answers.contains_key(answer) ==> after.answers[answer]
                    == db.answers[answer]
                &&& after.images.contains_key(slot) <==> db.images.contains_key(slot) && slot.0
                    != id
                &&& after.images.contains_key(slot) ==> after.images[slot] == db.images[slot]
            } else {
                end.1 is Abort && after == db
            }
        }),
{
    reveal_with_fuel(crate::transaction::run, 7);
}

/// The bank templates a stored question links to.
pub struct TemplateLinks {
    pub exam: ExamId,
    pub from_bank: Option<Uuid>,
    pub banked_as: Option<Uuid>,
}

/// Whether a question links to a template by either column.
pub open spec fn links_to(question: TemplateLinks, template: Uuid) -> bool {
    question.from_bank == Some(template) || question.banked_as == Some(template)
}

/// Whether a question shares a template with a question of a live exam.
pub open spec fn is_shared(
    questions: Map<ExamQuestionId, TemplateLinks>,
    live: Set<ExamId>,
    question: TemplateLinks,
) -> bool {
    exists|template: Uuid, other: ExamQuestionId| #[trigger]
        links_to(questions[other], template) && questions.contains_key(other) && live.contains(
            questions[other].exam,
        ) && links_to(question, template)
}

/// Sharing is seen from both sides and through either column: if a question
/// of exam A shares a template with one of live exam B, then with A live the
/// question of B shares with A.
pub proof fn law_sharing_is_mutual(
    questions: Map<ExamQuestionId, TemplateLinks>,
    a: ExamQuestionId,
    b: ExamQuestionId,
    template: Uuid,
)
    requires
        questions.contains_key(a),
        questions.contains_key(b),
        links_to(questions[a], template),
        links_to(questions[b], template),
    ensures
        is_shared(questions, set![questions[b].exam], questions[a]),
        is_shared(questions, set![questions[a].exam], questions[b]),
{
    assert(links_to(questions[a], template));
    assert(links_to(questions[b], template));
}

/// What [`READ`] says.
pub open spec fn read_reading() -> Picking {
    Picking {
        skip: 84,
        head: " FROM "@,
        columns: Seq::empty(),
        table: "exam_question"@,
        conditions: seq![crate::sql::is_bound("id"@, 1)],
        rest: Text::End,
    }
}

proof fn lemma_read_reads()
    ensures
        crate::sql::spells(READ@, 84, read_reading().text()),
{
    reveal_strlit("SELECT id, exam, subject, text, kind, points, choices, correct, from_bank, banked_as FROM exam_question WHERE id = $1");
    reveal_strlit(" FROM ");
    reveal_strlit("exam_question");
    reveal_strlit(" WHERE ");
    reveal_strlit("id");
    reveal_strlit(" = ");
    reveal_strlit("$");
    reveal(crate::sql::Picking::text);
    reveal_with_fuel(crate::sql::where_text, 2);
    reveal_with_fuel(crate::sql::stands, 14);
    reveal_with_fuel(crate::sql::spells_by, 7);
    crate::sql::lemma_spells_by(READ@, 84, read_reading().text(), crate::sql::cut(90, crate::sql::cut(103, crate::sql::cut(110, crate::sql::cut(112, crate::sql::cut(115, crate::sql::cut(117, Cuts::Last)))))));
}

/// [`read`] reads the rows it names and no other.
pub proof fn law_read_reads_its_rows(
    id: ExamQuestionId,
    sent: Statement,
    row: Row,
)
    requires
        call_ensures(read, (id,), sent),
    ensures
        read_reading().is_read(sent@),
        read_reading().picks(sent@.binds, row) == (row["id"@] == Cell::Uuid(id.0)),
{
    lemma_read_reads();
    reveal_with_fuel(crate::sql::all_hold, 2);
}

/// What [`LINK_BANKED_AS`] says.
pub open spec fn link_banked_as_reading() -> Writing {
    Writing {
        head: "UPDATE "@,
        table: "exam_question"@,
        sets: seq![("banked_as"@, crate::sql::bind(2))],
        conditions: seq![crate::sql::is_bound("id"@, 1)],
        rest: crate::sql::returning(),
    }
}

proof fn lemma_link_banked_as_reads()
    ensures
        crate::sql::spells(LINK_BANKED_AS@, 0, link_banked_as_reading().text()),
{
    reveal_strlit("UPDATE exam_question SET banked_as = $2 WHERE id = $1 RETURNING id, exam, subject, text, kind, points, choices, correct, from_bank, banked_as");
    reveal_strlit("UPDATE ");
    reveal_strlit("exam_question");
    reveal_strlit(" SET ");
    reveal_strlit("banked_as");
    reveal_strlit(" = ");
    reveal_strlit("$");
    reveal_strlit(" WHERE ");
    reveal_strlit("id");
    reveal_strlit(" RETURNING ");
    reveal(crate::sql::Writing::text);
    reveal_with_fuel(crate::sql::set_text, 2);
    reveal_with_fuel(crate::sql::where_text, 2);
    reveal_with_fuel(crate::sql::stands, 14);
    reveal_with_fuel(crate::sql::spells_by, 12);
    crate::sql::lemma_spells_by(LINK_BANKED_AS@, 0, link_banked_as_reading().text(), crate::sql::cut(7, crate::sql::cut(20, crate::sql::cut(25, crate::sql::cut(34, crate::sql::cut(37, crate::sql::cut(39, crate::sql::cut(46, crate::sql::cut(48, crate::sql::cut(51, crate::sql::cut(53, crate::sql::cut(64, Cuts::Last))))))))))));
}

/// [`link_banked_as`] picks the rows it names and no other, and overwrites each column with
/// its own value.
pub proof fn law_link_banked_as_writes_its_row(
    id: ExamQuestionId,
    template: BankQuestionId,
    sent: Statement,
    row: Row,
)
    requires
        call_ensures(link_banked_as, (id, template), sent),
    ensures
        link_banked_as_reading().is_read(sent@),
        link_banked_as_reading().picks(sent@.binds, row) == (row["id"@] == Cell::Uuid(id.0)),
        link_banked_as_reading().writes(sent@.binds, row) == seq![
            ("banked_as"@, Cell::Uuid(template.0)),
        ],
{
    lemma_link_banked_as_reads();
    reveal_with_fuel(crate::sql::all_hold, 2);
}

/// What [`LIST_FOR_EXAM_FROM`] says.
pub open spec fn list_for_exam_from_reading() -> Picking {
    Picking {
        skip: 0,
        head: ""@,
        columns: Seq::empty(),
        table: "exam_question"@,
        conditions: seq![crate::sql::is_bound("exam"@, 1)],
        rest: Text::End,
    }
}

proof fn lemma_list_for_exam_from_reads()
    ensures
        crate::sql::spells(LIST_FOR_EXAM_FROM@, 0, list_for_exam_from_reading().text()),
{
    reveal_strlit("exam_question WHERE exam = $1");
    reveal_strlit("");
    reveal_strlit("exam_question");
    reveal_strlit(" WHERE ");
    reveal_strlit("exam");
    reveal_strlit(" = ");
    reveal_strlit("$");
    reveal(crate::sql::Picking::text);
    reveal_with_fuel(crate::sql::where_text, 2);
    reveal_with_fuel(crate::sql::stands, 14);
    reveal_with_fuel(crate::sql::spells_by, 7);
    crate::sql::lemma_spells_by(LIST_FOR_EXAM_FROM@, 0, list_for_exam_from_reading().text(), crate::sql::cut(0, crate::sql::cut(13, crate::sql::cut(20, crate::sql::cut(24, crate::sql::cut(27, crate::sql::cut(29, Cuts::Last)))))));
}

/// [`list_for_exam`] pages the rows it names and no other.
pub proof fn law_list_for_exam_reads_its_rows(
    exam: ExamId,
    limit: Option<i64>,
    offset: i64,
    both: (Statement, Option<Statement>),
    row: Row,
)
    requires
        call_ensures(list_for_exam, (exam, limit, offset), both),
    ensures
        crate::sql::spells(
            both.0@.sql,
            0,
            crate::sql::before("SELECT * FROM "@, crate::sql::opened(list_for_exam_from_reading().text())),
        ),
        list_for_exam_from_reading().picks(both.0@.binds, row) == (row["exam"@] == Cell::Uuid(exam.0)),
{
    lemma_list_for_exam_from_reads();
    reveal(crate::sql::Picking::text);
    reveal_with_fuel(crate::sql::where_text, 2);
    reveal_with_fuel(crate::sql::is_open, 7);
    reveal_with_fuel(crate::sql::all_hold, 2);
    crate::page::law_page_reads_its_rows(
        both,
        LIST_FOR_EXAM_FROM@,
        LIST_FOR_EXAM_ORDER@,
        seq![ParamView::Uuid(exam.0)],
        limit,
        offset,
        list_for_exam_from_reading().text(),
    );
}

/// The row that [`CLAIM_AND_INSERT`] inserts where its first part wrote.
pub open spec fn claim_and_insert_row() -> Storing {
    Storing {
        head: "INSERT INTO "@,
        table: "exam_question"@,
        columns: seq!["id"@, "exam"@, "subject"@, "text"@, "kind"@, "points"@, "choices"@, "correct"@, "from_bank"@, "banked_as"@],
        values: seq![Term::Bind(2), Term::Bind(3), Term::Bind(1), Term::Bind(4), Term::Bind(5), Term::Bind(6), Term::Bind(7), Term::Bind(8), Term::Bind(9), Term::Word("NULL"@, Cell::Null)],
        selected: true,
        conflict: Conflict::Unread,
        rest: crate::sql::before(" WHERE EXISTS (SELECT 1 FROM seat)"@, crate::sql::returning()),
    }
}

/// What [`CLAIM_AND_INSERT`] says.
pub open spec fn claim_and_insert_reading() -> Writing {
    Writing {
        head: "WITH seat AS ( UPDATE "@,
        table: "subject"@,
        sets: seq![("exam_question_count"@, Expr::Plus(Term::Of("subject"@, "exam_question_count"@), Term::Word("1"@, Cell::Int(1))))],
        conditions: seq![crate::sql::is_bound("id"@, 1)],
        rest: crate::sql::before(" RETURNING 1) "@, claim_and_insert_row().text()),
    }
}

#[verifier::rlimit(20)]
proof fn lemma_claim_and_insert_reads()
    ensures
        crate::sql::spells(CLAIM_AND_INSERT@, 0, claim_and_insert_reading().text()),
{
    reveal_strlit("WITH seat AS ( UPDATE subject SET exam_question_count = subject.exam_question_count + 1 WHERE id = $1 RETURNING 1) INSERT INTO exam_question (id, exam, subject, text, kind, points, choices, correct, from_bank, banked_as) SELECT $2, $3, $1, $4, $5, $6, $7, $8, $9, NULL WHERE EXISTS (SELECT 1 FROM seat) RETURNING id, exam, subject, text, kind, points, choices, correct, from_bank, banked_as");
    reveal_strlit("WITH seat AS ( UPDATE ");
    reveal_strlit("subject");
    reveal_strlit(" SET ");
    reveal_strlit("exam_question_count");
    reveal_strlit(" = ");
    reveal_strlit(".");
    reveal_strlit(" + ");
    reveal_strlit("1");
    reveal_strlit(" WHERE ");
    reveal_strlit("id");
    reveal_strlit("$");
    reveal_strlit(" RETURNING 1) ");
    reveal_strlit("INSERT INTO ");
    reveal_strlit("exam_question");
    reveal_strlit(" (");
    reveal_strlit(", ");
    reveal_strlit("exam");
    reveal_strlit("text");
    reveal_strlit("kind");
    reveal_strlit("points");
    reveal_strlit("choices");
    reveal_strlit("correct");
    reveal_strlit("from_bank");
    reveal_strlit("banked_as");
    reveal_strlit(") SELECT ");
    reveal_strlit("NULL");
    reveal_strlit(" WHERE EXISTS (SELECT 1 FROM seat)");
    reveal_strlit(" RETURNING ");
    reveal(crate::sql::Writing::text);
    reveal(crate::sql::Storing::text);
    reveal_with_fuel(crate::sql::set_text, 2);
    reveal_with_fuel(crate::sql::where_text, 2);
    reveal_with_fuel(crate::sql::names_text, 11);
    reveal_with_fuel(crate::sql::values_text, 11);
    reveal_with_fuel(crate::sql::stands, 35);
    reveal_with_fuel(crate::sql::spells_by, 60);
    crate::sql::lemma_spells_by(CLAIM_AND_INSERT@, 0, claim_and_insert_reading().text(), crate::sql::cut(22, crate::sql::cut(29, crate::sql::cut(34, crate::sql::cut(53, crate::sql::cut(56, crate::sql::cut(63, crate::sql::cut(64, crate::sql::cut(83, crate::sql::cut(86, crate::sql::cut(87, crate::sql::cut(94, crate::sql::cut(96, crate::sql::cut(99, crate::sql::cut(101, crate::sql::cut(115, crate::sql::cut(127, crate::sql::cut(140, crate::sql::cut(142, crate::sql::cut(144, crate::sql::cut(146, crate::sql::cut(150, crate::sql::cut(152, crate::sql::cut(159, crate::sql::cut(161, crate::sql::cut(165, crate::sql::cut(167, crate::sql::cut(171, crate::sql::cut(173, crate::sql::cut(179, crate::sql::cut(181, crate::sql::cut(188, crate::sql::cut(190, crate::sql::cut(197, crate::sql::cut(199, crate::sql::cut(208, crate::sql::cut(210, crate::sql::cut(219, crate::sql::cut(228, crate::sql::cut(230, crate::sql::cut(232, crate::sql::cut(234, crate::sql::cut(236, crate::sql::cut(238, crate::sql::cut(240, crate::sql::cut(242, crate::sql::cut(244, crate::sql::cut(246, crate::sql::cut(248, crate::sql::cut(250, crate::sql::cut(252, crate::sql::cut(254, crate::sql::cut(256, crate::sql::cut(258, crate::sql::cut(260, crate::sql::cut(262, crate::sql::cut(264, crate::sql::cut(268, crate::sql::cut(302, crate::sql::cut(313, Cuts::Last))))))))))))))))))))))))))))))))))))))))))))))))))))))))))));
}

/// [`Insert::ClaimAndInsert`] writes the row it names where its condition holds, and then stores the
/// new row, each value in its own column.
pub proof fn law_insert_claim_and_insert_lands_in_its_columns(
    question: ExamQuestion,
    row: Row,
)
    ensures
        ({
            let sent = Insert::ClaimAndInsert.asks(question);
            &&& claim_and_insert_reading().is_read(sent)
            &&& claim_and_insert_reading().picks(sent.binds, row) == (row["id"@] == Cell::Uuid(question.subject.0))
            &&& claim_and_insert_reading().writes(sent.binds, row) == seq![
                ("exam_question_count"@, Cell::Int(row["exam_question_count"@].number() + 1)),
            ]
            &&& claim_and_insert_row().stores(sent.binds) == seq![
                ("id"@, Cell::Uuid(question.id.0)),
                ("exam"@, Cell::Uuid(question.exam.0)),
                ("subject"@, Cell::Uuid(question.subject.0)),
                ("text"@, Cell::Text(question.text@)),
                ("kind"@, Cell::Text(question.spec.kind@)),
                ("points"@, Cell::Int(question.points as int)),
                ("choices"@, crate::sql::opt_json(question.spec.choices)),
                ("correct"@, crate::sql::opt_text(crate::page::opt_string_view(question.spec.correct))),
                ("from_bank"@, crate::sql::opt_uuid(template_key(question.from_bank))),
                ("banked_as"@, Cell::Null),
            ]
        }),
{
    lemma_claim_and_insert_reads();
    reveal_with_fuel(crate::sql::all_hold, 2);
}

/// What [`RELEASE_SUBJECT`] says.
pub open spec fn release_subject_reading() -> Writing {
    Writing {
        head: "UPDATE "@,
        table: "subject"@,
        sets: seq![("exam_question_count"@, Expr::Floored(Term::Column("exam_question_count"@), Term::Word("1"@, Cell::Int(1))))],
        conditions: seq![crate::sql::is_bound("id"@, 1)],
        rest: Text::End,
    }
}

proof fn lemma_release_subject_reads()
    ensures
        crate::sql::spells(RELEASE_SUBJECT@, 0, release_subject_reading().text()),
{
    reveal_strlit("UPDATE subject SET exam_question_count = GREATEST(exam_question_count - 1, 0) WHERE id = $1");
    reveal_strlit("UPDATE ");
    reveal_strlit("subject");
    reveal_strlit(" SET ");
    reveal_strlit("exam_question_count");
    reveal_strlit(" = ");
    reveal_strlit("GREATEST(");
    reveal_strlit(" - ");
    reveal_strlit("1");
    reveal_strlit(", 0)");
    reveal_strlit(" WHERE ");
    reveal_strlit("id");
    reveal_strlit("$");
    reveal(crate::sql::Writing::text);
    reveal_with_fuel(crate::sql::set_text, 2);
    reveal_with_fuel(crate::sql::where_text, 2);
    reveal_with_fuel(crate::sql::stands, 20);
    reveal_with_fuel(crate::sql::spells_by, 15);
    crate::sql::lemma_spells_by(RELEASE_SUBJECT@, 0, release_subject_reading().text(), crate::sql::cut(7, crate::sql::cut(14, crate::sql::cut(19, crate::sql::cut(38, crate::sql::cut(41, crate::sql::cut(50, crate::sql::cut(69, crate::sql::cut(72, crate::sql::cut(73, crate::sql::cut(77, crate::sql::cut(84, crate::sql::cut(86, crate::sql::cut(89, crate::sql::cut(91, Cuts::Last)))))))))))))));
}

/// [`Update::Release`] picks the rows it names and no other, and overwrites each column with
/// its own value.
pub proof fn law_update_release_writes_its_row(
    request: UpdateRequest,
    row: Row,
)
    ensures
        ({
            let sent = request.asks(Update::Release);
            &&& release_subject_reading().is_read(sent)
            &&& release_subject_reading().picks(sent.binds, row) == (row["id"@] == Cell::Uuid(request.snapshot.0))
            &&& release_subject_reading().writes(sent.binds, row) == seq![
                ("exam_question_count"@, Cell::Int(crate::tally::floored(row["exam_question_count"@].number() - 1))),
            ]
        }),
{
    lemma_release_subject_reads();
    reveal_with_fuel(crate::sql::all_hold, 2);
}

/// What [`CLAIM_SUBJECT`] says.
pub open spec fn claim_subject_reading() -> Writing {
    Writing {
        head: "UPDATE "@,
        table: "subject"@,
        sets: seq![("exam_question_count"@, Expr::Plus(Term::Of("subject"@, "exam_question_count"@), Term::Word("1"@, Cell::Int(1))))],
        conditions: seq![crate::sql::is_bound("id"@, 1)],
        rest: crate::sql::returning(),
    }
}

proof fn lemma_claim_subject_reads()
    ensures
        crate::sql::spells(CLAIM_SUBJECT@, 0, claim_subject_reading().text()),
{
    reveal_strlit("UPDATE subject SET exam_question_count = subject.exam_question_count + 1 WHERE id = $1 RETURNING 1 AS n");
    reveal_strlit("UPDATE ");
    reveal_strlit("subject");
    reveal_strlit(" SET ");
    reveal_strlit("exam_question_count");
    reveal_strlit(" = ");
    reveal_strlit(".");
    reveal_strlit(" + ");
    reveal_strlit("1");
    reveal_strlit(" WHERE ");
    reveal_strlit("id");
    reveal_strlit("$");
    reveal_strlit(" RETURNING ");
    reveal(crate::sql::Writing::text);
    reveal_with_fuel(crate::sql::set_text, 2);
    reveal_with_fuel(crate::sql::where_text, 2);
    reveal_with_fuel(crate::sql::stands, 20);
    reveal_with_fuel(crate::sql::spells_by, 16);
    crate::sql::lemma_spells_by(CLAIM_SUBJECT@, 0, claim_subject_reading().text(), crate::sql::cut(7, crate::sql::cut(14, crate::sql::cut(19, crate::sql::cut(38, crate::sql::cut(41, crate::sql::cut(48, crate::sql::cut(49, crate::sql::cut(68, crate::sql::cut(71, crate::sql::cut(72, crate::sql::cut(79, crate::sql::cut(81, crate::sql::cut(84, crate::sql::cut(86, crate::sql::cut(97, Cuts::Last))))))))))))))));
}

/// [`Update::Claim`] picks the rows it names and no other, and overwrites each column with
/// its own value.
pub proof fn law_update_claim_writes_its_row(
    request: UpdateRequest,
    row: Row,
)
    ensures
        ({
            let sent = request.asks(Update::Claim);
            &&& claim_subject_reading().is_read(sent)
            &&& claim_subject_reading().picks(sent.binds, row) == (row["id"@] == Cell::Uuid(request.subject.0))
            &&& claim_subject_reading().writes(sent.binds, row) == seq![
                ("exam_question_count"@, Cell::Int(row["exam_question_count"@].number() + 1)),
            ]
        }),
{
    lemma_claim_subject_reads();
    reveal_with_fuel(crate::sql::all_hold, 2);
}

/// What [`WRITE_QUESTION`] says.
pub open spec fn write_question_reading() -> Writing {
    Writing {
        head: "UPDATE "@,
        table: "exam_question"@,
        sets: seq![("subject"@, crate::sql::bind(2)), ("text"@, crate::sql::bind(3)), ("points"@, crate::sql::bind(4)), ("kind"@, crate::sql::bind(5)), ("choices"@, crate::sql::bind(6)), ("correct"@, crate::sql::bind(7))],
        conditions: seq![crate::sql::is_bound("id"@, 1), crate::sql::is_bound("subject"@, 8)],
        rest: crate::sql::returning(),
    }
}

proof fn lemma_write_question_reads()
    ensures
        crate::sql::spells(WRITE_QUESTION@, 0, write_question_reading().text()),
{
    reveal_strlit("UPDATE exam_question SET subject = $2, text = $3, points = $4, kind = $5, choices = $6, correct = $7 WHERE id = $1 AND subject = $8 RETURNING id, exam, subject, text, kind, points, choices, correct, from_bank, banked_as");
    reveal_strlit("UPDATE ");
    reveal_strlit("exam_question");
    reveal_strlit(" SET ");
    reveal_strlit("subject");
    reveal_strlit(" = ");
    reveal_strlit("$");
    reveal_strlit(", ");
    reveal_strlit("text");
    reveal_strlit("points");
    reveal_strlit("kind");
    reveal_strlit("choices");
    reveal_strlit("correct");
    reveal_strlit(" WHERE ");
    reveal_strlit("id");
    reveal_strlit(" AND ");
    reveal_strlit(" RETURNING ");
    reveal(crate::sql::Writing::text);
    reveal_with_fuel(crate::sql::set_text, 7);
    reveal_with_fuel(crate::sql::where_text, 3);
    reveal_with_fuel(crate::sql::stands, 14);
    reveal_with_fuel(crate::sql::spells_by, 36);
    crate::sql::lemma_spells_by(WRITE_QUESTION@, 0, write_question_reading().text(), crate::sql::cut(7, crate::sql::cut(20, crate::sql::cut(25, crate::sql::cut(32, crate::sql::cut(35, crate::sql::cut(37, crate::sql::cut(39, crate::sql::cut(43, crate::sql::cut(46, crate::sql::cut(48, crate::sql::cut(50, crate::sql::cut(56, crate::sql::cut(59, crate::sql::cut(61, crate::sql::cut(63, crate::sql::cut(67, crate::sql::cut(70, crate::sql::cut(72, crate::sql::cut(74, crate::sql::cut(81, crate::sql::cut(84, crate::sql::cut(86, crate::sql::cut(88, crate::sql::cut(95, crate::sql::cut(98, crate::sql::cut(100, crate::sql::cut(107, crate::sql::cut(109, crate::sql::cut(112, crate::sql::cut(114, crate::sql::cut(119, crate::sql::cut(126, crate::sql::cut(129, crate::sql::cut(131, crate::sql::cut(142, Cuts::Last))))))))))))))))))))))))))))))))))));
}

/// [`Update::Write`] picks the rows it names and no other, and overwrites each column with
/// its own value.
pub proof fn law_update_write_writes_its_row(
    request: UpdateRequest,
    row: Row,
)
    ensures
        ({
            let sent = request.asks(Update::Write);
            &&& write_question_reading().is_read(sent)
            &&& write_question_reading().picks(sent.binds, row) == (row["id"@] == Cell::Uuid(request.id.0) && row["subject"@] == Cell::Uuid(request.snapshot.0))
            &&& write_question_reading().writes(sent.binds, row) == seq![
                ("subject"@, Cell::Uuid(request.subject.0)),
                ("text"@, Cell::Text(request.text@)),
                ("points"@, Cell::Int(request.points as int)),
                ("kind"@, Cell::Text(request.spec.kind@)),
                ("choices"@, crate::sql::opt_json(request.spec.choices)),
                ("correct"@, crate::sql::opt_text(crate::page::opt_string_view(request.spec.correct))),
            ]
        }),
{
    lemma_write_question_reads();
    reveal_with_fuel(crate::sql::all_hold, 3);
}

/// What [`QUESTION_LIVE`] says.
pub open spec fn question_live_reading() -> Picking {
    Picking {
        skip: 0,
        head: "SELECT EXISTS(SELECT 1 FROM "@,
        columns: Seq::empty(),
        table: "exam_question"@,
        conditions: seq![crate::sql::is_bound("id"@, 1)],
        rest: crate::sql::before(") AS live"@, Text::End),
    }
}

proof fn lemma_question_live_reads()
    ensures
        crate::sql::spells(QUESTION_LIVE@, 0, question_live_reading().text()),
{
    reveal_strlit("SELECT EXISTS(SELECT 1 FROM exam_question WHERE id = $1) AS live");
    reveal_strlit("SELECT EXISTS(SELECT 1 FROM ");
    reveal_strlit("exam_question");
    reveal_strlit(" WHERE ");
    reveal_strlit("id");
    reveal_strlit(" = ");
    reveal_strlit("$");
    reveal_strlit(") AS live");
    reveal(crate::sql::Picking::text);
    reveal_with_fuel(crate::sql::where_text, 2);
    reveal_with_fuel(crate::sql::stands, 29);
    reveal_with_fuel(crate::sql::spells_by, 8);
    crate::sql::lemma_spells_by(QUESTION_LIVE@, 0, question_live_reading().text(), crate::sql::cut(28, crate::sql::cut(41, crate::sql::cut(48, crate::sql::cut(50, crate::sql::cut(53, crate::sql::cut(55, crate::sql::cut(64, Cuts::Last))))))));
}

/// [`Update::Probe`] reads the rows it names and no other.
pub proof fn law_update_probe_reads_its_rows(
    request: UpdateRequest,
    row: Row,
)
    ensures
        ({
            let sent = request.asks(Update::Probe);
            &&& question_live_reading().is_read(sent)
            &&& question_live_reading().picks(sent.binds, row) == (row["id"@] == Cell::Uuid(request.id.0))
        }),
{
    lemma_question_live_reads();
    reveal_with_fuel(crate::sql::all_hold, 2);
}

/// What [`WIPE_ANSWERS`] says.
pub open spec fn wipe_answers_reading() -> Picking {
    Picking {
        skip: 0,
        head: "DELETE FROM "@,
        columns: Seq::empty(),
        table: "exam_answer"@,
        conditions: seq![crate::sql::is_bound("question"@, 1)],
        rest: Text::End,
    }
}

proof fn lemma_wipe_answers_reads()
    ensures
        crate::sql::spells(WIPE_ANSWERS@, 0, wipe_answers_reading().text()),
{
    reveal_strlit("DELETE FROM exam_answer WHERE question = $1");
    reveal_strlit("DELETE FROM ");
    reveal_strlit("exam_answer");
    reveal_strlit(" WHERE ");
    reveal_strlit("question");
    reveal_strlit(" = ");
    reveal_strlit("$");
    reveal(crate::sql::Picking::text);
    reveal_with_fuel(crate::sql::where_text, 2);
    reveal_with_fuel(crate::sql::stands, 13);
    reveal_with_fuel(crate::sql::spells_by, 7);
    crate::sql::lemma_spells_by(WIPE_ANSWERS@, 0, wipe_answers_reading().text(), crate::sql::cut(12, crate::sql::cut(23, crate::sql::cut(30, crate::sql::cut(38, crate::sql::cut(41, crate::sql::cut(43, Cuts::Last)))))));
}

/// [`Delete::WipeAnswers`] deletes the rows it names and no other.
pub proof fn law_delete_wipe_answers_deletes_its_rows(
    id: ExamQuestionId,
    exam: ExamId,
    row: Row,
)
    ensures
        ({
            let sent = Delete::WipeAnswers.asks(id, exam);
            &&& wipe_answers_reading().is_read(sent)
            &&& wipe_answers_reading().picks(sent.binds, row) == (row["question"@] == Cell::Uuid(id.0))
        }),
{
    lemma_wipe_answers_reads();
    reveal_with_fuel(crate::sql::all_hold, 2);
}

/// What [`WIPE_IMAGES`] says.
pub open spec fn wipe_images_reading() -> Picking {
    Picking {
        skip: 0,
        head: "DELETE FROM "@,
        columns: Seq::empty(),
        table: "question_image"@,
        conditions: seq![crate::sql::is_bound("question"@, 1)],
        rest: Text::End,
    }
}

proof fn lemma_wipe_images_reads()
    ensures
        crate::sql::spells(WIPE_IMAGES@, 0, wipe_images_reading().text()),
{
    reveal_strlit("DELETE FROM question_image WHERE question = $1");
    reveal_strlit("DELETE FROM ");
    reveal_strlit("question_image");
    reveal_strlit(" WHERE ");
    reveal_strlit("question");
    reveal_strlit(" = ");
    reveal_strlit("$");
    reveal(crate::sql::Picking::text);
    reveal_with_fuel(crate::sql::where_text, 2);
    reveal_with_fuel(crate::sql::stands, 15);
    reveal_with_fuel(crate::sql::spells_by, 7);
    crate::sql::lemma_spells_by(WIPE_IMAGES@, 0, wipe_images_reading().text(), crate::sql::cut(12, crate::sql::cut(26, crate::sql::cut(33, crate::sql::cut(41, crate::sql::cut(44, crate::sql::cut(46, Cuts::Last)))))));
}

/// [`Delete::WipeImages`] deletes the rows it names and no other.
pub proof fn law_delete_wipe_images_deletes_its_rows(
    id: ExamQuestionId,
    exam: ExamId,
    row: Row,
)
    ensures
        ({
            let sent = Delete::WipeImages.asks(id, exam);
            &&& wipe_images_reading().is_read(sent)
            &&& wipe_images_reading().picks(sent.binds, row) == (row["question"@] == Cell::Uuid(id.0))
        }),
{
    lemma_wipe_images_reads();
    reveal_with_fuel(crate::sql::all_hold, 2);
}

/// What [`DELETE_QUESTION`] says.
pub open spec fn delete_question_reading() -> Picking {
    Picking {
        skip: 0,
        head: "DELETE FROM "@,
        columns: Seq::empty(),
        table: "exam_question"@,
        conditions: seq![crate::sql::is_bound("id"@, 1)],
        rest: crate::sql::returning(),
    }
}

proof fn lemma_delete_question_reads()
    ensures
        crate::sql::spells(DELETE_QUESTION@, 0, delete_question_reading().text()),
{
    reveal_strlit("DELETE FROM exam_question WHERE id = $1 RETURNING id, exam, subject, text, kind, points, choices, correct, from_bank, banked_as");
    reveal_strlit("DELETE FROM ");
    reveal_strlit("exam_question");
    reveal_strlit(" WHERE ");
    reveal_strlit("id");
    reveal_strlit(" = ");
    reveal_strlit("$");
    reveal_strlit(" RETURNING ");
    reveal(crate::sql::Picking::text);
    reveal_with_fuel(crate::sql::where_text, 2);
    reveal_with_fuel(crate::sql::stands, 14);
    reveal_with_fuel(crate::sql::spells_by, 8);
    crate::sql::lemma_spells_by(DELETE_QUESTION@, 0, delete_question_reading().text(), crate::sql::cut(12, crate::sql::cut(25, crate::sql::cut(32, crate::sql::cut(34, crate::sql::cut(37, crate::sql::cut(39, crate::sql::cut(50, Cuts::Last))))))));
}

/// [`Delete::DeleteRow`] deletes the rows it names and no other.
pub proof fn law_delete_delete_row_deletes_its_rows(
    id: ExamQuestionId,
    exam: ExamId,
    row: Row,
)
    ensures
        ({
            let sent = Delete::DeleteRow.asks(id, exam);
            &&& delete_question_reading().is_read(sent)
            &&& delete_question_reading().picks(sent.binds, row) == (row["id"@] == Cell::Uuid(id.0))
        }),
{
    lemma_delete_question_reads();
    reveal_with_fuel(crate::sql::all_hold, 2);
}

/// [`Delete::Release`] picks the rows it names and no other, and overwrites each column with
/// its own value.
pub proof fn law_delete_release_writes_its_row(
    id: ExamQuestionId,
    exam: ExamId,
    subject: SubjectId,
    row: Row,
)
    ensures
        ({
            let sent = (Delete::Release { subject }).asks(id, exam);
            &&& release_subject_reading().is_read(sent)
            &&& release_subject_reading().picks(sent.binds, row) == (row["id"@] == Cell::Uuid(subject.0))
            &&& release_subject_reading().writes(sent.binds, row) == seq![
                ("exam_question_count"@, Cell::Int(crate::tally::floored(row["exam_question_count"@].number() - 1))),
            ]
        }),
{
    lemma_release_subject_reads();
    reveal_with_fuel(crate::sql::all_hold, 2);
}

/// The text of [`LIST_SHARED_WITH`], taken apart at its placeholders.
pub open spec fn list_shared_with_text() -> Text {
    crate::sql::before("WITH shared AS ( SELECT from_bank AS t FROM"@, crate::sql::before(" exam_question WHERE exam = ANY("@, crate::sql::before(crate::text::placeholder(1), crate::sql::before(") AND from_bank IS NOT NULL UNION SELECT"@, crate::sql::before(" banked_as FROM exam_question WHERE exam = ANY("@, crate::sql::before(crate::text::placeholder(1), crate::sql::before(") AND banked_as IS NOT NULL) SELECT q.id FROM"@, crate::sql::before(" exam_question q WHERE q.exam = "@, crate::sql::before(crate::text::placeholder(2), crate::sql::before(" AND (q.from_bank IN (SELECT t FROM shared) OR"@, crate::sql::before(" q.banked_as IN (SELECT t FROM shared))"@, Text::End)))))))))))
}

proof fn lemma_list_shared_with_reads()
    ensures
        crate::sql::spells(LIST_SHARED_WITH@, 0, list_shared_with_text()),
{
    reveal_strlit("WITH shared AS ( SELECT from_bank AS t FROM exam_question WHERE exam = ANY($1) AND from_bank IS NOT NULL UNION SELECT banked_as FROM exam_question WHERE exam = ANY($1) AND banked_as IS NOT NULL) SELECT q.id FROM exam_question q WHERE q.exam = $2 AND (q.from_bank IN (SELECT t FROM shared) OR q.banked_as IN (SELECT t FROM shared))");
    reveal_strlit("WITH shared AS ( SELECT from_bank AS t FROM");
    reveal_strlit(" exam_question WHERE exam = ANY(");
    reveal_strlit("$");
    reveal_strlit(") AND from_bank IS NOT NULL UNION SELECT");
    reveal_strlit(" banked_as FROM exam_question WHERE exam = ANY(");
    reveal_strlit(") AND banked_as IS NOT NULL) SELECT q.id FROM");
    reveal_strlit(" exam_question q WHERE q.exam = ");
    reveal_strlit(" AND (q.from_bank IN (SELECT t FROM shared) OR");
    reveal_strlit(" q.banked_as IN (SELECT t FROM shared))");
    reveal_with_fuel(crate::sql::stands, 48);
    reveal_with_fuel(crate::sql::spells_by, 12);
    crate::sql::lemma_spells_by(LIST_SHARED_WITH@, 0, list_shared_with_text(), crate::sql::cut(43, crate::sql::cut(75, crate::sql::cut(77, crate::sql::cut(117, crate::sql::cut(164, crate::sql::cut(166, crate::sql::cut(211, crate::sql::cut(243, crate::sql::cut(245, crate::sql::cut(291, crate::sql::cut(330, Cuts::Last))))))))))));
}

/// [`list_shared_with`] looks for the templates of the live exams among the
/// questions of the exam.
pub proof fn law_list_shared_with_binds_its_values(
    exam: ExamId,
    live: &Vec<ExamId>,
    sent: Option<Statement>,
)
    requires
        call_ensures(list_shared_with, (exam, live), sent),
        sent is Some,
    ensures
        crate::sql::spells(sent->0@.sql, 0, list_shared_with_text()),
        sent->0@.binds.len() == 2,
        crate::sql::cell(sent->0@.binds[0]) == Cell::Uuids(exam_keys(live@)),
        crate::sql::cell(sent->0@.binds[1]) == Cell::Uuid(exam.0),
{
    lemma_list_shared_with_reads();
}

} // verus!
