//! The `question_image` table: the slot-keyed upsert and delete behind the
//! question-freeze gate, the listing reads, and the choice-cleanup sweep a
//! question update drives. The illustration of a question is the slot `NULL`.

use vstd::prelude::*;

use crate::error::{AppError, AppErrorView};
use crate::exam_attempt::{freeze_gate, Freeze, FreezeRefusal, Sat};
use crate::id::{CourseId, ExamId, ExamQuestionId};
use crate::page::{opt_string, opt_text, texts, Param, ParamView, Statement, StatementView};
use crate::sql::{Cell, Cond, Conflict, Cuts, Picking, Row, Storing, Term, Text};
use crate::transaction::{Reply, Step};

verus! {

/// An image of a question: of its illustration, or of one of its choices.
/// `file` names its blob.
#[derive(Debug)]
pub struct QuestionImage {
    pub exam: ExamId,
    pub question: ExamQuestionId,
    pub slot: Option<String>,
    pub file: String,
    pub content_type: String,
    pub size: i64,
}

/// The statement an upsert waits for.
#[derive(Clone, Copy, PartialEq, Eq, Structural, Debug)]
pub enum Upsert {
    /// A step of the freeze gate.
    Gate(Freeze),
    /// Read the name of the blob the slot holds: the one to take off disk.
    ReadReplaced,
    /// Write the slot's row; its row is the answer.
    Store,
}

pub const STORE_IMAGE: &'static str =
    "INSERT INTO question_image (exam, question, slot, file, content_type, size) VALUES ($1, \
     $2, $3, $4, $5, $6) ON CONFLICT (question, slot) DO UPDATE SET file = EXCLUDED.file, \
     content_type = EXCLUDED.content_type, size = EXCLUDED.size RETURNING exam, question, slot, \
     file, content_type, size";
pub const REPLACED_FILE: &'static str =
    "SELECT file FROM question_image WHERE question = $1 AND slot IS NOT DISTINCT FROM $2";

/// The read of the blob name a slot's row holds.
pub fn replaced_file(question: ExamQuestionId, slot: Option<&str>) -> (statement: Statement)
    ensures
        statement@ == crate::page::sends(
            REPLACED_FILE,
            seq![ParamView::Uuid(question.0), ParamView::OptText(crate::page::opt_view(slot))],
        ),
{
    Statement::new(REPLACED_FILE, vec![Param::Uuid(question.0), Param::OptText(opt_text(slot))])
}

impl Upsert {
    /// The statement of this step.
    pub open spec fn asks(self, image: QuestionImage) -> StatementView {
        match self {
            Upsert::Gate(gate) => gate.asks(image.exam),
            Upsert::ReadReplaced => crate::page::sends(
                REPLACED_FILE,
                seq![
                    ParamView::Uuid(image.question.0),
                    ParamView::OptText(crate::page::opt_string_view(image.slot)),
                ],
            ),
            Upsert::Store => crate::page::sends(
                STORE_IMAGE,
                seq![
                    ParamView::Uuid(image.exam.0),
                    ParamView::Uuid(image.question.0),
                    ParamView::OptText(crate::page::opt_string_view(image.slot)),
                    ParamView::Text(image.file@),
                    ParamView::Text(image.content_type@),
                    ParamView::I64(image.size),
                ],
            ),
        }
    }

    /// The statement of this step.
    pub fn statement(self, image: &QuestionImage) -> (statement: Statement)
        ensures
            statement@ == self.asks(*image),
    {
        match self {
            Upsert::Gate(gate) => gate.statement(image.exam),
            Upsert::ReadReplaced => {
                let slot = match &image.slot {
                    Some(slot) => Some(slot.as_str()),
                    None => None,
                };
                replaced_file(image.question, slot)
            },
            Upsert::Store => Statement::new(
                STORE_IMAGE,
                vec![
                    Param::Uuid(image.exam.0),
                    Param::Uuid(image.question.0),
                    Param::OptText(opt_string(&image.slot)),
                    Param::Text(image.file.clone()),
                    Param::Text(image.content_type.clone()),
                    Param::I64(image.size),
                ],
            ),
        }
    }
}

/// What an upsert does once the statement of `at` is answered.
pub open spec fn upsert_next(at: Upsert, reply: Reply) -> Step<Upsert, (), FreezeRefusal> {
    match at {
        Upsert::Gate(gate) => match crate::exam_attempt::freeze_next(gate, reply) {
            Step::Ask(next) => Step::Ask(Upsert::Gate(next)),
            Step::Commit(_) => Step::Ask(Upsert::ReadReplaced),
            Step::Abort(refusal) => Step::Abort(refusal),
        },
        Upsert::ReadReplaced => Step::Ask(Upsert::Store),
        Upsert::Store => Step::Commit(()),
    }
}

/// Create or replace a slot's image: the step that follows the answer to
/// `at`. An upsert starts at the freeze gate and answers the stored row with
/// the blob name it replaced, read in the same transaction.
pub fn upsert(at: Upsert, reply: Reply) -> (step: Step<Upsert, (), FreezeRefusal>)
    ensures
        step == upsert_next(at, reply),
{
    match at {
        Upsert::Gate(gate) => match freeze_gate(gate, reply) {
            Step::Ask(next) => Step::Ask(Upsert::Gate(next)),
            Step::Commit(_) => Step::Ask(Upsert::ReadReplaced),
            Step::Abort(refusal) => Step::Abort(refusal),
        },
        Upsert::ReadReplaced => Step::Ask(Upsert::Store),
        Upsert::Store => Step::Commit(()),
    }
}

pub const READ_SLOT: &'static str =
    "SELECT exam, question, slot, file, content_type, size FROM question_image WHERE question = \
     $1 AND slot IS NOT DISTINCT FROM $2";

/// The read of a slot's image.
pub fn read_slot(question: ExamQuestionId, slot: Option<&str>) -> (statement: Statement)
    ensures
        statement@ == crate::page::sends(
            READ_SLOT,
            seq![ParamView::Uuid(question.0), ParamView::OptText(crate::page::opt_view(slot))],
        ),
{
    Statement::new(READ_SLOT, vec![Param::Uuid(question.0), Param::OptText(opt_text(slot))])
}

pub const LIST_FOR_EXAM: &'static str =
    "SELECT exam, question, slot, file, content_type, size FROM question_image WHERE exam = $1";

/// The read of every image of an exam's questions.
pub fn list_for_exam(exam: ExamId) -> (statement: Statement)
    ensures
        statement@ == crate::page::sends(LIST_FOR_EXAM, seq![ParamView::Uuid(exam.0)]),
{
    Statement::new(LIST_FOR_EXAM, vec![Param::Uuid(exam.0)])
}

pub const LIST_FOR_QUESTION: &'static str =
    "SELECT exam, question, slot, file, content_type, size FROM question_image WHERE question = $1";

/// The read of every image of a question.
pub fn list_for_question(question: ExamQuestionId) -> (statement: Statement)
    ensures
        statement@ == crate::page::sends(LIST_FOR_QUESTION, seq![ParamView::Uuid(question.0)]),
{
    Statement::new(LIST_FOR_QUESTION, vec![Param::Uuid(question.0)])
}

pub const DELETE_CHOICES_NOT_IN: &'static str =
    "DELETE FROM question_image WHERE question = $1 AND slot IS NOT NULL AND NOT (slot = \
     ANY($2)) RETURNING exam, question, slot, file, content_type, size";

/// The drop of every choice image whose choice is not in `keep`, which replies
/// what it dropped; the illustration always stays.
pub fn delete_choices_not_in(question: ExamQuestionId, keep: &Vec<String>) -> (statement: Statement)
    ensures
        statement@ == crate::page::sends(
            DELETE_CHOICES_NOT_IN,
            seq![ParamView::Uuid(question.0), ParamView::Texts(crate::text::views(keep@))],
        ),
{
    Statement::new(DELETE_CHOICES_NOT_IN, vec![Param::Uuid(question.0), Param::Texts(texts(keep))])
}

pub const FILE_KEYS_FOR_COURSE: &'static str =
    "SELECT qi.file FROM question_image qi JOIN exam e ON e.id = qi.exam WHERE e.course = $1";

/// The read of the blob names behind every image of every exam of a course.
pub fn file_keys_for_course(course: CourseId) -> (statement: Statement)
    ensures
        statement@ == crate::page::sends(FILE_KEYS_FOR_COURSE, seq![ParamView::Uuid(course.0)]),
{
    Statement::new(FILE_KEYS_FOR_COURSE, vec![Param::Uuid(course.0)])
}

/// The statement a delete waits for.
#[derive(Clone, Copy, PartialEq, Eq, Structural, Debug)]
pub enum Delete {
    /// A step of the freeze gate.
    Gate(Freeze),
    /// Delete the slot's row; its row is the answer.
    DeleteRow,
}

/// Why a delete is refused.
#[derive(Clone, Copy, PartialEq, Eq, Structural, Debug)]
pub enum DeleteRefusal {
    Gate(FreezeRefusal),
    Gone,
}

pub const DELETE_IMAGE: &'static str =
    "DELETE FROM question_image WHERE question = $1 AND slot IS NOT DISTINCT FROM $2 RETURNING \
     exam, question, slot, file, content_type, size";

impl Delete {
    /// The statement of this step.
    pub open spec fn asks(self, image: QuestionImage) -> StatementView {
        match self {
            Delete::Gate(gate) => gate.asks(image.exam),
            Delete::DeleteRow => crate::page::sends(
                DELETE_IMAGE,
                seq![
                    ParamView::Uuid(image.question.0),
                    ParamView::OptText(crate::page::opt_string_view(image.slot)),
                ],
            ),
        }
    }

    /// The statement of this step.
    pub fn statement(self, image: &QuestionImage) -> (statement: Statement)
        ensures
            statement@ == self.asks(*image),
    {
        match self {
            Delete::Gate(gate) => gate.statement(image.exam),
            Delete::DeleteRow => Statement::new(
                DELETE_IMAGE,
                vec![Param::Uuid(image.question.0), Param::OptText(opt_string(&image.slot))],
            ),
        }
    }
}

/// What a delete does once the statement of `at` is answered.
pub open spec fn delete_next(at: Delete, reply: Reply) -> Step<Delete, (), DeleteRefusal> {
    match at {
        Delete::Gate(gate) => match crate::exam_attempt::freeze_next(gate, reply) {
            Step::Ask(next) => Step::Ask(Delete::Gate(next)),
            Step::Commit(_) => Step::Ask(Delete::DeleteRow),
            Step::Abort(refusal) => Step::Abort(DeleteRefusal::Gate(refusal)),
        },
        Delete::DeleteRow => if reply.has_row() {
            Step::Commit(())
        } else {
            Step::Abort(DeleteRefusal::Gone)
        },
    }
}

/// Delete a slot's image: the step that follows the answer to `at`. A delete
/// starts at the freeze gate.
pub fn delete(at: Delete, reply: Reply) -> (step: Step<Delete, (), DeleteRefusal>)
    ensures
        step == delete_next(at, reply),
{
    match at {
        Delete::Gate(gate) => match freeze_gate(gate, reply) {
            Step::Ask(next) => Step::Ask(Delete::Gate(next)),
            Step::Commit(_) => Step::Ask(Delete::DeleteRow),
            Step::Abort(refusal) => Step::Abort(DeleteRefusal::Gate(refusal)),
        },
        Delete::DeleteRow => if reply.row() {
            Step::Commit(())
        } else {
            Step::Abort(DeleteRefusal::Gone)
        },
    }
}

impl DeleteRefusal {
    /// What a refused delete answers.
    pub open spec fn answers(self) -> AppErrorView {
        match self {
            DeleteRefusal::Gate(refusal) => refusal.answers(),
            DeleteRefusal::Gone => AppErrorView::NotFound,
        }
    }

    /// What a refused delete answers.
    pub fn error(self) -> (error: AppError)
        ensures
            error@ == self.answers(),
    {
        match self {
            DeleteRefusal::Gate(refusal) => refusal.error(),
            DeleteRefusal::Gone => AppError::NotFound,
        }
    }
}

/// The blob name of each slot of each question.
pub type Images = Map<(ExamQuestionId, Option<Seq<char>>), Seq<char>>;

/// What each statement of an upsert does to the images, and what it replies.
pub open spec fn upsert_effect(
    db: Images,
    sat: Sat,
    exam: ExamId,
    slot: (ExamQuestionId, Option<Seq<char>>),
    file: Seq<char>,
    at: Upsert,
) -> (Images, Reply) {
    match at {
        Upsert::Gate(gate) => (db, crate::exam_attempt::freeze_reply(sat, exam, gate)),
        Upsert::ReadReplaced => (
            db,
            if db.contains_key(slot) {
                Reply::Row
            } else {
                Reply::Empty
            },
        ),
        Upsert::Store => (db.insert(slot, file), Reply::Row),
    }
}

/// A whole upsert against the images.
pub open spec fn upsert_run(
    db: Images,
    sat: Sat,
    exam: ExamId,
    slot: (ExamQuestionId, Option<Seq<char>>),
    file: Seq<char>,
) -> (Images, Step<Upsert, (), FreezeRefusal>) {
    crate::transaction::run(
        db,
        Step::Ask(Upsert::Gate(Freeze::LockExam)),
        |at: Upsert, reply: Reply| upsert_next(at, reply),
        |images: Images, at: Upsert| upsert_effect(images, sat, exam, slot, file, at),
        4,
    )
}

/// An upload leaves one image in its slot and touches no other; pictures
/// freeze with the questions they belong to, and a frozen exam keeps every
/// image as it was.
pub proof fn law_one_image_per_slot(
    db: Images,
    sat: Sat,
    exam: ExamId,
    slot: (ExamQuestionId, Option<Seq<char>>),
    file: Seq<char>,
)
    ensures
        ({
            let end = upsert_run(db, sat, exam, slot, file);
            let after = crate::transaction::stored(db, end);
            let refusal = crate::exam_attempt::freeze_refusal(sat, exam);
            &&& end.1 == crate::transaction::ends::<Upsert, (), FreezeRefusal>((), refusal)
            &&& refusal is None ==> after == db.insert(slot, file)
            &&& refusal is Some ==> after == db
        }),
{
    reveal_with_fuel(crate::transaction::run, 5);
}

/// The images after the sweep of the choices not in `keep`.
pub open spec fn kept(db: Images, question: ExamQuestionId, keep: Seq<Seq<char>>) -> Images {
    db.remove_keys(
        db.dom().filter(
            |slot: (ExamQuestionId, Option<Seq<char>>)|
                slot.0 == question && slot.1 is Some && !keep.contains(slot.1->0),
        ),
    )
}

/// Only the dropped options lose their pictures: the illustration and every
/// kept choice keep theirs, and so does every other question.
pub proof fn law_sweep_keeps_the_rest(
    db: Images,
    question: ExamQuestionId,
    keep: Seq<Seq<char>>,
    slot: (ExamQuestionId, Option<Seq<char>>),
)
    ensures
        kept(db, question, keep).contains_key(slot) <==> db.contains_key(slot) && (slot.0
            != question || slot.1 is None || keep.contains(slot.1->0)),
        kept(db, question, keep).contains_key(slot) ==> kept(db, question, keep)[slot] == db[slot],
{
}

/// What [`REPLACED_FILE`] says.
pub open spec fn replaced_file_reading() -> Picking {
    Picking {
        skip: 0,
        head: "SELECT "@,
        columns: seq!["file"@],
        table: "question_image"@,
        conditions: seq![crate::sql::is_bound("question"@, 1), Cond::Same(crate::sql::column("slot"@), crate::sql::bind(2))],
        rest: Text::End,
    }
}

proof fn lemma_replaced_file_reads()
    ensures
        crate::sql::spells(REPLACED_FILE@, 0, replaced_file_reading().text()),
{
    reveal_strlit("SELECT file FROM question_image WHERE question = $1 AND slot IS NOT DISTINCT FROM $2");
    reveal_strlit("SELECT ");
    reveal_strlit("file");
    reveal_strlit(" FROM ");
    reveal_strlit("question_image");
    reveal_strlit(" WHERE ");
    reveal_strlit("question");
    reveal_strlit(" = ");
    reveal_strlit("$");
    reveal_strlit(" AND ");
    reveal_strlit("slot");
    reveal_strlit(" IS NOT DISTINCT FROM ");
    reveal(crate::sql::Picking::text);
    reveal_with_fuel(crate::sql::where_text, 3);
    reveal_with_fuel(crate::sql::names_text, 2);
    reveal_with_fuel(crate::sql::stands, 23);
    reveal_with_fuel(crate::sql::spells_by, 13);
    crate::sql::lemma_spells_by(REPLACED_FILE@, 0, replaced_file_reading().text(), crate::sql::cut(7, crate::sql::cut(11, crate::sql::cut(17, crate::sql::cut(31, crate::sql::cut(38, crate::sql::cut(46, crate::sql::cut(49, crate::sql::cut(51, crate::sql::cut(56, crate::sql::cut(60, crate::sql::cut(82, crate::sql::cut(84, Cuts::Last)))))))))))));
}

/// [`replaced_file`] reads the rows it names and no other.
pub proof fn law_replaced_file_reads_its_rows(
    question: ExamQuestionId,
    slot: Option<&str>,
    sent: Statement,
    row: Row,
)
    requires
        call_ensures(replaced_file, (question, slot), sent),
    ensures
        replaced_file_reading().is_read(sent@),
        replaced_file_reading().picks(sent@.binds, row) == (row["question"@] == Cell::Uuid(question.0) && row["slot"@] == crate::sql::opt_text(crate::page::opt_view(slot))),
{
    lemma_replaced_file_reads();
    reveal_with_fuel(crate::sql::all_hold, 3);
}

/// What [`READ_SLOT`] says.
pub open spec fn read_slot_reading() -> Picking {
    Picking {
        skip: 0,
        head: "SELECT "@,
        columns: seq!["exam"@, "question"@, "slot"@, "file"@, "content_type"@, "size"@],
        table: "question_image"@,
        conditions: seq![crate::sql::is_bound("question"@, 1), Cond::Same(crate::sql::column("slot"@), crate::sql::bind(2))],
        rest: Text::End,
    }
}

proof fn lemma_read_slot_reads()
    ensures
        crate::sql::spells(READ_SLOT@, 0, read_slot_reading().text()),
{
    reveal_strlit("SELECT exam, question, slot, file, content_type, size FROM question_image WHERE question = $1 AND slot IS NOT DISTINCT FROM $2");
    reveal_strlit("SELECT ");
    reveal_strlit("exam");
    reveal_strlit(", ");
    reveal_strlit("question");
    reveal_strlit("slot");
    reveal_strlit("file");
    reveal_strlit("content_type");
    reveal_strlit("size");
    reveal_strlit(" FROM ");
    reveal_strlit("question_image");
    reveal_strlit(" WHERE ");
    reveal_strlit(" = ");
    reveal_strlit("$");
    reveal_strlit(" AND ");
    reveal_strlit(" IS NOT DISTINCT FROM ");
    reveal(crate::sql::Picking::text);
    reveal_with_fuel(crate::sql::where_text, 3);
    reveal_with_fuel(crate::sql::names_text, 7);
    reveal_with_fuel(crate::sql::stands, 23);
    reveal_with_fuel(crate::sql::spells_by, 23);
    crate::sql::lemma_spells_by(READ_SLOT@, 0, read_slot_reading().text(), crate::sql::cut(7, crate::sql::cut(11, crate::sql::cut(13, crate::sql::cut(21, crate::sql::cut(23, crate::sql::cut(27, crate::sql::cut(29, crate::sql::cut(33, crate::sql::cut(35, crate::sql::cut(47, crate::sql::cut(49, crate::sql::cut(53, crate::sql::cut(59, crate::sql::cut(73, crate::sql::cut(80, crate::sql::cut(88, crate::sql::cut(91, crate::sql::cut(93, crate::sql::cut(98, crate::sql::cut(102, crate::sql::cut(124, crate::sql::cut(126, Cuts::Last)))))))))))))))))))))));
}

/// [`read_slot`] reads the rows it names and no other.
pub proof fn law_read_slot_reads_its_rows(
    question: ExamQuestionId,
    slot: Option<&str>,
    sent: Statement,
    row: Row,
)
    requires
        call_ensures(read_slot, (question, slot), sent),
    ensures
        read_slot_reading().is_read(sent@),
        read_slot_reading().picks(sent@.binds, row) == (row["question"@] == Cell::Uuid(question.0) && row["slot"@] == crate::sql::opt_text(crate::page::opt_view(slot))),
{
    lemma_read_slot_reads();
    reveal_with_fuel(crate::sql::all_hold, 3);
}

/// What [`LIST_FOR_EXAM`] says.
pub open spec fn list_for_exam_reading() -> Picking {
    Picking {
        skip: 0,
        head: "SELECT "@,
        columns: seq!["exam"@, "question"@, "slot"@, "file"@, "content_type"@, "size"@],
        table: "question_image"@,
        conditions: seq![crate::sql::is_bound("exam"@, 1)],
        rest: Text::End,
    }
}

proof fn lemma_list_for_exam_reads()
    ensures
        crate::sql::spells(LIST_FOR_EXAM@, 0, list_for_exam_reading().text()),
{
    reveal_strlit("SELECT exam, question, slot, file, content_type, size FROM question_image WHERE exam = $1");
    reveal_strlit("SELECT ");
    reveal_strlit("exam");
    reveal_strlit(", ");
    reveal_strlit("question");
    reveal_strlit("slot");
    reveal_strlit("file");
    reveal_strlit("content_type");
    reveal_strlit("size");
    reveal_strlit(" FROM ");
    reveal_strlit("question_image");
    reveal_strlit(" WHERE ");
    reveal_strlit(" = ");
    reveal_strlit("$");
    reveal(crate::sql::Picking::text);
    reveal_with_fuel(crate::sql::where_text, 2);
    reveal_with_fuel(crate::sql::names_text, 7);
    reveal_with_fuel(crate::sql::stands, 15);
    reveal_with_fuel(crate::sql::spells_by, 19);
    crate::sql::lemma_spells_by(LIST_FOR_EXAM@, 0, list_for_exam_reading().text(), crate::sql::cut(7, crate::sql::cut(11, crate::sql::cut(13, crate::sql::cut(21, crate::sql::cut(23, crate::sql::cut(27, crate::sql::cut(29, crate::sql::cut(33, crate::sql::cut(35, crate::sql::cut(47, crate::sql::cut(49, crate::sql::cut(53, crate::sql::cut(59, crate::sql::cut(73, crate::sql::cut(80, crate::sql::cut(84, crate::sql::cut(87, crate::sql::cut(89, Cuts::Last)))))))))))))))))));
}

/// [`list_for_exam`] reads the rows it names and no other.
pub proof fn law_list_for_exam_reads_its_rows(
    exam: ExamId,
    sent: Statement,
    row: Row,
)
    requires
        call_ensures(list_for_exam, (exam,), sent),
    ensures
        list_for_exam_reading().is_read(sent@),
        list_for_exam_reading().picks(sent@.binds, row) == (row["exam"@] == Cell::Uuid(exam.0)),
{
    lemma_list_for_exam_reads();
    reveal_with_fuel(crate::sql::all_hold, 2);
}

/// What [`LIST_FOR_QUESTION`] says.
pub open spec fn list_for_question_reading() -> Picking {
    Picking {
        skip: 0,
        head: "SELECT "@,
        columns: seq!["exam"@, "question"@, "slot"@, "file"@, "content_type"@, "size"@],
        table: "question_image"@,
        conditions: seq![crate::sql::is_bound("question"@, 1)],
        rest: Text::End,
    }
}

proof fn lemma_list_for_question_reads()
    ensures
        crate::sql::spells(LIST_FOR_QUESTION@, 0, list_for_question_reading().text()),
{
    reveal_strlit("SELECT exam, question, slot, file, content_type, size FROM question_image WHERE question = $1");
    reveal_strlit("SELECT ");
    reveal_strlit("exam");
    reveal_strlit(", ");
    reveal_strlit("question");
    reveal_strlit("slot");
    reveal_strlit("file");
    reveal_strlit("content_type");
    reveal_strlit("size");
    reveal_strlit(" FROM ");
    reveal_strlit("question_image");
    reveal_strlit(" WHERE ");
    reveal_strlit(" = ");
    reveal_strlit("$");
    reveal(crate::sql::Picking::text);
    reveal_with_fuel(crate::sql::where_text, 2);
    reveal_with_fuel(crate::sql::names_text, 7);
    reveal_with_fuel(crate::sql::stands, 15);
    reveal_with_fuel(crate::sql::spells_by, 19);
    crate::sql::lemma_spells_by(LIST_FOR_QUESTION@, 0, list_for_question_reading().text(), crate::sql::cut(7, crate::sql::cut(11, crate::sql::cut(13, crate::sql::cut(21, crate::sql::cut(23, crate::sql::cut(27, crate::sql::cut(29, crate::sql::cut(33, crate::sql::cut(35, crate::sql::cut(47, crate::sql::cut(49, crate::sql::cut(53, crate::sql::cut(59, crate::sql::cut(73, crate::sql::cut(80, crate::sql::cut(88, crate::sql::cut(91, crate::sql::cut(93, Cuts::Last)))))))))))))))))));
}

/// [`list_for_question`] reads the rows it names and no other.
pub proof fn law_list_for_question_reads_its_rows(
    question: ExamQuestionId,
    sent: Statement,
    row: Row,
)
    requires
        call_ensures(list_for_question, (question,), sent),
    ensures
        list_for_question_reading().is_read(sent@),
        list_for_question_reading().picks(sent@.binds, row) == (row["question"@] == Cell::Uuid(question.0)),
{
    lemma_list_for_question_reads();
    reveal_with_fuel(crate::sql::all_hold, 2);
}

/// The text of [`DELETE_CHOICES_NOT_IN`], taken apart at its placeholders.
pub open spec fn delete_choices_not_in_text() -> Text {
    crate::sql::before("DELETE FROM question_image WHERE question = "@, crate::sql::before(crate::text::placeholder(1), crate::sql::before(" AND slot IS NOT NULL AND NOT (slot = ANY("@, crate::sql::before(crate::text::placeholder(2), crate::sql::before(")) RETURNING exam, question, slot, file,"@, crate::sql::before(" content_type, size"@, Text::End))))))
}

proof fn lemma_delete_choices_not_in_reads()
    ensures
        crate::sql::spells(DELETE_CHOICES_NOT_IN@, 0, delete_choices_not_in_text()),
{
    reveal_strlit("DELETE FROM question_image WHERE question = $1 AND slot IS NOT NULL AND NOT (slot = ANY($2)) RETURNING exam, question, slot, file, content_type, size");
    reveal_strlit("DELETE FROM question_image WHERE question = ");
    reveal_strlit("$");
    reveal_strlit(" AND slot IS NOT NULL AND NOT (slot = ANY(");
    reveal_strlit(")) RETURNING exam, question, slot, file,");
    reveal_strlit(" content_type, size");
    reveal_with_fuel(crate::sql::stands, 45);
    reveal_with_fuel(crate::sql::spells_by, 7);
    crate::sql::lemma_spells_by(DELETE_CHOICES_NOT_IN@, 0, delete_choices_not_in_text(), crate::sql::cut(44, crate::sql::cut(46, crate::sql::cut(88, crate::sql::cut(90, crate::sql::cut(130, crate::sql::cut(149, Cuts::Last)))))));
}

/// [`delete_choices_not_in`] binds each value at its own place in the text.
pub proof fn law_delete_choices_not_in_binds_its_values(
    question: ExamQuestionId,
    keep: &Vec<String>,
    sent: Statement,
)
    requires
        call_ensures(delete_choices_not_in, (question, keep), sent),
    ensures
        crate::sql::spells(sent@.sql, 0, delete_choices_not_in_text()),
        sent@.binds.len() == 2,
        crate::sql::cell(sent@.binds[0]) == Cell::Uuid(question.0),
        crate::sql::cell(sent@.binds[1]) == Cell::Texts(crate::text::views(keep@)),
{
    lemma_delete_choices_not_in_reads();
}

/// What [`FILE_KEYS_FOR_COURSE`] says.
pub open spec fn file_keys_for_course_reading() -> Picking {
    Picking {
        skip: 0,
        head: "SELECT "@,
        columns: seq!["qi.file"@],
        table: "question_image qi JOIN exam e ON e.id = qi.exam"@,
        conditions: seq![crate::sql::is_bound("e.course"@, 1)],
        rest: Text::End,
    }
}

proof fn lemma_file_keys_for_course_reads()
    ensures
        crate::sql::spells(FILE_KEYS_FOR_COURSE@, 0, file_keys_for_course_reading().text()),
{
    reveal_strlit("SELECT qi.file FROM question_image qi JOIN exam e ON e.id = qi.exam WHERE e.course = $1");
    reveal_strlit("SELECT ");
    reveal_strlit("qi.file");
    reveal_strlit(" FROM ");
    reveal_strlit("question_image qi JOIN exam e ON e.id = qi.exam");
    reveal_strlit(" WHERE ");
    reveal_strlit("e.course");
    reveal_strlit(" = ");
    reveal_strlit("$");
    reveal(crate::sql::Picking::text);
    reveal_with_fuel(crate::sql::where_text, 2);
    reveal_with_fuel(crate::sql::names_text, 2);
    reveal_with_fuel(crate::sql::stands, 48);
    reveal_with_fuel(crate::sql::spells_by, 9);
    crate::sql::lemma_spells_by(FILE_KEYS_FOR_COURSE@, 0, file_keys_for_course_reading().text(), crate::sql::cut(7, crate::sql::cut(14, crate::sql::cut(20, crate::sql::cut(67, crate::sql::cut(74, crate::sql::cut(82, crate::sql::cut(85, crate::sql::cut(87, Cuts::Last)))))))));
}

/// [`file_keys_for_course`] reads the rows it names and no other.
pub proof fn law_file_keys_for_course_reads_its_rows(
    course: CourseId,
    sent: Statement,
    row: Row,
)
    requires
        call_ensures(file_keys_for_course, (course,), sent),
    ensures
        file_keys_for_course_reading().is_read(sent@),
        file_keys_for_course_reading().picks(sent@.binds, row) == (row["e.course"@] == Cell::Uuid(course.0)),
{
    lemma_file_keys_for_course_reads();
    reveal_with_fuel(crate::sql::all_hold, 2);
}

/// [`Upsert::ReadReplaced`] reads the rows it names and no other.
pub proof fn law_upsert_read_replaced_reads_its_rows(
    image: QuestionImage,
    row: Row,
)
    ensures
        ({
            let sent = Upsert::ReadReplaced.asks(image);
            &&& replaced_file_reading().is_read(sent)
            &&& replaced_file_reading().picks(sent.binds, row) == (row["question"@] == Cell::Uuid(image.question.0) && row["slot"@] == crate::sql::opt_text(crate::page::opt_string_view(image.slot)))
        }),
{
    lemma_replaced_file_reads();
    reveal_with_fuel(crate::sql::all_hold, 3);
}

/// What [`STORE_IMAGE`] says.
pub open spec fn store_image_reading() -> Storing {
    Storing {
        head: "INSERT INTO "@,
        table: "question_image"@,
        columns: seq!["exam"@, "question"@, "slot"@, "file"@, "content_type"@, "size"@],
        values: seq![Term::Bind(1), Term::Bind(2), Term::Bind(3), Term::Bind(4), Term::Bind(5), Term::Bind(6)],
        selected: false,
        conflict: Conflict::Takes(seq!["question"@, "slot"@], seq!["file"@, "content_type"@, "size"@]),
        rest: crate::sql::returning(),
    }
}

proof fn lemma_store_image_reads()
    ensures
        crate::sql::spells(STORE_IMAGE@, 0, store_image_reading().text()),
{
    reveal_strlit("INSERT INTO question_image (exam, question, slot, file, content_type, size) VALUES ($1, $2, $3, $4, $5, $6) ON CONFLICT (question, slot) DO UPDATE SET file = EXCLUDED.file, content_type = EXCLUDED.content_type, size = EXCLUDED.size RETURNING exam, question, slot, file, content_type, size");
    reveal_strlit("INSERT INTO ");
    reveal_strlit("question_image");
    reveal_strlit(" (");
    reveal_strlit("exam");
    reveal_strlit(", ");
    reveal_strlit("question");
    reveal_strlit("slot");
    reveal_strlit("file");
    reveal_strlit("content_type");
    reveal_strlit("size");
    reveal_strlit(") VALUES (");
    reveal_strlit("$");
    reveal_strlit(")");
    reveal_strlit(" ON CONFLICT (");
    reveal_strlit(") DO UPDATE");
    reveal_strlit(" SET ");
    reveal_strlit(" = EXCLUDED.");
    reveal_strlit(" RETURNING ");
    reveal(crate::sql::Storing::text);
    reveal_with_fuel(crate::sql::names_text, 7);
    reveal_with_fuel(crate::sql::values_text, 7);
    reveal_with_fuel(crate::sql::excluded_text, 4);
    reveal_with_fuel(crate::sql::stands, 15);
    reveal_with_fuel(crate::sql::spells_by, 46);
    crate::sql::lemma_spells_by(STORE_IMAGE@, 0, store_image_reading().text(), crate::sql::cut(12, crate::sql::cut(26, crate::sql::cut(28, crate::sql::cut(32, crate::sql::cut(34, crate::sql::cut(42, crate::sql::cut(44, crate::sql::cut(48, crate::sql::cut(50, crate::sql::cut(54, crate::sql::cut(56, crate::sql::cut(68, crate::sql::cut(70, crate::sql::cut(74, crate::sql::cut(84, crate::sql::cut(86, crate::sql::cut(88, crate::sql::cut(90, crate::sql::cut(92, crate::sql::cut(94, crate::sql::cut(96, crate::sql::cut(98, crate::sql::cut(100, crate::sql::cut(102, crate::sql::cut(104, crate::sql::cut(106, crate::sql::cut(107, crate::sql::cut(121, crate::sql::cut(129, crate::sql::cut(131, crate::sql::cut(135, crate::sql::cut(146, crate::sql::cut(151, crate::sql::cut(155, crate::sql::cut(167, crate::sql::cut(171, crate::sql::cut(173, crate::sql::cut(185, crate::sql::cut(197, crate::sql::cut(209, crate::sql::cut(211, crate::sql::cut(215, crate::sql::cut(227, crate::sql::cut(231, crate::sql::cut(242, Cuts::Last))))))))))))))))))))))))))))))))))))))))))))));
}

/// What [`Upsert::Store`] stores, column by column, is what it is given.
pub proof fn law_upsert_store_lands_in_its_columns(
    image: QuestionImage,
)
    ensures
        ({
            let sent = Upsert::Store.asks(image);
            &&& store_image_reading().is_read(sent)
            &&& store_image_reading().stores(sent.binds) == seq![
                ("exam"@, Cell::Uuid(image.exam.0)),
                ("question"@, Cell::Uuid(image.question.0)),
                ("slot"@, crate::sql::opt_text(crate::page::opt_string_view(image.slot))),
                ("file"@, Cell::Text(image.file@)),
                ("content_type"@, Cell::Text(image.content_type@)),
                ("size"@, Cell::Int(image.size as int)),
            ]
            &&& store_image_reading().conflict == Conflict::Takes(seq!["question"@, "slot"@], seq!["file"@, "content_type"@, "size"@])
        }),
{
    lemma_store_image_reads();
}

/// What [`DELETE_IMAGE`] says.
pub open spec fn delete_image_reading() -> Picking {
    Picking {
        skip: 0,
        head: "DELETE FROM "@,
        columns: Seq::empty(),
        table: "question_image"@,
        conditions: seq![crate::sql::is_bound("question"@, 1), Cond::Same(crate::sql::column("slot"@), crate::sql::bind(2))],
        rest: crate::sql::returning(),
    }
}

proof fn lemma_delete_image_reads()
    ensures
        crate::sql::spells(DELETE_IMAGE@, 0, delete_image_reading().text()),
{
    reveal_strlit("DELETE FROM question_image WHERE question = $1 AND slot IS NOT DISTINCT FROM $2 RETURNING exam, question, slot, file, content_type, size");
    reveal_strlit("DELETE FROM ");
    reveal_strlit("question_image");
    reveal_strlit(" WHERE ");
    reveal_strlit("question");
    reveal_strlit(" = ");
    reveal_strlit("$");
    reveal_strlit(" AND ");
    reveal_strlit("slot");
    reveal_strlit(" IS NOT DISTINCT FROM ");
    reveal_strlit(" RETURNING ");
    reveal(crate::sql::Picking::text);
    reveal_with_fuel(crate::sql::where_text, 3);
    reveal_with_fuel(crate::sql::stands, 23);
    reveal_with_fuel(crate::sql::spells_by, 12);
    crate::sql::lemma_spells_by(DELETE_IMAGE@, 0, delete_image_reading().text(), crate::sql::cut(12, crate::sql::cut(26, crate::sql::cut(33, crate::sql::cut(41, crate::sql::cut(44, crate::sql::cut(46, crate::sql::cut(51, crate::sql::cut(55, crate::sql::cut(77, crate::sql::cut(79, crate::sql::cut(90, Cuts::Last))))))))))));
}

/// [`Delete::DeleteRow`] deletes the rows it names and no other.
pub proof fn law_delete_delete_row_deletes_its_rows(
    image: QuestionImage,
    row: Row,
)
    ensures
        ({
            let sent = Delete::DeleteRow.asks(image);
            &&& delete_image_reading().is_read(sent)
            &&& delete_image_reading().picks(sent.binds, row) == (row["question"@] == Cell::Uuid(image.question.0) && row["slot"@] == crate::sql::opt_text(crate::page::opt_string_view(image.slot)))
        }),
{
    lemma_delete_image_reads();
    reveal_with_fuel(crate::sql::all_hold, 3);
}

} // verus!
