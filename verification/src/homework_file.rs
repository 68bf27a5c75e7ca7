//! The `homework_file` table: the files behind a submission, with the
//! seat-claiming insert, the scoped reads and the guarded delete.

use vstd::prelude::*;

use crate::error::{AppError, AppErrorView, DbError, Gone};
use crate::id::{CourseId, HomeworkFileId, HomeworkId, HomeworkSubmissionId, Timestamp};
use crate::page::{Param, ParamView, Statement, StatementView};
use crate::reference::References;
use crate::sql::{Cell, Cond, Conflict, Cuts, Expr, Picking, Row, Storing, Term, Text, Writing};
use crate::transaction::{Reply, Step};

verus! {

/// The most files a submission holds.
pub const MAX_HOMEWORK_FILES_PER_SUBMISSION: i64 = 10;

/// A stored file of a submission; `file` names its blob.
#[derive(Debug)]
pub struct HomeworkFile {
    pub id: HomeworkFileId,
    pub submission: HomeworkSubmissionId,
    pub name: String,
    pub content_type: String,
    pub size: i64,
    pub file: String,
    pub created_at: Timestamp,
}

pub const INSERT: &'static str =
    "WITH seat AS ( UPDATE homework_submission SET file_count = file_count + 1 WHERE id = $2 \
     AND file_count < $1 AND graded_by_result IS NULL RETURNING 1 ) INSERT INTO homework_file \
     (id, submission, name, content_type, size, file, created_at) SELECT $3, $2, $4, $5, $6, \
     $7, $8 WHERE EXISTS (SELECT 1 FROM seat) RETURNING id, submission, name, content_type, \
     size, file, created_at";

/// The insert of a file, which takes a seat on its submission in the same
/// statement and writes nothing where the submission is full, graded or gone.
pub fn insert(file: &HomeworkFile) -> (statement: Statement)
    ensures
        statement@ == crate::page::sends(
            INSERT,
            seq![
                ParamView::I64(MAX_HOMEWORK_FILES_PER_SUBMISSION),
                ParamView::Uuid(file.submission.0),
                ParamView::Uuid(file.id.0),
                ParamView::Text(file.name@),
                ParamView::Text(file.content_type@),
                ParamView::I64(file.size),
                ParamView::Text(file.file@),
                ParamView::I64(file.created_at.0),
            ],
        ),
{
    Statement::new(
        INSERT,
        vec![
            Param::I64(MAX_HOMEWORK_FILES_PER_SUBMISSION),
            Param::Uuid(file.submission.0),
            Param::Uuid(file.id.0),
            Param::Text(file.name.clone()),
            Param::Text(file.content_type.clone()),
            Param::I64(file.size),
            Param::Text(file.file.clone()),
            Param::I64(file.created_at.0),
        ],
    )
}

/// What an insert comes to: the row, none where no seat was taken, or the
/// database's failure. A key that was already taken is a fault of ours.
pub fn inserted<T>(outcome: Result<Option<T>, DbError>) -> (answer: Result<Option<T>, AppError>)
    ensures
        match outcome {
            Ok(row) => answer == Ok::<Option<T>, AppError>(row),
            Err(error) => answer is Err && answer->Err_0@ == (if error.is_unique() {
                AppErrorView::Internal("homework file id collided"@)
            } else {
                AppErrorView::Db(error)
            }),
        },
{
    match outcome {
        Ok(row) => Ok(row),
        Err(error) => if crate::error::is_unique_violation(&error) {
            Err(AppError::Internal("homework file id collided".to_owned()))
        } else {
            Err(AppError::Db(error))
        },
    }
}

/// The answer to a file that finds its submission full.
pub const FULL: &'static str =
    "the submission already holds the maximum of 10 files — delete one first";

/// What an insert that took no seat answers: nothing where the submission is
/// graded, so that the caller words it, and a conflict otherwise.
pub fn no_seat(graded: bool) -> (answer: Result<(), AppError>)
    ensures
        graded ==> answer is Ok,
        !graded ==> answer is Err && answer->Err_0@ == AppErrorView::Conflict(FULL@),
{
    if graded {
        Ok(())
    } else {
        Err(AppError::Conflict(FULL))
    }
}

pub const READ_FOR: &'static str =
    "SELECT id, submission, name, content_type, size, file, created_at FROM homework_file WHERE \
     id = $1 AND submission = $2";

/// The read of a file, only off its own submission.
pub fn read_for(id: HomeworkFileId, submission: HomeworkSubmissionId) -> (statement: Statement)
    ensures
        statement@ == crate::page::sends(
            READ_FOR,
            seq![ParamView::Uuid(id.0), ParamView::Uuid(submission.0)],
        ),
{
    Statement::new(READ_FOR, vec![Param::Uuid(id.0), Param::Uuid(submission.0)])
}

pub const READ_IN_HOMEWORK: &'static str =
    "SELECT id, submission, name, content_type, size, file, created_at FROM homework_file WHERE \
     id = $1 AND submission IN (SELECT id FROM homework_submission WHERE homework = $2)";

/// The read of a file, only off a submission to `homework`.
pub fn read_in_homework(id: HomeworkFileId, homework: HomeworkId) -> (statement: Statement)
    ensures
        statement@ == crate::page::sends(
            READ_IN_HOMEWORK,
            seq![ParamView::Uuid(id.0), ParamView::Uuid(homework.0)],
        ),
{
    Statement::new(READ_IN_HOMEWORK, vec![Param::Uuid(id.0), Param::Uuid(homework.0)])
}

pub const LIST_FOR_SUBMISSION: &'static str =
    "SELECT id, submission, name, content_type, size, file, created_at FROM homework_file WHERE \
     submission = $1 ORDER BY id DESC";

/// The read of a submission's files, newest first.
pub fn list_for_submission(submission: HomeworkSubmissionId) -> (statement: Statement)
    ensures
        statement@ == crate::page::sends(LIST_FOR_SUBMISSION, seq![ParamView::Uuid(submission.0)]),
{
    Statement::new(LIST_FOR_SUBMISSION, vec![Param::Uuid(submission.0)])
}

pub const COUNT_FOR_SUBMISSION: &'static str =
    "SELECT count(*) AS count FROM homework_file WHERE submission = $1";

/// The count of a submission's files.
pub fn count_for_submission(submission: HomeworkSubmissionId) -> (statement: Statement)
    ensures
        statement@ == crate::page::sends(COUNT_FOR_SUBMISSION, seq![ParamView::Uuid(submission.0)]),
{
    Statement::new(COUNT_FOR_SUBMISSION, vec![Param::Uuid(submission.0)])
}

pub const FILE_KEYS_FOR_HOMEWORK: &'static str =
    "SELECT file FROM homework_file WHERE submission IN (SELECT id FROM homework_submission \
     WHERE homework = $1)";

/// The read of the blob names behind every file of a homework.
pub fn file_keys_for_homework(homework: HomeworkId) -> (statement: Statement)
    ensures
        statement@ == crate::page::sends(FILE_KEYS_FOR_HOMEWORK, seq![ParamView::Uuid(homework.0)]),
{
    Statement::new(FILE_KEYS_FOR_HOMEWORK, vec![Param::Uuid(homework.0)])
}

pub const FILE_KEYS_FOR_COURSE: &'static str =
    "SELECT file FROM homework_file WHERE submission IN ( SELECT id FROM homework_submission \
     WHERE homework IN (SELECT id FROM homework WHERE course = $1) )";

/// The read of the blob names behind every homework file of a course.
pub fn file_keys_for_course(course: CourseId) -> (statement: Statement)
    ensures
        statement@ == crate::page::sends(FILE_KEYS_FOR_COURSE, seq![ParamView::Uuid(course.0)]),
{
    Statement::new(FILE_KEYS_FOR_COURSE, vec![Param::Uuid(course.0)])
}

/// The statement a delete waits for.
#[derive(Clone, Copy, PartialEq, Eq, Structural, Debug)]
pub enum Delete {
    /// Re-stamp the submission, unless a grade froze it.
    Gate,
    /// Delete the row; its row is the answer.
    DeleteRow,
    /// Give the seat back.
    ReleaseSeat,
}

/// What a delete comes to.
#[derive(Clone, Copy, PartialEq, Eq, Structural, Debug)]
pub enum Deleted {
    File,
    /// The submission is graded or gone: nothing was deleted.
    Closed,
}

pub const GATE: &'static str =
    "UPDATE homework_submission SET updated_at = $2 WHERE id = $1 AND graded_by_result IS NULL \
     RETURNING 1 AS open";
pub const DELETE_FILE: &'static str =
    "DELETE FROM homework_file WHERE id = $1 AND submission = $2 RETURNING id, submission, \
     name, content_type, size, file, created_at";
pub const RELEASE_SEAT: &'static str =
    "UPDATE homework_submission SET file_count = GREATEST(file_count - 1, 0) WHERE id = $1";

impl Delete {
    /// The statement of this step.
    pub open spec fn asks(
        self,
        id: HomeworkFileId,
        submission: HomeworkSubmissionId,
        now: Timestamp,
    ) -> StatementView {
        let parent = ParamView::Uuid(submission.0);
        match self {
            Delete::Gate => crate::page::sends(GATE, seq![parent, ParamView::I64(now.0)]),
            Delete::DeleteRow => crate::page::sends(
                DELETE_FILE,
                seq![ParamView::Uuid(id.0), parent],
            ),
            Delete::ReleaseSeat => crate::page::sends(RELEASE_SEAT, seq![parent]),
        }
    }

    /// The statement of this step.
    pub fn statement(
        self,
        id: HomeworkFileId,
        submission: HomeworkSubmissionId,
        now: Timestamp,
    ) -> (statement: Statement)
        ensures
            statement@ == self.asks(id, submission, now),
    {
        let parent = Param::Uuid(submission.0);
        match self {
            Delete::Gate => Statement::new(GATE, vec![parent, Param::I64(now.0)]),
            Delete::DeleteRow => Statement::new(DELETE_FILE, vec![Param::Uuid(id.0), parent]),
            Delete::ReleaseSeat => Statement::new(RELEASE_SEAT, vec![parent]),
        }
    }
}

/// What a delete does once the statement of `at` is answered. The only
/// refusal is that the file row is gone.
pub open spec fn delete_next(at: Delete, reply: Reply) -> Step<Delete, Deleted, Gone> {
    match at {
        Delete::Gate => if reply.has_row() {
            Step::Ask(Delete::DeleteRow)
        } else {
            Step::Commit(Deleted::Closed)
        },
        Delete::DeleteRow => if reply.has_row() {
            Step::Ask(Delete::ReleaseSeat)
        } else {
            Step::Abort(Gone)
        },
        Delete::ReleaseSeat => Step::Commit(Deleted::File),
    }
}

/// Delete a file and give its seat back: the step that follows the answer to
/// `at`. A delete starts at [`Delete::Gate`] and answers `NotFound` where the
/// submission was open but the file was gone.
pub fn delete(at: Delete, reply: Reply) -> (step: Step<Delete, Deleted, Gone>)
    ensures
        step == delete_next(at, reply),
{
    match at {
        Delete::Gate => if reply.row() {
            Step::Ask(Delete::DeleteRow)
        } else {
            Step::Commit(Deleted::Closed)
        },
        Delete::DeleteRow => if reply.row() {
            Step::Ask(Delete::ReleaseSeat)
        } else {
            Step::Abort(Gone)
        },
        Delete::ReleaseSeat => Step::Commit(Deleted::File),
    }
}

/// The submission each file hangs off, and each submission's `file_count`.
pub type Files = References<HomeworkFileId, HomeworkSubmissionId>;

/// What each statement of a delete does to the files, and what it replies.
/// `open` is whether the submission is there and not graded.
pub open spec fn delete_effect(
    db: Files,
    id: HomeworkFileId,
    submission: HomeworkSubmissionId,
    open: bool,
    at: Delete,
) -> (Files, Reply) {
    match at {
        Delete::Gate => (
            db,
            if open {
                Reply::Row
            } else {
                Reply::Empty
            },
        ),
        Delete::DeleteRow => if db.links.contains_key(id) && db.links[id] == submission {
            (db.unlinked(id), Reply::Row)
        } else {
            (db, Reply::Empty)
        },
        Delete::ReleaseSeat => (db.released(submission), Reply::Row),
    }
}

/// A whole delete against the files.
pub open spec fn delete_run(
    db: Files,
    id: HomeworkFileId,
    submission: HomeworkSubmissionId,
    open: bool,
) -> (Files, Step<Delete, Deleted, Gone>) {
    crate::transaction::run(
        db,
        Step::Ask(Delete::Gate),
        |at: Delete, reply: Reply| delete_next(at, reply),
        |files: Files, at: Delete| delete_effect(files, id, submission, open, at),
        3,
    )
}

/// A delete from an open submission takes the file and its seat together, and
/// one from a graded submission takes neither; each way the counts stay the
/// number of files, within the cap.
pub proof fn law_delete_keeps_seats(
    db: Files,
    id: HomeworkFileId,
    submission: HomeworkSubmissionId,
    open: bool,
)
    requires
        db.counted(),
        db.within(MAX_HOMEWORK_FILES_PER_SUBMISSION as int),
    ensures
        crate::transaction::stored(db, delete_run(db, id, submission, open)) == (if open {
            db.unseated(id, submission)
        } else {
            db
        }),
        crate::transaction::stored(db, delete_run(db, id, submission, open)).counted(),
        crate::transaction::stored(db, delete_run(db, id, submission, open)).within(
            MAX_HOMEWORK_FILES_PER_SUBMISSION as int,
        ),
{
    reveal_with_fuel(crate::transaction::run, 4);
    crate::reference::lemma_unseat_counted(
        db,
        id,
        submission,
        MAX_HOMEWORK_FILES_PER_SUBMISSION as int,
    );
}

/// An insert lands with its seat or not at all: the counts stay the number of
/// files, and no submission ever holds more than the cap.
pub proof fn law_insert_keeps_seats(
    db: Files,
    id: HomeworkFileId,
    submission: HomeworkSubmissionId,
    open: bool,
)
    requires
        db.counted(),
        db.within(MAX_HOMEWORK_FILES_PER_SUBMISSION as int),
        !db.links.contains_key(id),
    ensures
        ({
            let after = db.seated(id, submission, MAX_HOMEWORK_FILES_PER_SUBMISSION as int, open);
            &&& after.counted()
            &&& after.within(MAX_HOMEWORK_FILES_PER_SUBMISSION as int)
            &&& !open ==> after == db
            &&& after.unseated(id, submission) == db
        }),
{
    crate::reference::lemma_seat_counted(
        db,
        id,
        submission,
        MAX_HOMEWORK_FILES_PER_SUBMISSION as int,
        open,
    );
    crate::reference::lemma_seat_then_unseat(
        db,
        id,
        submission,
        MAX_HOMEWORK_FILES_PER_SUBMISSION as int,
        open,
    );
}

/// The row that [`INSERT`] inserts where its first part wrote.
pub open spec fn insert_row() -> Storing {
    Storing {
        head: "INSERT INTO "@,
        table: "homework_file"@,
        columns: seq!["id"@, "submission"@, "name"@, "content_type"@, "size"@, "file"@, "created_at"@],
        values: seq![Term::Bind(3), Term::Bind(2), Term::Bind(4), Term::Bind(5), Term::Bind(6), Term::Bind(7), Term::Bind(8)],
        selected: true,
        conflict: Conflict::Unread,
        rest: crate::sql::before(" WHERE EXISTS (SELECT 1 FROM seat)"@, crate::sql::returning()),
    }
}

/// What [`INSERT`] says.
pub open spec fn insert_reading() -> Writing {
    Writing {
        head: "WITH seat AS ( UPDATE "@,
        table: "homework_submission"@,
        sets: seq![("file_count"@, Expr::Plus(Term::Column("file_count"@), Term::Word("1"@, Cell::Int(1))))],
        conditions: seq![crate::sql::is_bound("id"@, 2), Cond::Below(crate::sql::column("file_count"@), crate::sql::bind(1)), Cond::Null(crate::sql::column("graded_by_result"@))],
        rest: crate::sql::before(" RETURNING 1 ) "@, insert_row().text()),
    }
}

#[verifier::rlimit(20)]
proof fn lemma_insert_reads()
    ensures
        crate::sql::spells(INSERT@, 0, insert_reading().text()),
{
    reveal_strlit("WITH seat AS ( UPDATE homework_submission SET file_count = file_count + 1 WHERE id = $2 AND file_count < $1 AND graded_by_result IS NULL RETURNING 1 ) INSERT INTO homework_file (id, submission, name, content_type, size, file, created_at) SELECT $3, $2, $4, $5, $6, $7, $8 WHERE EXISTS (SELECT 1 FROM seat) RETURNING id, submission, name, content_type, size, file, created_at");
    reveal_strlit("WITH seat AS ( UPDATE ");
    reveal_strlit("homework_submission");
    reveal_strlit(" SET ");
    reveal_strlit("file_count");
    reveal_strlit(" = ");
    reveal_strlit(" + ");
    reveal_strlit("1");
    reveal_strlit(" WHERE ");
    reveal_strlit("id");
    reveal_strlit("$");
    reveal_strlit(" AND ");
    reveal_strlit(" < ");
    reveal_strlit("graded_by_result");
    reveal_strlit(" IS NULL");
    reveal_strlit(" RETURNING 1 ) ");
    reveal_strlit("INSERT INTO ");
    reveal_strlit("homework_file");
    reveal_strlit(" (");
    reveal_strlit(", ");
    reveal_strlit("submission");
    reveal_strlit("name");
    reveal_strlit("content_type");
    reveal_strlit("size");
    reveal_strlit("file");
    reveal_strlit("created_at");
    reveal_strlit(") SELECT ");
    reveal_strlit(" WHERE EXISTS (SELECT 1 FROM seat)");
    reveal_strlit(" RETURNING ");
    reveal(crate::sql::Writing::text);
    reveal(crate::sql::Storing::text);
    reveal_with_fuel(crate::sql::set_text, 2);
    reveal_with_fuel(crate::sql::where_text, 4);
    reveal_with_fuel(crate::sql::names_text, 8);
    reveal_with_fuel(crate::sql::values_text, 8);
    reveal_with_fuel(crate::sql::stands, 35);
    reveal_with_fuel(crate::sql::spells_by, 53);
    crate::sql::lemma_spells_by(INSERT@, 0, insert_reading().text(), crate::sql::cut(22, crate::sql::cut(41, crate::sql::cut(46, crate::sql::cut(56, crate::sql::cut(59, crate::sql::cut(69, crate::sql::cut(72, crate::sql::cut(73, crate::sql::cut(80, crate::sql::cut(82, crate::sql::cut(85, crate::sql::cut(87, crate::sql::cut(92, crate::sql::cut(102, crate::sql::cut(105, crate::sql::cut(107, crate::sql::cut(112, crate::sql::cut(128, crate::sql::cut(136, crate::sql::cut(151, crate::sql::cut(163, crate::sql::cut(176, crate::sql::cut(178, crate::sql::cut(180, crate::sql::cut(182, crate::sql::cut(192, crate::sql::cut(194, crate::sql::cut(198, crate::sql::cut(200, crate::sql::cut(212, crate::sql::cut(214, crate::sql::cut(218, crate::sql::cut(220, crate::sql::cut(224, crate::sql::cut(226, crate::sql::cut(236, crate::sql::cut(245, crate::sql::cut(247, crate::sql::cut(249, crate::sql::cut(251, crate::sql::cut(253, crate::sql::cut(255, crate::sql::cut(257, crate::sql::cut(259, crate::sql::cut(261, crate::sql::cut(263, crate::sql::cut(265, crate::sql::cut(267, crate::sql::cut(269, crate::sql::cut(271, crate::sql::cut(305, crate::sql::cut(316, Cuts::Last)))))))))))))))))))))))))))))))))))))))))))))))))))));
}

/// [`insert`] writes the row it names where its condition holds, and then stores the
/// new row, each value in its own column.
pub proof fn law_insert_lands_in_its_columns(
    file: &HomeworkFile,
    sent: Statement,
    row: Row,
)
    requires
        call_ensures(insert, (file,), sent),
    ensures
        insert_reading().is_read(sent@),
        insert_reading().picks(sent@.binds, row) == (row["id"@] == Cell::Uuid(file.submission.0) && (row["file_count"@] is Int && row["file_count"@].number() < MAX_HOMEWORK_FILES_PER_SUBMISSION as int) && row["graded_by_result"@] is Null),
        insert_reading().writes(sent@.binds, row) == seq![
            ("file_count"@, Cell::Int(row["file_count"@].number() + 1)),
        ],
        insert_row().stores(sent@.binds) == seq![
            ("id"@, Cell::Uuid(file.id.0)),
            ("submission"@, Cell::Uuid(file.submission.0)),
            ("name"@, Cell::Text(file.name@)),
            ("content_type"@, Cell::Text(file.content_type@)),
            ("size"@, Cell::Int(file.size as int)),
            ("file"@, Cell::Text(file.file@)),
            ("created_at"@, Cell::Int(file.created_at.0 as int)),
        ],
{
    lemma_insert_reads();
    reveal_with_fuel(crate::sql::all_hold, 4);
}

/// What [`READ_FOR`] says.
pub open spec fn read_for_reading() -> Picking {
    Picking {
        skip: 65,
        head: " FROM "@,
        columns: Seq::empty(),
        table: "homework_file"@,
        conditions: seq![crate::sql::is_bound("id"@, 1), crate::sql::is_bound("submission"@, 2)],
        rest: Text::End,
    }
}

proof fn lemma_read_for_reads()
    ensures
        crate::sql::spells(READ_FOR@, 65, read_for_reading().text()),
{
    reveal_strlit("SELECT id, submission, name, content_type, size, file, created_at FROM homework_file WHERE id = $1 AND submission = $2");
    reveal_strlit(" FROM ");
    reveal_strlit("homework_file");
    reveal_strlit(" WHERE ");
    reveal_strlit("id");
    reveal_strlit(" = ");
    reveal_strlit("$");
    reveal_strlit(" AND ");
    reveal_strlit("submission");
    reveal(crate::sql::Picking::text);
    reveal_with_fuel(crate::sql::where_text, 3);
    reveal_with_fuel(crate::sql::stands, 14);
    reveal_with_fuel(crate::sql::spells_by, 11);
    crate::sql::lemma_spells_by(READ_FOR@, 65, read_for_reading().text(), crate::sql::cut(71, crate::sql::cut(84, crate::sql::cut(91, crate::sql::cut(93, crate::sql::cut(96, crate::sql::cut(98, crate::sql::cut(103, crate::sql::cut(113, crate::sql::cut(116, crate::sql::cut(118, Cuts::Last)))))))))));
}

/// [`read_for`] reads the rows it names and no other.
pub proof fn law_read_for_reads_its_rows(
    id: HomeworkFileId,
    submission: HomeworkSubmissionId,
    sent: Statement,
    row: Row,
)
    requires
        call_ensures(read_for, (id, submission), sent),
    ensures
        read_for_reading().is_read(sent@),
        read_for_reading().picks(sent@.binds, row) == (row["id"@] == Cell::Uuid(id.0) && row["submission"@] == Cell::Uuid(submission.0)),
{
    lemma_read_for_reads();
    reveal_with_fuel(crate::sql::all_hold, 3);
}

/// The text of [`READ_IN_HOMEWORK`], taken apart at its placeholders.
pub open spec fn read_in_homework_text() -> Text {
    crate::sql::before("SELECT id, submission, name, content_type,"@, crate::sql::before(" size, file, created_at FROM homework_file"@, crate::sql::before(" WHERE id = "@, crate::sql::before(crate::text::placeholder(1), crate::sql::before(" AND submission IN (SELECT id FROM"@, crate::sql::before(" homework_submission WHERE homework = "@, crate::sql::before(crate::text::placeholder(2), crate::sql::before(")"@, Text::End))))))))
}

proof fn lemma_read_in_homework_reads()
    ensures
        crate::sql::spells(READ_IN_HOMEWORK@, 0, read_in_homework_text()),
{
    reveal_strlit("SELECT id, submission, name, content_type, size, file, created_at FROM homework_file WHERE id = $1 AND submission IN (SELECT id FROM homework_submission WHERE homework = $2)");
    reveal_strlit("SELECT id, submission, name, content_type,");
    reveal_strlit(" size, file, created_at FROM homework_file");
    reveal_strlit(" WHERE id = ");
    reveal_strlit("$");
    reveal_strlit(" AND submission IN (SELECT id FROM");
    reveal_strlit(" homework_submission WHERE homework = ");
    reveal_strlit(")");
    reveal_with_fuel(crate::sql::stands, 43);
    reveal_with_fuel(crate::sql::spells_by, 9);
    crate::sql::lemma_spells_by(READ_IN_HOMEWORK@, 0, read_in_homework_text(), crate::sql::cut(42, crate::sql::cut(84, crate::sql::cut(96, crate::sql::cut(98, crate::sql::cut(132, crate::sql::cut(170, crate::sql::cut(172, crate::sql::cut(173, Cuts::Last)))))))));
}

/// [`read_in_homework`] binds each value at its own place in the text.
pub proof fn law_read_in_homework_binds_its_values(
    id: HomeworkFileId,
    homework: HomeworkId,
    sent: Statement,
)
    requires
        call_ensures(read_in_homework, (id, homework), sent),
    ensures
        crate::sql::spells(sent@.sql, 0, read_in_homework_text()),
        sent@.binds.len() == 2,
        crate::sql::cell(sent@.binds[0]) == Cell::Uuid(id.0),
        crate::sql::cell(sent@.binds[1]) == Cell::Uuid(homework.0),
{
    lemma_read_in_homework_reads();
}

/// What [`LIST_FOR_SUBMISSION`] says.
pub open spec fn list_for_submission_reading() -> Picking {
    Picking {
        skip: 65,
        head: " FROM "@,
        columns: Seq::empty(),
        table: "homework_file"@,
        conditions: seq![crate::sql::is_bound("submission"@, 1)],
        rest: crate::sql::before(" ORDER BY id DESC"@, Text::End),
    }
}

proof fn lemma_list_for_submission_reads()
    ensures
        crate::sql::spells(LIST_FOR_SUBMISSION@, 65, list_for_submission_reading().text()),
{
    reveal_strlit("SELECT id, submission, name, content_type, size, file, created_at FROM homework_file WHERE submission = $1 ORDER BY id DESC");
    reveal_strlit(" FROM ");
    reveal_strlit("homework_file");
    reveal_strlit(" WHERE ");
    reveal_strlit("submission");
    reveal_strlit(" = ");
    reveal_strlit("$");
    reveal_strlit(" ORDER BY id DESC");
    reveal(crate::sql::Picking::text);
    reveal_with_fuel(crate::sql::where_text, 2);
    reveal_with_fuel(crate::sql::stands, 18);
    reveal_with_fuel(crate::sql::spells_by, 8);
    crate::sql::lemma_spells_by(LIST_FOR_SUBMISSION@, 65, list_for_submission_reading().text(), crate::sql::cut(71, crate::sql::cut(84, crate::sql::cut(91, crate::sql::cut(101, crate::sql::cut(104, crate::sql::cut(106, crate::sql::cut(123, Cuts::Last))))))));
}

/// [`list_for_submission`] reads the rows it names and no other.
pub proof fn law_list_for_submission_reads_its_rows(
    submission: HomeworkSubmissionId,
    sent: Statement,
    row: Row,
)
    requires
        call_ensures(list_for_submission, (submission,), sent),
    ensures
        list_for_submission_reading().is_read(sent@),
        list_for_submission_reading().picks(sent@.binds, row) == (row["submission"@] == Cell::Uuid(submission.0)),
{
    lemma_list_for_submission_reads();
    reveal_with_fuel(crate::sql::all_hold, 2);
}

/// What [`COUNT_FOR_SUBMISSION`] says.
pub open spec fn count_for_submission_reading() -> Picking {
    Picking {
        skip: 0,
        head: "SELECT "@,
        columns: seq!["count(*) AS count"@],
        table: "homework_file"@,
        conditions: seq![crate::sql::is_bound("submission"@, 1)],
        rest: Text::End,
    }
}

proof fn lemma_count_for_submission_reads()
    ensures
        crate::sql::spells(COUNT_FOR_SUBMISSION@, 0, count_for_submission_reading().text()),
{
    reveal_strlit("SELECT count(*) AS count FROM homework_file WHERE submission = $1");
    reveal_strlit("SELECT ");
    reveal_strlit("count(*) AS count");
    reveal_strlit(" FROM ");
    reveal_strlit("homework_file");
    reveal_strlit(" WHERE ");
    reveal_strlit("submission");
    reveal_strlit(" = ");
    reveal_strlit("$");
    reveal(crate::sql::Picking::text);
    reveal_with_fuel(crate::sql::where_text, 2);
    reveal_with_fuel(crate::sql::names_text, 2);
    reveal_with_fuel(crate::sql::stands, 18);
    reveal_with_fuel(crate::sql::spells_by, 9);
    crate::sql::lemma_spells_by(COUNT_FOR_SUBMISSION@, 0, count_for_submission_reading().text(), crate::sql::cut(7, crate::sql::cut(24, crate::sql::cut(30, crate::sql::cut(43, crate::sql::cut(50, crate::sql::cut(60, crate::sql::cut(63, crate::sql::cut(65, Cuts::Last)))))))));
}

/// [`count_for_submission`] reads the rows it names and no other.
pub proof fn law_count_for_submission_reads_its_rows(
    submission: HomeworkSubmissionId,
    sent: Statement,
    row: Row,
)
    requires
        call_ensures(count_for_submission, (submission,), sent),
    ensures
        count_for_submission_reading().is_read(sent@),
        count_for_submission_reading().picks(sent@.binds, row) == (row["submission"@] == Cell::Uuid(submission.0)),
{
    lemma_count_for_submission_reads();
    reveal_with_fuel(crate::sql::all_hold, 2);
}

/// The text of [`FILE_KEYS_FOR_HOMEWORK`], taken apart at its placeholders.
pub open spec fn file_keys_for_homework_text() -> Text {
    crate::sql::before("SELECT file FROM homework_file WHERE submission"@, crate::sql::before(" IN (SELECT id FROM homework_submission WHERE"@, crate::sql::before(" homework = "@, crate::sql::before(crate::text::placeholder(1), crate::sql::before(")"@, Text::End)))))
}

proof fn lemma_file_keys_for_homework_reads()
    ensures
        crate::sql::spells(FILE_KEYS_FOR_HOMEWORK@, 0, file_keys_for_homework_text()),
{
    reveal_strlit("SELECT file FROM homework_file WHERE submission IN (SELECT id FROM homework_submission WHERE homework = $1)");
    reveal_strlit("SELECT file FROM homework_file WHERE submission");
    reveal_strlit(" IN (SELECT id FROM homework_submission WHERE");
    reveal_strlit(" homework = ");
    reveal_strlit("$");
    reveal_strlit(")");
    reveal_with_fuel(crate::sql::stands, 48);
    reveal_with_fuel(crate::sql::spells_by, 6);
    crate::sql::lemma_spells_by(FILE_KEYS_FOR_HOMEWORK@, 0, file_keys_for_homework_text(), crate::sql::cut(47, crate::sql::cut(92, crate::sql::cut(104, crate::sql::cut(106, crate::sql::cut(107, Cuts::Last))))));
}

/// [`file_keys_for_homework`] binds each value at its own place in the text.
pub proof fn law_file_keys_for_homework_binds_its_values(
    homework: HomeworkId,
    sent: Statement,
)
    requires
        call_ensures(file_keys_for_homework, (homework,), sent),
    ensures
        crate::sql::spells(sent@.sql, 0, file_keys_for_homework_text()),
        sent@.binds.len() == 1,
        crate::sql::cell(sent@.binds[0]) == Cell::Uuid(homework.0),
{
    lemma_file_keys_for_homework_reads();
}

/// The text of [`FILE_KEYS_FOR_COURSE`], taken apart at its placeholders.
pub open spec fn file_keys_for_course_text() -> Text {
    crate::sql::before("SELECT file FROM homework_file WHERE submission"@, crate::sql::before(" IN ( SELECT id FROM homework_submission WHERE"@, crate::sql::before(" homework IN (SELECT id FROM homework WHERE"@, crate::sql::before(" course = "@, crate::sql::before(crate::text::placeholder(1), crate::sql::before(") )"@, Text::End))))))
}

proof fn lemma_file_keys_for_course_reads()
    ensures
        crate::sql::spells(FILE_KEYS_FOR_COURSE@, 0, file_keys_for_course_text()),
{
    reveal_strlit("SELECT file FROM homework_file WHERE submission IN ( SELECT id FROM homework_submission WHERE homework IN (SELECT id FROM homework WHERE course = $1) )");
    reveal_strlit("SELECT file FROM homework_file WHERE submission");
    reveal_strlit(" IN ( SELECT id FROM homework_submission WHERE");
    reveal_strlit(" homework IN (SELECT id FROM homework WHERE");
    reveal_strlit(" course = ");
    reveal_strlit("$");
    reveal_strlit(") )");
    reveal_with_fuel(crate::sql::stands, 48);
    reveal_with_fuel(crate::sql::spells_by, 7);
    crate::sql::lemma_spells_by(FILE_KEYS_FOR_COURSE@, 0, file_keys_for_course_text(), crate::sql::cut(47, crate::sql::cut(93, crate::sql::cut(136, crate::sql::cut(146, crate::sql::cut(148, crate::sql::cut(151, Cuts::Last)))))));
}

/// [`file_keys_for_course`] binds each value at its own place in the text.
pub proof fn law_file_keys_for_course_binds_its_values(
    course: CourseId,
    sent: Statement,
)
    requires
        call_ensures(file_keys_for_course, (course,), sent),
    ensures
        crate::sql::spells(sent@.sql, 0, file_keys_for_course_text()),
        sent@.binds.len() == 1,
        crate::sql::cell(sent@.binds[0]) == Cell::Uuid(course.0),
{
    lemma_file_keys_for_course_reads();
}

/// What [`GATE`] says.
pub open spec fn gate_reading() -> Writing {
    Writing {
        head: "UPDATE "@,
        table: "homework_submission"@,
        sets: seq![("updated_at"@, crate::sql::bind(2))],
        conditions: seq![crate::sql::is_bound("id"@, 1), Cond::Null(crate::sql::column("graded_by_result"@))],
        rest: crate::sql::returning(),
    }
}

proof fn lemma_gate_reads()
    ensures
        crate::sql::spells(GATE@, 0, gate_reading().text()),
{
    reveal_strlit("UPDATE homework_submission SET updated_at = $2 WHERE id = $1 AND graded_by_result IS NULL RETURNING 1 AS open");
    reveal_strlit("UPDATE ");
    reveal_strlit("homework_submission");
    reveal_strlit(" SET ");
    reveal_strlit("updated_at");
    reveal_strlit(" = ");
    reveal_strlit("$");
    reveal_strlit(" WHERE ");
    reveal_strlit("id");
    reveal_strlit(" AND ");
    reveal_strlit("graded_by_result");
    reveal_strlit(" IS NULL");
    reveal_strlit(" RETURNING ");
    reveal(crate::sql::Writing::text);
    reveal_with_fuel(crate::sql::set_text, 2);
    reveal_with_fuel(crate::sql::where_text, 3);
    reveal_with_fuel(crate::sql::stands, 20);
    reveal_with_fuel(crate::sql::spells_by, 15);
    crate::sql::lemma_spells_by(GATE@, 0, gate_reading().text(), crate::sql::cut(7, crate::sql::cut(26, crate::sql::cut(31, crate::sql::cut(41, crate::sql::cut(44, crate::sql::cut(46, crate::sql::cut(53, crate::sql::cut(55, crate::sql::cut(58, crate::sql::cut(60, crate::sql::cut(65, crate::sql::cut(81, crate::sql::cut(89, crate::sql::cut(100, Cuts::Last)))))))))))))));
}

/// [`Delete::Gate`] picks the rows it names and no other, and overwrites each column with
/// its own value.
pub proof fn law_delete_gate_writes_its_row(
    id: HomeworkFileId,
    submission: HomeworkSubmissionId,
    now: Timestamp,
    row: Row,
)
    ensures
        ({
            let sent = Delete::Gate.asks(id, submission, now);
            &&& gate_reading().is_read(sent)
            &&& gate_reading().picks(sent.binds, row) == (row["id"@] == Cell::Uuid(submission.0) && row["graded_by_result"@] is Null)
            &&& gate_reading().writes(sent.binds, row) == seq![
                ("updated_at"@, Cell::Int(now.0 as int)),
            ]
        }),
{
    lemma_gate_reads();
    reveal_with_fuel(crate::sql::all_hold, 3);
}

/// What [`DELETE_FILE`] says.
pub open spec fn delete_file_reading() -> Picking {
    Picking {
        skip: 0,
        head: "DELETE FROM "@,
        columns: Seq::empty(),
        table: "homework_file"@,
        conditions: seq![crate::sql::is_bound("id"@, 1), crate::sql::is_bound("submission"@, 2)],
        rest: crate::sql::returning(),
    }
}

proof fn lemma_delete_file_reads()
    ensures
        crate::sql::spells(DELETE_FILE@, 0, delete_file_reading().text()),
{
    reveal_strlit("DELETE FROM homework_file WHERE id = $1 AND submission = $2 RETURNING id, submission, name, content_type, size, file, created_at");
    reveal_strlit("DELETE FROM ");
    reveal_strlit("homework_file");
    reveal_strlit(" WHERE ");
    reveal_strlit("id");
    reveal_strlit(" = ");
    reveal_strlit("$");
    reveal_strlit(" AND ");
    reveal_strlit("submission");
    reveal_strlit(" RETURNING ");
    reveal(crate::sql::Picking::text);
    reveal_with_fuel(crate::sql::where_text, 3);
    reveal_with_fuel(crate::sql::stands, 14);
    reveal_with_fuel(crate::sql::spells_by, 12);
    crate::sql::lemma_spells_by(DELETE_FILE@, 0, delete_file_reading().text(), crate::sql::cut(12, crate::sql::cut(25, crate::sql::cut(32, crate::sql::cut(34, crate::sql::cut(37, crate::sql::cut(39, crate::sql::cut(44, crate::sql::cut(54, crate::sql::cut(57, crate::sql::cut(59, crate::sql::cut(70, Cuts::Last))))))))))));
}

/// [`Delete::DeleteRow`] deletes the rows it names and no other.
pub proof fn law_delete_delete_row_deletes_its_rows(
    id: HomeworkFileId,
    submission: HomeworkSubmissionId,
    now: Timestamp,
    row: Row,
)
    ensures
        ({
            let sent = Delete::DeleteRow.asks(id, submission, now);
            &&& delete_file_reading().is_read(sent)
            &&& delete_file_reading().picks(sent.binds, row) == (row["id"@] == Cell::Uuid(id.0) && row["submission"@] == Cell::Uuid(submission.0))
        }),
{
    lemma_delete_file_reads();
    reveal_with_fuel(crate::sql::all_hold, 3);
}

/// What [`RELEASE_SEAT`] says.
pub open spec fn release_seat_reading() -> Writing {
    Writing {
        head: "UPDATE "@,
        table: "homework_submission"@,
        sets: seq![("file_count"@, Expr::Floored(Term::Column("file_count"@), Term::Word("1"@, Cell::Int(1))))],
        conditions: seq![crate::sql::is_bound("id"@, 1)],
        rest: Text::End,
    }
}

proof fn lemma_release_seat_reads()
    ensures
        crate::sql::spells(RELEASE_SEAT@, 0, release_seat_reading().text()),
{
    reveal_strlit("UPDATE homework_submission SET file_count = GREATEST(file_count - 1, 0) WHERE id = $1");
    reveal_strlit("UPDATE ");
    reveal_strlit("homework_submission");
    reveal_strlit(" SET ");
    reveal_strlit("file_count");
    reveal_strlit(" = ");
    reveal_strlit("GREATEST(");
    reveal_strlit(" - ");
    reveal_strlit("1");
    reveal_strlit(", 0)");
    reveal_strlit(" WHERE ");
    reveal_strlit("id");
    reveal_strlit("$");
    reveal(crate::sql::Writing::text);
    reveal_with_fuel(crate::sql::set_text, 2);
    reveal_with_fuel(crate::sql::where_text, 2);
    reveal_with_fuel(crate::sql::stands, 20);
    reveal_with_fuel(crate::sql::spells_by, 15);
    crate::sql::lemma_spells_by(RELEASE_SEAT@, 0, release_seat_reading().text(), crate::sql::cut(7, crate::sql::cut(26, crate::sql::cut(31, crate::sql::cut(41, crate::sql::cut(44, crate::sql::cut(53, crate::sql::cut(63, crate::sql::cut(66, crate::sql::cut(67, crate::sql::cut(71, crate::sql::cut(78, crate::sql::cut(80, crate::sql::cut(83, crate::sql::cut(85, Cuts::Last)))))))))))))));
}

/// [`Delete::ReleaseSeat`] picks the rows it names and no other, and overwrites each column with
/// its own value.
pub proof fn law_delete_release_seat_writes_its_row(
    id: HomeworkFileId,
    submission: HomeworkSubmissionId,
    now: Timestamp,
    row: Row,
)
    ensures
        ({
            let sent = Delete::ReleaseSeat.asks(id, submission, now);
            &&& release_seat_reading().is_read(sent)
            &&& release_seat_reading().picks(sent.binds, row) == (row["id"@] == Cell::Uuid(submission.0))
            &&& release_seat_reading().writes(sent.binds, row) == seq![
                ("file_count"@, Cell::Int(crate::tally::floored(row["file_count"@].number() - 1))),
            ]
        }),
{
    lemma_release_seat_reads();
    reveal_with_fuel(crate::sql::all_hold, 2);
}

} // verus!
