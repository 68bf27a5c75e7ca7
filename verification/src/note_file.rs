//! The `note_file` table: the files of a note, listed newest first, with the
//! note's file cap claimed and released in the same write as the row.

use vstd::prelude::*;

use crate::error::{is_unique_violation, AppError, AppErrorView, DbError, Gone};
use crate::id::{NoteFileId, NoteId};
use crate::page::{paged, Param, ParamView, Statement, StatementView};
use crate::reference::References;
use crate::sql::{Cell, Cond, Conflict, Cuts, Expr, Picking, Row, Storing, Term, Text, Writing};
use crate::transaction::{Reply, Step};

verus! {

/// The most files a note holds.
pub const MAX_NOTE_FILES: i64 = 10;

/// A file of a note.
#[derive(Debug)]
pub struct NoteFile {
    pub id: NoteFileId,
    pub note: NoteId,
    pub name: String,
    pub content_type: String,
    pub size: i64,
}

pub const INSERT: &'static str =
    "WITH seat AS ( UPDATE note SET file_count = file_count + 1 WHERE id = $1 AND file_count < \
     $2 RETURNING 1) INSERT INTO note_file (id, note, name, content_type, size) SELECT $3, $1, \
     $4, $5, $6 WHERE EXISTS (SELECT 1 FROM seat) RETURNING id, note, name, content_type, size";

/// The insert of a file, which takes a seat on its note in the same statement
/// and writes nothing where the note is full or gone.
pub fn insert(file: &NoteFile) -> (statement: Statement)
    ensures
        statement@ == crate::page::sends(
            INSERT,
            seq![
                ParamView::Uuid(file.note.0),
                ParamView::I64(MAX_NOTE_FILES),
                ParamView::Uuid(file.id.0),
                ParamView::Text(file.name@),
                ParamView::Text(file.content_type@),
                ParamView::I64(file.size),
            ],
        ),
{
    Statement::new(
        INSERT,
        vec![
            Param::Uuid(file.note.0),
            Param::I64(MAX_NOTE_FILES),
            Param::Uuid(file.id.0),
            Param::Text(file.name.clone()),
            Param::Text(file.content_type.clone()),
            Param::I64(file.size),
        ],
    )
}

/// The answer to a file that finds its note full.
pub const FULL: &'static str = "the note already holds the maximum of 10 files — delete one first";

/// What an insert answers: the row, or that the note is full where no seat
/// was taken. A key that was already taken is a fault of ours.
pub fn inserted<T>(outcome: Result<Option<T>, DbError>) -> (answer: Result<T, AppError>)
    ensures
        match outcome {
            Ok(Some(row)) => answer == Ok::<T, AppError>(row),
            Ok(None) => answer is Err && answer->Err_0@ == AppErrorView::Conflict(FULL@),
            Err(error) => answer is Err && answer->Err_0@ == (if error.is_unique() {
                AppErrorView::Internal("failed to create note file"@)
            } else {
                AppErrorView::Db(error)
            }),
        },
{
    match outcome {
        Ok(Some(row)) => Ok(row),
        Ok(None) => Err(AppError::Conflict(FULL)),
        Err(error) => if is_unique_violation(&error) {
            Err(AppError::Internal("failed to create note file".to_owned()))
        } else {
            Err(AppError::Db(error))
        },
    }
}

pub const READ_FOR: &'static str =
    "SELECT id, note, name, content_type, size FROM note_file WHERE id = $1 AND note = $2";

/// The read of a file, only off its own note.
pub fn read_for(id: NoteFileId, note: NoteId) -> (statement: Statement)
    ensures
        statement@ == crate::page::sends(
            READ_FOR,
            seq![ParamView::Uuid(id.0), ParamView::Uuid(note.0)],
        ),
{
    Statement::new(READ_FOR, vec![Param::Uuid(id.0), Param::Uuid(note.0)])
}

pub const LIST_FOR_FROM: &'static str =
    "note_file WHERE note = $1";

pub const LIST_FOR_ORDER: &'static str = "ORDER BY id DESC";

/// The read of a note's files, newest first.
pub fn list_for(
    note: NoteId,
    limit: Option<i64>,
    offset: i64,
) -> (both: (Statement, Option<Statement>))
    ensures
        crate::page::pages(
            both,
            LIST_FOR_FROM@,
            LIST_FOR_ORDER@,
            seq![ParamView::Uuid(note.0)],
            limit,
            offset,
        ),
{
    let binds: Vec<Param> = vec![Param::Uuid(note.0)];
    assert(crate::page::bound(binds@) =~= seq![ParamView::Uuid(note.0)]);
    paged(LIST_FOR_FROM, LIST_FOR_ORDER, binds, limit, offset)
}

/// The statement a delete waits for.
#[derive(Clone, Copy, PartialEq, Eq, Structural, Debug)]
pub enum Delete {
    /// Delete the row: a [`Reply::Key`] with its note; its row is the answer.
    DeleteRow,
    /// Give the seat back.
    ReleaseSeat { note: NoteId },
}

pub const DELETE_FILE: &'static str =
    "DELETE FROM note_file WHERE id = $1 RETURNING id, note, name, content_type, size";
pub const RELEASE_SEAT: &'static str =
    "UPDATE note SET file_count = GREATEST(file_count - 1, 0) WHERE id = $1";

impl Delete {
    /// The statement of this step.
    pub open spec fn asks(self, id: NoteFileId) -> StatementView {
        match self {
            Delete::DeleteRow => crate::page::sends(DELETE_FILE, seq![ParamView::Uuid(id.0)]),
            Delete::ReleaseSeat { note } => crate::page::sends(
                RELEASE_SEAT,
                seq![ParamView::Uuid(note.0)],
            ),
        }
    }

    /// The statement of this step.
    pub fn statement(self, id: NoteFileId) -> (statement: Statement)
        ensures
            statement@ == self.asks(id),
    {
        match self {
            Delete::DeleteRow => Statement::new(DELETE_FILE, vec![Param::Uuid(id.0)]),
            Delete::ReleaseSeat { note } => Statement::new(
                RELEASE_SEAT,
                vec![Param::Uuid(note.0)],
            ),
        }
    }
}

/// What a delete does once the statement of `at` is answered.
pub open spec fn delete_next(at: Delete, reply: Reply) -> Step<Delete, (), Gone> {
    match at {
        Delete::DeleteRow => match reply.key() {
            Some(note) => Step::Ask(Delete::ReleaseSeat { note: NoteId(note) }),
            None => Step::Abort(Gone),
        },
        Delete::ReleaseSeat { .. } => Step::Commit(()),
    }
}

/// Delete a file and give its seat back: the step that follows the answer to
/// `at`. A delete starts at [`Delete::DeleteRow`].
pub fn delete(at: Delete, reply: Reply) -> (step: Step<Delete, (), Gone>)
    ensures
        step == delete_next(at, reply),
{
    match at {
        Delete::DeleteRow => match reply.uuid() {
            Some(note) => Step::Ask(Delete::ReleaseSeat { note: NoteId(note) }),
            None => Step::Abort(Gone),
        },
        Delete::ReleaseSeat { .. } => Step::Commit(()),
    }
}

/// The note each file hangs off, and each note's `file_count`.
pub type Files = References<NoteFileId, NoteId>;

/// What each statement of a delete does to the files, and what it replies.
pub open spec fn delete_effect(db: Files, id: NoteFileId, at: Delete) -> (Files, Reply) {
    match at {
        Delete::DeleteRow => if db.links.contains_key(id) {
            (db.unlinked(id), Reply::Key(db.links[id].0))
        } else {
            (db, Reply::Empty)
        },
        Delete::ReleaseSeat { note } => (db.released(note), Reply::Row),
    }
}

/// A whole delete against the files.
pub open spec fn delete_run(db: Files, id: NoteFileId) -> (Files, Step<Delete, (), Gone>) {
    crate::transaction::run(
        db,
        Step::Ask(Delete::DeleteRow),
        |at: Delete, reply: Reply| delete_next(at, reply),
        |files: Files, at: Delete| delete_effect(files, id, at),
        2,
    )
}

/// A delete hands its seat back with the row, so the counts stay the number
/// of files, within the cap.
pub proof fn law_delete_keeps_seats(db: Files, id: NoteFileId)
    requires
        db.counted(),
        db.within(MAX_NOTE_FILES as int),
    ensures
        ({
            let end = delete_run(db, id);
            let after = crate::transaction::stored(db, end);
            &&& end.1 is Commit <==> db.links.contains_key(id)
            &&& end.1 !is Commit ==> after == db
            &&& !after.links.contains_key(id)
            &&& after.counted()
            &&& after.within(MAX_NOTE_FILES as int)
        }),
{
    reveal_with_fuel(crate::transaction::run, 3);
    if db.links.contains_key(id) {
        crate::reference::lemma_unseat_counted(db, id, db.links[id], MAX_NOTE_FILES as int);
    }
}

/// An insert lands with its seat or not at all: the counts stay the number of
/// files, no note ever holds more than the cap, and a full note keeps every
/// file and count it had.
pub proof fn law_insert_keeps_seats(db: Files, id: NoteFileId, note: NoteId)
    requires
        db.counted(),
        db.within(MAX_NOTE_FILES as int),
        !db.links.contains_key(id),
    ensures
        ({
            let after = db.seated(id, note, MAX_NOTE_FILES as int, true);
            &&& after.counted()
            &&& after.within(MAX_NOTE_FILES as int)
            &&& db.counts.contains_key(note) && db.counts[note] >= MAX_NOTE_FILES ==> after == db
            &&& after.unseated(id, note) == db
        }),
{
    crate::reference::lemma_seat_counted(db, id, note, MAX_NOTE_FILES as int, true);
    crate::reference::lemma_seat_then_unseat(db, id, note, MAX_NOTE_FILES as int, true);
}

/// The row that [`INSERT`] inserts where its first part wrote.
pub open spec fn insert_row() -> Storing {
    Storing {
        head: "INSERT INTO "@,
        table: "note_file"@,
        columns: seq!["id"@, "note"@, "name"@, "content_type"@, "size"@],
        values: seq![Term::Bind(3), Term::Bind(1), Term::Bind(4), Term::Bind(5), Term::Bind(6)],
        selected: true,
        conflict: Conflict::Unread,
        rest: crate::sql::before(" WHERE EXISTS (SELECT 1 FROM seat)"@, crate::sql::returning()),
    }
}

/// What [`INSERT`] says.
pub open spec fn insert_reading() -> Writing {
    Writing {
        head: "WITH seat AS ( UPDATE "@,
        table: "note"@,
        sets: seq![("file_count"@, Expr::Plus(Term::Column("file_count"@), Term::Word("1"@, Cell::Int(1))))],
        conditions: seq![crate::sql::is_bound("id"@, 1), Cond::Below(crate::sql::column("file_count"@), crate::sql::bind(2))],
        rest: crate::sql::before(" RETURNING 1) "@, insert_row().text()),
    }
}

proof fn lemma_insert_reads()
    ensures
        crate::sql::spells(INSERT@, 0, insert_reading().text()),
{
    reveal_strlit("WITH seat AS ( UPDATE note SET file_count = file_count + 1 WHERE id = $1 AND file_count < $2 RETURNING 1) INSERT INTO note_file (id, note, name, content_type, size) SELECT $3, $1, $4, $5, $6 WHERE EXISTS (SELECT 1 FROM seat) RETURNING id, note, name, content_type, size");
    reveal_strlit("WITH seat AS ( UPDATE ");
    reveal_strlit("note");
    reveal_strlit(" SET ");
    reveal_strlit("file_count");
    reveal_strlit(" = ");
    reveal_strlit(" + ");
    reveal_strlit("1");
    reveal_strlit(" WHERE ");
    reveal_strlit("id");
    reveal_strlit("$");
    reveal_strlit(" AND ");
    reveal_strlit(" < ");
    reveal_strlit(" RETURNING 1) ");
    reveal_strlit("INSERT INTO ");
    reveal_strlit("note_file");
    reveal_strlit(" (");
    reveal_strlit(", ");
    reveal_strlit("name");
    reveal_strlit("content_type");
    reveal_strlit("size");
    reveal_strlit(") SELECT ");
    reveal_strlit(" WHERE EXISTS (SELECT 1 FROM seat)");
    reveal_strlit(" RETURNING ");
    reveal(crate::sql::Writing::text);
    reveal(crate::sql::Storing::text);
    reveal_with_fuel(crate::sql::set_text, 2);
    reveal_with_fuel(crate::sql::where_text, 3);
    reveal_with_fuel(crate::sql::names_text, 6);
    reveal_with_fuel(crate::sql::values_text, 6);
    reveal_with_fuel(crate::sql::stands, 35);
    reveal_with_fuel(crate::sql::spells_by, 42);
    crate::sql::lemma_spells_by(INSERT@, 0, insert_reading().text(), crate::sql::cut(22, crate::sql::cut(26, crate::sql::cut(31, crate::sql::cut(41, crate::sql::cut(44, crate::sql::cut(54, crate::sql::cut(57, crate::sql::cut(58, crate::sql::cut(65, crate::sql::cut(67, crate::sql::cut(70, crate::sql::cut(72, crate::sql::cut(77, crate::sql::cut(87, crate::sql::cut(90, crate::sql::cut(92, crate::sql::cut(106, crate::sql::cut(118, crate::sql::cut(127, crate::sql::cut(129, crate::sql::cut(131, crate::sql::cut(133, crate::sql::cut(137, crate::sql::cut(139, crate::sql::cut(143, crate::sql::cut(145, crate::sql::cut(157, crate::sql::cut(159, crate::sql::cut(163, crate::sql::cut(172, crate::sql::cut(174, crate::sql::cut(176, crate::sql::cut(178, crate::sql::cut(180, crate::sql::cut(182, crate::sql::cut(184, crate::sql::cut(186, crate::sql::cut(188, crate::sql::cut(190, crate::sql::cut(224, crate::sql::cut(235, Cuts::Last))))))))))))))))))))))))))))))))))))))))));
}

/// [`insert`] writes the row it names where its condition holds, and then stores the
/// new row, each value in its own column.
pub proof fn law_insert_lands_in_its_columns(
    file: &NoteFile,
    sent: Statement,
    row: Row,
)
    requires
        call_ensures(insert, (file,), sent),
    ensures
        insert_reading().is_read(sent@),
        insert_reading().picks(sent@.binds, row) == (row["id"@] == Cell::Uuid(file.note.0) && (row["file_count"@] is Int && row["file_count"@].number() < MAX_NOTE_FILES as int)),
        insert_reading().writes(sent@.binds, row) == seq![
            ("file_count"@, Cell::Int(row["file_count"@].number() + 1)),
        ],
        insert_row().stores(sent@.binds) == seq![
            ("id"@, Cell::Uuid(file.id.0)),
            ("note"@, Cell::Uuid(file.note.0)),
            ("name"@, Cell::Text(file.name@)),
            ("content_type"@, Cell::Text(file.content_type@)),
            ("size"@, Cell::Int(file.size as int)),
        ],
{
    lemma_insert_reads();
    reveal_with_fuel(crate::sql::all_hold, 3);
}

/// What [`READ_FOR`] says.
pub open spec fn read_for_reading() -> Picking {
    Picking {
        skip: 0,
        head: "SELECT "@,
        columns: seq!["id"@, "note"@, "name"@, "content_type"@, "size"@],
        table: "note_file"@,
        conditions: seq![crate::sql::is_bound("id"@, 1), crate::sql::is_bound("note"@, 2)],
        rest: Text::End,
    }
}

proof fn lemma_read_for_reads()
    ensures
        crate::sql::spells(READ_FOR@, 0, read_for_reading().text()),
{
    reveal_strlit("SELECT id, note, name, content_type, size FROM note_file WHERE id = $1 AND note = $2");
    reveal_strlit("SELECT ");
    reveal_strlit("id");
    reveal_strlit(", ");
    reveal_strlit("note");
    reveal_strlit("name");
    reveal_strlit("content_type");
    reveal_strlit("size");
    reveal_strlit(" FROM ");
    reveal_strlit("note_file");
    reveal_strlit(" WHERE ");
    reveal_strlit(" = ");
    reveal_strlit("$");
    reveal_strlit(" AND ");
    reveal(crate::sql::Picking::text);
    reveal_with_fuel(crate::sql::where_text, 3);
    reveal_with_fuel(crate::sql::names_text, 6);
    reveal_with_fuel(crate::sql::stands, 13);
    reveal_with_fuel(crate::sql::spells_by, 21);
    crate::sql::lemma_spells_by(READ_FOR@, 0, read_for_reading().text(), crate::sql::cut(7, crate::sql::cut(9, crate::sql::cut(11, crate::sql::cut(15, crate::sql::cut(17, crate::sql::cut(21, crate::sql::cut(23, crate::sql::cut(35, crate::sql::cut(37, crate::sql::cut(41, crate::sql::cut(47, crate::sql::cut(56, crate::sql::cut(63, crate::sql::cut(65, crate::sql::cut(68, crate::sql::cut(70, crate::sql::cut(75, crate::sql::cut(79, crate::sql::cut(82, crate::sql::cut(84, Cuts::Last)))))))))))))))))))));
}

/// [`read_for`] reads the rows it names and no other.
pub proof fn law_read_for_reads_its_rows(
    id: NoteFileId,
    note: NoteId,
    sent: Statement,
    row: Row,
)
    requires
        call_ensures(read_for, (id, note), sent),
    ensures
        read_for_reading().is_read(sent@),
        read_for_reading().picks(sent@.binds, row) == (row["id"@] == Cell::Uuid(id.0) && row["note"@] == Cell::Uuid(note.0)),
{
    lemma_read_for_reads();
    reveal_with_fuel(crate::sql::all_hold, 3);
}

/// What [`LIST_FOR_FROM`] says.
pub open spec fn list_for_from_reading() -> Picking {
    Picking {
        skip: 0,
        head: ""@,
        columns: Seq::empty(),
        table: "note_file"@,
        conditions: seq![crate::sql::is_bound("note"@, 1)],
        rest: Text::End,
    }
}

proof fn lemma_list_for_from_reads()
    ensures
        crate::sql::spells(LIST_FOR_FROM@, 0, list_for_from_reading().text()),
{
    reveal_strlit("note_file WHERE note = $1");
    reveal_strlit("");
    reveal_strlit("note_file");
    reveal_strlit(" WHERE ");
    reveal_strlit("note");
    reveal_strlit(" = ");
    reveal_strlit("$");
    reveal(crate::sql::Picking::text);
    reveal_with_fuel(crate::sql::where_text, 2);
    reveal_with_fuel(crate::sql::stands, 10);
    reveal_with_fuel(crate::sql::spells_by, 7);
    crate::sql::lemma_spells_by(LIST_FOR_FROM@, 0, list_for_from_reading().text(), crate::sql::cut(0, crate::sql::cut(9, crate::sql::cut(16, crate::sql::cut(20, crate::sql::cut(23, crate::sql::cut(25, Cuts::Last)))))));
}

/// [`list_for`] pages the rows it names and no other.
pub proof fn law_list_for_reads_its_rows(
    note: NoteId,
    limit: Option<i64>,
    offset: i64,
    both: (Statement, Option<Statement>),
    row: Row,
)
    requires
        call_ensures(list_for, (note, limit, offset), both),
    ensures
        crate::sql::spells(
            both.0@.sql,
            0,
            crate::sql::before("SELECT * FROM "@, crate::sql::opened(list_for_from_reading().text())),
        ),
        list_for_from_reading().picks(both.0@.binds, row) == (row["note"@] == Cell::Uuid(note.0)),
{
    lemma_list_for_from_reads();
    reveal(crate::sql::Picking::text);
    reveal_with_fuel(crate::sql::where_text, 2);
    reveal_with_fuel(crate::sql::is_open, 7);
    reveal_with_fuel(crate::sql::all_hold, 2);
    crate::page::law_page_reads_its_rows(
        both,
        LIST_FOR_FROM@,
        LIST_FOR_ORDER@,
        seq![ParamView::Uuid(note.0)],
        limit,
        offset,
        list_for_from_reading().text(),
    );
}

/// What [`DELETE_FILE`] says.
pub open spec fn delete_file_reading() -> Picking {
    Picking {
        skip: 0,
        head: "DELETE FROM "@,
        columns: Seq::empty(),
        table: "note_file"@,
        conditions: seq![crate::sql::is_bound("id"@, 1)],
        rest: crate::sql::returning(),
    }
}

proof fn lemma_delete_file_reads()
    ensures
        crate::sql::spells(DELETE_FILE@, 0, delete_file_reading().text()),
{
    reveal_strlit("DELETE FROM note_file WHERE id = $1 RETURNING id, note, name, content_type, size");
    reveal_strlit("DELETE FROM ");
    reveal_strlit("note_file");
    reveal_strlit(" WHERE ");
    reveal_strlit("id");
    reveal_strlit(" = ");
    reveal_strlit("$");
    reveal_strlit(" RETURNING ");
    reveal(crate::sql::Picking::text);
    reveal_with_fuel(crate::sql::where_text, 2);
    reveal_with_fuel(crate::sql::stands, 13);
    reveal_with_fuel(crate::sql::spells_by, 8);
    crate::sql::lemma_spells_by(DELETE_FILE@, 0, delete_file_reading().text(), crate::sql::cut(12, crate::sql::cut(21, crate::sql::cut(28, crate::sql::cut(30, crate::sql::cut(33, crate::sql::cut(35, crate::sql::cut(46, Cuts::Last))))))));
}

/// [`Delete::DeleteRow`] deletes the rows it names and no other.
pub proof fn law_delete_delete_row_deletes_its_rows(
    id: NoteFileId,
    row: Row,
)
    ensures
        ({
            let sent = Delete::DeleteRow.asks(id);
            &&& delete_file_reading().is_read(sent)
            &&& delete_file_reading().picks(sent.binds, row) == (row["id"@] == Cell::Uuid(id.0))
        }),
{
    lemma_delete_file_reads();
    reveal_with_fuel(crate::sql::all_hold, 2);
}

/// What [`RELEASE_SEAT`] says.
pub open spec fn release_seat_reading() -> Writing {
    Writing {
        head: "UPDATE "@,
        table: "note"@,
        sets: seq![("file_count"@, Expr::Floored(Term::Column("file_count"@), Term::Word("1"@, Cell::Int(1))))],
        conditions: seq![crate::sql::is_bound("id"@, 1)],
        rest: Text::End,
    }
}

proof fn lemma_release_seat_reads()
    ensures
        crate::sql::spells(RELEASE_SEAT@, 0, release_seat_reading().text()),
{
    reveal_strlit("UPDATE note SET file_count = GREATEST(file_count - 1, 0) WHERE id = $1");
    reveal_strlit("UPDATE ");
    reveal_strlit("note");
    reveal_strlit(" SET ");
    reveal_strlit("file_count");
    reveal_strlit(" = ");
    reveal_strlit("GREATEST(");
    reveal_strlit(" - ");
    reveal_strlit("1");
    reveal_strlit(", 0)");
    reveal_strlit(" WHERE ");
    reveal_strlit("id");
    reveal_strlit("$");
    reveal(crate::sql::Writing::text);
    reveal_with_fuel(crate::sql::set_text, 2);
    reveal_with_fuel(crate::sql::where_text, 2);
    reveal_with_fuel(crate::sql::stands, 11);
    reveal_with_fuel(crate::sql::spells_by, 15);
    crate::sql::lemma_spells_by(RELEASE_SEAT@, 0, release_seat_reading().text(), crate::sql::cut(7, crate::sql::cut(11, crate::sql::cut(16, crate::sql::cut(26, crate::sql::cut(29, crate::sql::cut(38, crate::sql::cut(48, crate::sql::cut(51, crate::sql::cut(52, crate::sql::cut(56, crate::sql::cut(63, crate::sql::cut(65, crate::sql::cut(68, crate::sql::cut(70, Cuts::Last)))))))))))))));
}

/// [`Delete::ReleaseSeat`] picks the rows it names and no other, and overwrites each column with
/// its own value.
pub proof fn law_delete_release_seat_writes_its_row(
    id: NoteFileId,
    note: NoteId,
    row: Row,
)
    ensures
        ({
            let sent = (Delete::ReleaseSeat { note }).asks(id);
            &&& release_seat_reading().is_read(sent)
            &&& release_seat_reading().picks(sent.binds, row) == (row["id"@] == Cell::Uuid(note.0))
            &&& release_seat_reading().writes(sent.binds, row) == seq![
                ("file_count"@, Cell::Int(crate::tally::floored(row["file_count"@].number() - 1))),
            ]
        }),
{
    lemma_release_seat_reads();
    reveal_with_fuel(crate::sql::all_hold, 2);
}

} // verus!
