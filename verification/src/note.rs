//! The `note` table: one user's rows, listed newest first, deleted together
//! with their files.

use vstd::prelude::*;

use crate::error::Gone;
use crate::field_update::{text_param, FieldUpdate, UpdatePlan};
use crate::id::{NoteFileId, NoteId, RagOutputId, UserId};
use crate::page::{paged, Param, ParamView, Statement, StatementView};
use crate::sql::{Cell, Conflict, Cuts, Picking, Row, Storing, Term, Text, Writing};
use crate::transaction::{Reply, Step};

verus! {

/// A user's note.
#[derive(Debug)]
pub struct Note {
    pub id: NoteId,
    pub user: UserId,
    pub title: String,
    pub content: String,
}

pub const CREATE: &'static str =
    "INSERT INTO note (id, app_user, title, content) VALUES ($1, $2, $3, $4) RETURNING id, \
     app_user AS \"user\", title, content";

/// The insert of a note.
pub fn create(note: &Note) -> (statement: Statement)
    ensures
        statement@ == crate::page::sends(
            CREATE,
            seq![
                ParamView::Uuid(note.id.0),
                ParamView::Uuid(note.user.0),
                ParamView::Text(note.title@),
                ParamView::Text(note.content@),
            ],
        ),
{
    Statement::new(
        CREATE,
        vec![
            Param::Uuid(note.id.0),
            Param::Uuid(note.user.0),
            Param::Text(note.title.clone()),
            Param::Text(note.content.clone()),
        ],
    )
}

pub const READ_OWNED: &'static str =
    "SELECT id, app_user AS \"user\", title, content FROM note WHERE id = $1 AND app_user = $2";

/// The read of a note, only for its owner.
pub fn read_owned(id: NoteId, owner: UserId) -> (statement: Statement)
    ensures
        statement@ == crate::page::sends(
            READ_OWNED,
            seq![ParamView::Uuid(id.0), ParamView::Uuid(owner.0)],
        ),
{
    Statement::new(READ_OWNED, vec![Param::Uuid(id.0), Param::Uuid(owner.0)])
}

pub const LIST_FOR_FROM: &'static str =
    "note WHERE app_user = $1";

pub const LIST_FOR_ORDER: &'static str = "ORDER BY id DESC";

/// The read of a user's notes, newest first.
pub fn list_for(
    owner: UserId,
    limit: Option<i64>,
    offset: i64,
) -> (both: (Statement, Option<Statement>))
    ensures
        crate::page::pages(
            both,
            LIST_FOR_FROM@,
            LIST_FOR_ORDER@,
            seq![ParamView::Uuid(owner.0)],
            limit,
            offset,
        ),
{
    let binds: Vec<Param> = vec![Param::Uuid(owner.0)];
    assert(crate::page::bound(binds@) =~= seq![ParamView::Uuid(owner.0)]);
    paged(LIST_FOR_FROM, LIST_FOR_ORDER, binds, limit, offset)
}

/// The write of only what a request carried.
pub fn update(id: NoteId, title: Option<String>, content: Option<String>) -> (plan: UpdatePlan)
    ensures
        crate::field_update::updates(
            plan,
            "note"@,
            id.0,
            seq![
                ("title"@, crate::field_update::text_field(title)),
                ("content"@, crate::field_update::text_field(content)),
            ],
            None,
        ),
{
    let ghost request = seq![
        ("title"@, crate::field_update::text_field(title)),
        ("content"@, crate::field_update::text_field(content)),
    ];
    let title_param = text_param(title);
    let content_param = text_param(content);
    let update = FieldUpdate::new("note", id.0).set("title", title_param).set(
        "content",
        content_param,
    );
    proof {
        assert(request.drop_last().drop_last() =~= Seq::empty());
        reveal_with_fuel(crate::field_update::carried_names, 3);
        reveal_with_fuel(crate::field_update::carried_values, 3);
        assert(update.fields() =~= crate::field_update::carried_names(request));
        assert(crate::field_update::values(update.sets@)
            =~= crate::field_update::carried_values(request));
    }
    let ghost sent = update;
    let plan = update.run();
    assert(sent.sends(plan));
    plan
}

/// The statement a delete waits for.
#[derive(Clone, Copy, PartialEq, Eq, Structural, Debug)]
pub enum Delete {
    /// Delete what was derived from the note.
    WipeOutputs,
    /// Delete the note's files; the rows are part of the answer.
    WipeFiles,
    /// Delete the note; its row is the answer.
    DeleteRow,
}

pub const WIPE_OUTPUTS: &'static str =
    "DELETE FROM rag_output WHERE course_note = $1";
pub const WIPE_NOTE_FILES: &'static str =
    "DELETE FROM note_file WHERE note = $1 RETURNING id, note, name, content_type, size";
pub const DELETE_NOTE: &'static str =
    "DELETE FROM note WHERE id = $1 RETURNING id, app_user AS \"user\", title, content";

impl Delete {
    /// The statement of this step.
    pub open spec fn asks(self, id: NoteId) -> StatementView {
        let key = seq![ParamView::Uuid(id.0)];
        match self {
            Delete::WipeOutputs => crate::page::sends(WIPE_OUTPUTS, key),
            Delete::WipeFiles => crate::page::sends(WIPE_NOTE_FILES, key),
            Delete::DeleteRow => crate::page::sends(DELETE_NOTE, key),
        }
    }

    /// The statement of this step.
    pub fn statement(self, id: NoteId) -> (statement: Statement)
        ensures
            statement@ == self.asks(id),
    {
        let key = vec![Param::Uuid(id.0)];
        match self {
            Delete::WipeOutputs => Statement::new(WIPE_OUTPUTS, key),
            Delete::WipeFiles => Statement::new(WIPE_NOTE_FILES, key),
            Delete::DeleteRow => Statement::new(DELETE_NOTE, key),
        }
    }
}

/// What a delete does once the statement of `at` is answered.
pub open spec fn delete_next(at: Delete, reply: Reply) -> Step<Delete, (), Gone> {
    match at {
        Delete::WipeOutputs => Step::Ask(Delete::WipeFiles),
        Delete::WipeFiles => Step::Ask(Delete::DeleteRow),
        Delete::DeleteRow => if reply.has_row() {
            Step::Commit(())
        } else {
            Step::Abort(Gone)
        },
    }
}

/// Delete a note with its files: the step that follows the answer to `at`. A
/// delete starts at [`Delete::WipeOutputs`] and answers the note with exactly
/// the file rows this transaction removed.
pub fn delete(at: Delete, reply: Reply) -> (step: Step<Delete, (), Gone>)
    ensures
        step == delete_next(at, reply),
{
    match at {
        Delete::WipeOutputs => Step::Ask(Delete::WipeFiles),
        Delete::WipeFiles => Step::Ask(Delete::DeleteRow),
        Delete::DeleteRow => if reply.row() {
            Step::Commit(())
        } else {
            Step::Abort(Gone)
        },
    }
}

/// The notes that are there, and the note each file hangs off and each output
/// was derived from.
#[verifier::ext_equal]
pub struct Notes {
    pub notes: Set<NoteId>,
    pub files: Map<NoteFileId, NoteId>,
    pub outputs: Map<RagOutputId, NoteId>,
}

/// The files of one note.
pub open spec fn files_of(db: Notes, id: NoteId) -> Set<NoteFileId> {
    db.files.dom().filter(|file: NoteFileId| db.files[file] == id)
}

/// The outputs derived from one note.
pub open spec fn outputs_of(db: Notes, id: NoteId) -> Set<RagOutputId> {
    db.outputs.dom().filter(|output: RagOutputId| db.outputs[output] == id)
}

/// What each statement of a delete does to the tables, and what it replies.
pub open spec fn delete_effect(db: Notes, id: NoteId, at: Delete) -> (Notes, Reply) {
    match at {
        Delete::WipeOutputs => (
            Notes { outputs: db.outputs.remove_keys(outputs_of(db, id)), ..db },
            Reply::Row,
        ),
        Delete::WipeFiles => (
            Notes { files: db.files.remove_keys(files_of(db, id)), ..db },
            Reply::Row,
        ),
        Delete::DeleteRow => if db.notes.contains(id) {
            (Notes { notes: db.notes.remove(id), ..db }, Reply::Row)
        } else {
            (db, Reply::Empty)
        },
    }
}

/// A whole delete against the tables.
pub open spec fn delete_run(db: Notes, id: NoteId) -> (Notes, Step<Delete, (), Gone>) {
    crate::transaction::run(
        db,
        Step::Ask(Delete::WipeOutputs),
        |at: Delete, reply: Reply| delete_next(at, reply),
        |tables: Notes, at: Delete| delete_effect(tables, id, at),
        3,
    )
}

/// A deleted note takes with it every one of its files, also those uploaded
/// since anyone listed them, and everything derived from it, and no other; a
/// note that is gone takes none.
pub proof fn law_delete_takes_every_file(
    db: Notes,
    id: NoteId,
    other: NoteId,
    file: NoteFileId,
    output: RagOutputId,
)
    ensures
        ({
            let end = delete_run(db, id);
            let after = crate::transaction::stored(db, end);
            &&& end.1 is Commit <==> db.notes.contains(id)
            &&& !db.notes.contains(id) ==> after == db
            &&& db.notes.contains(id) ==> {
                &&& after.notes.contains(other) <==> db.notes.contains(other) && other != id
                &&& after.files.contains_key(file) <==> db.files.contains_key(file)
                    && db.files[file] != id
                &&& after.files.contains_key(file) ==> after.files[file] == db.files[file]
                &&& after.outputs.contains_key(output) <==> db.outputs.contains_key(output)
                    && db.outputs[output] != id
                &&& after.outputs.contains_key(output) ==> after.outputs[output]
                    == db.outputs[output]
            }
        }),
{
    reveal_with_fuel(crate::transaction::run, 4);
}

/// What [`CREATE`] says.
pub open spec fn create_reading() -> Storing {
    Storing {
        head: "INSERT INTO "@,
        table: "note"@,
        columns: seq!["id"@, "app_user"@, "title"@, "content"@],
        values: seq![Term::Bind(1), Term::Bind(2), Term::Bind(3), Term::Bind(4)],
        selected: false,
        conflict: Conflict::Unread,
        rest: crate::sql::returning(),
    }
}

proof fn lemma_create_reads()
    ensures
        crate::sql::spells(CREATE@, 0, create_reading().text()),
{
    reveal_strlit("INSERT INTO note (id, app_user, title, content) VALUES ($1, $2, $3, $4) RETURNING id, app_user AS \"user\", title, content");
    reveal_strlit("INSERT INTO ");
    reveal_strlit("note");
    reveal_strlit(" (");
    reveal_strlit("id");
    reveal_strlit(", ");
    reveal_strlit("app_user");
    reveal_strlit("title");
    reveal_strlit("content");
    reveal_strlit(") VALUES (");
    reveal_strlit("$");
    reveal_strlit(")");
    reveal_strlit(" RETURNING ");
    reveal(crate::sql::Storing::text);
    reveal_with_fuel(crate::sql::names_text, 5);
    reveal_with_fuel(crate::sql::values_text, 5);
    reveal_with_fuel(crate::sql::stands, 13);
    reveal_with_fuel(crate::sql::spells_by, 21);
    crate::sql::lemma_spells_by(CREATE@, 0, create_reading().text(), crate::sql::cut(12, crate::sql::cut(16, crate::sql::cut(18, crate::sql::cut(20, crate::sql::cut(22, crate::sql::cut(30, crate::sql::cut(32, crate::sql::cut(37, crate::sql::cut(39, crate::sql::cut(46, crate::sql::cut(56, crate::sql::cut(58, crate::sql::cut(60, crate::sql::cut(62, crate::sql::cut(64, crate::sql::cut(66, crate::sql::cut(68, crate::sql::cut(70, crate::sql::cut(71, crate::sql::cut(82, Cuts::Last)))))))))))))))))))));
}

/// What [`create`] stores, column by column, is what it is given.
pub proof fn law_create_lands_in_its_columns(
    note: &Note,
    sent: Statement,
)
    requires
        call_ensures(create, (note,), sent),
    ensures
        create_reading().is_read(sent@),
        create_reading().stores(sent@.binds) == seq![
            ("id"@, Cell::Uuid(note.id.0)),
            ("app_user"@, Cell::Uuid(note.user.0)),
            ("title"@, Cell::Text(note.title@)),
            ("content"@, Cell::Text(note.content@)),
        ],
{
    lemma_create_reads();
}

/// What [`READ_OWNED`] says.
pub open spec fn read_owned_reading() -> Picking {
    Picking {
        skip: 0,
        head: "SELECT "@,
        columns: seq!["id"@, "app_user AS \"user\""@, "title"@, "content"@],
        table: "note"@,
        conditions: seq![crate::sql::is_bound("id"@, 1), crate::sql::is_bound("app_user"@, 2)],
        rest: Text::End,
    }
}

proof fn lemma_read_owned_reads()
    ensures
        crate::sql::spells(READ_OWNED@, 0, read_owned_reading().text()),
{
    reveal_strlit("SELECT id, app_user AS \"user\", title, content FROM note WHERE id = $1 AND app_user = $2");
    reveal_strlit("SELECT ");
    reveal_strlit("id");
    reveal_strlit(", ");
    reveal_strlit("app_user AS \"user\"");
    reveal_strlit("title");
    reveal_strlit("content");
    reveal_strlit(" FROM ");
    reveal_strlit("note");
    reveal_strlit(" WHERE ");
    reveal_strlit(" = ");
    reveal_strlit("$");
    reveal_strlit(" AND ");
    reveal_strlit("app_user");
    reveal(crate::sql::Picking::text);
    reveal_with_fuel(crate::sql::where_text, 3);
    reveal_with_fuel(crate::sql::names_text, 5);
    reveal_with_fuel(crate::sql::stands, 19);
    reveal_with_fuel(crate::sql::spells_by, 19);
    crate::sql::lemma_spells_by(READ_OWNED@, 0, read_owned_reading().text(), crate::sql::cut(7, crate::sql::cut(9, crate::sql::cut(11, crate::sql::cut(29, crate::sql::cut(31, crate::sql::cut(36, crate::sql::cut(38, crate::sql::cut(45, crate::sql::cut(51, crate::sql::cut(55, crate::sql::cut(62, crate::sql::cut(64, crate::sql::cut(67, crate::sql::cut(69, crate::sql::cut(74, crate::sql::cut(82, crate::sql::cut(85, crate::sql::cut(87, Cuts::Last)))))))))))))))))));
}

/// [`read_owned`] reads the rows it names and no other.
pub proof fn law_read_owned_reads_its_rows(
    id: NoteId,
    owner: UserId,
    sent: Statement,
    row: Row,
)
    requires
        call_ensures(read_owned, (id, owner), sent),
    ensures
        read_owned_reading().is_read(sent@),
        read_owned_reading().picks(sent@.binds, row) == (row["id"@] == Cell::Uuid(id.0) && row["app_user"@] == Cell::Uuid(owner.0)),
{
    lemma_read_owned_reads();
    reveal_with_fuel(crate::sql::all_hold, 3);
}

/// What [`LIST_FOR_FROM`] says.
pub open spec fn list_for_from_reading() -> Picking {
    Picking {
        skip: 0,
        head: ""@,
        columns: Seq::empty(),
        table: "note"@,
        conditions: seq![crate::sql::is_bound("app_user"@, 1)],
        rest: Text::End,
    }
}

proof fn lemma_list_for_from_reads()
    ensures
        crate::sql::spells(LIST_FOR_FROM@, 0, list_for_from_reading().text()),
{
    reveal_strlit("note WHERE app_user = $1");
    reveal_strlit("");
    reveal_strlit("note");
    reveal_strlit(" WHERE ");
    reveal_strlit("app_user");
    reveal_strlit(" = ");
    reveal_strlit("$");
    reveal(crate::sql::Picking::text);
    reveal_with_fuel(crate::sql::where_text, 2);
    reveal_with_fuel(crate::sql::stands, 9);
    reveal_with_fuel(crate::sql::spells_by, 7);
    crate::sql::lemma_spells_by(LIST_FOR_FROM@, 0, list_for_from_reading().text(), crate::sql::cut(0, crate::sql::cut(4, crate::sql::cut(11, crate::sql::cut(19, crate::sql::cut(22, crate::sql::cut(24, Cuts::Last)))))));
}

/// [`list_for`] pages the rows it names and no other.
pub proof fn law_list_for_reads_its_rows(
    owner: UserId,
    limit: Option<i64>,
    offset: i64,
    both: (Statement, Option<Statement>),
    row: Row,
)
    requires
        call_ensures(list_for, (owner, limit, offset), both),
    ensures
        crate::sql::spells(
            both.0@.sql,
            0,
            crate::sql::before("SELECT * FROM "@, crate::sql::opened(list_for_from_reading().text())),
        ),
        list_for_from_reading().picks(both.0@.binds, row) == (row["app_user"@] == Cell::Uuid(owner.0)),
{
    lemma_list_for_from_reads();
    reveal(crate::sql::Picking::text);
    reveal_with_fuel(crate::sql::where_text, 2);
    reveal_with_fuel(crate::sql::is_open, 7);
    reveal_with_fuel(crate::sql::all_hold, 2);
    crate::page::law_page_reads_its_rows(
        both,
        LIST_FOR_FROM@,
        LIST_FOR_ORDER@,
        seq![ParamView::Uuid(owner.0)],
        limit,
        offset,
        list_for_from_reading().text(),
    );
}

/// What [`WIPE_OUTPUTS`] says.
pub open spec fn wipe_outputs_reading() -> Picking {
    Picking {
        skip: 0,
        head: "DELETE FROM "@,
        columns: Seq::empty(),
        table: "rag_output"@,
        conditions: seq![crate::sql::is_bound("course_note"@, 1)],
        rest: Text::End,
    }
}

proof fn lemma_wipe_outputs_reads()
    ensures
        crate::sql::spells(WIPE_OUTPUTS@, 0, wipe_outputs_reading().text()),
{
    reveal_strlit("DELETE FROM rag_output WHERE course_note = $1");
    reveal_strlit("DELETE FROM ");
    reveal_strlit("rag_output");
    reveal_strlit(" WHERE ");
    reveal_strlit("course_note");
    reveal_strlit(" = ");
    reveal_strlit("$");
    reveal(crate::sql::Picking::text);
    reveal_with_fuel(crate::sql::where_text, 2);
    reveal_with_fuel(crate::sql::stands, 13);
    reveal_with_fuel(crate::sql::spells_by, 7);
    crate::sql::lemma_spells_by(WIPE_OUTPUTS@, 0, wipe_outputs_reading().text(), crate::sql::cut(12, crate::sql::cut(22, crate::sql::cut(29, crate::sql::cut(40, crate::sql::cut(43, crate::sql::cut(45, Cuts::Last)))))));
}

/// [`Delete::WipeOutputs`] deletes the rows it names and no other.
pub proof fn law_delete_wipe_outputs_deletes_its_rows(
    id: NoteId,
    row: Row,
)
    ensures
        ({
            let sent = Delete::WipeOutputs.asks(id);
            &&& wipe_outputs_reading().is_read(sent)
            &&& wipe_outputs_reading().picks(sent.binds, row) == (row["course_note"@] == Cell::Uuid(id.0))
        }),
{
    lemma_wipe_outputs_reads();
    reveal_with_fuel(crate::sql::all_hold, 2);
}

/// What [`WIPE_NOTE_FILES`] says.
pub open spec fn wipe_note_files_reading() -> Picking {
    Picking {
        skip: 0,
        head: "DELETE FROM "@,
        columns: Seq::empty(),
        table: "note_file"@,
        conditions: seq![crate::sql::is_bound("note"@, 1)],
        rest: crate::sql::returning(),
    }
}

proof fn lemma_wipe_note_files_reads()
    ensures
        crate::sql::spells(WIPE_NOTE_FILES@, 0, wipe_note_files_reading().text()),
{
    reveal_strlit("DELETE FROM note_file WHERE note = $1 RETURNING id, note, name, content_type, size");
    reveal_strlit("DELETE FROM ");
    reveal_strlit("note_file");
    reveal_strlit(" WHERE ");
    reveal_strlit("note");
    reveal_strlit(" = ");
    reveal_strlit("$");
    reveal_strlit(" RETURNING ");
    reveal(crate::sql::Picking::text);
    reveal_with_fuel(crate::sql::where_text, 2);
    reveal_with_fuel(crate::sql::stands, 13);
    reveal_with_fuel(crate::sql::spells_by, 8);
    crate::sql::lemma_spells_by(WIPE_NOTE_FILES@, 0, wipe_note_files_reading().text(), crate::sql::cut(12, crate::sql::cut(21, crate::sql::cut(28, crate::sql::cut(32, crate::sql::cut(35, crate::sql::cut(37, crate::sql::cut(48, Cuts::Last))))))));
}

/// [`Delete::WipeFiles`] deletes the rows it names and no other.
pub proof fn law_delete_wipe_files_deletes_its_rows(
    id: NoteId,
    row: Row,
)
    ensures
        ({
            let sent = Delete::WipeFiles.asks(id);
            &&& wipe_note_files_reading().is_read(sent)
            &&& wipe_note_files_reading().picks(sent.binds, row) == (row["note"@] == Cell::Uuid(id.0))
        }),
{
    lemma_wipe_note_files_reads();
    reveal_with_fuel(crate::sql::all_hold, 2);
}

/// What [`DELETE_NOTE`] says.
pub open spec fn delete_note_reading() -> Picking {
    Picking {
        skip: 0,
        head: "DELETE FROM "@,
        columns: Seq::empty(),
        table: "note"@,
        conditions: seq![crate::sql::is_bound("id"@, 1)],
        rest: crate::sql::returning(),
    }
}

proof fn lemma_delete_note_reads()
    ensures
        crate::sql::spells(DELETE_NOTE@, 0, delete_note_reading().text()),
{
    reveal_strlit("DELETE FROM note WHERE id = $1 RETURNING id, app_user AS \"user\", title, content");
    reveal_strlit("DELETE FROM ");
    reveal_strlit("note");
    reveal_strlit(" WHERE ");
    reveal_strlit("id");
    reveal_strlit(" = ");
    reveal_strlit("$");
    reveal_strlit(" RETURNING ");
    reveal(crate::sql::Picking::text);
    reveal_with_fuel(crate::sql::where_text, 2);
    reveal_with_fuel(crate::sql::stands, 13);
    reveal_with_fuel(crate::sql::spells_by, 8);
    crate::sql::lemma_spells_by(DELETE_NOTE@, 0, delete_note_reading().text(), crate::sql::cut(12, crate::sql::cut(16, crate::sql::cut(23, crate::sql::cut(25, crate::sql::cut(28, crate::sql::cut(30, crate::sql::cut(41, Cuts::Last))))))));
}

/// [`Delete::DeleteRow`] deletes the rows it names and no other.
pub proof fn law_delete_delete_row_deletes_its_rows(
    id: NoteId,
    row: Row,
)
    ensures
        ({
            let sent = Delete::DeleteRow.asks(id);
            &&& delete_note_reading().is_read(sent)
            &&& delete_note_reading().picks(sent.binds, row) == (row["id"@] == Cell::Uuid(id.0))
        }),
{
    lemma_delete_note_reads();
    reveal_with_fuel(crate::sql::all_hold, 2);
}

/// The write of a note, carried out on its row with its own bound values, leaves
/// the title and the content that the request carries each in its own column,
/// and every other column as it was.
pub proof fn law_update_lands_in_its_fields(
    id: NoteId,
    title: Option<String>,
    content: Option<String>,
    plan: UpdatePlan,
    row: Row,
) -> (reading: Writing)
    requires
        call_ensures(update, (id, title, content), plan),
        plan is Write,
    ensures
        reading.is_read(plan->Write_update@),
        reading.table == "note"@,
        ({
            let after = reading.leaves(plan->Write_update@.binds, row);
            &&& after["title"@] == (match title {
                Some(text) => Cell::Text(text@),
                None => row["title"@],
            })
            &&& after["content"@] == (match content {
                Some(text) => Cell::Text(text@),
                None => row["content"@],
            })
            &&& forall|column: Seq<char>|
                column != "title"@ && column != "content"@ ==> #[trigger] after[column]
                    == row[column]
        }),
{
    let request = seq![
        ("title"@, crate::field_update::text_field(title)),
        ("content"@, crate::field_update::text_field(content)),
    ];
    reveal_strlit("title");
    reveal_strlit("content");
    assert("title"@.len() != "content"@.len());
    let reading = crate::field_update::law_request_lands_in_its_fields(
        plan,
        "note"@,
        id.0,
        request,
        None,
        row,
    );
    assert(request.drop_last().drop_last() =~= Seq::empty());
    assert(request.drop_last().last() == request[0]);
    reveal_with_fuel(crate::field_update::asked_of, 3);
    reading
}

} // verus!
