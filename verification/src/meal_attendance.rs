//! The `meal_attendance` table: the kitchen's marks, one upsert per menu and
//! student that rides the menu's revision bump, and the two listings.

use vstd::prelude::*;

use crate::error::Gone;
use crate::id::{Timestamp, UserId};
use crate::page::{opt_text, paged, Param, ParamView, Statement, StatementView};
use crate::sql::{Cell, Conflict, Cuts, Picking, Row, Storing, Term, Text};
use crate::transaction::{Reply, Step};

verus! {

/// Whether a student ate off a menu.
#[derive(Debug)]
pub struct MealAttendance {
    pub menu: String,
    pub student: UserId,
    pub status: String,
    pub marked_by: UserId,
    pub marked_at: Timestamp,
}

/// The statement a mark waits for.
#[derive(Clone, Copy, PartialEq, Eq, Structural, Debug)]
pub enum Marking {
    /// Move the menu's revision.
    Bump,
    /// Write the mark; its row is the answer.
    Store,
}

pub const STORE_MARK: &'static str =
    "INSERT INTO meal_attendance (menu, student, status, marked_by, marked_at) VALUES ($1, $2, \
     $3, $4, $5) ON CONFLICT (menu, student) DO UPDATE SET status = EXCLUDED.status, marked_by \
     = EXCLUDED.marked_by, marked_at = EXCLUDED.marked_at RETURNING menu, student, status, \
     marked_by, marked_at";

impl Marking {
    /// The statement of this step.
    pub open spec fn asks(self, row: MealAttendance) -> StatementView {
        match self {
            Marking::Bump => crate::page::sends(
                crate::menu_dish::BUMP_AND_SEE_MENU,
                seq![ParamView::Text(row.menu@)],
            ),
            Marking::Store => crate::page::sends(
                STORE_MARK,
                seq![
                    ParamView::Text(row.menu@),
                    ParamView::Uuid(row.student.0),
                    ParamView::Text(row.status@),
                    ParamView::Uuid(row.marked_by.0),
                    ParamView::I64(row.marked_at.0),
                ],
            ),
        }
    }

    /// The statement of this step.
    pub fn statement(self, row: &MealAttendance) -> (statement: Statement)
        ensures
            statement@ == self.asks(*row),
    {
        match self {
            Marking::Bump => Statement::new(
                crate::menu_dish::BUMP_AND_SEE_MENU,
                vec![Param::Text(row.menu.clone())],
            ),
            Marking::Store => Statement::new(
                STORE_MARK,
                vec![
                    Param::Text(row.menu.clone()),
                    Param::Uuid(row.student.0),
                    Param::Text(row.status.clone()),
                    Param::Uuid(row.marked_by.0),
                    Param::I64(row.marked_at.0),
                ],
            ),
        }
    }
}

/// What a mark does once the statement of `at` is answered. The only refusal
/// is that the menu is gone.
pub open spec fn mark_next(at: Marking, reply: Reply) -> Step<Marking, (), Gone> {
    match at {
        Marking::Bump => if reply.has_row() {
            Step::Ask(Marking::Store)
        } else {
            Step::Abort(Gone)
        },
        Marking::Store => Step::Commit(()),
    }
}

/// Record (or overwrite) whether a student ate off a menu: the step that
/// follows the answer to `at`. A mark starts at [`Marking::Bump`] and answers
/// `NotFound` where that finds no menu, with nothing written.
pub fn mark(at: Marking, reply: Reply) -> (step: Step<Marking, (), Gone>)
    ensures
        step == mark_next(at, reply),
{
    match at {
        Marking::Bump => if reply.row() {
            Step::Ask(Marking::Store)
        } else {
            Step::Abort(Gone)
        },
        Marking::Store => Step::Commit(()),
    }
}

pub const LIST_FOR_MENU_FROM: &'static str =
    "meal_attendance WHERE menu = $1";

pub const LIST_FOR_MENU_ORDER: &'static str = "ORDER BY marked_at DESC, menu DESC";

/// The read of the marks of one menu.
pub fn list_for_menu(
    menu: &str,
    limit: Option<i64>,
    offset: i64,
) -> (both: (Statement, Option<Statement>))
    ensures
        crate::page::pages(
            both,
            LIST_FOR_MENU_FROM@,
            LIST_FOR_MENU_ORDER@,
            seq![ParamView::Text(menu@)],
            limit,
            offset,
        ),
{
    let binds: Vec<Param> = vec![Param::Text(menu.to_owned())];
    assert(crate::page::bound(binds@) =~= seq![ParamView::Text(menu@)]);
    paged(LIST_FOR_MENU_FROM, LIST_FOR_MENU_ORDER, binds, limit, offset)
}

pub const LIST_FOR_STUDENT_FROM: &'static str =
    "meal_attendance WHERE student = $1 AND ($2::text IS NULL OR menu IN (SELECT id FROM menu \
     WHERE date >= $2::text)) AND ($3::text IS NULL OR menu IN (SELECT id FROM menu WHERE date \
     <= $3::text))";

pub const LIST_FOR_STUDENT_ORDER: &'static str = "ORDER BY marked_at DESC, menu DESC";

/// The read of one student's marks, newest first, between two inclusive days of
/// the menu, either of which may be absent.
pub fn list_for_student(
    student: UserId,
    from: Option<&str>,
    to: Option<&str>,
    limit: Option<i64>,
    offset: i64,
) -> (both: (Statement, Option<Statement>))
    ensures
        crate::page::pages(
            both,
            LIST_FOR_STUDENT_FROM@,
            LIST_FOR_STUDENT_ORDER@,
            seq![
                ParamView::Uuid(student.0),
                ParamView::OptText(crate::page::opt_view(from)),
                ParamView::OptText(crate::page::opt_view(to)),
            ],
            limit,
            offset,
        ),
{
    let binds: Vec<Param> = vec![
        Param::Uuid(student.0),
        Param::OptText(opt_text(from)),
        Param::OptText(opt_text(to)),
    ];
    assert(crate::page::bound(binds@) =~= seq![
        ParamView::Uuid(student.0),
        ParamView::OptText(crate::page::opt_view(from)),
        ParamView::OptText(crate::page::opt_view(to)),
    ]);
    paged(LIST_FOR_STUDENT_FROM, LIST_FOR_STUDENT_ORDER, binds, limit, offset)
}

/// A stored mark.
pub struct MarkRow {
    pub status: Seq<char>,
    pub marked_by: UserId,
    pub marked_at: i64,
}

/// Each menu's revision, and the mark of each student on each menu.
#[verifier::ext_equal]
pub struct Marked {
    pub versions: Map<Seq<char>, int>,
    pub marks: Map<(Seq<char>, UserId), MarkRow>,
}

/// The mark that `row` leaves.
pub open spec fn stored_mark(row: MealAttendance) -> MarkRow {
    MarkRow { status: row.status@, marked_by: row.marked_by, marked_at: row.marked_at.0 }
}

/// What each statement of a mark does to the tables, and what it replies.
pub open spec fn mark_effect(db: Marked, row: MealAttendance, at: Marking) -> (Marked, Reply) {
    let menu = row.menu@;
    match at {
        Marking::Bump => if db.versions.contains_key(menu) {
            (
                Marked { versions: db.versions.insert(menu, db.versions[menu] + 1), ..db },
                Reply::Row,
            )
        } else {
            (db, Reply::Empty)
        },
        Marking::Store => (
            Marked { marks: db.marks.insert((menu, row.student), stored_mark(row)), ..db },
            Reply::Row,
        ),
    }
}

/// A whole mark against the tables.
pub open spec fn mark_run(db: Marked, row: MealAttendance) -> (Marked, Step<Marking, (), Gone>) {
    crate::transaction::run(
        db,
        Step::Ask(Marking::Bump),
        |at: Marking, reply: Reply| mark_next(at, reply),
        |tables: Marked, at: Marking| mark_effect(tables, row, at),
        2,
    )
}

/// A mark lands exactly when its menu is there, with the menu's revision, as
/// the pair's one mark: a later one replaces its status, who made it and when.
/// On a menu that is gone it writes nothing.
pub proof fn law_mark_rides_the_menu(db: Marked, row: MealAttendance)
    ensures
        ({
            let menu = row.menu@;
            let end = mark_run(db, row);
            let after = crate::transaction::stored(db, end);
            if db.versions.contains_key(menu) {
                &&& end.1 is Commit
                &&& after.versions == db.versions.insert(menu, db.versions[menu] + 1)
                &&& after.marks == db.marks.insert((menu, row.student), stored_mark(row))
            } else {
                end.1 == Step::<Marking, (), Gone>::Abort(Gone) && after == db
            }
        }),
{
    reveal_with_fuel(crate::transaction::run, 3);
}

/// What [`LIST_FOR_MENU_FROM`] says.
pub open spec fn list_for_menu_from_reading() -> Picking {
    Picking {
        skip: 0,
        head: ""@,
        columns: Seq::empty(),
        table: "meal_attendance"@,
        conditions: seq![crate::sql::is_bound("menu"@, 1)],
        rest: Text::End,
    }
}

proof fn lemma_list_for_menu_from_reads()
    ensures
        crate::sql::spells(LIST_FOR_MENU_FROM@, 0, list_for_menu_from_reading().text()),
{
    reveal_strlit("meal_attendance WHERE menu = $1");
    reveal_strlit("");
    reveal_strlit("meal_attendance");
    reveal_strlit(" WHERE ");
    reveal_strlit("menu");
    reveal_strlit(" = ");
    reveal_strlit("$");
    reveal(crate::sql::Picking::text);
    reveal_with_fuel(crate::sql::where_text, 2);
    reveal_with_fuel(crate::sql::stands, 16);
    reveal_with_fuel(crate::sql::spells_by, 7);
    crate::sql::lemma_spells_by(LIST_FOR_MENU_FROM@, 0, list_for_menu_from_reading().text(), crate::sql::cut(0, crate::sql::cut(15, crate::sql::cut(22, crate::sql::cut(26, crate::sql::cut(29, crate::sql::cut(31, Cuts::Last)))))));
}

/// [`list_for_menu`] pages the rows it names and no other.
pub proof fn law_list_for_menu_reads_its_rows(
    menu: &str,
    limit: Option<i64>,
    offset: i64,
    both: (Statement, Option<Statement>),
    row: Row,
)
    requires
        call_ensures(list_for_menu, (menu, limit, offset), both),
    ensures
        crate::sql::spells(
            both.0@.sql,
            0,
            crate::sql::before("SELECT * FROM "@, crate::sql::opened(list_for_menu_from_reading().text())),
        ),
        list_for_menu_from_reading().picks(both.0@.binds, row) == (row["menu"@] == Cell::Text(menu@)),
{
    lemma_list_for_menu_from_reads();
    reveal(crate::sql::Picking::text);
    reveal_with_fuel(crate::sql::where_text, 2);
    reveal_with_fuel(crate::sql::is_open, 7);
    reveal_with_fuel(crate::sql::all_hold, 2);
    crate::page::law_page_reads_its_rows(
        both,
        LIST_FOR_MENU_FROM@,
        LIST_FOR_MENU_ORDER@,
        seq![ParamView::Text(menu@)],
        limit,
        offset,
        list_for_menu_from_reading().text(),
    );
}

/// What [`STORE_MARK`] says.
pub open spec fn store_mark_reading() -> Storing {
    Storing {
        head: "INSERT INTO "@,
        table: "meal_attendance"@,
        columns: seq!["menu"@, "student"@, "status"@, "marked_by"@, "marked_at"@],
        values: seq![Term::Bind(1), Term::Bind(2), Term::Bind(3), Term::Bind(4), Term::Bind(5)],
        selected: false,
        conflict: Conflict::Takes(seq!["menu"@, "student"@], seq!["status"@, "marked_by"@, "marked_at"@]),
        rest: crate::sql::returning(),
    }
}

proof fn lemma_store_mark_reads()
    ensures
        crate::sql::spells(STORE_MARK@, 0, store_mark_reading().text()),
{
    reveal_strlit("INSERT INTO meal_attendance (menu, student, status, marked_by, marked_at) VALUES ($1, $2, $3, $4, $5) ON CONFLICT (menu, student) DO UPDATE SET status = EXCLUDED.status, marked_by = EXCLUDED.marked_by, marked_at = EXCLUDED.marked_at RETURNING menu, student, status, marked_by, marked_at");
    reveal_strlit("INSERT INTO ");
    reveal_strlit("meal_attendance");
    reveal_strlit(" (");
    reveal_strlit("menu");
    reveal_strlit(", ");
    reveal_strlit("student");
    reveal_strlit("status");
    reveal_strlit("marked_by");
    reveal_strlit("marked_at");
    reveal_strlit(") VALUES (");
    reveal_strlit("$");
    reveal_strlit(")");
    reveal_strlit(" ON CONFLICT (");
    reveal_strlit(") DO UPDATE");
    reveal_strlit(" SET ");
    reveal_strlit(" = EXCLUDED.");
    reveal_strlit(" RETURNING ");
    reveal(crate::sql::Storing::text);
    reveal_with_fuel(crate::sql::names_text, 6);
    reveal_with_fuel(crate::sql::values_text, 6);
    reveal_with_fuel(crate::sql::excluded_text, 4);
    reveal_with_fuel(crate::sql::stands, 16);
    reveal_with_fuel(crate::sql::spells_by, 42);
    crate::sql::lemma_spells_by(STORE_MARK@, 0, store_mark_reading().text(), crate::sql::cut(12, crate::sql::cut(27, crate::sql::cut(29, crate::sql::cut(33, crate::sql::cut(35, crate::sql::cut(42, crate::sql::cut(44, crate::sql::cut(50, crate::sql::cut(52, crate::sql::cut(61, crate::sql::cut(63, crate::sql::cut(72, crate::sql::cut(82, crate::sql::cut(84, crate::sql::cut(86, crate::sql::cut(88, crate::sql::cut(90, crate::sql::cut(92, crate::sql::cut(94, crate::sql::cut(96, crate::sql::cut(98, crate::sql::cut(100, crate::sql::cut(101, crate::sql::cut(115, crate::sql::cut(119, crate::sql::cut(121, crate::sql::cut(128, crate::sql::cut(139, crate::sql::cut(144, crate::sql::cut(150, crate::sql::cut(162, crate::sql::cut(168, crate::sql::cut(170, crate::sql::cut(179, crate::sql::cut(191, crate::sql::cut(200, crate::sql::cut(202, crate::sql::cut(211, crate::sql::cut(223, crate::sql::cut(232, crate::sql::cut(243, Cuts::Last))))))))))))))))))))))))))))))))))))))))));
}

/// What [`Marking::Store`] stores, column by column, is what it is given.
pub proof fn law_marking_store_lands_in_its_columns(
    row: MealAttendance,
)
    ensures
        ({
            let sent = Marking::Store.asks(row);
            &&& store_mark_reading().is_read(sent)
            &&& store_mark_reading().stores(sent.binds) == seq![
                ("menu"@, Cell::Text(row.menu@)),
                ("student"@, Cell::Uuid(row.student.0)),
                ("status"@, Cell::Text(row.status@)),
                ("marked_by"@, Cell::Uuid(row.marked_by.0)),
                ("marked_at"@, Cell::Int(row.marked_at.0 as int)),
            ]
            &&& store_mark_reading().conflict == Conflict::Takes(seq!["menu"@, "student"@], seq!["status"@, "marked_by"@, "marked_at"@])
        }),
{
    lemma_store_mark_reads();
}

/// A mark moves the revision of its own menu.
pub proof fn law_marking_bump_writes_its_row(
    row: MealAttendance,
    stored: Row,
)
    ensures
        crate::menu_dish::bump_and_see_menu_reading().is_read(Marking::Bump.asks(row)),
        crate::menu_dish::bump_and_see_menu_reading().picks(Marking::Bump.asks(row).binds, stored) == (stored["id"@] == Cell::Text(row.menu@)),
        crate::menu_dish::bump_and_see_menu_reading().writes(Marking::Bump.asks(row).binds, stored) == seq![("version"@, Cell::Int((if stored["version"@] is Null { 0 } else { stored["version"@].number() }) + 1))],
{
    crate::menu_dish::lemma_bump_and_see_menu_reads();
    reveal_with_fuel(crate::sql::all_hold, 2);
}

/// The text of [`LIST_FOR_STUDENT_FROM`], taken apart at its placeholders.
pub open spec fn list_for_student_from_text() -> Text {
    crate::sql::before("meal_attendance WHERE student = "@, crate::sql::before(crate::text::placeholder(1), crate::sql::before(" AND ("@, crate::sql::before(crate::text::placeholder(2), crate::sql::before("::text IS NULL OR menu IN (SELECT id FROM menu"@, crate::sql::before(" WHERE date >= "@, crate::sql::before(crate::text::placeholder(2), crate::sql::before("::text)) AND ("@, crate::sql::before(crate::text::placeholder(3), crate::sql::before("::text IS NULL OR menu IN (SELECT id FROM menu"@, crate::sql::before(" WHERE date <= "@, crate::sql::before(crate::text::placeholder(3), crate::sql::before("::text))"@, Text::End)))))))))))))
}

proof fn lemma_list_for_student_from_reads()
    ensures
        crate::sql::spells(LIST_FOR_STUDENT_FROM@, 0, list_for_student_from_text()),
{
    reveal_strlit("meal_attendance WHERE student = $1 AND ($2::text IS NULL OR menu IN (SELECT id FROM menu WHERE date >= $2::text)) AND ($3::text IS NULL OR menu IN (SELECT id FROM menu WHERE date <= $3::text))");
    reveal_strlit("meal_attendance WHERE student = ");
    reveal_strlit("$");
    reveal_strlit(" AND (");
    reveal_strlit("::text IS NULL OR menu IN (SELECT id FROM menu");
    reveal_strlit(" WHERE date >= ");
    reveal_strlit("::text)) AND (");
    reveal_strlit(" WHERE date <= ");
    reveal_strlit("::text))");
    reveal_with_fuel(crate::sql::stands, 47);
    reveal_with_fuel(crate::sql::spells_by, 14);
    crate::sql::lemma_spells_by(LIST_FOR_STUDENT_FROM@, 0, list_for_student_from_text(), crate::sql::cut(32, crate::sql::cut(34, crate::sql::cut(40, crate::sql::cut(42, crate::sql::cut(88, crate::sql::cut(103, crate::sql::cut(105, crate::sql::cut(119, crate::sql::cut(121, crate::sql::cut(167, crate::sql::cut(182, crate::sql::cut(184, crate::sql::cut(192, Cuts::Last))))))))))))));
}

/// [`list_for_student`] pages the marks of its own student, between its own days.
pub proof fn law_list_for_student_binds_its_values(
    student: UserId,
    from: Option<&str>,
    to: Option<&str>,
    limit: Option<i64>,
    offset: i64,
    both: (Statement, Option<Statement>),
)
    requires
        call_ensures(list_for_student, (student, from, to, limit, offset), both),
    ensures
        crate::sql::spells(both.0@.sql, 0, crate::sql::before("SELECT * FROM "@, crate::sql::opened(list_for_student_from_text()))),
        crate::sql::cell(both.0@.binds[0]) == Cell::Uuid(student.0),
        crate::sql::cell(both.0@.binds[1]) == crate::sql::opt_text(crate::page::opt_view(from)),
        crate::sql::cell(both.0@.binds[2]) == crate::sql::opt_text(crate::page::opt_view(to)),
{
    lemma_list_for_student_from_reads();
    reveal_with_fuel(crate::sql::is_open, 20);
    crate::page::law_page_reads_its_rows(
        both,
        LIST_FOR_STUDENT_FROM@,
        LIST_FOR_STUDENT_ORDER@,
        seq![ ParamView::Uuid(student.0), ParamView::OptText(crate::page::opt_view(from)), ParamView::OptText(crate::page::opt_view(to)), ],
        limit,
        offset,
        list_for_student_from_text(),
    );
}

} // verus!
