//! The `menu` table: publishing, with the slot's reference claimed inside the
//! write's own transaction, row reads and listings, the one write that moves
//! the cap and the revision together, and the cascading delete.

use vstd::prelude::*;

use crate::error::{unique_violation, AppError, AppErrorView, DbError};
use crate::id::{MenuDishId, Timestamp, UserId};
use crate::page::{opt_text, paged, Param, ParamView, Statement, StatementView};
use crate::sql::{Cell, Cond, Conflict, Cuts, Expr, Picking, Row, Storing, Term, Text, Writing};
use crate::transaction::{Reply, Step};

verus! {

/// A published menu. Its key is derived from its day and slot.
#[derive(Debug)]
pub struct Menu {
    pub id: String,
    pub date: String,
    pub slot: String,
    pub capacity: Option<i64>,
    pub version: Option<i64>,
    pub created_by: UserId,
    pub created_at: Timestamp,
}

/// The statement a publish waits for.
#[derive(Clone, Copy, PartialEq, Eq, Structural, Debug)]
pub enum Create {
    /// Read whether the day and slot carry a menu already.
    ReadTaken,
    /// Claim the slot and insert the menu; its row is the answer.
    Insert,
}

/// Why a menu is not published.
#[derive(Clone, Copy, PartialEq, Eq, Structural, Debug)]
pub enum CreateRefusal {
    Taken,
    RetiredSlot,
}

pub const READ_TAKEN: &'static str =
    "SELECT 1 AS taken FROM menu WHERE id = $1";
pub const INSERT_MENU: &'static str =
    "WITH ref AS ( INSERT INTO slot_ref (name, count) VALUES ($2, 1) ON CONFLICT (name) DO \
     UPDATE SET count = slot_ref.count + 1 WHERE slot_ref.retired = false RETURNING 1 AS ref ) \
     INSERT INTO menu (id, date, slot, capacity, version, created_by, created_at) SELECT $1, \
     $3, $4, $5, $6, $7, $8 WHERE EXISTS (SELECT 1 FROM ref) RETURNING id, date, slot, \
     capacity, version, created_by, created_at";

impl Create {
    /// The statement of this step for `menu`, whose slot is counted under
    /// `counter`. A menu is published at revision zero.
    pub open spec fn asks(self, menu: Menu, counter: Seq<char>) -> StatementView {
        match self {
            Create::ReadTaken => crate::page::sends(READ_TAKEN, seq![ParamView::Text(menu.id@)]),
            Create::Insert => crate::page::sends(
                INSERT_MENU,
                seq![
                    ParamView::Text(menu.id@),
                    ParamView::Text(counter),
                    ParamView::Text(menu.date@),
                    ParamView::Text(menu.slot@),
                    ParamView::OptI64(menu.capacity),
                    ParamView::OptI64(Some(0)),
                    ParamView::Uuid(menu.created_by.0),
                    ParamView::I64(menu.created_at.0),
                ],
            ),
        }
    }

    /// The statement of this step.
    pub fn statement(self, menu: &Menu, counter: &str) -> (statement: Statement)
        ensures
            statement@ == self.asks(*menu, counter@),
    {
        match self {
            Create::ReadTaken => Statement::new(READ_TAKEN, vec![Param::Text(menu.id.clone())]),
            Create::Insert => Statement::new(
                INSERT_MENU,
                vec![
                    Param::Text(menu.id.clone()),
                    Param::Text(counter.to_owned()),
                    Param::Text(menu.date.clone()),
                    Param::Text(menu.slot.clone()),
                    Param::OptI64(menu.capacity),
                    Param::OptI64(Some(0)),
                    Param::Uuid(menu.created_by.0),
                    Param::I64(menu.created_at.0),
                ],
            ),
        }
    }
}

/// What a publish does once the statement of `at` is answered. That the meal
/// is published already outranks that its slot is retired.
pub open spec fn create_next(at: Create, reply: Reply) -> Step<Create, (), CreateRefusal> {
    match at {
        Create::ReadTaken => if reply.has_row() {
            Step::Abort(CreateRefusal::Taken)
        } else {
            Step::Ask(Create::Insert)
        },
        Create::Insert => if reply.has_row() {
            Step::Commit(())
        } else {
            Step::Abort(CreateRefusal::RetiredSlot)
        },
    }
}

/// Publish a menu: the step that follows the answer to `at`. A publish starts
/// at [`Create::ReadTaken`]; [`insert_failed`] answers an insert the database
/// refused.
pub fn create(at: Create, reply: Reply) -> (step: Step<Create, (), CreateRefusal>)
    ensures
        step == create_next(at, reply),
{
    match at {
        Create::ReadTaken => if reply.row() {
            Step::Abort(CreateRefusal::Taken)
        } else {
            Step::Ask(Create::Insert)
        },
        Create::Insert => if reply.row() {
            Step::Commit(())
        } else {
            Step::Abort(CreateRefusal::RetiredSlot)
        },
    }
}

/// The answer to a second publish of a meal.
pub const TAKEN: &'static str = "a menu is already published for that date and slot";

/// The answer to a publish under a slot that has left the settings.
pub open spec fn retired_slot(slot: Seq<char>) -> Seq<char> {
    "the '"@ + slot + "' meal slot has been removed from the school's settings"@
}

impl CreateRefusal {
    /// What a refused publish answers.
    pub open spec fn answers(self, slot: Seq<char>) -> AppErrorView {
        match self {
            CreateRefusal::Taken => AppErrorView::Conflict(TAKEN@),
            CreateRefusal::RetiredSlot => AppErrorView::ConflictOwned(retired_slot(slot)),
        }
    }

    /// What a refused publish answers.
    pub fn error(self, slot: &str) -> (error: AppError)
        ensures
            error@ == self.answers(slot@),
    {
        match self {
            CreateRefusal::Taken => AppError::Conflict(TAKEN),
            CreateRefusal::RetiredSlot => {
                let mut text = "the '".to_owned();
                text.append(slot);
                text.append("' meal slot has been removed from the school's settings");
                AppError::ConflictOwned(text)
            },
        }
    }
}

/// What an insert the database refused answers: a rival that published the
/// same meal in between is the same conflict.
pub fn insert_failed(error: DbError) -> (answer: AppError)
    ensures
        answer@ == (if error.violates_unique("menu_pkey"@) || error.violates_unique(
            "menu_date_slot"@,
        ) {
            AppErrorView::Conflict(TAKEN@)
        } else {
            AppErrorView::Db(error)
        }),
{
    if unique_violation(&error, "menu_pkey") || unique_violation(&error, "menu_date_slot") {
        AppError::Conflict(TAKEN)
    } else {
        AppError::Db(error)
    }
}

pub const READ: &'static str =
    "SELECT id, date, slot, capacity, version, created_by, created_at FROM menu WHERE id = $1";

/// The read of one menu.
pub fn read(id: &str) -> (statement: Statement)
    ensures
        statement@ == crate::page::sends(READ, seq![ParamView::Text(id@)]),
{
    Statement::new(READ, vec![Param::Text(id.to_owned())])
}

pub const FIND: &'static str =
    "SELECT id, date, slot, capacity, version, created_by, created_at FROM menu WHERE date = $1 \
     AND slot = $2 LIMIT 1";

/// The read of the menu of one day and slot.
pub fn find(date: &str, slot: &str) -> (statement: Statement)
    ensures
        statement@ == crate::page::sends(
            FIND,
            seq![ParamView::Text(date@), ParamView::Text(slot@)],
        ),
{
    Statement::new(FIND, vec![Param::Text(date.to_owned()), Param::Text(slot.to_owned())])
}

pub const LIST_FROM: &'static str =
    "menu WHERE ($1::text IS NULL OR date >= $1::text) AND ($2::text IS NULL OR date <= $2::text)";

pub const LIST_ORDER: &'static str = "ORDER BY date DESC, slot ASC, id DESC";

/// The read of the menus between two inclusive days, either of which may be
/// absent; newest day first.
pub fn list(
    from: Option<&str>,
    to: Option<&str>,
    limit: Option<i64>,
    offset: i64,
) -> (both: (Statement, Option<Statement>))
    ensures
        crate::page::pages(
            both,
            LIST_FROM@,
            LIST_ORDER@,
            seq![
                ParamView::OptText(crate::page::opt_view(from)),
                ParamView::OptText(crate::page::opt_view(to)),
            ],
            limit,
            offset,
        ),
{
    let binds: Vec<Param> = vec![Param::OptText(opt_text(from)), Param::OptText(opt_text(to))];
    assert(crate::page::bound(binds@) =~= seq![
        ParamView::OptText(crate::page::opt_view(from)),
        ParamView::OptText(crate::page::opt_view(to)),
    ]);
    paged(LIST_FROM, LIST_ORDER, binds, limit, offset)
}

pub const MOVE_CAPACITY: &'static str =
    "UPDATE menu SET capacity = $2, version = COALESCE(version, 0) + 1 WHERE id = $1 RETURNING \
     id, date, slot, capacity, version, created_by, created_at";

/// The write of a menu's capacity, which moves the revision in the same
/// statement. A request that carries no capacity writes nothing, bumps
/// nothing and reads the row back; one that carries `None` clears the cap.
pub fn update(id: &str, capacity: Option<Option<i64>>) -> (statement: Statement)
    ensures
        statement@ == (match capacity {
            None => crate::page::sends(READ, seq![ParamView::Text(id@)]),
            Some(cap) => crate::page::sends(
                MOVE_CAPACITY,
                seq![ParamView::Text(id@), ParamView::OptI64(cap)],
            ),
        }),
{
    match capacity {
        None => read(id),
        Some(cap) => Statement::new(
            MOVE_CAPACITY,
            vec![Param::Text(id.to_owned()), Param::OptI64(cap)],
        ),
    }
}

/// The statement a delete waits for.
#[derive(Clone, Copy, PartialEq, Eq, Structural, Debug)]
pub enum Delete {
    /// Take the menu row, while no seat is held on it.
    Guard,
    WipeMarks,
    WipeDishes,
    /// Delete the row; its row is the answer.
    DeleteRow,
    /// Give the slot's reference back.
    ReleaseSlot,
}

/// What a delete comes to.
#[derive(Clone, Copy, PartialEq, Eq, Structural, Debug)]
pub enum Deleted {
    Menu,
    /// A seat is held, or the menu is gone: nothing was deleted.
    Nothing,
}

pub const GUARD: &'static str =
    "SELECT 1 AS deletable FROM menu WHERE id = $1 AND seats_booked = 0 FOR UPDATE";
pub const WIPE_MARKS: &'static str =
    "DELETE FROM meal_attendance WHERE menu = $1";
pub const WIPE_DISHES: &'static str =
    "DELETE FROM menu_dish WHERE menu = $1";
pub const DELETE_MENU: &'static str =
    "DELETE FROM menu WHERE id = $1 RETURNING id, date, slot, capacity, version, created_by, \
     created_at";
pub const RELEASE_SLOT: &'static str =
    "UPDATE slot_ref SET count = GREATEST(count - 1, 0) WHERE name = $1";

impl Delete {
    /// The statement of this step for the menu `id`, whose slot is counted
    /// under `counter`.
    pub open spec fn asks(self, id: Seq<char>, counter: Seq<char>) -> StatementView {
        let key = seq![ParamView::Text(id)];
        match self {
            Delete::Guard => crate::page::sends(GUARD, key),
            Delete::WipeMarks => crate::page::sends(WIPE_MARKS, key),
            Delete::WipeDishes => crate::page::sends(WIPE_DISHES, key),
            Delete::DeleteRow => crate::page::sends(DELETE_MENU, key),
            Delete::ReleaseSlot => crate::page::sends(
                RELEASE_SLOT,
                seq![ParamView::Text(counter)],
            ),
        }
    }

    /// The statement of this step.
    pub fn statement(self, id: &str, counter: &str) -> (statement: Statement)
        ensures
            statement@ == self.asks(id@, counter@),
    {
        let key = vec![Param::Text(id.to_owned())];
        match self {
            Delete::Guard => Statement::new(GUARD, key),
            Delete::WipeMarks => Statement::new(WIPE_MARKS, key),
            Delete::WipeDishes => Statement::new(WIPE_DISHES, key),
            Delete::DeleteRow => Statement::new(DELETE_MENU, key),
            Delete::ReleaseSlot => Statement::new(
                RELEASE_SLOT,
                vec![Param::Text(counter.to_owned())],
            ),
        }
    }
}

/// What a delete does once the statement of `at` is answered. The children go
/// before the row they hang off.
pub open spec fn delete_next(at: Delete, reply: Reply) -> Step<Delete, Deleted, ()> {
    match at {
        Delete::Guard => if reply.has_row() {
            Step::Ask(Delete::WipeMarks)
        } else {
            Step::Commit(Deleted::Nothing)
        },
        Delete::WipeMarks => Step::Ask(Delete::WipeDishes),
        Delete::WipeDishes => Step::Ask(Delete::DeleteRow),
        Delete::DeleteRow => if reply.has_row() {
            Step::Ask(Delete::ReleaseSlot)
        } else {
            Step::Commit(Deleted::Nothing)
        },
        Delete::ReleaseSlot => Step::Commit(Deleted::Menu),
    }
}

/// Delete a menu with the dishes and marks on it: the step that follows the
/// answer to `at`. A delete starts at [`Delete::Guard`]; [`delete_refused`]
/// answers one that deleted nothing.
pub fn delete(at: Delete, reply: Reply) -> (step: Step<Delete, Deleted, ()>)
    ensures
        step == delete_next(at, reply),
{
    match at {
        Delete::Guard => if reply.row() {
            Step::Ask(Delete::WipeMarks)
        } else {
            Step::Commit(Deleted::Nothing)
        },
        Delete::WipeMarks => Step::Ask(Delete::WipeDishes),
        Delete::WipeDishes => Step::Ask(Delete::DeleteRow),
        Delete::DeleteRow => if reply.row() {
            Step::Ask(Delete::ReleaseSlot)
        } else {
            Step::Commit(Deleted::Nothing)
        },
        Delete::ReleaseSlot => Step::Commit(Deleted::Menu),
    }
}

/// The answer to a delete while seats are held.
pub const LIVE_BOOKINGS: &'static str = "the menu still has live bookings";

/// What a delete that deleted nothing answers, by whether the menu is still
/// there.
pub fn delete_refused(there: bool) -> (error: AppError)
    ensures
        error@ == (if there {
            AppErrorView::Conflict(LIVE_BOOKINGS@)
        } else {
            AppErrorView::NotFound
        }),
{
    if there {
        AppError::Conflict(LIVE_BOOKINGS)
    } else {
        AppError::NotFound
    }
}

/// A stored menu.
pub struct MenuRow {
    pub date: Seq<char>,
    pub slot: Seq<char>,
    pub seats: int,
    pub capacity: Option<i64>,
    pub version: int,
    pub created_by: UserId,
    pub created_at: i64,
}

/// The row a publish stores: no seat is held yet, and the revision is zero.
pub open spec fn first_row(menu: Menu) -> MenuRow {
    MenuRow {
        date: menu.date@,
        slot: menu.slot@,
        seats: 0,
        capacity: menu.capacity,
        version: 0,
        created_by: menu.created_by,
        created_at: menu.created_at.0,
    }
}

/// A slot's references, and whether it has left the settings.
pub struct SlotRow {
    pub count: int,
    pub retired: bool,
}

/// The tables a publish and a delete touch: the menus, the references on each
/// slot, the menu each dish hangs off, the attendance marks and the bookings by
/// menu and student.
#[verifier::ext_equal]
pub struct Menus {
    pub menus: Map<Seq<char>, MenuRow>,
    pub slots: Map<Seq<char>, SlotRow>,
    pub dishes: Map<MenuDishId, Seq<char>>,
    pub marks: Set<(Seq<char>, UserId)>,
    pub attempts: Map<(Seq<char>, UserId), int>,
}

/// The menus of one slot.
pub open spec fn in_slot(slot: Seq<char>) -> spec_fn(Seq<char>, MenuRow) -> bool {
    |id: Seq<char>, menu: MenuRow| menu.slot == slot
}

impl Menus {
    /// The references on a slot: a slot without a row has none.
    pub open spec fn slot_count(self, slot: Seq<char>) -> int {
        if self.slots.contains_key(slot) {
            self.slots[slot].count
        } else {
            0
        }
    }

    /// Every slot's references are the menus published for it, and every
    /// dish and mark hangs off a menu that is there.
    pub open spec fn in_order(self) -> bool {
        &&& self.menus.dom().finite()
        &&& forall|slot: Seq<char>| #[trigger]
            self.slot_count(slot) == crate::tally::tally(self.menus, in_slot(slot))
        &&& forall|dish: MenuDishId| #[trigger]
            self.dishes.contains_key(dish) ==> self.menus.contains_key(self.dishes[dish])
        &&& forall|mark: (Seq<char>, UserId)| #[trigger]
            self.marks.contains(mark) ==> self.menus.contains_key(mark.0)
    }
}

/// What each statement of a publish does to the tables, and what it replies.
pub open spec fn create_effect(db: Menus, menu: Menu, at: Create) -> (Menus, Reply) {
    match at {
        Create::ReadTaken => (
            db,
            if db.menus.contains_key(menu.id@) {
                Reply::Row
            } else {
                Reply::Empty
            },
        ),
        Create::Insert => if db.slots.contains_key(menu.slot@) && db.slots[menu.slot@].retired {
            (db, Reply::Empty)
        } else {
            (
                Menus {
                    slots: db.slots.insert(
                        menu.slot@,
                        SlotRow { count: db.slot_count(menu.slot@) + 1, retired: false },
                    ),
                    menus: db.menus.insert(menu.id@, first_row(menu)),
                    ..db
                },
                Reply::Row,
            )
        },
    }
}

/// A whole publish against the tables.
pub open spec fn create_run(db: Menus, menu: Menu) -> (Menus, Step<Create, (), CreateRefusal>) {
    crate::transaction::run(
        db,
        Step::Ask(Create::ReadTaken),
        |at: Create, reply: Reply| create_next(at, reply),
        |tables: Menus, at: Create| create_effect(tables, menu, at),
        2,
    )
}

/// What the tables hold after a publish.
pub open spec fn published(db: Menus, menu: Menu) -> Menus {
    crate::transaction::stored(db, create_run(db, menu))
}

/// A publish lands the menu, under its day and slot, and its reference
/// together, or neither: it is refused where the meal is published already, and
/// where its slot has left the settings, and then leaves everything as it was.
pub proof fn law_create_keeps_references(db: Menus, menu: Menu)
    requires
        db.in_order(),
    ensures
        published(db, menu).in_order(),
        create_run(db, menu).1 == crate::transaction::ends::<Create, (), CreateRefusal>(
            (),
            if db.menus.contains_key(menu.id@) {
                Some(CreateRefusal::Taken)
            } else if db.slots.contains_key(menu.slot@) && db.slots[menu.slot@].retired {
                Some(CreateRefusal::RetiredSlot)
            } else {
                None
            },
        ),
        create_run(db, menu).1 is Abort ==> published(db, menu) == db,
        create_run(db, menu).1 is Commit ==> {
            &&& published(db, menu).menus == db.menus.insert(menu.id@, first_row(menu))
            &&& published(db, menu).slot_count(menu.slot@) == db.slot_count(menu.slot@) + 1
            &&& published(db, menu).dishes == db.dishes
            &&& published(db, menu).marks == db.marks
            &&& published(db, menu).attempts == db.attempts
        },
{
    reveal_with_fuel(crate::transaction::run, 3);
    if create_run(db, menu).1 is Commit {
        let after = published(db, menu);
        assert forall|other: Seq<char>| #[trigger]
            after.slot_count(other) == crate::tally::tally(after.menus, in_slot(other)) by {
            assert(db.slot_count(other) == crate::tally::tally(db.menus, in_slot(other)));
            crate::tally::lemma_tally_insert(db.menus, menu.id@, first_row(menu), in_slot(other));
        }
    }
}

/// What each statement of a delete does to the tables, and what it replies.
pub open spec fn delete_effect(db: Menus, id: Seq<char>, slot: Seq<char>, at: Delete) -> (
    Menus,
    Reply,
) {
    match at {
        Delete::Guard => (
            db,
            if db.menus.contains_key(id) && db.menus[id].seats == 0 {
                Reply::Row
            } else {
                Reply::Empty
            },
        ),
        Delete::WipeMarks => (
            Menus { marks: db.marks.filter(|mark: (Seq<char>, UserId)| mark.0 != id), ..db },
            Reply::Row,
        ),
        Delete::WipeDishes => (
            Menus {
                dishes: db.dishes.remove_keys(
                    db.dishes.dom().filter(|dish: MenuDishId| db.dishes[dish] == id),
                ),
                ..db
            },
            Reply::Row,
        ),
        Delete::DeleteRow => if db.menus.contains_key(id) {
            (Menus { menus: db.menus.remove(id), ..db }, Reply::Row)
        } else {
            (db, Reply::Empty)
        },
        Delete::ReleaseSlot => (
            if db.slots.contains_key(slot) {
                Menus {
                    slots: db.slots.insert(
                        slot,
                        SlotRow {
                            count: crate::tally::floored(db.slots[slot].count - 1),
                            ..db.slots[slot]
                        },
                    ),
                    ..db
                }
            } else {
                db
            },
            Reply::Row,
        ),
    }
}

/// A whole delete against the tables.
pub open spec fn delete_run(db: Menus, id: Seq<char>, slot: Seq<char>) -> (Menus, Step<
    Delete,
    Deleted,
    (),
>) {
    crate::transaction::run(
        db,
        Step::Ask(Delete::Guard),
        |at: Delete, reply: Reply| delete_next(at, reply),
        |tables: Menus, at: Delete| delete_effect(tables, id, slot, at),
        5,
    )
}

/// What the tables hold after a delete.
pub open spec fn after_delete(db: Menus, id: Seq<char>, slot: Seq<char>) -> Menus {
    crate::transaction::stored(db, delete_run(db, id, slot))
}

/// A delete takes the menu, its dishes, its attendance marks and the slot's
/// reference together, and nothing at all while a seat is held or where the menu
/// is gone. It touches no dish and no mark of another menu, and no dish and no
/// mark outlives its menu. Every booking stays: the attempts on it keep the
/// ledger's keys apart when the meal is published again.
pub proof fn law_delete_keeps_references(
    db: Menus,
    id: Seq<char>,
    slot: Seq<char>,
    dish: MenuDishId,
    mark: (Seq<char>, UserId),
)
    requires
        db.in_order(),
        db.menus.contains_key(id) ==> db.menus[id].slot == slot,
    ensures
        after_delete(db, id, slot).in_order(),
        ({
            let after = after_delete(db, id, slot);
            let end = delete_run(db, id, slot).1;
            if db.menus.contains_key(id) && db.menus[id].seats == 0 {
                &&& end == Step::<Delete, Deleted, ()>::Commit(Deleted::Menu)
                &&& after.menus == db.menus.remove(id)
                &&& after.slot_count(slot) == db.slot_count(slot) - 1
                &&& after.dishes.contains_key(dish) <==> db.dishes.contains_key(dish)
                    && db.dishes[dish] != id
                &&& after.dishes.contains_key(dish) ==> after.dishes[dish] == db.dishes[dish]
                &&& after.marks.contains(mark) <==> db.marks.contains(mark) && mark.0 != id
                &&& after.attempts == db.attempts
            } else {
                end == Step::<Delete, Deleted, ()>::Commit(Deleted::Nothing) && after == db
            }
        }),
{
    reveal_with_fuel(crate::transaction::run, 6);
    let after = after_delete(db, id, slot);
    if db.menus.contains_key(id) && db.menus[id].seats == 0 {
        assert(after.menus == db.menus.remove(id));
        assert(db.slot_count(slot) == crate::tally::tally(db.menus, in_slot(slot)));
        crate::tally::lemma_tally_holds(db.menus, id, in_slot(slot));
        assert forall|other: Seq<char>| #[trigger]
            after.slot_count(other) == crate::tally::tally(after.menus, in_slot(other)) by {
            assert(db.slot_count(other) == crate::tally::tally(db.menus, in_slot(other)));
            crate::tally::lemma_tally_remove(db.menus, id, in_slot(other));
        }
        assert forall|each: (Seq<char>, UserId)| #[trigger]
            after.marks.contains(each) implies after.menus.contains_key(each.0) by {
            assert(db.marks.contains(each));
        }
    }
}

/// The row a capacity write leaves.
pub open spec fn moved_capacity(row: MenuRow, capacity: Option<Option<i64>>) -> MenuRow {
    match capacity {
        None => row,
        Some(cap) => MenuRow { capacity: cap, version: row.version + 1, ..row },
    }
}

/// The cap and the revision move together or not at all: the revision steps
/// exactly once for each capacity carried, and never otherwise.
pub proof fn law_cap_and_revision_move_together(row: MenuRow, capacity: Option<Option<i64>>)
    ensures
        moved_capacity(row, capacity).version == row.version + (if capacity is Some {
            1int
        } else {
            0int
        }),
        moved_capacity(row, capacity).capacity != row.capacity ==> moved_capacity(
            row,
            capacity,
        ).version > row.version,
        capacity is Some ==> moved_capacity(row, capacity).capacity == capacity->0,
{
}

/// What [`READ`] says.
pub open spec fn read_reading() -> Picking {
    Picking {
        skip: 64,
        head: " FROM "@,
        columns: Seq::empty(),
        table: "menu"@,
        conditions: seq![crate::sql::is_bound("id"@, 1)],
        rest: Text::End,
    }
}

proof fn lemma_read_reads()
    ensures
        crate::sql::spells(READ@, 64, read_reading().text()),
{
    reveal_strlit("SELECT id, date, slot, capacity, version, created_by, created_at FROM menu WHERE id = $1");
    reveal_strlit(" FROM ");
    reveal_strlit("menu");
    reveal_strlit(" WHERE ");
    reveal_strlit("id");
    reveal_strlit(" = ");
    reveal_strlit("$");
    reveal(crate::sql::Picking::text);
    reveal_with_fuel(crate::sql::where_text, 2);
    reveal_with_fuel(crate::sql::stands, 8);
    reveal_with_fuel(crate::sql::spells_by, 7);
    crate::sql::lemma_spells_by(READ@, 64, read_reading().text(), crate::sql::cut(70, crate::sql::cut(74, crate::sql::cut(81, crate::sql::cut(83, crate::sql::cut(86, crate::sql::cut(88, Cuts::Last)))))));
}

/// [`read`] reads the rows it names and no other.
pub proof fn law_read_reads_its_rows(
    id: &str,
    sent: Statement,
    row: Row,
)
    requires
        call_ensures(read, (id,), sent),
    ensures
        read_reading().is_read(sent@),
        read_reading().picks(sent@.binds, row) == (row["id"@] == Cell::Text(id@)),
{
    lemma_read_reads();
    reveal_with_fuel(crate::sql::all_hold, 2);
}

/// What [`FIND`] says.
pub open spec fn find_reading() -> Picking {
    Picking {
        skip: 64,
        head: " FROM "@,
        columns: Seq::empty(),
        table: "menu"@,
        conditions: seq![crate::sql::is_bound("date"@, 1), crate::sql::is_bound("slot"@, 2)],
        rest: crate::sql::before(" LIMIT 1"@, Text::End),
    }
}

proof fn lemma_find_reads()
    ensures
        crate::sql::spells(FIND@, 64, find_reading().text()),
{
    reveal_strlit("SELECT id, date, slot, capacity, version, created_by, created_at FROM menu WHERE date = $1 AND slot = $2 LIMIT 1");
    reveal_strlit(" FROM ");
    reveal_strlit("menu");
    reveal_strlit(" WHERE ");
    reveal_strlit("date");
    reveal_strlit(" = ");
    reveal_strlit("$");
    reveal_strlit(" AND ");
    reveal_strlit("slot");
    reveal_strlit(" LIMIT 1");
    reveal(crate::sql::Picking::text);
    reveal_with_fuel(crate::sql::where_text, 3);
    reveal_with_fuel(crate::sql::stands, 9);
    reveal_with_fuel(crate::sql::spells_by, 12);
    crate::sql::lemma_spells_by(FIND@, 64, find_reading().text(), crate::sql::cut(70, crate::sql::cut(74, crate::sql::cut(81, crate::sql::cut(85, crate::sql::cut(88, crate::sql::cut(90, crate::sql::cut(95, crate::sql::cut(99, crate::sql::cut(102, crate::sql::cut(104, crate::sql::cut(112, Cuts::Last))))))))))));
}

/// [`find`] reads the rows it names and no other.
pub proof fn law_find_reads_its_rows(
    date: &str,
    slot: &str,
    sent: Statement,
    row: Row,
)
    requires
        call_ensures(find, (date, slot), sent),
    ensures
        find_reading().is_read(sent@),
        find_reading().picks(sent@.binds, row) == (row["date"@] == Cell::Text(date@) && row["slot"@] == Cell::Text(slot@)),
{
    lemma_find_reads();
    reveal_with_fuel(crate::sql::all_hold, 3);
}

/// What [`LIST_FROM`] says.
pub open spec fn list_from_reading() -> Picking {
    Picking {
        skip: 0,
        head: ""@,
        columns: Seq::empty(),
        table: "menu"@,
        conditions: seq![Cond::Since(Term::Cast(1, "text"@), "date"@, Term::Cast(1, "text"@)), Cond::Until(Term::Cast(2, "text"@), "date"@, Term::Cast(2, "text"@))],
        rest: Text::End,
    }
}

proof fn lemma_list_from_reads()
    ensures
        crate::sql::spells(LIST_FROM@, 0, list_from_reading().text()),
{
    reveal_strlit("menu WHERE ($1::text IS NULL OR date >= $1::text) AND ($2::text IS NULL OR date <= $2::text)");
    reveal_strlit("");
    reveal_strlit("menu");
    reveal_strlit(" WHERE ");
    reveal_strlit("(");
    reveal_strlit("$");
    reveal_strlit("::");
    reveal_strlit("text");
    reveal_strlit(" IS NULL OR ");
    reveal_strlit("date");
    reveal_strlit(" >= ");
    reveal_strlit(")");
    reveal_strlit(" AND ");
    reveal_strlit(" <= ");
    reveal(crate::sql::Picking::text);
    reveal_with_fuel(crate::sql::where_text, 3);
    reveal_with_fuel(crate::sql::stands, 13);
    reveal_with_fuel(crate::sql::spells_by, 27);
    crate::sql::lemma_spells_by(LIST_FROM@, 0, list_from_reading().text(), crate::sql::cut(0, crate::sql::cut(4, crate::sql::cut(11, crate::sql::cut(12, crate::sql::cut(14, crate::sql::cut(16, crate::sql::cut(20, crate::sql::cut(32, crate::sql::cut(36, crate::sql::cut(40, crate::sql::cut(42, crate::sql::cut(44, crate::sql::cut(48, crate::sql::cut(49, crate::sql::cut(54, crate::sql::cut(55, crate::sql::cut(57, crate::sql::cut(59, crate::sql::cut(63, crate::sql::cut(75, crate::sql::cut(79, crate::sql::cut(83, crate::sql::cut(85, crate::sql::cut(87, crate::sql::cut(91, crate::sql::cut(92, Cuts::Last)))))))))))))))))))))))))));
}

/// [`list`] pages the rows it names and no other.
pub proof fn law_list_reads_its_rows(
    from: Option<&str>,
    to: Option<&str>,
    limit: Option<i64>,
    offset: i64,
    both: (Statement, Option<Statement>),
    row: Row,
)
    requires
        call_ensures(list, (from, to, limit, offset), both),
    ensures
        crate::sql::spells(
            both.0@.sql,
            0,
            crate::sql::before("SELECT * FROM "@, crate::sql::opened(list_from_reading().text())),
        ),
        list_from_reading().picks(both.0@.binds, row) == ((crate::sql::opt_text(crate::page::opt_view(from)) is Null || (row["date"@] !is Null && crate::sql::at_most(crate::sql::opt_text(crate::page::opt_view(from)), row["date"@]))) && (crate::sql::opt_text(crate::page::opt_view(to)) is Null || (row["date"@] !is Null && crate::sql::at_most(row["date"@], crate::sql::opt_text(crate::page::opt_view(to)))))),
{
    lemma_list_from_reads();
    reveal(crate::sql::Picking::text);
    reveal_with_fuel(crate::sql::where_text, 3);
    reveal_with_fuel(crate::sql::is_open, 27);
    reveal_with_fuel(crate::sql::all_hold, 3);
    crate::page::law_page_reads_its_rows(
        both,
        LIST_FROM@,
        LIST_ORDER@,
        seq![ ParamView::OptText(crate::page::opt_view(from)), ParamView::OptText(crate::page::opt_view(to)), ],
        limit,
        offset,
        list_from_reading().text(),
    );
}

/// What [`READ_TAKEN`] says.
pub open spec fn read_taken_reading() -> Picking {
    Picking {
        skip: 0,
        head: "SELECT "@,
        columns: seq!["1 AS taken"@],
        table: "menu"@,
        conditions: seq![crate::sql::is_bound("id"@, 1)],
        rest: Text::End,
    }
}

proof fn lemma_read_taken_reads()
    ensures
        crate::sql::spells(READ_TAKEN@, 0, read_taken_reading().text()),
{
    reveal_strlit("SELECT 1 AS taken FROM menu WHERE id = $1");
    reveal_strlit("SELECT ");
    reveal_strlit("1 AS taken");
    reveal_strlit(" FROM ");
    reveal_strlit("menu");
    reveal_strlit(" WHERE ");
    reveal_strlit("id");
    reveal_strlit(" = ");
    reveal_strlit("$");
    reveal(crate::sql::Picking::text);
    reveal_with_fuel(crate::sql::where_text, 2);
    reveal_with_fuel(crate::sql::names_text, 2);
    reveal_with_fuel(crate::sql::stands, 11);
    reveal_with_fuel(crate::sql::spells_by, 9);
    crate::sql::lemma_spells_by(READ_TAKEN@, 0, read_taken_reading().text(), crate::sql::cut(7, crate::sql::cut(17, crate::sql::cut(23, crate::sql::cut(27, crate::sql::cut(34, crate::sql::cut(36, crate::sql::cut(39, crate::sql::cut(41, Cuts::Last)))))))));
}

/// [`Create::ReadTaken`] reads the rows it names and no other.
pub proof fn law_create_read_taken_reads_its_rows(
    menu: Menu,
    counter: Seq<char>,
    row: Row,
)
    ensures
        ({
            let sent = Create::ReadTaken.asks(menu, counter);
            &&& read_taken_reading().is_read(sent)
            &&& read_taken_reading().picks(sent.binds, row) == (row["id"@] == Cell::Text(menu.id@))
        }),
{
    lemma_read_taken_reads();
    reveal_with_fuel(crate::sql::all_hold, 2);
}

/// The row that [`INSERT_MENU`] inserts where its first part wrote.
pub open spec fn insert_menu_row() -> Storing {
    Storing {
        head: "INSERT INTO "@,
        table: "menu"@,
        columns: seq!["id"@, "date"@, "slot"@, "capacity"@, "version"@, "created_by"@, "created_at"@],
        values: seq![Term::Bind(1), Term::Bind(3), Term::Bind(4), Term::Bind(5), Term::Bind(6), Term::Bind(7), Term::Bind(8)],
        selected: true,
        conflict: Conflict::Unread,
        rest: crate::sql::before(" WHERE EXISTS (SELECT 1 FROM ref)"@, crate::sql::returning()),
    }
}

/// What [`INSERT_MENU`] says.
pub open spec fn insert_menu_reading() -> Storing {
    Storing {
        head: "WITH ref AS ( INSERT INTO "@,
        table: "slot_ref"@,
        columns: seq!["name"@, "count"@],
        values: seq![Term::Bind(2), Term::Word("1"@, Cell::Int(1))],
        selected: false,
        conflict: Conflict::Moves(seq!["name"@], seq![("count"@, Expr::Plus(Term::Of("slot_ref"@, "count"@), Term::Word("1"@, Cell::Int(1))))], seq![Cond::Equal(Expr::Is(Term::Of("slot_ref"@, "retired"@)), crate::sql::word("false"@, Cell::Bool(false)))]),
        rest: crate::sql::before(" RETURNING 1 AS ref ) "@, insert_menu_row().text()),
    }
}

#[verifier::rlimit(20)]
proof fn lemma_insert_menu_reads()
    ensures
        crate::sql::spells(INSERT_MENU@, 0, insert_menu_reading().text()),
{
    reveal_strlit("WITH ref AS ( INSERT INTO slot_ref (name, count) VALUES ($2, 1) ON CONFLICT (name) DO UPDATE SET count = slot_ref.count + 1 WHERE slot_ref.retired = false RETURNING 1 AS ref ) INSERT INTO menu (id, date, slot, capacity, version, created_by, created_at) SELECT $1, $3, $4, $5, $6, $7, $8 WHERE EXISTS (SELECT 1 FROM ref) RETURNING id, date, slot, capacity, version, created_by, created_at");
    reveal_strlit("WITH ref AS ( INSERT INTO ");
    reveal_strlit("slot_ref");
    reveal_strlit(" (");
    reveal_strlit("name");
    reveal_strlit(", ");
    reveal_strlit("count");
    reveal_strlit(") VALUES (");
    reveal_strlit("$");
    reveal_strlit("1");
    reveal_strlit(")");
    reveal_strlit(" ON CONFLICT (");
    reveal_strlit(") DO UPDATE");
    reveal_strlit(" SET ");
    reveal_strlit(" = ");
    reveal_strlit(".");
    reveal_strlit(" + ");
    reveal_strlit(" WHERE ");
    reveal_strlit("retired");
    reveal_strlit("false");
    reveal_strlit(" RETURNING 1 AS ref ) ");
    reveal_strlit("INSERT INTO ");
    reveal_strlit("menu");
    reveal_strlit("id");
    reveal_strlit("date");
    reveal_strlit("slot");
    reveal_strlit("capacity");
    reveal_strlit("version");
    reveal_strlit("created_by");
    reveal_strlit("created_at");
    reveal_strlit(") SELECT ");
    reveal_strlit(" WHERE EXISTS (SELECT 1 FROM ref)");
    reveal_strlit(" RETURNING ");
    reveal(crate::sql::Storing::text);
    reveal(crate::sql::Storing::text);
    reveal_with_fuel(crate::sql::names_text, 8);
    reveal_with_fuel(crate::sql::values_text, 8);
    reveal_with_fuel(crate::sql::set_text, 2);
    reveal_with_fuel(crate::sql::where_text, 2);
    reveal_with_fuel(crate::sql::stands, 34);
    reveal_with_fuel(crate::sql::spells_by, 62);
    crate::sql::lemma_spells_by(INSERT_MENU@, 0, insert_menu_reading().text(), crate::sql::cut(26, crate::sql::cut(34, crate::sql::cut(36, crate::sql::cut(40, crate::sql::cut(42, crate::sql::cut(47, crate::sql::cut(57, crate::sql::cut(59, crate::sql::cut(61, crate::sql::cut(62, crate::sql::cut(63, crate::sql::cut(77, crate::sql::cut(81, crate::sql::cut(92, crate::sql::cut(97, crate::sql::cut(102, crate::sql::cut(105, crate::sql::cut(113, crate::sql::cut(114, crate::sql::cut(119, crate::sql::cut(122, crate::sql::cut(123, crate::sql::cut(130, crate::sql::cut(138, crate::sql::cut(139, crate::sql::cut(146, crate::sql::cut(149, crate::sql::cut(154, crate::sql::cut(176, crate::sql::cut(188, crate::sql::cut(192, crate::sql::cut(194, crate::sql::cut(196, crate::sql::cut(198, crate::sql::cut(202, crate::sql::cut(204, crate::sql::cut(208, crate::sql::cut(210, crate::sql::cut(218, crate::sql::cut(220, crate::sql::cut(227, crate::sql::cut(229, crate::sql::cut(239, crate::sql::cut(241, crate::sql::cut(251, crate::sql::cut(260, crate::sql::cut(262, crate::sql::cut(264, crate::sql::cut(266, crate::sql::cut(268, crate::sql::cut(270, crate::sql::cut(272, crate::sql::cut(274, crate::sql::cut(276, crate::sql::cut(278, crate::sql::cut(280, crate::sql::cut(282, crate::sql::cut(284, crate::sql::cut(286, crate::sql::cut(319, crate::sql::cut(330, Cuts::Last))))))))))))))))))))))))))))))))))))))))))))))))))))))))))))));
}

/// [`Create::Insert`] writes the row it names where its condition holds, and then stores the
/// new row, each value in its own column.
pub proof fn law_create_insert_lands_in_its_columns(
    menu: Menu,
    counter: Seq<char>,
)
    ensures
        ({
            let sent = Create::Insert.asks(menu, counter);
            &&& insert_menu_reading().is_read(sent)
            &&& insert_menu_reading().stores(sent.binds) == seq![
                ("name"@, Cell::Text(counter)),
                ("count"@, Cell::Int(1)),
            ]
            &&& insert_menu_row().stores(sent.binds) == seq![
                ("id"@, Cell::Text(menu.id@)),
                ("date"@, Cell::Text(menu.date@)),
                ("slot"@, Cell::Text(menu.slot@)),
                ("capacity"@, crate::sql::opt_int(menu.capacity)),
                ("version"@, crate::sql::opt_int(Some(0))),
                ("created_by"@, Cell::Uuid(menu.created_by.0)),
                ("created_at"@, Cell::Int(menu.created_at.0 as int)),
            ]
        }),
{
    lemma_insert_menu_reads();
}

/// What [`GUARD`] says.
pub open spec fn guard_reading() -> Picking {
    Picking {
        skip: 0,
        head: "SELECT "@,
        columns: seq!["1 AS deletable"@],
        table: "menu"@,
        conditions: seq![crate::sql::is_bound("id"@, 1), Cond::Equal(crate::sql::column("seats_booked"@), crate::sql::word("0"@, Cell::Int(0)))],
        rest: crate::sql::before(" FOR UPDATE"@, Text::End),
    }
}

proof fn lemma_guard_reads()
    ensures
        crate::sql::spells(GUARD@, 0, guard_reading().text()),
{
    reveal_strlit("SELECT 1 AS deletable FROM menu WHERE id = $1 AND seats_booked = 0 FOR UPDATE");
    reveal_strlit("SELECT ");
    reveal_strlit("1 AS deletable");
    reveal_strlit(" FROM ");
    reveal_strlit("menu");
    reveal_strlit(" WHERE ");
    reveal_strlit("id");
    reveal_strlit(" = ");
    reveal_strlit("$");
    reveal_strlit(" AND ");
    reveal_strlit("seats_booked");
    reveal_strlit("0");
    reveal_strlit(" FOR UPDATE");
    reveal(crate::sql::Picking::text);
    reveal_with_fuel(crate::sql::where_text, 3);
    reveal_with_fuel(crate::sql::names_text, 2);
    reveal_with_fuel(crate::sql::stands, 15);
    reveal_with_fuel(crate::sql::spells_by, 14);
    crate::sql::lemma_spells_by(GUARD@, 0, guard_reading().text(), crate::sql::cut(7, crate::sql::cut(21, crate::sql::cut(27, crate::sql::cut(31, crate::sql::cut(38, crate::sql::cut(40, crate::sql::cut(43, crate::sql::cut(45, crate::sql::cut(50, crate::sql::cut(62, crate::sql::cut(65, crate::sql::cut(66, crate::sql::cut(77, Cuts::Last))))))))))))));
}

/// [`Delete::Guard`] reads the rows it names and no other.
pub proof fn law_delete_guard_reads_its_rows(
    id: Seq<char>,
    counter: Seq<char>,
    row: Row,
)
    ensures
        ({
            let sent = Delete::Guard.asks(id, counter);
            &&& guard_reading().is_read(sent)
            &&& guard_reading().picks(sent.binds, row) == (row["id"@] == Cell::Text(id) && row["seats_booked"@] == Cell::Int(0))
        }),
{
    lemma_guard_reads();
    reveal_with_fuel(crate::sql::all_hold, 3);
}

/// What [`WIPE_MARKS`] says.
pub open spec fn wipe_marks_reading() -> Picking {
    Picking {
        skip: 0,
        head: "DELETE FROM "@,
        columns: Seq::empty(),
        table: "meal_attendance"@,
        conditions: seq![crate::sql::is_bound("menu"@, 1)],
        rest: Text::End,
    }
}

proof fn lemma_wipe_marks_reads()
    ensures
        crate::sql::spells(WIPE_MARKS@, 0, wipe_marks_reading().text()),
{
    reveal_strlit("DELETE FROM meal_attendance WHERE menu = $1");
    reveal_strlit("DELETE FROM ");
    reveal_strlit("meal_attendance");
    reveal_strlit(" WHERE ");
    reveal_strlit("menu");
    reveal_strlit(" = ");
    reveal_strlit("$");
    reveal(crate::sql::Picking::text);
    reveal_with_fuel(crate::sql::where_text, 2);
    reveal_with_fuel(crate::sql::stands, 16);
    reveal_with_fuel(crate::sql::spells_by, 7);
    crate::sql::lemma_spells_by(WIPE_MARKS@, 0, wipe_marks_reading().text(), crate::sql::cut(12, crate::sql::cut(27, crate::sql::cut(34, crate::sql::cut(38, crate::sql::cut(41, crate::sql::cut(43, Cuts::Last)))))));
}

/// [`Delete::WipeMarks`] deletes the rows it names and no other.
pub proof fn law_delete_wipe_marks_deletes_its_rows(
    id: Seq<char>,
    counter: Seq<char>,
    row: Row,
)
    ensures
        ({
            let sent = Delete::WipeMarks.asks(id, counter);
            &&& wipe_marks_reading().is_read(sent)
            &&& wipe_marks_reading().picks(sent.binds, row) == (row["menu"@] == Cell::Text(id))
        }),
{
    lemma_wipe_marks_reads();
    reveal_with_fuel(crate::sql::all_hold, 2);
}

/// What [`WIPE_DISHES`] says.
pub open spec fn wipe_dishes_reading() -> Picking {
    Picking {
        skip: 0,
        head: "DELETE FROM "@,
        columns: Seq::empty(),
        table: "menu_dish"@,
        conditions: seq![crate::sql::is_bound("menu"@, 1)],
        rest: Text::End,
    }
}

proof fn lemma_wipe_dishes_reads()
    ensures
        crate::sql::spells(WIPE_DISHES@, 0, wipe_dishes_reading().text()),
{
    reveal_strlit("DELETE FROM menu_dish WHERE menu = $1");
    reveal_strlit("DELETE FROM ");
    reveal_strlit("menu_dish");
    reveal_strlit(" WHERE ");
    reveal_strlit("menu");
    reveal_strlit(" = ");
    reveal_strlit("$");
    reveal(crate::sql::Picking::text);
    reveal_with_fuel(crate::sql::where_text, 2);
    reveal_with_fuel(crate::sql::stands, 13);
    reveal_with_fuel(crate::sql::spells_by, 7);
    crate::sql::lemma_spells_by(WIPE_DISHES@, 0, wipe_dishes_reading().text(), crate::sql::cut(12, crate::sql::cut(21, crate::sql::cut(28, crate::sql::cut(32, crate::sql::cut(35, crate::sql::cut(37, Cuts::Last)))))));
}

/// [`Delete::WipeDishes`] deletes the rows it names and no other.
pub proof fn law_delete_wipe_dishes_deletes_its_rows(
    id: Seq<char>,
    counter: Seq<char>,
    row: Row,
)
    ensures
        ({
            let sent = Delete::WipeDishes.asks(id, counter);
            &&& wipe_dishes_reading().is_read(sent)
            &&& wipe_dishes_reading().picks(sent.binds, row) == (row["menu"@] == Cell::Text(id))
        }),
{
    lemma_wipe_dishes_reads();
    reveal_with_fuel(crate::sql::all_hold, 2);
}

/// What [`DELETE_MENU`] says.
pub open spec fn delete_menu_reading() -> Picking {
    Picking {
        skip: 0,
        head: "DELETE FROM "@,
        columns: Seq::empty(),
        table: "menu"@,
        conditions: seq![crate::sql::is_bound("id"@, 1)],
        rest: crate::sql::returning(),
    }
}

proof fn lemma_delete_menu_reads()
    ensures
        crate::sql::spells(DELETE_MENU@, 0, delete_menu_reading().text()),
{
    reveal_strlit("DELETE FROM menu WHERE id = $1 RETURNING id, date, slot, capacity, version, created_by, created_at");
    reveal_strlit("DELETE FROM ");
    reveal_strlit("menu");
    reveal_strlit(" WHERE ");
    reveal_strlit("id");
    reveal_strlit(" = ");
    reveal_strlit("$");
    reveal_strlit(" RETURNING ");
    reveal(crate::sql::Picking::text);
    reveal_with_fuel(crate::sql::where_text, 2);
    reveal_with_fuel(crate::sql::stands, 13);
    reveal_with_fuel(crate::sql::spells_by, 8);
    crate::sql::lemma_spells_by(DELETE_MENU@, 0, delete_menu_reading().text(), crate::sql::cut(12, crate::sql::cut(16, crate::sql::cut(23, crate::sql::cut(25, crate::sql::cut(28, crate::sql::cut(30, crate::sql::cut(41, Cuts::Last))))))));
}

/// [`Delete::DeleteRow`] deletes the rows it names and no other.
pub proof fn law_delete_delete_row_deletes_its_rows(
    id: Seq<char>,
    counter: Seq<char>,
    row: Row,
)
    ensures
        ({
            let sent = Delete::DeleteRow.asks(id, counter);
            &&& delete_menu_reading().is_read(sent)
            &&& delete_menu_reading().picks(sent.binds, row) == (row["id"@] == Cell::Text(id))
        }),
{
    lemma_delete_menu_reads();
    reveal_with_fuel(crate::sql::all_hold, 2);
}

/// What [`RELEASE_SLOT`] says.
pub open spec fn release_slot_reading() -> Writing {
    Writing {
        head: "UPDATE "@,
        table: "slot_ref"@,
        sets: seq![("count"@, Expr::Floored(Term::Column("count"@), Term::Word("1"@, Cell::Int(1))))],
        conditions: seq![crate::sql::is_bound("name"@, 1)],
        rest: Text::End,
    }
}

proof fn lemma_release_slot_reads()
    ensures
        crate::sql::spells(RELEASE_SLOT@, 0, release_slot_reading().text()),
{
    reveal_strlit("UPDATE slot_ref SET count = GREATEST(count - 1, 0) WHERE name = $1");
    reveal_strlit("UPDATE ");
    reveal_strlit("slot_ref");
    reveal_strlit(" SET ");
    reveal_strlit("count");
    reveal_strlit(" = ");
    reveal_strlit("GREATEST(");
    reveal_strlit(" - ");
    reveal_strlit("1");
    reveal_strlit(", 0)");
    reveal_strlit(" WHERE ");
    reveal_strlit("name");
    reveal_strlit("$");
    reveal(crate::sql::Writing::text);
    reveal_with_fuel(crate::sql::set_text, 2);
    reveal_with_fuel(crate::sql::where_text, 2);
    reveal_with_fuel(crate::sql::stands, 10);
    reveal_with_fuel(crate::sql::spells_by, 15);
    crate::sql::lemma_spells_by(RELEASE_SLOT@, 0, release_slot_reading().text(), crate::sql::cut(7, crate::sql::cut(15, crate::sql::cut(20, crate::sql::cut(25, crate::sql::cut(28, crate::sql::cut(37, crate::sql::cut(42, crate::sql::cut(45, crate::sql::cut(46, crate::sql::cut(50, crate::sql::cut(57, crate::sql::cut(61, crate::sql::cut(64, crate::sql::cut(66, Cuts::Last)))))))))))))));
}

/// [`Delete::ReleaseSlot`] picks the rows it names and no other, and overwrites each column with
/// its own value.
pub proof fn law_delete_release_slot_writes_its_row(
    id: Seq<char>,
    counter: Seq<char>,
    row: Row,
)
    ensures
        ({
            let sent = Delete::ReleaseSlot.asks(id, counter);
            &&& release_slot_reading().is_read(sent)
            &&& release_slot_reading().picks(sent.binds, row) == (row["name"@] == Cell::Text(counter))
            &&& release_slot_reading().writes(sent.binds, row) == seq![
                ("count"@, Cell::Int(crate::tally::floored(row["count"@].number() - 1))),
            ]
        }),
{
    lemma_release_slot_reads();
    reveal_with_fuel(crate::sql::all_hold, 2);
}

/// What [`MOVE_CAPACITY`] says.
pub open spec fn move_capacity_reading() -> Writing {
    Writing {
        head: "UPDATE "@,
        table: "menu"@,
        sets: seq![("capacity"@, crate::sql::bind(2)), ("version"@, Expr::Revised(Term::Column("version"@)))],
        conditions: seq![crate::sql::is_bound("id"@, 1)],
        rest: crate::sql::returning(),
    }
}

proof fn lemma_move_capacity_reads()
    ensures
        crate::sql::spells(MOVE_CAPACITY@, 0, move_capacity_reading().text()),
{
    reveal_strlit("UPDATE menu SET capacity = $2, version = COALESCE(version, 0) + 1 WHERE id = $1 RETURNING id, date, slot, capacity, version, created_by, created_at");
    reveal_strlit("UPDATE ");
    reveal_strlit("menu");
    reveal_strlit(" SET ");
    reveal_strlit("capacity");
    reveal_strlit(" = ");
    reveal_strlit("$");
    reveal_strlit(", ");
    reveal_strlit("version");
    reveal_strlit("COALESCE(");
    reveal_strlit(", 0) + 1");
    reveal_strlit(" WHERE ");
    reveal_strlit("id");
    reveal_strlit(" RETURNING ");
    reveal(crate::sql::Writing::text);
    reveal_with_fuel(crate::sql::set_text, 3);
    reveal_with_fuel(crate::sql::where_text, 2);
    reveal_with_fuel(crate::sql::stands, 12);
    reveal_with_fuel(crate::sql::spells_by, 18);
    crate::sql::lemma_spells_by(MOVE_CAPACITY@, 0, move_capacity_reading().text(), crate::sql::cut(7, crate::sql::cut(11, crate::sql::cut(16, crate::sql::cut(24, crate::sql::cut(27, crate::sql::cut(29, crate::sql::cut(31, crate::sql::cut(38, crate::sql::cut(41, crate::sql::cut(50, crate::sql::cut(57, crate::sql::cut(65, crate::sql::cut(72, crate::sql::cut(74, crate::sql::cut(77, crate::sql::cut(79, crate::sql::cut(90, Cuts::Last))))))))))))))))));
}

/// A capacity that is carried is written on its own menu, which it moves to its
/// next revision; where none is carried the menu is read.
pub proof fn law_capacity_lands_in_its_column(
    id: &str,
    capacity: Option<Option<i64>>,
    sent: Statement,
    row: Row,
)
    requires
        call_ensures(update, (id, capacity), sent),
    ensures
        capacity is Some ==> move_capacity_reading().is_read(sent@),
        capacity is Some ==> move_capacity_reading().picks(sent@.binds, row) == (row["id"@] == Cell::Text(id@)),
        capacity is Some ==> move_capacity_reading().writes(sent@.binds, row) == seq![
            ("capacity"@, crate::sql::opt_int(capacity->0)),
            ("version"@, Cell::Int((if row["version"@] is Null { 0 } else { row["version"@].number() }) + 1)),
        ],
        capacity is None ==> read_reading().is_read(sent@),
        capacity is None ==> read_reading().picks(sent@.binds, row) == (row["id"@] == Cell::Text(id@)),
{
    lemma_move_capacity_reads();
    lemma_read_reads();
    reveal_with_fuel(crate::sql::all_hold, 2);
}

} // verus!
