//! The `menu_dish` table: the dishes on a menu, with the guarded insert (the
//! cap, under the menu row's own lock), the field update and the delete, each
//! riding the menu's revision bump.

use vstd::prelude::*;

use crate::error::{AppError, AppErrorView, Gone};
use crate::id::{MenuDishId, Timestamp};
use crate::page::{opt_string, opt_texts, texts, Param, ParamView, Statement, StatementView};
use crate::sql::{Cell, Cond, Cuts, Expr, Picking, Row, Term, Text, Writing};
use crate::transaction::{Reply, Step};

verus! {

/// A dish on a menu.
#[derive(Debug)]
pub struct MenuDish {
    pub id: MenuDishId,
    pub menu: String,
    pub name: String,
    pub description: Option<String>,
    pub price_minor: i64,
    pub tags: Vec<String>,
    pub created_at: Timestamp,
}

/// The statement an insert waits for.
#[derive(Clone, Copy, PartialEq, Eq, Structural, Debug)]
pub enum Create {
    /// Take the menu row.
    Lock,
    /// Move the menu's revision.
    Bump,
    /// Insert the dish, under the cap; its row is the answer.
    Insert,
}

/// Why a dish is not added.
#[derive(Clone, Copy, PartialEq, Eq, Structural, Debug)]
pub enum CreateRefusal {
    NoMenu,
    Full,
}

pub const LOCK_MENU: &'static str =
    "SELECT 1 AS locked FROM menu WHERE id = $1 FOR NO KEY UPDATE";
pub const BUMP_MENU: &'static str =
    "UPDATE menu SET version = COALESCE(version, 0) + 1 WHERE id = $1";
pub const BUMP_AND_SEE_MENU: &'static str =
    "UPDATE menu SET version = COALESCE(version, 0) + 1 WHERE id = $1 RETURNING 1 AS bumped";
pub const INSERT_DISH: &'static str =
    "INSERT INTO menu_dish (id, menu, name, description, price_minor, tags, created_at) SELECT \
     $1, $2, $3, $4, $5, $6, $7 WHERE (SELECT count(*) FROM menu_dish WHERE menu = $2) < $8 \
     RETURNING id, menu, name, description, price_minor, tags, created_at";

impl Create {
    /// The statement of this step for `dish`, under `cap`.
    pub open spec fn asks(self, dish: MenuDish, cap: i64) -> StatementView {
        match self {
            Create::Lock => crate::page::sends(LOCK_MENU, seq![ParamView::Text(dish.menu@)]),
            Create::Bump => crate::page::sends(BUMP_MENU, seq![ParamView::Text(dish.menu@)]),
            Create::Insert => crate::page::sends(
                INSERT_DISH,
                seq![
                    ParamView::Uuid(dish.id.0),
                    ParamView::Text(dish.menu@),
                    ParamView::Text(dish.name@),
                    ParamView::OptText(crate::page::opt_string_view(dish.description)),
                    ParamView::I64(dish.price_minor),
                    ParamView::Texts(crate::text::views(dish.tags@)),
                    ParamView::I64(dish.created_at.0),
                    ParamView::I64(cap),
                ],
            ),
        }
    }

    /// The statement of this step.
    pub fn statement(self, dish: &MenuDish, cap: i64) -> (statement: Statement)
        ensures
            statement@ == self.asks(*dish, cap),
    {
        match self {
            Create::Lock => Statement::new(LOCK_MENU, vec![Param::Text(dish.menu.clone())]),
            Create::Bump => Statement::new(BUMP_MENU, vec![Param::Text(dish.menu.clone())]),
            Create::Insert => Statement::new(
                INSERT_DISH,
                vec![
                    Param::Uuid(dish.id.0),
                    Param::Text(dish.menu.clone()),
                    Param::Text(dish.name.clone()),
                    Param::OptText(opt_string(&dish.description)),
                    Param::I64(dish.price_minor),
                    Param::Texts(texts(&dish.tags)),
                    Param::I64(dish.created_at.0),
                    Param::I64(cap),
                ],
            ),
        }
    }
}

/// What an insert does once the statement of `at` is answered.
pub open spec fn create_next(at: Create, reply: Reply) -> Step<Create, (), CreateRefusal> {
    match at {
        Create::Lock => if reply.has_row() {
            Step::Ask(Create::Bump)
        } else {
            Step::Abort(CreateRefusal::NoMenu)
        },
        Create::Bump => Step::Ask(Create::Insert),
        Create::Insert => if reply.has_row() {
            Step::Commit(())
        } else {
            Step::Abort(CreateRefusal::Full)
        },
    }
}

/// Add a dish: the step that follows the answer to `at`. An insert starts at
/// [`Create::Lock`].
pub fn create(at: Create, reply: Reply) -> (step: Step<Create, (), CreateRefusal>)
    ensures
        step == create_next(at, reply),
{
    match at {
        Create::Lock => if reply.row() {
            Step::Ask(Create::Bump)
        } else {
            Step::Abort(CreateRefusal::NoMenu)
        },
        Create::Bump => Step::Ask(Create::Insert),
        Create::Insert => if reply.row() {
            Step::Commit(())
        } else {
            Step::Abort(CreateRefusal::Full)
        },
    }
}

/// The answer to a dish too many.
pub const FULL: &'static str = "the menu already carries the maximum number of dishes";

impl CreateRefusal {
    /// What a refused insert answers.
    pub open spec fn answers(self) -> AppErrorView {
        match self {
            CreateRefusal::NoMenu => AppErrorView::NotFound,
            CreateRefusal::Full => AppErrorView::Conflict(FULL@),
        }
    }

    /// What a refused insert answers.
    pub fn error(self) -> (error: AppError)
        ensures
            error@ == self.answers(),
    {
        match self {
            CreateRefusal::NoMenu => AppError::NotFound,
            CreateRefusal::Full => AppError::Conflict(FULL),
        }
    }
}

pub const READ: &'static str =
    "SELECT id, menu, name, description, price_minor, tags, created_at FROM menu_dish WHERE id \
     = $1";

/// The read of one dish.
pub fn read(id: MenuDishId) -> (statement: Statement)
    ensures
        statement@ == crate::page::sends(READ, seq![ParamView::Uuid(id.0)]),
{
    Statement::new(READ, vec![Param::Uuid(id.0)])
}

pub const LIST_FOR_MENUS: &'static str =
    "SELECT id, menu, name, description, price_minor, tags, created_at FROM menu_dish WHERE \
     menu = ANY($1) ORDER BY id ASC";

/// The read of the dishes of a whole page of menus, in the order they were
/// added; no menu is no read, and an empty list.
pub fn list_for_menus(menus: &Vec<String>) -> (statement: Option<Statement>)
    ensures
        statement is Some == (menus.len() > 0),
        statement is Some ==> statement->0@ == crate::page::sends(
            LIST_FOR_MENUS,
            seq![ParamView::Texts(crate::text::views(menus@))],
        ),
{
    if menus.len() == 0 {
        return None;
    }
    Some(Statement::new(LIST_FOR_MENUS, vec![Param::Texts(texts(menus))]))
}

/// The read of the dishes of one menu, in the order they were added.
pub fn list_for_menu(menu: &str) -> (statement: Statement)
    ensures
        statement@ == crate::page::sends(
            LIST_FOR_MENUS,
            seq![ParamView::Texts(seq![menu@])],
        ),
{
    let menus = vec![menu.to_owned()];
    assert(crate::text::views(menus@) =~= seq![menu@]);
    Statement::new(LIST_FOR_MENUS, vec![Param::Texts(menus)])
}

/// The fields an update carries: an absent one is not written, and a
/// description carries `None` to clear it.
pub struct DishPatch {
    pub name: Option<String>,
    pub description: Option<Option<String>>,
    pub price_minor: Option<i64>,
    pub tags: Option<Vec<String>>,
}

/// The statement an update or a delete waits for.
#[derive(Clone, Copy, PartialEq, Eq, Structural, Debug)]
pub enum Change {
    /// Move the menu's revision.
    Bump,
    /// Write or delete the dish; its row is the answer.
    Dish,
}

/// What an update or a delete does once the statement of `at` is answered.
/// The only refusal is that the menu or the dish is gone.
pub open spec fn change_next(at: Change, reply: Reply) -> Step<Change, (), Gone> {
    if !reply.has_row() {
        Step::Abort(Gone)
    } else {
        match at {
            Change::Bump => Step::Ask(Change::Dish),
            Change::Dish => Step::Commit(()),
        }
    }
}

pub const WRITE_DISH: &'static str =
    "UPDATE menu_dish SET name = COALESCE($2, name), description = CASE WHEN $3 THEN $4 ELSE \
     description END, price_minor = COALESCE($5, price_minor), tags = COALESCE($6, tags) WHERE \
     id = $1 RETURNING id, menu, name, description, price_minor, tags, created_at";
pub const DELETE_DISH: &'static str =
    "DELETE FROM menu_dish WHERE id = $1 RETURNING id, menu, name, description, price_minor, \
     tags, created_at";

/// Write only the fields a request carried, or none of them: the step that
/// follows the answer to `at`. Every update starts at [`Change::Bump`], also
/// one that carries nothing, and answers `NotFound` where it is refused.
pub fn update(at: Change, reply: Reply) -> (step: Step<Change, (), Gone>)
    ensures
        step == change_next(at, reply),
{
    if !reply.row() {
        return Step::Abort(Gone);
    }
    match at {
        Change::Bump => Step::Ask(Change::Dish),
        Change::Dish => Step::Commit(()),
    }
}

/// Delete a dish: the step that follows the answer to `at`. Every delete
/// starts at [`Change::Bump`], and answers `NotFound` where it is refused.
pub fn delete(at: Change, reply: Reply) -> (step: Step<Change, (), Gone>)
    ensures
        step == change_next(at, reply),
{
    update(at, reply)
}

/// The new text of a description that the request carries.
pub open spec fn carried(description: Option<Option<String>>) -> Option<Seq<char>> {
    match description {
        Some(text) => crate::page::opt_string_view(text),
        None => None,
    }
}

impl Change {
    /// The statement of this step of an update.
    pub open spec fn updates(self, menu: Seq<char>, id: MenuDishId, patch: DishPatch) -> StatementView {
        match self {
            Change::Bump => crate::page::sends(BUMP_AND_SEE_MENU, seq![ParamView::Text(menu)]),
            Change::Dish => crate::page::sends(
                WRITE_DISH,
                seq![
                    ParamView::Uuid(id.0),
                    ParamView::OptText(crate::page::opt_string_view(patch.name)),
                    ParamView::Bool(patch.description is Some),
                    ParamView::OptText(carried(patch.description)),
                    ParamView::OptI64(patch.price_minor),
                    ParamView::OptTexts(crate::page::opt_texts_view(patch.tags)),
                ],
            ),
        }
    }

    /// The statement of this step of an update.
    pub fn update_statement(
        self,
        menu: &str,
        id: MenuDishId,
        patch: &DishPatch,
    ) -> (statement: Statement)
        ensures
            statement@ == self.updates(menu@, id, *patch),
    {
        match self {
            Change::Bump => Statement::new(BUMP_AND_SEE_MENU, vec![Param::Text(menu.to_owned())]),
            Change::Dish => {
                let description = match &patch.description {
                    Some(text) => opt_string(text),
                    None => None,
                };
                Statement::new(
                    WRITE_DISH,
                    vec![
                        Param::Uuid(id.0),
                        Param::OptText(opt_string(&patch.name)),
                        Param::Bool(patch.description.is_some()),
                        Param::OptText(description),
                        Param::OptI64(patch.price_minor),
                        Param::OptTexts(opt_texts(&patch.tags)),
                    ],
                )
            },
        }
    }

    /// The statement of this step of a delete.
    pub open spec fn deletes(self, menu: Seq<char>, id: MenuDishId) -> StatementView {
        match self {
            Change::Bump => crate::page::sends(BUMP_AND_SEE_MENU, seq![ParamView::Text(menu)]),
            Change::Dish => crate::page::sends(DELETE_DISH, seq![ParamView::Uuid(id.0)]),
        }
    }

    /// The statement of this step of a delete.
    pub fn delete_statement(self, menu: &str, id: MenuDishId) -> (statement: Statement)
        ensures
            statement@ == self.deletes(menu@, id),
    {
        match self {
            Change::Bump => Statement::new(BUMP_AND_SEE_MENU, vec![Param::Text(menu.to_owned())]),
            Change::Dish => Statement::new(DELETE_DISH, vec![Param::Uuid(id.0)]),
        }
    }
}

/// A stored dish.
pub struct DishRow {
    pub menu: Seq<char>,
    pub name: Seq<char>,
    pub description: Option<Seq<char>>,
    pub price_minor: i64,
    pub tags: Seq<Seq<char>>,
    pub created_at: i64,
}

/// The row a dish is stored as.
pub open spec fn stored_dish(dish: MenuDish) -> DishRow {
    DishRow {
        menu: dish.menu@,
        name: dish.name@,
        description: crate::page::opt_string_view(dish.description),
        price_minor: dish.price_minor,
        tags: crate::text::views(dish.tags@),
        created_at: dish.created_at.0,
    }
}

/// The row an update leaves: what the request carries, and everything else as
/// it was.
pub open spec fn patched(row: DishRow, patch: DishPatch) -> DishRow {
    DishRow {
        name: match patch.name {
            Some(name) => name@,
            None => row.name,
        },
        description: match patch.description {
            Some(text) => crate::page::opt_string_view(text),
            None => row.description,
        },
        price_minor: match patch.price_minor {
            Some(price) => price,
            None => row.price_minor,
        },
        tags: match patch.tags {
            Some(tags) => crate::text::views(tags@),
            None => row.tags,
        },
        ..row
    }
}

/// Each menu's revision, and the dishes.
#[verifier::ext_equal]
pub struct Dishes {
    pub versions: Map<Seq<char>, int>,
    pub dishes: Map<MenuDishId, DishRow>,
}

/// The dishes of one menu.
pub open spec fn on_menu(menu: Seq<char>) -> spec_fn(MenuDishId, DishRow) -> bool {
    |id: MenuDishId, dish: DishRow| dish.menu == menu
}

impl Dishes {
    /// One step of a menu's revision.
    pub open spec fn bumped(self, menu: Seq<char>) -> Dishes {
        if self.versions.contains_key(menu) {
            Dishes { versions: self.versions.insert(menu, self.versions[menu] + 1), ..self }
        } else {
            self
        }
    }

    /// How many dishes a menu carries.
    pub open spec fn carried_on(self, menu: Seq<char>) -> int {
        crate::tally::tally(self.dishes, on_menu(menu))
    }
}

/// What each statement of an insert does to the tables, and what it replies.
pub open spec fn create_effect(db: Dishes, dish: MenuDish, cap: int, at: Create) -> (
    Dishes,
    Reply,
) {
    match at {
        Create::Lock => (
            db,
            if db.versions.contains_key(dish.menu@) {
                Reply::Row
            } else {
                Reply::Empty
            },
        ),
        Create::Bump => (db.bumped(dish.menu@), Reply::Row),
        Create::Insert => if db.carried_on(dish.menu@) < cap {
            (Dishes { dishes: db.dishes.insert(dish.id, stored_dish(dish)), ..db }, Reply::Row)
        } else {
            (db, Reply::Empty)
        },
    }
}

/// A whole insert against the tables.
pub open spec fn create_run(db: Dishes, dish: MenuDish, cap: int) -> (Dishes, Step<
    Create,
    (),
    CreateRefusal,
>) {
    crate::transaction::run(
        db,
        Step::Ask(Create::Lock),
        |at: Create, reply: Reply| create_next(at, reply),
        |tables: Dishes, at: Create| create_effect(tables, dish, cap, at),
        3,
    )
}

/// A dish is added exactly when its menu is there and under the cap. It then
/// moves the menu's revision by one and stays within the cap; a refused one
/// changes nothing.
pub proof fn law_create_moves_the_revision(db: Dishes, dish: MenuDish, cap: int)
    requires
        db.dishes.dom().finite(),
        !db.dishes.contains_key(dish.id),
    ensures
        ({
            let menu = dish.menu@;
            let end = create_run(db, dish, cap);
            let after = crate::transaction::stored(db, end);
            &&& end.1 == crate::transaction::ends::<Create, (), CreateRefusal>(
                (),
                if !db.versions.contains_key(menu) {
                    Some(CreateRefusal::NoMenu)
                } else if db.carried_on(menu) >= cap {
                    Some(CreateRefusal::Full)
                } else {
                    None
                },
            )
            &&& end.1 is Abort ==> after == db
            &&& end.1 is Commit ==> after.versions == db.versions.insert(
                menu,
                db.versions[menu] + 1,
            ) && after.dishes == db.dishes.insert(dish.id, stored_dish(dish)) && after.carried_on(
                menu,
            ) <= cap
        }),
{
    reveal_with_fuel(crate::transaction::run, 4);
    crate::tally::lemma_tally_insert(db.dishes, dish.id, stored_dish(dish), on_menu(dish.menu@));
}

/// What each statement of an update (`write`) or a delete (no `write`) does
/// to the tables, and what it replies.
pub open spec fn change_effect(
    db: Dishes,
    menu: Seq<char>,
    id: MenuDishId,
    write: Option<DishPatch>,
    at: Change,
) -> (Dishes, Reply) {
    match at {
        Change::Bump => (
            db.bumped(menu),
            if db.versions.contains_key(menu) {
                Reply::Row
            } else {
                Reply::Empty
            },
        ),
        Change::Dish => if db.dishes.contains_key(id) {
            (
                Dishes {
                    dishes: match write {
                        Some(patch) => db.dishes.insert(id, patched(db.dishes[id], patch)),
                        None => db.dishes.remove(id),
                    },
                    ..db
                },
                Reply::Row,
            )
        } else {
            (db, Reply::Empty)
        },
    }
}

/// A whole update or delete against the tables.
pub open spec fn change_run(
    db: Dishes,
    menu: Seq<char>,
    id: MenuDishId,
    write: Option<DishPatch>,
) -> (Dishes, Step<Change, (), Gone>) {
    crate::transaction::run(
        db,
        Step::Ask(Change::Bump),
        |at: Change, reply: Reply| change_next(at, reply),
        |tables: Dishes, at: Change| change_effect(tables, menu, id, write, at),
        2,
    )
}

/// A dish cannot change without its menu's revision: an update or a delete
/// that lands moves it by one, also an update that carries nothing, and one
/// that finds the menu or the dish gone changes nothing at all. An update
/// writes exactly what it carries, so two that carry different fields keep each
/// other's.
pub proof fn law_change_moves_the_revision(
    db: Dishes,
    menu: Seq<char>,
    id: MenuDishId,
    write: Option<DishPatch>,
)
    ensures
        ({
            let end = change_run(db, menu, id, write);
            let after = crate::transaction::stored(db, end);
            if db.versions.contains_key(menu) && db.dishes.contains_key(id) {
                &&& end.1 is Commit
                &&& after.versions == db.versions.insert(menu, db.versions[menu] + 1)
                &&& after.dishes == (match write {
                    Some(patch) => db.dishes.insert(id, patched(db.dishes[id], patch)),
                    None => db.dishes.remove(id),
                })
            } else {
                end.1 == Step::<Change, (), Gone>::Abort(Gone) && after == db
            }
        }),
{
    reveal_with_fuel(crate::transaction::run, 3);
}

/// What [`READ`] says.
pub open spec fn read_reading() -> Picking {
    Picking {
        skip: 65,
        head: " FROM "@,
        columns: Seq::empty(),
        table: "menu_dish"@,
        conditions: seq![crate::sql::is_bound("id"@, 1)],
        rest: Text::End,
    }
}

proof fn lemma_read_reads()
    ensures
        crate::sql::spells(READ@, 65, read_reading().text()),
{
    reveal_strlit("SELECT id, menu, name, description, price_minor, tags, created_at FROM menu_dish WHERE id = $1");
    reveal_strlit(" FROM ");
    reveal_strlit("menu_dish");
    reveal_strlit(" WHERE ");
    reveal_strlit("id");
    reveal_strlit(" = ");
    reveal_strlit("$");
    reveal(crate::sql::Picking::text);
    reveal_with_fuel(crate::sql::where_text, 2);
    reveal_with_fuel(crate::sql::stands, 10);
    reveal_with_fuel(crate::sql::spells_by, 7);
    crate::sql::lemma_spells_by(READ@, 65, read_reading().text(), crate::sql::cut(71, crate::sql::cut(80, crate::sql::cut(87, crate::sql::cut(89, crate::sql::cut(92, crate::sql::cut(94, Cuts::Last)))))));
}

/// [`read`] reads the rows it names and no other.
pub proof fn law_read_reads_its_rows(
    id: MenuDishId,
    sent: Statement,
    row: Row,
)
    requires
        call_ensures(read, (id,), sent),
    ensures
        read_reading().is_read(sent@),
        read_reading().picks(sent@.binds, row) == (row["id"@] == Cell::Uuid(id.0)),
{
    lemma_read_reads();
    reveal_with_fuel(crate::sql::all_hold, 2);
}

/// What [`LIST_FOR_MENUS`] says.
pub open spec fn list_for_menus_reading() -> Picking {
    Picking {
        skip: 65,
        head: " FROM "@,
        columns: Seq::empty(),
        table: "menu_dish"@,
        conditions: seq![Cond::Among(Term::Column("menu"@), Term::Bind(1))],
        rest: crate::sql::before(" ORDER BY id ASC"@, Text::End),
    }
}

proof fn lemma_list_for_menus_reads()
    ensures
        crate::sql::spells(LIST_FOR_MENUS@, 65, list_for_menus_reading().text()),
{
    reveal_strlit("SELECT id, menu, name, description, price_minor, tags, created_at FROM menu_dish WHERE menu = ANY($1) ORDER BY id ASC");
    reveal_strlit(" FROM ");
    reveal_strlit("menu_dish");
    reveal_strlit(" WHERE ");
    reveal_strlit("menu");
    reveal_strlit(" = ANY(");
    reveal_strlit("$");
    reveal_strlit(")");
    reveal_strlit(" ORDER BY id ASC");
    reveal(crate::sql::Picking::text);
    reveal_with_fuel(crate::sql::where_text, 2);
    reveal_with_fuel(crate::sql::stands, 17);
    reveal_with_fuel(crate::sql::spells_by, 9);
    crate::sql::lemma_spells_by(LIST_FOR_MENUS@, 65, list_for_menus_reading().text(), crate::sql::cut(71, crate::sql::cut(80, crate::sql::cut(87, crate::sql::cut(91, crate::sql::cut(98, crate::sql::cut(100, crate::sql::cut(101, crate::sql::cut(117, Cuts::Last)))))))));
}

/// [`list_for_menu`] reads the rows it names and no other.
pub proof fn law_list_for_menu_reads_its_rows(
    menu: &str,
    sent: Statement,
    row: Row,
)
    requires
        call_ensures(list_for_menu, (menu,), sent),
    ensures
        list_for_menus_reading().is_read(sent@),
        list_for_menus_reading().picks(sent@.binds, row) == ((row["menu"@] is Text && seq![menu@].contains(row["menu"@]->Text_0))),
{
    lemma_list_for_menus_reads();
    reveal_with_fuel(crate::sql::all_hold, 2);
}

/// What [`LOCK_MENU`] says.
pub open spec fn lock_menu_reading() -> Picking {
    Picking {
        skip: 0,
        head: "SELECT "@,
        columns: seq!["1 AS locked"@],
        table: "menu"@,
        conditions: seq![crate::sql::is_bound("id"@, 1)],
        rest: crate::sql::before(" FOR NO KEY UPDATE"@, Text::End),
    }
}

proof fn lemma_lock_menu_reads()
    ensures
        crate::sql::spells(LOCK_MENU@, 0, lock_menu_reading().text()),
{
    reveal_strlit("SELECT 1 AS locked FROM menu WHERE id = $1 FOR NO KEY UPDATE");
    reveal_strlit("SELECT ");
    reveal_strlit("1 AS locked");
    reveal_strlit(" FROM ");
    reveal_strlit("menu");
    reveal_strlit(" WHERE ");
    reveal_strlit("id");
    reveal_strlit(" = ");
    reveal_strlit("$");
    reveal_strlit(" FOR NO KEY UPDATE");
    reveal(crate::sql::Picking::text);
    reveal_with_fuel(crate::sql::where_text, 2);
    reveal_with_fuel(crate::sql::names_text, 2);
    reveal_with_fuel(crate::sql::stands, 19);
    reveal_with_fuel(crate::sql::spells_by, 10);
    crate::sql::lemma_spells_by(LOCK_MENU@, 0, lock_menu_reading().text(), crate::sql::cut(7, crate::sql::cut(18, crate::sql::cut(24, crate::sql::cut(28, crate::sql::cut(35, crate::sql::cut(37, crate::sql::cut(40, crate::sql::cut(42, crate::sql::cut(60, Cuts::Last))))))))));
}

/// [`Create::Lock`] reads the rows it names and no other.
pub proof fn law_create_lock_reads_its_rows(
    dish: MenuDish,
    cap: i64,
    row: Row,
)
    ensures
        ({
            let sent = Create::Lock.asks(dish, cap);
            &&& lock_menu_reading().is_read(sent)
            &&& lock_menu_reading().picks(sent.binds, row) == (row["id"@] == Cell::Text(dish.menu@))
        }),
{
    lemma_lock_menu_reads();
    reveal_with_fuel(crate::sql::all_hold, 2);
}

/// What [`BUMP_MENU`] says.
pub open spec fn bump_menu_reading() -> Writing {
    Writing {
        head: "UPDATE "@,
        table: "menu"@,
        sets: seq![("version"@, Expr::Revised(Term::Column("version"@)))],
        conditions: seq![crate::sql::is_bound("id"@, 1)],
        rest: Text::End,
    }
}

proof fn lemma_bump_menu_reads()
    ensures
        crate::sql::spells(BUMP_MENU@, 0, bump_menu_reading().text()),
{
    reveal_strlit("UPDATE menu SET version = COALESCE(version, 0) + 1 WHERE id = $1");
    reveal_strlit("UPDATE ");
    reveal_strlit("menu");
    reveal_strlit(" SET ");
    reveal_strlit("version");
    reveal_strlit(" = ");
    reveal_strlit("COALESCE(");
    reveal_strlit(", 0) + 1");
    reveal_strlit(" WHERE ");
    reveal_strlit("id");
    reveal_strlit("$");
    reveal(crate::sql::Writing::text);
    reveal_with_fuel(crate::sql::set_text, 2);
    reveal_with_fuel(crate::sql::where_text, 2);
    reveal_with_fuel(crate::sql::stands, 10);
    reveal_with_fuel(crate::sql::spells_by, 13);
    crate::sql::lemma_spells_by(BUMP_MENU@, 0, bump_menu_reading().text(), crate::sql::cut(7, crate::sql::cut(11, crate::sql::cut(16, crate::sql::cut(23, crate::sql::cut(26, crate::sql::cut(35, crate::sql::cut(42, crate::sql::cut(50, crate::sql::cut(57, crate::sql::cut(59, crate::sql::cut(62, crate::sql::cut(64, Cuts::Last)))))))))))));
}

/// [`Create::Bump`] picks the rows it names and no other, and overwrites each column with
/// its own value.
pub proof fn law_create_bump_writes_its_row(
    dish: MenuDish,
    cap: i64,
    row: Row,
)
    ensures
        ({
            let sent = Create::Bump.asks(dish, cap);
            &&& bump_menu_reading().is_read(sent)
            &&& bump_menu_reading().picks(sent.binds, row) == (row["id"@] == Cell::Text(dish.menu@))
            &&& bump_menu_reading().writes(sent.binds, row) == seq![
                ("version"@, Cell::Int((if row["version"@] is Null { 0 } else { row["version"@].number() }) + 1)),
            ]
        }),
{
    lemma_bump_menu_reads();
    reveal_with_fuel(crate::sql::all_hold, 2);
}

/// The text of [`INSERT_DISH`], taken apart at its placeholders.
pub open spec fn insert_dish_text() -> Text {
    crate::sql::before("INSERT INTO menu_dish (id, menu, name,"@, crate::sql::before(" description, price_minor, tags, created_at)"@, crate::sql::before(" SELECT "@, crate::sql::before(crate::text::placeholder(1), crate::sql::before(", "@, crate::sql::before(crate::text::placeholder(2), crate::sql::before(", "@, crate::sql::before(crate::text::placeholder(3), crate::sql::before(", "@, crate::sql::before(crate::text::placeholder(4), crate::sql::before(", "@, crate::sql::before(crate::text::placeholder(5), crate::sql::before(", "@, crate::sql::before(crate::text::placeholder(6), crate::sql::before(", "@, crate::sql::before(crate::text::placeholder(7), crate::sql::before(" WHERE (SELECT count(*) FROM menu_dish WHERE"@, crate::sql::before(" menu = "@, crate::sql::before(crate::text::placeholder(2), crate::sql::before(") < "@, crate::sql::before(crate::text::placeholder(8), crate::sql::before(" RETURNING id, menu, name, description,"@, crate::sql::before(" price_minor, tags, created_at"@, Text::End)))))))))))))))))))))))
}

proof fn lemma_insert_dish_reads()
    ensures
        crate::sql::spells(INSERT_DISH@, 0, insert_dish_text()),
{
    reveal_strlit("INSERT INTO menu_dish (id, menu, name, description, price_minor, tags, created_at) SELECT $1, $2, $3, $4, $5, $6, $7 WHERE (SELECT count(*) FROM menu_dish WHERE menu = $2) < $8 RETURNING id, menu, name, description, price_minor, tags, created_at");
    reveal_strlit("INSERT INTO menu_dish (id, menu, name,");
    reveal_strlit(" description, price_minor, tags, created_at)");
    reveal_strlit(" SELECT ");
    reveal_strlit("$");
    reveal_strlit(", ");
    reveal_strlit(" WHERE (SELECT count(*) FROM menu_dish WHERE");
    reveal_strlit(" menu = ");
    reveal_strlit(") < ");
    reveal_strlit(" RETURNING id, menu, name, description,");
    reveal_strlit(" price_minor, tags, created_at");
    reveal_with_fuel(crate::sql::stands, 45);
    reveal_with_fuel(crate::sql::spells_by, 24);
    crate::sql::lemma_spells_by(INSERT_DISH@, 0, insert_dish_text(), crate::sql::cut(38, crate::sql::cut(82, crate::sql::cut(90, crate::sql::cut(92, crate::sql::cut(94, crate::sql::cut(96, crate::sql::cut(98, crate::sql::cut(100, crate::sql::cut(102, crate::sql::cut(104, crate::sql::cut(106, crate::sql::cut(108, crate::sql::cut(110, crate::sql::cut(112, crate::sql::cut(114, crate::sql::cut(116, crate::sql::cut(160, crate::sql::cut(168, crate::sql::cut(170, crate::sql::cut(174, crate::sql::cut(176, crate::sql::cut(215, crate::sql::cut(245, Cuts::Last))))))))))))))))))))))));
}

/// [`Create::Insert`] binds each value at its own place in the text.
pub proof fn law_create_insert_binds_its_values(
    dish: MenuDish,
    cap: i64,
)
    ensures
        ({
            let sent = Create::Insert.asks(dish, cap);
            &&& crate::sql::spells(sent.sql, 0, insert_dish_text())
            &&& sent.binds.len() == 8
            &&& crate::sql::cell(sent.binds[0]) == Cell::Uuid(dish.id.0)
            &&& crate::sql::cell(sent.binds[1]) == Cell::Text(dish.menu@)
            &&& crate::sql::cell(sent.binds[2]) == Cell::Text(dish.name@)
            &&& crate::sql::cell(sent.binds[3]) == crate::sql::opt_text(crate::page::opt_string_view(dish.description))
            &&& crate::sql::cell(sent.binds[4]) == Cell::Int(dish.price_minor as int)
            &&& crate::sql::cell(sent.binds[5]) == Cell::Texts(crate::text::views(dish.tags@))
            &&& crate::sql::cell(sent.binds[6]) == Cell::Int(dish.created_at.0 as int)
            &&& crate::sql::cell(sent.binds[7]) == Cell::Int(cap as int)
        }),
{
    lemma_insert_dish_reads();
}

/// What [`BUMP_AND_SEE_MENU`] says.
pub open spec fn bump_and_see_menu_reading() -> Writing {
    Writing {
        head: "UPDATE "@,
        table: "menu"@,
        sets: seq![("version"@, Expr::Revised(Term::Column("version"@)))],
        conditions: seq![crate::sql::is_bound("id"@, 1)],
        rest: crate::sql::returning(),
    }
}

pub proof fn lemma_bump_and_see_menu_reads()
    ensures
        crate::sql::spells(BUMP_AND_SEE_MENU@, 0, bump_and_see_menu_reading().text()),
{
    reveal_strlit("UPDATE menu SET version = COALESCE(version, 0) + 1 WHERE id = $1 RETURNING 1 AS bumped");
    reveal_strlit("UPDATE ");
    reveal_strlit("menu");
    reveal_strlit(" SET ");
    reveal_strlit("version");
    reveal_strlit(" = ");
    reveal_strlit("COALESCE(");
    reveal_strlit(", 0) + 1");
    reveal_strlit(" WHERE ");
    reveal_strlit("id");
    reveal_strlit("$");
    reveal_strlit(" RETURNING ");
    reveal(crate::sql::Writing::text);
    reveal_with_fuel(crate::sql::set_text, 2);
    reveal_with_fuel(crate::sql::where_text, 2);
    reveal_with_fuel(crate::sql::stands, 12);
    reveal_with_fuel(crate::sql::spells_by, 14);
    crate::sql::lemma_spells_by(BUMP_AND_SEE_MENU@, 0, bump_and_see_menu_reading().text(), crate::sql::cut(7, crate::sql::cut(11, crate::sql::cut(16, crate::sql::cut(23, crate::sql::cut(26, crate::sql::cut(35, crate::sql::cut(42, crate::sql::cut(50, crate::sql::cut(57, crate::sql::cut(59, crate::sql::cut(62, crate::sql::cut(64, crate::sql::cut(75, Cuts::Last))))))))))))));
}

/// What [`WRITE_DISH`] says.
pub open spec fn write_dish_reading() -> Writing {
    Writing {
        head: "UPDATE "@,
        table: "menu_dish"@,
        sets: seq![("name"@, Expr::Coalesce(Term::Bind(2), Term::Column("name"@))), ("description"@, Expr::Chosen(Term::Bind(3), Term::Bind(4), Term::Column("description"@))), ("price_minor"@, Expr::Coalesce(Term::Bind(5), Term::Column("price_minor"@))), ("tags"@, Expr::Coalesce(Term::Bind(6), Term::Column("tags"@)))],
        conditions: seq![crate::sql::is_bound("id"@, 1)],
        rest: crate::sql::returning(),
    }
}

proof fn lemma_write_dish_reads()
    ensures
        crate::sql::spells(WRITE_DISH@, 0, write_dish_reading().text()),
{
    reveal_strlit("UPDATE menu_dish SET name = COALESCE($2, name), description = CASE WHEN $3 THEN $4 ELSE description END, price_minor = COALESCE($5, price_minor), tags = COALESCE($6, tags) WHERE id = $1 RETURNING id, menu, name, description, price_minor, tags, created_at");
    reveal_strlit("UPDATE ");
    reveal_strlit("menu_dish");
    reveal_strlit(" SET ");
    reveal_strlit("name");
    reveal_strlit(" = ");
    reveal_strlit("COALESCE(");
    reveal_strlit("$");
    reveal_strlit(", ");
    reveal_strlit(")");
    reveal_strlit("description");
    reveal_strlit("CASE WHEN ");
    reveal_strlit(" THEN ");
    reveal_strlit(" ELSE ");
    reveal_strlit(" END");
    reveal_strlit("price_minor");
    reveal_strlit("tags");
    reveal_strlit(" WHERE ");
    reveal_strlit("id");
    reveal_strlit(" RETURNING ");
    reveal(crate::sql::Writing::text);
    reveal_with_fuel(crate::sql::set_text, 5);
    reveal_with_fuel(crate::sql::where_text, 2);
    reveal_with_fuel(crate::sql::stands, 12);
    reveal_with_fuel(crate::sql::spells_by, 42);
    crate::sql::lemma_spells_by(WRITE_DISH@, 0, write_dish_reading().text(), crate::sql::cut(7, crate::sql::cut(16, crate::sql::cut(21, crate::sql::cut(25, crate::sql::cut(28, crate::sql::cut(37, crate::sql::cut(39, crate::sql::cut(41, crate::sql::cut(45, crate::sql::cut(46, crate::sql::cut(48, crate::sql::cut(59, crate::sql::cut(62, crate::sql::cut(72, crate::sql::cut(74, crate::sql::cut(80, crate::sql::cut(82, crate::sql::cut(88, crate::sql::cut(99, crate::sql::cut(103, crate::sql::cut(105, crate::sql::cut(116, crate::sql::cut(119, crate::sql::cut(128, crate::sql::cut(130, crate::sql::cut(132, crate::sql::cut(143, crate::sql::cut(144, crate::sql::cut(146, crate::sql::cut(150, crate::sql::cut(153, crate::sql::cut(162, crate::sql::cut(164, crate::sql::cut(166, crate::sql::cut(170, crate::sql::cut(171, crate::sql::cut(178, crate::sql::cut(180, crate::sql::cut(183, crate::sql::cut(185, crate::sql::cut(196, Cuts::Last))))))))))))))))))))))))))))))))))))))))));
}

/// What [`DELETE_DISH`] says.
pub open spec fn delete_dish_reading() -> Picking {
    Picking {
        skip: 0,
        head: "DELETE FROM "@,
        columns: Seq::empty(),
        table: "menu_dish"@,
        conditions: seq![crate::sql::is_bound("id"@, 1)],
        rest: crate::sql::returning(),
    }
}

proof fn lemma_delete_dish_reads()
    ensures
        crate::sql::spells(DELETE_DISH@, 0, delete_dish_reading().text()),
{
    reveal_strlit("DELETE FROM menu_dish WHERE id = $1 RETURNING id, menu, name, description, price_minor, tags, created_at");
    reveal_strlit("DELETE FROM ");
    reveal_strlit("menu_dish");
    reveal_strlit(" WHERE ");
    reveal_strlit("id");
    reveal_strlit(" = ");
    reveal_strlit("$");
    reveal_strlit(" RETURNING ");
    reveal(crate::sql::Picking::text);
    reveal_with_fuel(crate::sql::where_text, 2);
    reveal_with_fuel(crate::sql::stands, 13);
    reveal_with_fuel(crate::sql::spells_by, 8);
    crate::sql::lemma_spells_by(DELETE_DISH@, 0, delete_dish_reading().text(), crate::sql::cut(12, crate::sql::cut(21, crate::sql::cut(28, crate::sql::cut(30, crate::sql::cut(33, crate::sql::cut(35, crate::sql::cut(46, Cuts::Last))))))));
}

/// An edit of a dish moves its own menu's revision, and overwrites of its own row
/// what the patch carries, each in its own column.
pub proof fn law_edit_lands_in_its_columns(
    menu: Seq<char>,
    id: MenuDishId,
    patch: DishPatch,
    row: Row,
)
    ensures
        bump_and_see_menu_reading().is_read(Change::Bump.updates(menu, id, patch)),
        bump_and_see_menu_reading().picks(Change::Bump.updates(menu, id, patch).binds, row) == (row["id"@] == Cell::Text(menu)),
        bump_and_see_menu_reading().writes(Change::Bump.updates(menu, id, patch).binds, row) == seq![
            ("version"@, Cell::Int((if row["version"@] is Null { 0 } else { row["version"@].number() }) + 1)),
        ],
        write_dish_reading().is_read(Change::Dish.updates(menu, id, patch)),
        write_dish_reading().picks(Change::Dish.updates(menu, id, patch).binds, row) == (row["id"@] == Cell::Uuid(id.0)),
        write_dish_reading().writes(Change::Dish.updates(menu, id, patch).binds, row) == seq![
            ("name"@, if crate::sql::opt_text(crate::page::opt_string_view(patch.name)) is Null { row["name"@] } else { crate::sql::opt_text(crate::page::opt_string_view(patch.name)) }),
            ("description"@, if Cell::Bool(patch.description is Some) == Cell::Bool(true) { crate::sql::opt_text(carried(patch.description)) } else { row["description"@] }),
            ("price_minor"@, if crate::sql::opt_int(patch.price_minor) is Null { row["price_minor"@] } else { crate::sql::opt_int(patch.price_minor) }),
            ("tags"@, if crate::sql::opt_texts(crate::page::opt_texts_view(patch.tags)) is Null { row["tags"@] } else { crate::sql::opt_texts(crate::page::opt_texts_view(patch.tags)) }),
        ],
{
    lemma_bump_and_see_menu_reads();
    lemma_write_dish_reads();
    reveal_with_fuel(crate::sql::all_hold, 2);
}

/// A delete of a dish moves its own menu's revision, and deletes its own row.
pub proof fn law_delete_takes_its_dish(
    menu: Seq<char>,
    id: MenuDishId,
    row: Row,
)
    ensures
        bump_and_see_menu_reading().is_read(Change::Bump.deletes(menu, id)),
        bump_and_see_menu_reading().picks(Change::Bump.deletes(menu, id).binds, row) == (row["id"@] == Cell::Text(menu)),
        bump_and_see_menu_reading().writes(Change::Bump.deletes(menu, id).binds, row) == seq![
            ("version"@, Cell::Int((if row["version"@] is Null { 0 } else { row["version"@].number() }) + 1)),
        ],
        delete_dish_reading().is_read(Change::Dish.deletes(menu, id)),
        delete_dish_reading().picks(Change::Dish.deletes(menu, id).binds, row) == (row["id"@] == Cell::Uuid(id.0)),
{
    lemma_bump_and_see_menu_reads();
    lemma_delete_dish_reads();
    reveal_with_fuel(crate::sql::all_hold, 2);
}

} // verus!
