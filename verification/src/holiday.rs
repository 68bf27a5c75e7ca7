//! The `holiday` table: the insert, the read, the field-scoped update whose
//! `WHERE` checks the merged range again, the delete, and the two listings, a
//! paged calendar view and the overlap read.

use vstd::prelude::*;

use crate::error::{AppError, AppErrorView};
use crate::field_update::{moment_param, text_param, FieldUpdate, UpdatePlan};
use crate::id::{HolidayId, Timestamp, UserId};
use crate::page::{opt_string, paged, Param, ParamView, Statement};
use crate::sql::{Cell, Cond, Conflict, Cuts, Picking, Row, Storing, Term, Text, Writing};

verus! {

/// A stretch without lessons.
#[derive(Debug)]
pub struct Holiday {
    pub id: HolidayId,
    pub name: String,
    pub starts_at: Timestamp,
    pub ends_at: Timestamp,
    pub kind: String,
    pub creator: UserId,
    pub created_at: Timestamp,
}

/// The fields an update carries: an absent one is kept.
#[derive(Debug)]
pub struct HolidayPatch {
    pub name: Option<String>,
    pub starts_at: Option<Timestamp>,
    pub ends_at: Option<Timestamp>,
    pub kind: Option<String>,
}

impl Default for HolidayPatch {
    /// A patch that carries nothing.
    fn default() -> (patch: HolidayPatch)
        ensures
            patch == (HolidayPatch { name: None, starts_at: None, ends_at: None, kind: None }),
    {
        HolidayPatch { name: None, starts_at: None, ends_at: None, kind: None }
    }
}

/// The table's name.
pub const HOLIDAY_TABLE: &'static str = "holiday";

pub const CREATE: &'static str =
    "INSERT INTO holiday (id, name, starts_at, ends_at, kind, creator, created_at) VALUES ($1, \
     $2, $3, $4, $5, $6, $7) RETURNING id, name, starts_at, ends_at, kind, creator, created_at";

/// The insert of a holiday.
pub fn create(holiday: &Holiday) -> (statement: Statement)
    ensures
        statement@ == crate::page::sends(
            CREATE,
            seq![
                ParamView::Uuid(holiday.id.0),
                ParamView::Text(holiday.name@),
                ParamView::I64(holiday.starts_at.0),
                ParamView::I64(holiday.ends_at.0),
                ParamView::Text(holiday.kind@),
                ParamView::Uuid(holiday.creator.0),
                ParamView::I64(holiday.created_at.0),
            ],
        ),
{
    Statement::new(
        CREATE,
        vec![
            Param::Uuid(holiday.id.0),
            Param::Text(holiday.name.clone()),
            Param::I64(holiday.starts_at.0),
            Param::I64(holiday.ends_at.0),
            Param::Text(holiday.kind.clone()),
            Param::Uuid(holiday.creator.0),
            Param::I64(holiday.created_at.0),
        ],
    )
}

pub const READ: &'static str =
    "SELECT id, name, starts_at, ends_at, kind, creator, created_at FROM holiday WHERE id = $1";

/// The read of one holiday; `NotFound` where nothing comes back.
pub fn read(id: HolidayId) -> (statement: Statement)
    ensures
        statement@ == crate::page::sends(READ, seq![ParamView::Uuid(id.0)]),
{
    Statement::new(READ, vec![Param::Uuid(id.0)])
}

impl HolidayPatch {
    /// The fields of this patch, in the order they are written.
    pub open spec fn request(self) -> Seq<(Seq<char>, Option<ParamView>)> {
        seq![
            ("name"@, crate::field_update::text_field(self.name)),
            ("starts_at"@, crate::field_update::moment_field(self.starts_at)),
            ("ends_at"@, crate::field_update::moment_field(self.ends_at)),
            ("kind"@, crate::field_update::text_field(self.kind)),
        ]
    }
}

/// The write of only what a patch carried. Where it moves an end of the
/// range, the merged `starts_at <= ends_at` is checked by the write itself and
/// answered with `range_error`.
pub fn update(id: HolidayId, patch: HolidayPatch, range_error: AppError) -> (plan: UpdatePlan)
    ensures
        crate::field_update::updates(
            plan,
            HOLIDAY_TABLE@,
            id.0,
            patch.request(),
            Some(("starts_at"@, "ends_at"@, range_error@)),
        ),
{
    let ghost request = patch.request();
    let name = text_param(patch.name);
    let starts_at = moment_param(patch.starts_at);
    let ends_at = moment_param(patch.ends_at);
    let kind = text_param(patch.kind);
    let update = FieldUpdate::new(HOLIDAY_TABLE, id.0).set("name", name).set(
        "starts_at",
        starts_at,
    ).set("ends_at", ends_at).set("kind", kind).ordered("starts_at", "ends_at", range_error);
    proof {
        let three = request.drop_last();
        let two = three.drop_last();
        let one = two.drop_last();
        assert(one.drop_last() =~= Seq::empty());
        reveal_with_fuel(crate::field_update::carried_names, 5);
        reveal_with_fuel(crate::field_update::carried_values, 5);
        assert(update.fields() =~= crate::field_update::carried_names(request));
        assert(crate::field_update::values(update.sets@)
            =~= crate::field_update::carried_values(request));
    }
    let ghost sent = update;
    let plan = update.run();
    assert(sent.sends(plan));
    plan
}

pub const DELETE: &'static str =
    "DELETE FROM holiday WHERE id = $1 RETURNING id, name, starts_at, ends_at, kind, creator, \
     created_at";

/// The delete of a holiday; `NotFound` where nothing comes back.
pub fn delete(id: HolidayId) -> (statement: Statement)
    ensures
        statement@ == crate::page::sends(DELETE, seq![ParamView::Uuid(id.0)]),
{
    Statement::new(DELETE, vec![Param::Uuid(id.0)])
}

pub const LIST_FROM: &'static str =
    "holiday WHERE ($1::bigint IS NULL OR ends_at >= $1) AND ($2::bigint IS NULL OR starts_at \
     <= $2)";

pub const LIST_ORDER: &'static str = "ORDER BY starts_at DESC, id DESC";

/// The read of the holidays that reach into an inclusive range, either end of
/// which may be absent; newest start first.
pub fn list(
    from: Option<i64>,
    to: Option<i64>,
    limit: Option<i64>,
    offset: i64,
) -> (both: (Statement, Option<Statement>))
    ensures
        crate::page::pages(
            both,
            LIST_FROM@,
            LIST_ORDER@,
            seq![ParamView::OptI64(from), ParamView::OptI64(to)],
            limit,
            offset,
        ),
{
    let binds: Vec<Param> = vec![Param::OptI64(from), Param::OptI64(to)];
    assert(crate::page::bound(binds@) =~= seq![ParamView::OptI64(from), ParamView::OptI64(to)]);
    paged(LIST_FROM, LIST_ORDER, binds, limit, offset)
}

pub const LIST_BETWEEN: &'static str =
    "SELECT id, name, starts_at, ends_at, kind, creator, created_at FROM holiday WHERE ends_at \
     >= $1 AND starts_at <= $2 ORDER BY starts_at";

/// The read of every holiday that reaches into a range, earliest first.
pub fn list_between(from: Timestamp, to: Timestamp) -> (statement: Statement)
    ensures
        statement@ == crate::page::sends(
            LIST_BETWEEN,
            seq![ParamView::I64(from.0), ParamView::I64(to.0)],
        ),
{
    Statement::new(LIST_BETWEEN, vec![Param::I64(from.0), Param::I64(to.0)])
}

/// A holiday's stored range.
pub struct Range {
    pub starts_at: int,
    pub ends_at: int,
}

/// The range an update of either end leaves: the merged one where it is in
/// order or neither end is carried, and the stored one otherwise.
pub open spec fn merged(range: Range, starts_at: Option<int>, ends_at: Option<int>) -> Range {
    let starts = match starts_at {
        Some(at) => at,
        None => range.starts_at,
    };
    let ends = match ends_at {
        Some(at) => at,
        None => range.ends_at,
    };
    if starts <= ends {
        Range { starts_at: starts, ends_at: ends }
    } else {
        range
    }
}

/// Two updates that each move one end, in whichever order they land, cannot
/// leave an inverted holiday between them.
pub proof fn law_range_never_inverts(range: Range, starts_at: int, ends_at: int)
    requires
        range.starts_at <= range.ends_at,
    ensures
        ({
            let first = merged(merged(range, Some(starts_at), None), None, Some(ends_at));
            let second = merged(merged(range, None, Some(ends_at)), Some(starts_at), None);
            first.starts_at <= first.ends_at && second.starts_at <= second.ends_at
        }),
{
}

/// Whether a holiday reaches into a range, either end of which may be absent.
pub open spec fn reaches(range: Range, from: Option<int>, to: Option<int>) -> bool {
    (from is None || range.ends_at >= from->0) && (to is None || range.starts_at <= to->0)
}

/// Whether a moment lies in a holiday and in a range.
pub open spec fn shared(range: Range, from: int, to: int, at: int) -> bool {
    range.starts_at <= at <= range.ends_at && from <= at <= to
}

/// The calendar lists exactly the holidays that share a moment with the
/// range, not only those that lie inside it.
pub proof fn law_listing_is_by_overlap(range: Range, from: int, to: int)
    requires
        range.starts_at <= range.ends_at,
        from <= to,
    ensures
        reaches(range, Some(from), Some(to)) <==> exists|at: int| #[trigger]
            shared(range, from, to, at),
{
    if reaches(range, Some(from), Some(to)) {
        let at = if range.starts_at >= from {
            range.starts_at
        } else {
            from
        };
        assert(shared(range, from, to, at));
    }
}

/// What [`CREATE`] says.
pub open spec fn create_reading() -> Storing {
    Storing {
        head: "INSERT INTO "@,
        table: "holiday"@,
        columns: seq!["id"@, "name"@, "starts_at"@, "ends_at"@, "kind"@, "creator"@, "created_at"@],
        values: seq![Term::Bind(1), Term::Bind(2), Term::Bind(3), Term::Bind(4), Term::Bind(5), Term::Bind(6), Term::Bind(7)],
        selected: false,
        conflict: Conflict::Unread,
        rest: crate::sql::returning(),
    }
}

proof fn lemma_create_reads()
    ensures
        crate::sql::spells(CREATE@, 0, create_reading().text()),
{
    reveal_strlit("INSERT INTO holiday (id, name, starts_at, ends_at, kind, creator, created_at) VALUES ($1, $2, $3, $4, $5, $6, $7) RETURNING id, name, starts_at, ends_at, kind, creator, created_at");
    reveal_strlit("INSERT INTO ");
    reveal_strlit("holiday");
    reveal_strlit(" (");
    reveal_strlit("id");
    reveal_strlit(", ");
    reveal_strlit("name");
    reveal_strlit("starts_at");
    reveal_strlit("ends_at");
    reveal_strlit("kind");
    reveal_strlit("creator");
    reveal_strlit("created_at");
    reveal_strlit(") VALUES (");
    reveal_strlit("$");
    reveal_strlit(")");
    reveal_strlit(" RETURNING ");
    reveal(crate::sql::Storing::text);
    reveal_with_fuel(crate::sql::names_text, 8);
    reveal_with_fuel(crate::sql::values_text, 8);
    reveal_with_fuel(crate::sql::stands, 13);
    reveal_with_fuel(crate::sql::spells_by, 33);
    crate::sql::lemma_spells_by(CREATE@, 0, create_reading().text(), crate::sql::cut(12, crate::sql::cut(19, crate::sql::cut(21, crate::sql::cut(23, crate::sql::cut(25, crate::sql::cut(29, crate::sql::cut(31, crate::sql::cut(40, crate::sql::cut(42, crate::sql::cut(49, crate::sql::cut(51, crate::sql::cut(55, crate::sql::cut(57, crate::sql::cut(64, crate::sql::cut(66, crate::sql::cut(76, crate::sql::cut(86, crate::sql::cut(88, crate::sql::cut(90, crate::sql::cut(92, crate::sql::cut(94, crate::sql::cut(96, crate::sql::cut(98, crate::sql::cut(100, crate::sql::cut(102, crate::sql::cut(104, crate::sql::cut(106, crate::sql::cut(108, crate::sql::cut(110, crate::sql::cut(112, crate::sql::cut(113, crate::sql::cut(124, Cuts::Last)))))))))))))))))))))))))))))))));
}

/// What [`create`] stores, column by column, is what it is given.
pub proof fn law_create_lands_in_its_columns(
    holiday: &Holiday,
    sent: Statement,
)
    requires
        call_ensures(create, (holiday,), sent),
    ensures
        create_reading().is_read(sent@),
        create_reading().stores(sent@.binds) == seq![
            ("id"@, Cell::Uuid(holiday.id.0)),
            ("name"@, Cell::Text(holiday.name@)),
            ("starts_at"@, Cell::Int(holiday.starts_at.0 as int)),
            ("ends_at"@, Cell::Int(holiday.ends_at.0 as int)),
            ("kind"@, Cell::Text(holiday.kind@)),
            ("creator"@, Cell::Uuid(holiday.creator.0)),
            ("created_at"@, Cell::Int(holiday.created_at.0 as int)),
        ],
{
    lemma_create_reads();
}

/// What [`READ`] says.
pub open spec fn read_reading() -> Picking {
    Picking {
        skip: 62,
        head: " FROM "@,
        columns: Seq::empty(),
        table: "holiday"@,
        conditions: seq![crate::sql::is_bound("id"@, 1)],
        rest: Text::End,
    }
}

proof fn lemma_read_reads()
    ensures
        crate::sql::spells(READ@, 62, read_reading().text()),
{
    reveal_strlit("SELECT id, name, starts_at, ends_at, kind, creator, created_at FROM holiday WHERE id = $1");
    reveal_strlit(" FROM ");
    reveal_strlit("holiday");
    reveal_strlit(" WHERE ");
    reveal_strlit("id");
    reveal_strlit(" = ");
    reveal_strlit("$");
    reveal(crate::sql::Picking::text);
    reveal_with_fuel(crate::sql::where_text, 2);
    reveal_with_fuel(crate::sql::stands, 8);
    reveal_with_fuel(crate::sql::spells_by, 7);
    crate::sql::lemma_spells_by(READ@, 62, read_reading().text(), crate::sql::cut(68, crate::sql::cut(75, crate::sql::cut(82, crate::sql::cut(84, crate::sql::cut(87, crate::sql::cut(89, Cuts::Last)))))));
}

/// [`read`] reads the rows it names and no other.
pub proof fn law_read_reads_its_rows(
    id: HolidayId,
    sent: Statement,
    row: Row,
)
    requires
        call_ensures(read, (id,), sent),
    ensures
        read_reading().is_read(sent@),
        read_reading().picks(sent@.binds, row) == (row["id"@] == Cell::Uuid(id.0)),
{
    lemma_read_reads();
    reveal_with_fuel(crate::sql::all_hold, 2);
}

/// What [`DELETE`] says.
pub open spec fn delete_reading() -> Picking {
    Picking {
        skip: 0,
        head: "DELETE FROM "@,
        columns: Seq::empty(),
        table: "holiday"@,
        conditions: seq![crate::sql::is_bound("id"@, 1)],
        rest: crate::sql::returning(),
    }
}

proof fn lemma_delete_reads()
    ensures
        crate::sql::spells(DELETE@, 0, delete_reading().text()),
{
    reveal_strlit("DELETE FROM holiday WHERE id = $1 RETURNING id, name, starts_at, ends_at, kind, creator, created_at");
    reveal_strlit("DELETE FROM ");
    reveal_strlit("holiday");
    reveal_strlit(" WHERE ");
    reveal_strlit("id");
    reveal_strlit(" = ");
    reveal_strlit("$");
    reveal_strlit(" RETURNING ");
    reveal(crate::sql::Picking::text);
    reveal_with_fuel(crate::sql::where_text, 2);
    reveal_with_fuel(crate::sql::stands, 13);
    reveal_with_fuel(crate::sql::spells_by, 8);
    crate::sql::lemma_spells_by(DELETE@, 0, delete_reading().text(), crate::sql::cut(12, crate::sql::cut(19, crate::sql::cut(26, crate::sql::cut(28, crate::sql::cut(31, crate::sql::cut(33, crate::sql::cut(44, Cuts::Last))))))));
}

/// [`delete`] deletes the rows it names and no other.
pub proof fn law_delete_deletes_its_rows(
    id: HolidayId,
    sent: Statement,
    row: Row,
)
    requires
        call_ensures(delete, (id,), sent),
    ensures
        delete_reading().is_read(sent@),
        delete_reading().picks(sent@.binds, row) == (row["id"@] == Cell::Uuid(id.0)),
{
    lemma_delete_reads();
    reveal_with_fuel(crate::sql::all_hold, 2);
}

/// What [`LIST_BETWEEN`] says.
pub open spec fn list_between_reading() -> Picking {
    Picking {
        skip: 62,
        head: " FROM "@,
        columns: Seq::empty(),
        table: "holiday"@,
        conditions: seq![Cond::AtLeast(crate::sql::column("ends_at"@), crate::sql::bind(1)), Cond::AtMost(crate::sql::column("starts_at"@), crate::sql::bind(2))],
        rest: crate::sql::before(" ORDER BY starts_at"@, Text::End),
    }
}

proof fn lemma_list_between_reads()
    ensures
        crate::sql::spells(LIST_BETWEEN@, 62, list_between_reading().text()),
{
    reveal_strlit("SELECT id, name, starts_at, ends_at, kind, creator, created_at FROM holiday WHERE ends_at >= $1 AND starts_at <= $2 ORDER BY starts_at");
    reveal_strlit(" FROM ");
    reveal_strlit("holiday");
    reveal_strlit(" WHERE ");
    reveal_strlit("ends_at");
    reveal_strlit(" >= ");
    reveal_strlit("$");
    reveal_strlit(" AND ");
    reveal_strlit("starts_at");
    reveal_strlit(" <= ");
    reveal_strlit(" ORDER BY starts_at");
    reveal(crate::sql::Picking::text);
    reveal_with_fuel(crate::sql::where_text, 3);
    reveal_with_fuel(crate::sql::stands, 20);
    reveal_with_fuel(crate::sql::spells_by, 12);
    crate::sql::lemma_spells_by(LIST_BETWEEN@, 62, list_between_reading().text(), crate::sql::cut(68, crate::sql::cut(75, crate::sql::cut(82, crate::sql::cut(89, crate::sql::cut(93, crate::sql::cut(95, crate::sql::cut(100, crate::sql::cut(109, crate::sql::cut(113, crate::sql::cut(115, crate::sql::cut(134, Cuts::Last))))))))))));
}

/// [`list_between`] reads the rows it names and no other.
pub proof fn law_list_between_reads_its_rows(
    from: Timestamp,
    to: Timestamp,
    sent: Statement,
    row: Row,
)
    requires
        call_ensures(list_between, (from, to), sent),
    ensures
        list_between_reading().is_read(sent@),
        list_between_reading().picks(sent@.binds, row) == ((row["ends_at"@] !is Null && crate::sql::at_most(Cell::Int(from.0 as int), row["ends_at"@])) && (row["starts_at"@] !is Null && crate::sql::at_most(row["starts_at"@], Cell::Int(to.0 as int)))),
{
    lemma_list_between_reads();
    reveal_with_fuel(crate::sql::all_hold, 3);
}

/// What [`LIST_FROM`] says.
pub open spec fn list_from_reading() -> Picking {
    Picking {
        skip: 0,
        head: ""@,
        columns: Seq::empty(),
        table: "holiday"@,
        conditions: seq![Cond::Since(Term::Cast(1, "bigint"@), "ends_at"@, Term::Bind(1)), Cond::Until(Term::Cast(2, "bigint"@), "starts_at"@, Term::Bind(2))],
        rest: Text::End,
    }
}

proof fn lemma_list_from_reads()
    ensures
        crate::sql::spells(LIST_FROM@, 0, list_from_reading().text()),
{
    reveal_strlit("holiday WHERE ($1::bigint IS NULL OR ends_at >= $1) AND ($2::bigint IS NULL OR starts_at <= $2)");
    reveal_strlit("");
    reveal_strlit("holiday");
    reveal_strlit(" WHERE ");
    reveal_strlit("(");
    reveal_strlit("$");
    reveal_strlit("::");
    reveal_strlit("bigint");
    reveal_strlit(" IS NULL OR ");
    reveal_strlit("ends_at");
    reveal_strlit(" >= ");
    reveal_strlit(")");
    reveal_strlit(" AND ");
    reveal_strlit("starts_at");
    reveal_strlit(" <= ");
    reveal(crate::sql::Picking::text);
    reveal_with_fuel(crate::sql::where_text, 3);
    reveal_with_fuel(crate::sql::stands, 13);
    reveal_with_fuel(crate::sql::spells_by, 23);
    crate::sql::lemma_spells_by(LIST_FROM@, 0, list_from_reading().text(), crate::sql::cut(0, crate::sql::cut(7, crate::sql::cut(14, crate::sql::cut(15, crate::sql::cut(17, crate::sql::cut(19, crate::sql::cut(25, crate::sql::cut(37, crate::sql::cut(44, crate::sql::cut(48, crate::sql::cut(50, crate::sql::cut(51, crate::sql::cut(56, crate::sql::cut(57, crate::sql::cut(59, crate::sql::cut(61, crate::sql::cut(67, crate::sql::cut(79, crate::sql::cut(88, crate::sql::cut(92, crate::sql::cut(94, crate::sql::cut(95, Cuts::Last)))))))))))))))))))))));
}

/// [`list`] pages the rows it names and no other.
pub proof fn law_list_reads_its_rows(
    from: Option<i64>,
    to: Option<i64>,
    limit: Option<i64>,
    offset: i64,
    both: (Statement, Option<Statement>),
    row: Row,
)
    requires
        call_ensures(list, (from, to, limit, offset), both),
    ensures
        crate::sql::spells(
            both.0@.sql,
            0,
            crate::sql::before("SELECT * FROM "@, crate::sql::opened(list_from_reading().text())),
        ),
        list_from_reading().picks(both.0@.binds, row) == ((crate::sql::opt_int(from) is Null || (row["ends_at"@] !is Null && crate::sql::at_most(crate::sql::opt_int(from), row["ends_at"@]))) && (crate::sql::opt_int(to) is Null || (row["starts_at"@] !is Null && crate::sql::at_most(row["starts_at"@], crate::sql::opt_int(to))))),
{
    lemma_list_from_reads();
    reveal(crate::sql::Picking::text);
    reveal_with_fuel(crate::sql::where_text, 3);
    reveal_with_fuel(crate::sql::is_open, 23);
    reveal_with_fuel(crate::sql::all_hold, 3);
    crate::page::law_page_reads_its_rows(
        both,
        LIST_FROM@,
        LIST_ORDER@,
        seq![ParamView::OptI64(from), ParamView::OptI64(to)],
        limit,
        offset,
        list_from_reading().text(),
    );
}

/// The write of a holiday, carried out on its row with its own bound values,
/// leaves each field that the patch carries in its own column, and every other
/// column as it was.
pub proof fn law_update_lands_in_its_fields(
    id: HolidayId,
    patch: HolidayPatch,
    range_error: AppError,
    plan: UpdatePlan,
    row: Row,
) -> (reading: Writing)
    requires
        call_ensures(update, (id, patch, range_error), plan),
        plan is Write,
    ensures
        reading.is_read(plan->Write_update@),
        reading.table == HOLIDAY_TABLE@,
        ({
            let after = reading.leaves(plan->Write_update@.binds, row);
            &&& after["name"@] == (match patch.name {
                Some(text) => Cell::Text(text@),
                None => row["name"@],
            })
            &&& after["starts_at"@] == (match patch.starts_at {
                Some(at) => Cell::Int(at.0 as int),
                None => row["starts_at"@],
            })
            &&& after["ends_at"@] == (match patch.ends_at {
                Some(at) => Cell::Int(at.0 as int),
                None => row["ends_at"@],
            })
            &&& after["kind"@] == (match patch.kind {
                Some(text) => Cell::Text(text@),
                None => row["kind"@],
            })
        }),
{
    let request = patch.request();
    reveal_strlit("name");
    reveal_strlit("starts_at");
    reveal_strlit("ends_at");
    reveal_strlit("kind");
    assert("name"@.len() == 4 && "starts_at"@.len() == 9 && "ends_at"@.len() == 7);
    assert("name"@[0] != "kind"@[0]);
    let reading = crate::field_update::law_request_lands_in_its_fields(
        plan,
        HOLIDAY_TABLE@,
        id.0,
        request,
        Some(("starts_at"@, "ends_at"@, range_error@)),
        row,
    );
    let three = request.drop_last();
    let two = three.drop_last();
    let one = two.drop_last();
    assert(three.last() == request[2] && two.last() == request[1] && one.last() == request[0]);
    assert(one.drop_last() =~= Seq::empty());
    reveal_with_fuel(crate::field_update::asked_of, 5);
    reading
}

} // verus!
