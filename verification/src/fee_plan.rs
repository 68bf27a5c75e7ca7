//! The `fee_plan` table: the create, the reads, and the guarded edit and
//! delete. Both guards are conditional writes on the plan's own
//! `assignment_count`, so an assignment that races an edit either claims first
//! and refuses it, or claims after and bills the edited plan.

use vstd::prelude::*;

use crate::error::{AppError, AppErrorView, Gone};
use crate::id::{FeePlanId, Timestamp, UserId};
use crate::json::opt_json;
use crate::page::{opt_text, paged, Param, ParamView, Statement, StatementView};
use crate::reference::References;
use crate::sql::{Cell, Cond, Conflict, Cuts, Expr, Picking, Row, Storing, Term, Text, Writing};
use crate::transaction::{Reply, Step};

verus! {

/// The installments of a request: whether they are in order, and their
/// encoding or why they could not be encoded.
#[derive(Debug)]
pub struct Installments {
    pub checked: Result<(), AppError>,
    pub encoded: Result<serde_json::Value, String>,
}

/// The start of the message for installments that could not be encoded.
pub const ENCODE_FAILED: &'static str = "fee plan encode: ";

impl Installments {
    /// Why these installments are refused, if they are: what the check says
    /// comes first.
    pub open spec fn refusal(self) -> Option<AppErrorView> {
        match self.checked {
            Err(error) => Some(error@),
            Ok(_) => match self.encoded {
                Err(reason) => Some(AppErrorView::Internal(ENCODE_FAILED@ + reason@)),
                Ok(_) => None,
            },
        }
    }

    /// The encoding, or the refusal.
    pub fn value(self) -> (value: Result<serde_json::Value, AppError>)
        ensures
            match self.refusal() {
                Some(refusal) => value is Err && value->Err_0@ == refusal,
                None => value is Ok && value->Ok_0 == self.encoded->Ok_0,
            },
    {
        match self.checked {
            Err(error) => Err(error),
            Ok(_) => match self.encoded {
                Err(reason) => {
                    let mut text = ENCODE_FAILED.to_owned();
                    text.append(reason.as_str());
                    Err(AppError::Internal(text))
                },
                Ok(value) => Ok(value),
            },
        }
    }
}

pub const CREATE: &'static str =
    "INSERT INTO fee_plan (id, name, installments, created_by, created_at) VALUES ($1, $2, $3, \
     $4, $5) RETURNING id, name, installments, created_by, created_at";

/// The insert of a plan, or the refusal of its installments.
pub fn create(
    id: FeePlanId,
    name: &str,
    installments: Installments,
    created_by: UserId,
    created_at: Timestamp,
) -> (statement: Result<Statement, AppError>)
    ensures
        match installments.refusal() {
            Some(refusal) => statement is Err && statement->Err_0@ == refusal,
            None => statement is Ok && statement->Ok_0@ == crate::page::sends(
                CREATE,
                seq![
                    ParamView::Uuid(id.0),
                    ParamView::Text(name@),
                    ParamView::Json(installments.encoded->Ok_0),
                    ParamView::Uuid(created_by.0),
                    ParamView::I64(created_at.0),
                ],
            ),
        },
{
    match installments.value() {
        Err(error) => Err(error),
        Ok(value) => Ok(
            Statement::new(
                CREATE,
                vec![
                    Param::Uuid(id.0),
                    Param::Text(name.to_owned()),
                    Param::Json(value),
                    Param::Uuid(created_by.0),
                    Param::I64(created_at.0),
                ],
            ),
        ),
    }
}

pub const READ: &'static str =
    "SELECT id, name, installments, created_by, created_at FROM fee_plan WHERE id = $1";

/// The read of a plan.
pub fn read(id: FeePlanId) -> (statement: Statement)
    ensures
        statement@ == crate::page::sends(READ, seq![ParamView::Uuid(id.0)]),
{
    Statement::new(READ, vec![Param::Uuid(id.0)])
}

pub const LIST_ALL_FROM: &'static str =
    "fee_plan";

pub const LIST_ALL_ORDER: &'static str = "ORDER BY created_at DESC, id DESC";

/// The read of every plan, newest first.
pub fn list_all(limit: Option<i64>, offset: i64) -> (both: (Statement, Option<Statement>))
    ensures
        crate::page::pages(both, LIST_ALL_FROM@, LIST_ALL_ORDER@, Seq::empty(), limit, offset),
{
    let binds: Vec<Param> = Vec::new();
    assert(crate::page::bound(binds@) =~= Seq::empty());
    paged(LIST_ALL_FROM, LIST_ALL_ORDER, binds, limit, offset)
}

/// The statement an edit waits for.
#[derive(Clone, Copy, PartialEq, Eq, Structural, Debug)]
pub enum Update {
    /// Read the plan back: the answer to a request that carried nothing.
    ReadBack,
    /// Write what the request carried, where nobody is on the plan; its row
    /// is the answer.
    Write,
    /// Tell a plan that is assigned from one that is gone.
    ReadRefused,
}

/// Why an edit is not made.
#[derive(Clone, Copy, PartialEq, Eq, Structural, Debug)]
pub enum EditRefusal {
    Assigned,
    Gone,
}

/// The answer to an edit of a plan somebody is on.
pub const ASSIGNED: &'static str = "an assigned plan cannot be edited";

impl EditRefusal {
    /// What this refusal answers.
    pub open spec fn answers(self) -> AppErrorView {
        match self {
            EditRefusal::Assigned => AppErrorView::Conflict(ASSIGNED@),
            EditRefusal::Gone => AppErrorView::NotFound,
        }
    }

    /// What this refusal answers.
    pub fn error(self) -> (error: AppError)
        ensures
            error@ == self.answers(),
    {
        match self {
            EditRefusal::Assigned => AppError::Conflict(ASSIGNED),
            EditRefusal::Gone => AppError::NotFound,
        }
    }
}

pub const EDIT_PLAN: &'static str =
    "UPDATE fee_plan SET name = COALESCE($2, name), installments = COALESCE($3, installments) \
     WHERE id = $1 AND assignment_count = 0 RETURNING id, name, installments, created_by, \
     created_at";

impl Update {
    /// The statement of this step, for the fields the request carried.
    pub open spec fn asks(
        self,
        id: FeePlanId,
        name: Option<&str>,
        installments: Option<serde_json::Value>,
    ) -> StatementView {
        match self {
            Update::Write => crate::page::sends(
                EDIT_PLAN,
                seq![
                    ParamView::Uuid(id.0),
                    ParamView::OptText(crate::page::opt_view(name)),
                    ParamView::OptJson(installments),
                ],
            ),
            _ => crate::page::sends(READ, seq![ParamView::Uuid(id.0)]),
        }
    }

    /// The statement of this step, for the fields the request carried.
    pub fn statement(
        self,
        id: FeePlanId,
        name: Option<&str>,
        installments: &Option<serde_json::Value>,
    ) -> (statement: Statement)
        ensures
            statement@ == self.asks(id, name, *installments),
    {
        match self {
            Update::Write => Statement::new(
                EDIT_PLAN,
                vec![
                    Param::Uuid(id.0),
                    Param::OptText(opt_text(name)),
                    Param::OptJson(opt_json(installments)),
                ],
            ),
            _ => read(id),
        }
    }
}

/// The statement an edit starts with and the installments it writes, or the
/// refusal of the installments it carried. A request that carried nothing
/// writes nothing, so it is answered whether or not the plan is assigned.
pub fn start_update(name: Option<&str>, installments: Option<Installments>) -> (first: Result<
    (Update, Option<serde_json::Value>),
    AppError,
>)
    ensures
        match installments {
            Some(given) => match given.refusal() {
                Some(refusal) => first is Err && first->Err_0@ == refusal,
                None => first == Ok::<(Update, Option<serde_json::Value>), AppError>(
                    (Update::Write, Some(given.encoded->Ok_0)),
                ),
            },
            None => first == Ok::<(Update, Option<serde_json::Value>), AppError>(
                (
                    if name is Some {
                        Update::Write
                    } else {
                        Update::ReadBack
                    },
                    None,
                ),
            ),
        },
{
    match installments {
        Some(given) => match given.value() {
            Ok(value) => Ok((Update::Write, Some(value))),
            Err(error) => Err(error),
        },
        None => if name.is_some() {
            Ok((Update::Write, None))
        } else {
            Ok((Update::ReadBack, None))
        },
    }
}

/// What an edit does once the statement of `at` is answered.
pub open spec fn update_next(at: Update, reply: Reply) -> Step<Update, (), EditRefusal> {
    match at {
        Update::ReadBack => if reply.has_row() {
            Step::Commit(())
        } else {
            Step::Abort(EditRefusal::Gone)
        },
        Update::Write => if reply.has_row() {
            Step::Commit(())
        } else {
            Step::Ask(Update::ReadRefused)
        },
        Update::ReadRefused => if reply.has_row() {
            Step::Abort(EditRefusal::Assigned)
        } else {
            Step::Abort(EditRefusal::Gone)
        },
    }
}

/// Edit a plan: the step that follows the answer to `at`. An edit starts as
/// [`start_update`] says and answers the plan as it now stands.
pub fn update(at: Update, reply: Reply) -> (step: Step<Update, (), EditRefusal>)
    ensures
        step == update_next(at, reply),
{
    match at {
        Update::ReadBack => if reply.row() {
            Step::Commit(())
        } else {
            Step::Abort(EditRefusal::Gone)
        },
        Update::Write => if reply.row() {
            Step::Commit(())
        } else {
            Step::Ask(Update::ReadRefused)
        },
        Update::ReadRefused => if reply.row() {
            Step::Abort(EditRefusal::Assigned)
        } else {
            Step::Abort(EditRefusal::Gone)
        },
    }
}

/// The statement a delete waits for.
#[derive(Clone, Copy, PartialEq, Eq, Structural, Debug)]
pub enum Delete {
    /// Delete the plan, where nobody is on it.
    DeleteRow,
    /// Tell a plan that is assigned from one that is gone.
    ReadRefused,
}

pub const DELETE_PLAN: &'static str =
    "DELETE FROM fee_plan WHERE id = $1 AND assignment_count = 0 RETURNING id";

impl Delete {
    /// The statement of this step.
    pub open spec fn asks(self, id: FeePlanId) -> StatementView {
        match self {
            Delete::DeleteRow => crate::page::sends(DELETE_PLAN, seq![ParamView::Uuid(id.0)]),
            Delete::ReadRefused => crate::page::sends(READ, seq![ParamView::Uuid(id.0)]),
        }
    }

    /// The statement of this step.
    pub fn statement(self, id: FeePlanId) -> (statement: Statement)
        ensures
            statement@ == self.asks(id),
    {
        match self {
            Delete::DeleteRow => Statement::new(DELETE_PLAN, vec![Param::Uuid(id.0)]),
            Delete::ReadRefused => read(id),
        }
    }
}

/// What a delete does once the statement of `at` is answered.
pub open spec fn delete_next(at: Delete, reply: Reply) -> Step<Delete, bool, Gone> {
    match at {
        Delete::DeleteRow => if reply.has_row() {
            Step::Commit(true)
        } else {
            Step::Ask(Delete::ReadRefused)
        },
        Delete::ReadRefused => if reply.has_row() {
            Step::Commit(false)
        } else {
            Step::Abort(Gone)
        },
    }
}

/// Delete a plan: the step that follows the answer to `at`. A delete starts
/// at [`Delete::DeleteRow`]; `false` is a plan somebody is on, which stays.
pub fn delete(at: Delete, reply: Reply) -> (step: Step<Delete, bool, Gone>)
    ensures
        step == delete_next(at, reply),
{
    match at {
        Delete::DeleteRow => if reply.row() {
            Step::Commit(true)
        } else {
            Step::Ask(Delete::ReadRefused)
        },
        Delete::ReadRefused => if reply.row() {
            Step::Commit(false)
        } else {
            Step::Abort(Gone)
        },
    }
}

/// What a plan says.
#[verifier::ext_equal]
pub struct Terms {
    pub name: Seq<char>,
    pub installments: serde_json::Value,
}

/// What each plan says, and who is on it.
#[verifier::ext_equal]
pub struct Plans {
    pub terms: Map<FeePlanId, Terms>,
    pub roster: References<(FeePlanId, UserId), FeePlanId>,
}

impl Plans {
    /// Every plan has its counter, and every counter is right.
    pub open spec fn sound(self) -> bool {
        &&& self.roster.counted()
        &&& self.terms.dom() == self.roster.counts.dom()
    }

    /// Whether anybody is on a plan.
    pub open spec fn assigned(self, id: FeePlanId) -> bool {
        self.terms.contains_key(id) && self.roster.counts[id] != 0
    }
}

/// A plan with what a request carried.
pub open spec fn edited(
    terms: Terms,
    name: Option<Seq<char>>,
    installments: Option<serde_json::Value>,
) -> Terms {
    Terms {
        name: match name {
            Some(name) => name,
            None => terms.name,
        },
        installments: match installments {
            Some(installments) => installments,
            None => terms.installments,
        },
    }
}

/// What each statement of an edit does, and what it replies.
pub open spec fn update_effect(
    db: Plans,
    id: FeePlanId,
    name: Option<Seq<char>>,
    installments: Option<serde_json::Value>,
    at: Update,
) -> (Plans, Reply) {
    match at {
        Update::Write => if db.terms.contains_key(id) && !db.assigned(id) {
            (
                Plans {
                    terms: db.terms.insert(id, edited(db.terms[id], name, installments)),
                    ..db
                },
                Reply::Row,
            )
        } else {
            (db, Reply::Empty)
        },
        _ => (
            db,
            if db.terms.contains_key(id) {
                Reply::Row
            } else {
                Reply::Empty
            },
        ),
    }
}

/// A whole edit.
pub open spec fn update_run(
    db: Plans,
    id: FeePlanId,
    name: Option<Seq<char>>,
    installments: Option<serde_json::Value>,
) -> (Plans, Step<Update, (), EditRefusal>) {
    crate::transaction::run(
        db,
        Step::Ask(
            if name is Some || installments is Some {
                Update::Write
            } else {
                Update::ReadBack
            },
        ),
        |at: Update, reply: Reply| update_next(at, reply),
        |plans: Plans, at: Update| update_effect(plans, id, name, installments, at),
        2,
    )
}

/// An edit writes exactly the fields it carried, and only while nobody is on
/// the plan: an assigned plan says what it said, a missing one is not found,
/// and a request that carries nothing is never refused as assigned.
pub proof fn law_assigned_plan_is_frozen(
    db: Plans,
    id: FeePlanId,
    name: Option<Seq<char>>,
    installments: Option<serde_json::Value>,
)
    ensures
        ({
            let end = update_run(db, id, name, installments);
            let after = crate::transaction::stored(db, end);
            let carries = name is Some || installments is Some;
            &&& !db.terms.contains_key(id) ==> end.1 == Step::<Update, (), EditRefusal>::Abort(
                EditRefusal::Gone,
            ) && after == db
            &&& db.assigned(id) && carries ==> end.1 == Step::<Update, (), EditRefusal>::Abort(
                EditRefusal::Assigned,
            ) && after == db
            &&& db.terms.contains_key(id) && !carries ==> end.1 is Commit && after == db
            &&& db.terms.contains_key(id) && !db.assigned(id) ==> end.1 is Commit
                && after.roster == db.roster && after.terms == db.terms.insert(
                id,
                edited(db.terms[id], name, installments),
            )
        }),
{
    reveal_with_fuel(crate::transaction::run, 3);
    if db.terms.contains_key(id) && name is None && installments is None {
        assert(db.terms =~= db.terms.insert(id, edited(db.terms[id], name, installments)));
    }
}

/// What each statement of a delete does, and what it replies.
pub open spec fn delete_effect(db: Plans, id: FeePlanId, at: Delete) -> (Plans, Reply) {
    match at {
        Delete::DeleteRow => if db.terms.contains_key(id) && !db.assigned(id) {
            (
                Plans {
                    terms: db.terms.remove(id),
                    roster: References { counts: db.roster.counts.remove(id), ..db.roster },
                },
                Reply::Row,
            )
        } else {
            (db, Reply::Empty)
        },
        Delete::ReadRefused => (
            db,
            if db.terms.contains_key(id) {
                Reply::Row
            } else {
                Reply::Empty
            },
        ),
    }
}

/// A whole delete.
pub open spec fn delete_run(db: Plans, id: FeePlanId) -> (Plans, Step<Delete, bool, Gone>) {
    crate::transaction::run(
        db,
        Step::Ask(Delete::DeleteRow),
        |at: Delete, reply: Reply| delete_next(at, reply),
        |plans: Plans, at: Delete| delete_effect(plans, id, at),
        2,
    )
}

/// A plan goes only while nobody is on it, so no assignment is ever left
/// naming a plan that is gone; an assigned plan stays and is answered as
/// such, and a missing one is not found.
pub proof fn law_assigned_plan_stays(db: Plans, id: FeePlanId, placed: (FeePlanId, UserId))
    requires
        db.sound(),
    ensures
        ({
            let end = delete_run(db, id);
            let after = crate::transaction::stored(db, end);
            &&& !db.terms.contains_key(id) ==> end.1 == Step::<Delete, bool, Gone>::Abort(Gone)
            &&& db.terms.contains_key(id) ==> end.1 == Step::<Delete, bool, Gone>::Commit(
                !db.assigned(id),
            )
            &&& after.terms.contains_key(id) <==> db.assigned(id)
            &&& after.sound()
            &&& db.roster.links.contains_key(placed) && db.terms.contains_key(
                db.roster.links[placed],
            ) ==> after.terms.contains_key(db.roster.links[placed])
        }),
{
    reveal_with_fuel(crate::transaction::run, 3);
    let after = crate::transaction::stored(db, delete_run(db, id));
    if db.terms.contains_key(id) && !db.assigned(id) {
        assert forall|plan: FeePlanId| #[trigger] after.roster.counts.contains_key(plan) implies
            after.roster.counts[plan] == crate::tally::tally(
            after.roster.links,
            crate::reference::points_at(plan),
        ) by {
            assert(db.roster.counts.contains_key(plan));
        }
        assert(after.terms.dom() =~= after.roster.counts.dom());
        if db.roster.links.contains_key(placed) && db.roster.links[placed] == id {
            let counts = crate::reference::points_at::<(FeePlanId, UserId), FeePlanId>(id);
            assert(db.roster.counts.contains_key(id));
            assert(crate::tally::matching(db.roster.links, counts).contains(placed));
            assert(crate::tally::matching(db.roster.links, counts).len() == 0);
        }
    }
}

/// What [`READ`] says.
pub open spec fn read_reading() -> Picking {
    Picking {
        skip: 0,
        head: "SELECT "@,
        columns: seq!["id"@, "name"@, "installments"@, "created_by"@, "created_at"@],
        table: "fee_plan"@,
        conditions: seq![crate::sql::is_bound("id"@, 1)],
        rest: Text::End,
    }
}

proof fn lemma_read_reads()
    ensures
        crate::sql::spells(READ@, 0, read_reading().text()),
{
    reveal_strlit("SELECT id, name, installments, created_by, created_at FROM fee_plan WHERE id = $1");
    reveal_strlit("SELECT ");
    reveal_strlit("id");
    reveal_strlit(", ");
    reveal_strlit("name");
    reveal_strlit("installments");
    reveal_strlit("created_by");
    reveal_strlit("created_at");
    reveal_strlit(" FROM ");
    reveal_strlit("fee_plan");
    reveal_strlit(" WHERE ");
    reveal_strlit(" = ");
    reveal_strlit("$");
    reveal(crate::sql::Picking::text);
    reveal_with_fuel(crate::sql::where_text, 2);
    reveal_with_fuel(crate::sql::names_text, 6);
    reveal_with_fuel(crate::sql::stands, 13);
    reveal_with_fuel(crate::sql::spells_by, 17);
    crate::sql::lemma_spells_by(READ@, 0, read_reading().text(), crate::sql::cut(7, crate::sql::cut(9, crate::sql::cut(11, crate::sql::cut(15, crate::sql::cut(17, crate::sql::cut(29, crate::sql::cut(31, crate::sql::cut(41, crate::sql::cut(43, crate::sql::cut(53, crate::sql::cut(59, crate::sql::cut(67, crate::sql::cut(74, crate::sql::cut(76, crate::sql::cut(79, crate::sql::cut(81, Cuts::Last)))))))))))))))));
}

/// [`read`] reads the rows it names and no other.
pub proof fn law_read_reads_its_rows(
    id: FeePlanId,
    sent: Statement,
    row: Row,
)
    requires
        call_ensures(read, (id,), sent),
    ensures
        read_reading().is_read(sent@),
        read_reading().picks(sent@.binds, row) == (row["id"@] == Cell::Uuid(id.0)),
{
    lemma_read_reads();
    reveal_with_fuel(crate::sql::all_hold, 2);
}

/// What [`EDIT_PLAN`] says.
pub open spec fn edit_plan_reading() -> Writing {
    Writing {
        head: "UPDATE "@,
        table: "fee_plan"@,
        sets: seq![("name"@, Expr::Coalesce(Term::Bind(2), Term::Column("name"@))), ("installments"@, Expr::Coalesce(Term::Bind(3), Term::Column("installments"@)))],
        conditions: seq![crate::sql::is_bound("id"@, 1), Cond::Equal(crate::sql::column("assignment_count"@), crate::sql::word("0"@, Cell::Int(0)))],
        rest: crate::sql::returning(),
    }
}

proof fn lemma_edit_plan_reads()
    ensures
        crate::sql::spells(EDIT_PLAN@, 0, edit_plan_reading().text()),
{
    reveal_strlit("UPDATE fee_plan SET name = COALESCE($2, name), installments = COALESCE($3, installments) WHERE id = $1 AND assignment_count = 0 RETURNING id, name, installments, created_by, created_at");
    reveal_strlit("UPDATE ");
    reveal_strlit("fee_plan");
    reveal_strlit(" SET ");
    reveal_strlit("name");
    reveal_strlit(" = ");
    reveal_strlit("COALESCE(");
    reveal_strlit("$");
    reveal_strlit(", ");
    reveal_strlit(")");
    reveal_strlit("installments");
    reveal_strlit(" WHERE ");
    reveal_strlit("id");
    reveal_strlit(" AND ");
    reveal_strlit("assignment_count");
    reveal_strlit("0");
    reveal_strlit(" RETURNING ");
    reveal(crate::sql::Writing::text);
    reveal_with_fuel(crate::sql::set_text, 3);
    reveal_with_fuel(crate::sql::where_text, 3);
    reveal_with_fuel(crate::sql::stands, 17);
    reveal_with_fuel(crate::sql::spells_by, 28);
    crate::sql::lemma_spells_by(EDIT_PLAN@, 0, edit_plan_reading().text(), crate::sql::cut(7, crate::sql::cut(15, crate::sql::cut(20, crate::sql::cut(24, crate::sql::cut(27, crate::sql::cut(36, crate::sql::cut(38, crate::sql::cut(40, crate::sql::cut(44, crate::sql::cut(45, crate::sql::cut(47, crate::sql::cut(59, crate::sql::cut(62, crate::sql::cut(71, crate::sql::cut(73, crate::sql::cut(75, crate::sql::cut(87, crate::sql::cut(88, crate::sql::cut(95, crate::sql::cut(97, crate::sql::cut(100, crate::sql::cut(102, crate::sql::cut(107, crate::sql::cut(123, crate::sql::cut(126, crate::sql::cut(127, crate::sql::cut(138, Cuts::Last))))))))))))))))))))))))))));
}

/// [`Update::Write`] picks the rows it names and no other, and overwrites each column with
/// its own value.
pub proof fn law_update_write_writes_its_row(
    id: FeePlanId,
    name: Option<&str>,
    installments: Option<serde_json::Value>,
    row: Row,
)
    ensures
        ({
            let sent = Update::Write.asks(id, name, installments);
            &&& edit_plan_reading().is_read(sent)
            &&& edit_plan_reading().picks(sent.binds, row) == (row["id"@] == Cell::Uuid(id.0) && row["assignment_count"@] == Cell::Int(0))
            &&& edit_plan_reading().writes(sent.binds, row) == seq![
                ("name"@, if crate::sql::opt_text(crate::page::opt_view(name)) is Null { row["name"@] } else { crate::sql::opt_text(crate::page::opt_view(name)) }),
                ("installments"@, if crate::sql::opt_json(installments) is Null { row["installments"@] } else { crate::sql::opt_json(installments) }),
            ]
        }),
{
    lemma_edit_plan_reads();
    reveal_with_fuel(crate::sql::all_hold, 3);
}

/// What [`DELETE_PLAN`] says.
pub open spec fn delete_plan_reading() -> Picking {
    Picking {
        skip: 0,
        head: "DELETE FROM "@,
        columns: Seq::empty(),
        table: "fee_plan"@,
        conditions: seq![crate::sql::is_bound("id"@, 1), Cond::Equal(crate::sql::column("assignment_count"@), crate::sql::word("0"@, Cell::Int(0)))],
        rest: crate::sql::returning(),
    }
}

proof fn lemma_delete_plan_reads()
    ensures
        crate::sql::spells(DELETE_PLAN@, 0, delete_plan_reading().text()),
{
    reveal_strlit("DELETE FROM fee_plan WHERE id = $1 AND assignment_count = 0 RETURNING id");
    reveal_strlit("DELETE FROM ");
    reveal_strlit("fee_plan");
    reveal_strlit(" WHERE ");
    reveal_strlit("id");
    reveal_strlit(" = ");
    reveal_strlit("$");
    reveal_strlit(" AND ");
    reveal_strlit("assignment_count");
    reveal_strlit("0");
    reveal_strlit(" RETURNING ");
    reveal(crate::sql::Picking::text);
    reveal_with_fuel(crate::sql::where_text, 3);
    reveal_with_fuel(crate::sql::stands, 17);
    reveal_with_fuel(crate::sql::spells_by, 12);
    crate::sql::lemma_spells_by(DELETE_PLAN@, 0, delete_plan_reading().text(), crate::sql::cut(12, crate::sql::cut(20, crate::sql::cut(27, crate::sql::cut(29, crate::sql::cut(32, crate::sql::cut(34, crate::sql::cut(39, crate::sql::cut(55, crate::sql::cut(58, crate::sql::cut(59, crate::sql::cut(70, Cuts::Last))))))))))));
}

/// [`Delete::DeleteRow`] deletes the rows it names and no other.
pub proof fn law_delete_delete_row_deletes_its_rows(
    id: FeePlanId,
    row: Row,
)
    ensures
        ({
            let sent = Delete::DeleteRow.asks(id);
            &&& delete_plan_reading().is_read(sent)
            &&& delete_plan_reading().picks(sent.binds, row) == (row["id"@] == Cell::Uuid(id.0) && row["assignment_count"@] == Cell::Int(0))
        }),
{
    lemma_delete_plan_reads();
    reveal_with_fuel(crate::sql::all_hold, 3);
}

/// [`Delete::ReadRefused`] reads the rows it names and no other.
pub proof fn law_delete_read_refused_reads_its_rows(
    id: FeePlanId,
    row: Row,
)
    ensures
        ({
            let sent = Delete::ReadRefused.asks(id);
            &&& read_reading().is_read(sent)
            &&& read_reading().picks(sent.binds, row) == (row["id"@] == Cell::Uuid(id.0))
        }),
{
    lemma_read_reads();
    reveal_with_fuel(crate::sql::all_hold, 2);
}

/// What [`CREATE`] says.
pub open spec fn create_reading() -> Storing {
    Storing {
        head: "INSERT INTO "@,
        table: "fee_plan"@,
        columns: seq!["id"@, "name"@, "installments"@, "created_by"@, "created_at"@],
        values: seq![Term::Bind(1), Term::Bind(2), Term::Bind(3), Term::Bind(4), Term::Bind(5)],
        selected: false,
        conflict: Conflict::Unread,
        rest: crate::sql::returning(),
    }
}

proof fn lemma_create_reads()
    ensures
        crate::sql::spells(CREATE@, 0, create_reading().text()),
{
    reveal_strlit("INSERT INTO fee_plan (id, name, installments, created_by, created_at) VALUES ($1, $2, $3, $4, $5) RETURNING id, name, installments, created_by, created_at");
    reveal_strlit("INSERT INTO ");
    reveal_strlit("fee_plan");
    reveal_strlit(" (");
    reveal_strlit("id");
    reveal_strlit(", ");
    reveal_strlit("name");
    reveal_strlit("installments");
    reveal_strlit("created_by");
    reveal_strlit("created_at");
    reveal_strlit(") VALUES (");
    reveal_strlit("$");
    reveal_strlit(")");
    reveal_strlit(" RETURNING ");
    reveal(crate::sql::Storing::text);
    reveal_with_fuel(crate::sql::names_text, 6);
    reveal_with_fuel(crate::sql::values_text, 6);
    reveal_with_fuel(crate::sql::stands, 13);
    reveal_with_fuel(crate::sql::spells_by, 25);
    crate::sql::lemma_spells_by(CREATE@, 0, create_reading().text(), crate::sql::cut(12, crate::sql::cut(20, crate::sql::cut(22, crate::sql::cut(24, crate::sql::cut(26, crate::sql::cut(30, crate::sql::cut(32, crate::sql::cut(44, crate::sql::cut(46, crate::sql::cut(56, crate::sql::cut(58, crate::sql::cut(68, crate::sql::cut(78, crate::sql::cut(80, crate::sql::cut(82, crate::sql::cut(84, crate::sql::cut(86, crate::sql::cut(88, crate::sql::cut(90, crate::sql::cut(92, crate::sql::cut(94, crate::sql::cut(96, crate::sql::cut(97, crate::sql::cut(108, Cuts::Last)))))))))))))))))))))))));
}

/// What [`create`] stores, column by column, is what it is given.
pub proof fn law_create_lands_in_its_columns(
    id: FeePlanId,
    name: &str,
    installments: Installments,
    created_by: UserId,
    created_at: Timestamp,
    sent: Result<Statement, AppError>,
)
    requires
        call_ensures(create, (id, name, installments, created_by, created_at), sent),
        sent is Ok,
    ensures
        create_reading().is_read(sent->Ok_0@),
        create_reading().stores(sent->Ok_0@.binds) == seq![
            ("id"@, Cell::Uuid(id.0)),
            ("name"@, Cell::Text(name@)),
            ("installments"@, Cell::Json(installments.encoded->Ok_0)),
            ("created_by"@, Cell::Uuid(created_by.0)),
            ("created_at"@, Cell::Int(created_at.0 as int)),
        ],
{
    lemma_create_reads();
}

} // verus!
