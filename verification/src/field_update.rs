//! One `UPDATE … RETURNING *` built from only the fields a request carried.
//!
//! A field the request omitted is never written: filling it from a snapshot
//! would re-send a value the client never gave and silently revert a
//! concurrent write of that field. Guards ride the same statement, so what a
//! handler checked against its snapshot is checked again by the database at
//! the instant it writes.

use vstd::prelude::*;

use crate::error::{same_text, AppError, AppErrorView};
use crate::id::Timestamp;
use crate::page::{duplicate, Param, ParamView, Statement, StatementView, Uuid};
use crate::sql::{Cell, Cond, Expr, Row, Term, Text, Writing};
use crate::text::{join, push_placeholder};
use crate::transaction::{Reply, Step};

verus! {

/// The mark of a move whose claimed row is gone.
pub const REFUSAL_MARK: &'static str = "ref_claim_gone";

/// The mark of a move whose link had changed since it was read.
pub const STALE_MARK: &'static str = "ref_stale_move";

/// The mark of a move whose row is gone, or whose own guard refused it.
pub const GONE_MARK: &'static str = "ref_row_gone";

/// The answer to a move off a link that had changed.
pub const STALE_MOVE: &'static str =
    "the link this update moves changed since it was read; re-read and retry";

/// An abort mark packed as an error that no caller observes.
pub fn mark(kind: &'static str) -> (error: AppError)
    ensures
        error@ == AppErrorView::Internal(kind@),
{
    AppError::Internal(kind.to_owned())
}

/// One field of the `SET` list and the value it binds.
#[derive(Debug)]
pub struct SetField {
    pub field: &'static str,
    pub value: Param,
}

/// A range that must hold on the merged row, and the answer where it does not.
#[derive(Debug)]
pub struct Ordered {
    pub low: &'static str,
    pub high: &'static str,
    pub refused: AppError,
}

/// A condition on the row at write time, and the answer where it fails.
#[derive(Debug)]
pub struct Guard {
    pub condition: &'static str,
    pub refused: AppError,
}

/// A reference counter that moves with the write: `link` is the column that
/// carries the reference and `expected` what the snapshot showed in it.
#[derive(Debug)]
pub struct Refcount {
    pub counter_table: &'static str,
    pub counter_field: &'static str,
    pub link: &'static str,
    pub expected: Option<Uuid>,
    pub claim: Option<Uuid>,
    pub release: Option<Uuid>,
    pub refused: AppError,
}

/// An update under construction.
#[derive(Debug)]
pub struct FieldUpdate {
    pub table: &'static str,
    pub id: Uuid,
    pub sets: Vec<SetField>,
    pub ordered: Option<Ordered>,
    pub guard: Option<Guard>,
    pub refcount: Option<Refcount>,
}

/// The counter statements of a move.
#[derive(Debug)]
pub struct Move {
    pub release: Option<Statement>,
    pub claim: Option<Statement>,
    pub probe: Statement,
    pub refused: AppError,
}

/// What an update sends.
#[derive(Debug)]
pub enum UpdatePlan {
    /// The request carried nothing: the row is read back.
    Read(Statement),
    /// One guarded write; `refused` answers a write that matched nothing.
    Write { update: Statement, refused: Option<AppError> },
    /// A write that carries the link: a transaction with its counter move.
    Moved { update: Statement, refused: Option<AppError>, counters: Move },
}

/// The name of each field of a `SET` list.
pub open spec fn names(sets: Seq<SetField>) -> Seq<Seq<char>> {
    Seq::new(sets.len(), |i: int| sets[i].field@)
}

/// The value each field of a `SET` list binds.
pub open spec fn values(sets: Seq<SetField>) -> Seq<ParamView> {
    Seq::new(sets.len(), |i: int| sets[i].value@)
}

/// Whether a `SET` list writes a field.
pub open spec fn writes(fields: Seq<Seq<char>>, field: Seq<char>) -> bool {
    fields.contains(field)
}

/// The place of the first write of a field.
pub open spec fn place(fields: Seq<Seq<char>>, field: Seq<char>) -> int
    decreases fields.len(),
{
    if fields.len() == 0 || fields[0] == field {
        0
    } else {
        1 + place(fields.drop_first(), field)
    }
}

/// `f = $1, g = $2`.
pub open spec fn set_list(fields: Seq<Seq<char>>) -> Seq<char> {
    crate::text::joined(
        Seq::new(fields.len(), |i: int| fields[i] + " = "@ + crate::text::placeholder((i + 1) as nat)),
        ", "@,
    )
}

/// One end of a range on the merged row: the new value where the request
/// carries it, the stored column where it does not.
pub open spec fn side(fields: Seq<Seq<char>>, field: Seq<char>) -> Seq<char> {
    if writes(fields, field) {
        crate::text::placeholder((place(fields, field) + 1) as nat)
    } else {
        field
    }
}

/// The range condition on the merged row; an absent end passes.
pub open spec fn range_condition(
    fields: Seq<Seq<char>>,
    low: Seq<char>,
    high: Seq<char>,
) -> Seq<char> {
    "("@ + side(fields, low) + " IS NULL OR "@ + side(fields, high) + " IS NULL OR "@ + side(
        fields,
        low,
    ) + " <= "@ + side(fields, high) + ")"@
}

impl FieldUpdate {
    /// The fields this update writes.
    pub open spec fn fields(self) -> Seq<Seq<char>> {
        names(self.sets@)
    }

    /// Whether the range guard is armed: only by a request that moves an end.
    pub open spec fn range_armed(self) -> bool {
        self.ordered is Some && (writes(self.fields(), self.ordered->0.low@) || writes(
            self.fields(),
            self.ordered->0.high@,
        ))
    }

    /// Whether the link is carried, which arms the compare on it even where
    /// no counter moves.
    pub open spec fn link_armed(self) -> bool {
        self.refcount is Some && writes(self.fields(), self.refcount->0.link@)
    }

    /// The conditions the caller asked for. The guard stands in brackets, so
    /// one that is a disjunction still speaks of this row alone.
    pub open spec fn own_conditions(self) -> Seq<Seq<char>> {
        (if self.range_armed() {
            seq![range_condition(self.fields(), self.ordered->0.low@, self.ordered->0.high@)]
        } else {
            Seq::<Seq<char>>::empty()
        }) + (match self.guard {
            Some(guard) => seq!["("@ + guard.condition@ + ")"@],
            None => Seq::empty(),
        })
    }

    /// The place of the value the link is compared with.
    pub open spec fn expected_at(self) -> nat {
        self.sets@.len() + 1
    }

    /// The place of the row's key, bound last.
    pub open spec fn id_at(self) -> nat {
        self.sets@.len() + (if self.link_armed() {
            2nat
        } else {
            1nat
        })
    }

    /// The conditions of the write: the caller's own, the compare on the link
    /// where it is carried, and the row's key.
    pub open spec fn conditions(self) -> Seq<Seq<char>> {
        let key = "id = "@ + crate::text::placeholder(self.id_at());
        if self.link_armed() {
            let link = self.refcount->0.link@ + " IS NOT DISTINCT FROM "@
                + crate::text::placeholder(self.expected_at());
            self.own_conditions().push(link).push(key)
        } else {
            self.own_conditions().push(key)
        }
    }

    /// The values of the write: the set fields', the expected link where it
    /// is compared, then the key.
    pub open spec fn write_binds(self) -> Seq<ParamView> {
        if self.link_armed() {
            values(self.sets@).push(ParamView::OptUuid(self.refcount->0.expected)).push(
                ParamView::Uuid(self.id),
            )
        } else {
            values(self.sets@).push(ParamView::Uuid(self.id))
        }
    }

    /// The write.
    pub open spec fn update_sql(self) -> Seq<char> {
        "UPDATE "@ + self.table@ + " SET "@ + set_list(self.fields()) + " WHERE "@
            + crate::text::joined(self.conditions(), " AND "@) + " RETURNING *"@
    }

    /// The probe that tells a moved link from a row that is gone or whose own
    /// guard refused the write: it matches a row that is there, whose own
    /// guards hold and whose link is not the expected one.
    pub open spec fn probe_sql(self) -> Seq<char> {
        let own = self.own_conditions();
        "SELECT 1 FROM "@ + self.table@ + " WHERE id = "@ + crate::text::placeholder(self.id_at())
            + " AND "@ + (if own.len() == 0 {
            Seq::empty()
        } else {
            "("@ + crate::text::joined(own, " AND "@) + ") AND "@
        }) + self.refcount->0.link@ + " IS DISTINCT FROM "@ + crate::text::placeholder(
            self.expected_at(),
        ) + " LIMIT 1"@
    }

    /// What a write that matched nothing answers: the range's refusal where
    /// it is armed, else the guard's, else that the row is gone.
    pub open spec fn refusal(self) -> Option<AppErrorView> {
        if self.range_armed() {
            Some(self.ordered->0.refused@)
        } else {
            match self.guard {
                Some(guard) => Some(guard.refused@),
                None => None,
            }
        }
    }

    /// An update of the row `id` of `table` that carries nothing yet.
    pub fn new(table: &'static str, id: Uuid) -> (update: FieldUpdate)
        ensures
            update.table@ == table@,
            update.id == id,
            update.sets@.len() == 0,
            update.ordered is None,
            update.guard is None,
            update.refcount is None,
    {
        FieldUpdate { table, id, sets: Vec::new(), ordered: None, guard: None, refcount: None }
    }

    /// Writes `field` only when the request carried it.
    #[must_use]
    pub fn set(self, field: &'static str, value: Option<Param>) -> (update: FieldUpdate)
        ensures
            update.table == self.table,
            update.id == self.id,
            update.ordered == self.ordered,
            update.guard == self.guard,
            update.refcount == self.refcount,
            names(update.sets@) == (if value is Some {
                names(self.sets@).push(field@)
            } else {
                names(self.sets@)
            }),
            values(update.sets@) == (if value is Some {
                values(self.sets@).push(value->0@)
            } else {
                values(self.sets@)
            }),
    {
        let mut update = self;
        match value {
            Some(value) => {
                update.sets.push(SetField { field, value });
            },
            None => {},
        }
        update
    }

    /// Refuses the write unless `low <= high` holds on the merged row.
    #[must_use]
    pub fn ordered(
        self,
        low: &'static str,
        high: &'static str,
        refused: AppError,
    ) -> (update: FieldUpdate)
        ensures
            update == (FieldUpdate { ordered: Some(Ordered { low, high, refused }), ..self }),
    {
        let mut update = self;
        update.ordered = Some(Ordered { low, high, refused });
        update
    }

    /// Refuses the write unless `condition` holds of the row at write time.
    #[must_use]
    pub fn guard(self, condition: &'static str, refused: AppError) -> (update: FieldUpdate)
        ensures
            update == (FieldUpdate { guard: Some(Guard { condition, refused }), ..self }),
    {
        let mut update = self;
        update.guard = Some(Guard { condition, refused });
        update
    }

    /// Moves a reference counter with the write.
    #[must_use]
    pub fn refcount(self, refcount: Refcount) -> (update: FieldUpdate)
        ensures
            update == (FieldUpdate { refcount: Some(refcount), ..self }),
    {
        let mut update = self;
        update.refcount = Some(refcount);
        update
    }
}

proof fn lemma_place(fields: Seq<Seq<char>>, field: Seq<char>, at: int)
    requires
        0 <= at < fields.len(),
        fields[at] == field,
        forall|k: int| 0 <= k < at ==> fields[k] != field,
    ensures
        place(fields, field) == at,
    decreases at,
{
    if at > 0 {
        assert(fields[0] != field);
        let rest = fields.drop_first();
        assert forall|k: int| 0 <= k < at - 1 implies rest[k] != field by {
            assert(rest[k] == fields[k + 1]);
        }
        lemma_place(rest, field, at - 1);
    }
}

/// The place of the first write of `field`, if there is one.
fn position(sets: &Vec<SetField>, field: &str) -> (at: Option<usize>)
    ensures
        at is Some == writes(names(sets@), field@),
        at is Some ==> at->0 == place(names(sets@), field@) && at->0 < sets.len(),
{
    let mut i: usize = 0;
    while i < sets.len()
        invariant
            0 <= i <= sets.len(),
            forall|k: int| 0 <= k < i ==> #[trigger] names(sets@)[k] != field@,
        decreases sets.len() - i,
    {
        if same_text(sets[i].field, field) {
            assert(names(sets@)[i as int] == field@);
            proof {
                lemma_place(names(sets@), field@, i as int);
            }
            return Some(i);
        }
        assert(names(sets@)[i as int] != field@);
        i += 1;
    }
    None
}

fn is_set(sets: &Vec<SetField>, field: &str) -> (yes: bool)
    ensures
        yes == writes(names(sets@), field@),
{
    position(sets, field).is_some()
}

fn side_text(sets: &Vec<SetField>, field: &str) -> (text: String)
    ensures
        text@ == side(names(sets@), field@),
{
    match position(sets, field) {
        Some(at) => {
            let mut text = String::new();
            push_placeholder(&mut text, at as u128 + 1);
            assert(text@ =~= side(names(sets@), field@));
            text
        },
        None => field.to_owned(),
    }
}

fn range_text(sets: &Vec<SetField>, low: &str, high: &str) -> (text: String)
    ensures
        text@ == range_condition(names(sets@), low@, high@),
{
    let low_side = side_text(sets, low);
    let high_side = side_text(sets, high);
    let mut text = "(".to_owned();
    text.append(low_side.as_str());
    text.append(" IS NULL OR ");
    text.append(high_side.as_str());
    text.append(" IS NULL OR ");
    text.append(low_side.as_str());
    text.append(" <= ");
    text.append(high_side.as_str());
    text.append(")");
    text
}

fn set_text(sets: &Vec<SetField>) -> (text: String)
    ensures
        text@ == set_list(names(sets@)),
{
    let mut parts: Vec<String> = Vec::new();
    let mut i: usize = 0;
    while i < sets.len()
        invariant
            0 <= i <= sets.len(),
            parts.len() == i,
            forall|k: int|
                0 <= k < i ==> (#[trigger] parts@[k])@ == names(sets@)[k] + " = "@
                    + crate::text::placeholder((k + 1) as nat),
        decreases sets.len() - i,
    {
        let mut part = sets[i].field.to_owned();
        part.append(" = ");
        push_placeholder(&mut part, i as u128 + 1);
        parts.push(part);
        i += 1;
    }
    let ghost expected = Seq::new(
        names(sets@).len(),
        |i: int| names(sets@)[i] + " = "@ + crate::text::placeholder((i + 1) as nat),
    );
    assert(crate::text::views(parts@) =~= expected);
    join(&parts, ", ")
}

fn set_values(sets: &Vec<SetField>) -> (binds: Vec<Param>)
    ensures
        crate::page::bound(binds@) == values(sets@),
{
    let mut binds: Vec<Param> = Vec::new();
    let mut i: usize = 0;
    while i < sets.len()
        invariant
            0 <= i <= sets.len(),
            binds.len() == i,
            forall|k: int| 0 <= k < i ==> (#[trigger] binds@[k])@ == sets@[k].value@,
        decreases sets.len() - i,
    {
        binds.push(sets[i].value.duplicate());
        i += 1;
    }
    binds
}

impl Refcount {
    /// The statement that gives one reference back, never below zero.
    pub open spec fn release_sql(self) -> Seq<char> {
        "UPDATE "@ + self.counter_table@ + " SET "@ + self.counter_field@ + " = GREATEST("@
            + self.counter_field@ + " - 1, 0) WHERE id = $1"@
    }

    /// The statement that takes one reference, and replies nothing where the
    /// claimed row is gone.
    pub open spec fn claim_sql(self) -> Seq<char> {
        "UPDATE "@ + self.counter_table@ + " SET "@ + self.counter_field@ + " = "@
            + self.counter_field@ + " + 1 WHERE id = $1 RETURNING 1"@
    }

    /// The statement that releases a row, where one is released.
    fn release_statement(&self) -> (statement: Option<Statement>)
        ensures
            statement is Some == self.release is Some,
            statement is Some ==> statement->0@ == (StatementView {
                sql: self.release_sql(),
                binds: seq![ParamView::Uuid(self.release->0)],
            }),
    {
        match self.release {
            Some(row) => {
                let mut sql = "UPDATE ".to_owned();
                sql.append(self.counter_table);
                sql.append(" SET ");
                sql.append(self.counter_field);
                sql.append(" = GREATEST(");
                sql.append(self.counter_field);
                sql.append(" - 1, 0) WHERE id = $1");
                let statement = Statement { sql, binds: vec![Param::Uuid(row)] };
                assert(statement@.binds =~= seq![ParamView::Uuid(row)]);
                Some(statement)
            },
            None => None,
        }
    }

    /// The statement that claims a row, where one is claimed.
    fn claim_statement(&self) -> (statement: Option<Statement>)
        ensures
            statement is Some == self.claim is Some,
            statement is Some ==> statement->0@ == (StatementView {
                sql: self.claim_sql(),
                binds: seq![ParamView::Uuid(self.claim->0)],
            }),
    {
        match self.claim {
            Some(row) => {
                let mut sql = "UPDATE ".to_owned();
                sql.append(self.counter_table);
                sql.append(" SET ");
                sql.append(self.counter_field);
                sql.append(" = ");
                sql.append(self.counter_field);
                sql.append(" + 1 WHERE id = $1 RETURNING 1");
                let statement = Statement { sql, binds: vec![Param::Uuid(row)] };
                assert(statement@.binds =~= seq![ParamView::Uuid(row)]);
                Some(statement)
            },
            None => None,
        }
    }
}

impl FieldUpdate {
    /// Whether `plan` is what this update sends.
    pub open spec fn sends(self, plan: UpdatePlan) -> bool {
        if self.sets@.len() == 0 {
            plan matches UpdatePlan::Read(read) && read@ == (StatementView {
                sql: "SELECT * FROM "@ + self.table@ + " WHERE id = $1"@,
                binds: seq![ParamView::Uuid(self.id)],
            })
        } else if !self.link_armed() {
            plan matches UpdatePlan::Write { update, refused } && self.is_write(update, refused)
        } else {
            plan matches UpdatePlan::Moved { update, refused, counters } && self.is_write(
                update,
                refused,
            ) && self.is_move(counters)
        }
    }

    /// Whether `update` is the guarded write and `refused` its refusal.
    pub open spec fn is_write(self, update: Statement, refused: Option<AppError>) -> bool {
        &&& update@ == (StatementView { sql: self.update_sql(), binds: self.write_binds() })
        &&& refused is Some == self.refusal() is Some
        &&& refused is Some ==> refused->0@ == self.refusal()->0
    }

    /// Whether `counters` moves the counter of this update's link.
    pub open spec fn is_move(self, counters: Move) -> bool {
        let refcount = self.refcount->0;
        &&& counters.release is Some == refcount.release is Some
        &&& counters.release is Some ==> counters.release->0@ == (StatementView {
            sql: refcount.release_sql(),
            binds: seq![ParamView::Uuid(refcount.release->0)],
        })
        &&& counters.claim is Some == refcount.claim is Some
        &&& counters.claim is Some ==> counters.claim->0@ == (StatementView {
            sql: refcount.claim_sql(),
            binds: seq![ParamView::Uuid(refcount.claim->0)],
        })
        &&& counters.probe@ == (StatementView {
            sql: self.probe_sql(),
            binds: self.write_binds(),
        })
        &&& counters.refused == refcount.refused
    }

    /// What the update sends. A request that carries nothing reads the row
    /// back; one that carries the link is a transaction with its counter
    /// move, whether or not a counter shifts; any other is one guarded write.
    pub fn run(self) -> (plan: UpdatePlan)
        ensures
            self.sends(plan),
    {
        let ghost this = self;
        if self.sets.len() == 0 {
            let mut sql = "SELECT * FROM ".to_owned();
            sql.append(self.table);
            sql.append(" WHERE id = $1");
            let read = Statement { sql, binds: vec![Param::Uuid(self.id)] };
            assert(read@.binds =~= seq![ParamView::Uuid(self.id)]);
            return UpdatePlan::Read(read);
        }
        let FieldUpdate { table, id, sets, ordered, guard, refcount } = self;
        let mut refused: Option<AppError> = None;
        let mut conditions: Vec<String> = Vec::new();
        match ordered {
            Some(range) => if is_set(&sets, range.low) || is_set(&sets, range.high) {
                conditions.push(range_text(&sets, range.low, range.high));
                refused = Some(range.refused);
            },
            None => {},
        }
        match guard {
            Some(guard) => {
                let mut condition = "(".to_owned();
                condition.append(guard.condition);
                condition.append(")");
                conditions.push(condition);
                if refused.is_none() {
                    refused = Some(guard.refused);
                }
            },
            None => {},
        }
        assert(crate::text::views(conditions@) =~= this.own_conditions());
        let own_count: usize = conditions.len();
        let own = join(&conditions, " AND ");
        let mut binds = set_values(&sets);
        let given: u128 = sets.len() as u128;
        let armed: Option<Refcount> = match refcount {
            Some(refcount) => if is_set(&sets, refcount.link) {
                Some(refcount)
            } else {
                None
            },
            None => None,
        };
        assert(armed is Some == this.link_armed());
        let id_at: u128 = if armed.is_some() {
            given + 2
        } else {
            given + 1
        };
        match &armed {
            Some(refcount) => {
                let mut compare = refcount.link.to_owned();
                compare.append(" IS NOT DISTINCT FROM ");
                push_placeholder(&mut compare, given + 1);
                conditions.push(compare);
                binds.push(Param::OptUuid(refcount.expected));
            },
            None => {},
        }
        let mut key = "id = ".to_owned();
        push_placeholder(&mut key, id_at);
        conditions.push(key);
        binds.push(Param::Uuid(id));
        assert(crate::text::views(conditions@) =~= this.conditions());
        assert(crate::page::bound(binds@) =~= this.write_binds());
        let set_sql = set_text(&sets);
        let condition_sql = join(&conditions, " AND ");
        let mut sql = "UPDATE ".to_owned();
        sql.append(table);
        sql.append(" SET ");
        sql.append(set_sql.as_str());
        sql.append(" WHERE ");
        sql.append(condition_sql.as_str());
        sql.append(" RETURNING *");
        match armed {
            Some(refcount) => {
                let mut probe = "SELECT 1 FROM ".to_owned();
                probe.append(table);
                probe.append(" WHERE id = ");
                push_placeholder(&mut probe, id_at);
                probe.append(" AND ");
                let ghost head = probe@;
                if own_count > 0 {
                    probe.append("(");
                    probe.append(own.as_str());
                    probe.append(") AND ");
                    assert(probe@ =~= head + ("("@ + own@ + ") AND "@));
                } else {
                    assert(probe@ =~= head + Seq::<char>::empty());
                }
                probe.append(refcount.link);
                probe.append(" IS DISTINCT FROM ");
                push_placeholder(&mut probe, given + 1);
                probe.append(" LIMIT 1");
                let probe_binds = duplicate(&binds);
                let release = refcount.release_statement();
                let claim = refcount.claim_statement();
                let counters = Move {
                    release,
                    claim,
                    probe: Statement { sql: probe, binds: probe_binds },
                    refused: refcount.refused,
                };
                UpdatePlan::Moved { update: Statement { sql, binds }, refused, counters }
            },
            None => UpdatePlan::Write { update: Statement { sql, binds }, refused },
        }
    }
}

/// The value a field carries as text, where it is carried.
pub open spec fn text_field(value: Option<String>) -> Option<ParamView> {
    match value {
        Some(text) => Some(ParamView::Text(text@)),
        None => None,
    }
}

/// The value a field carries as a moment, where it is carried.
pub open spec fn moment_field(value: Option<Timestamp>) -> Option<ParamView> {
    match value {
        Some(at) => Some(ParamView::I64(at.0)),
        None => None,
    }
}

/// A text to write, where the request carries it.
pub fn text_param(value: Option<String>) -> (param: Option<Param>)
    ensures
        param is Some == value is Some,
        param is Some ==> param->0@ == ParamView::Text(value->0@),
{
    match value {
        Some(text) => Some(Param::Text(text)),
        None => None,
    }
}

/// A moment to write, where the request carries it.
pub fn moment_param(value: Option<Timestamp>) -> (param: Option<Param>)
    ensures
        param is Some == value is Some,
        param is Some ==> param->0@ == ParamView::I64((value->0).0),
{
    match value {
        Some(at) => Some(Param::I64(at.0)),
        None => None,
    }
}

/// The fields a request carried, in order.
pub open spec fn carried_names(request: Seq<(Seq<char>, Option<ParamView>)>) -> Seq<Seq<char>>
    decreases request.len(),
{
    if request.len() == 0 {
        Seq::empty()
    } else {
        let before = carried_names(request.drop_last());
        if request.last().1 is Some {
            before.push(request.last().0)
        } else {
            before
        }
    }
}

/// The values of the fields a request carried, in order.
pub open spec fn carried_values(request: Seq<(Seq<char>, Option<ParamView>)>) -> Seq<ParamView>
    decreases request.len(),
{
    if request.len() == 0 {
        Seq::empty()
    } else {
        let before = carried_values(request.drop_last());
        if request.last().1 is Some {
            before.push(request.last().1->0)
        } else {
            before
        }
    }
}

/// Whether `plan` updates the row `id` of `table` with what a request
/// carried, guarded at most by a range.
pub open spec fn updates(
    plan: UpdatePlan,
    table: Seq<char>,
    id: Uuid,
    request: Seq<(Seq<char>, Option<ParamView>)>,
    range: Option<(Seq<char>, Seq<char>, AppErrorView)>,
) -> bool {
    exists|update: FieldUpdate| #[trigger]
        update.sends(plan) && update.table@ == table && update.id == id && update.fields()
            == carried_names(request) && values(update.sets@) == carried_values(request)
            && update.guard is None && update.refcount is None && (match range {
            Some((low, high, refused)) => update.ordered is Some && update.ordered->0.low@ == low
                && update.ordered->0.high@ == high && update.ordered->0.refused@ == refused,
            None => update.ordered is None,
        })
}

/// A field the request omitted is never written.
pub proof fn law_omitted_field_is_never_written(
    request: Seq<(Seq<char>, Option<ParamView>)>,
    field: Seq<char>,
)
    requires
        forall|i: int|
            0 <= i < request.len() && (#[trigger] request[i]).0 == field ==> request[i].1 is None,
    ensures
        !writes(carried_names(request), field),
    decreases request.len(),
{
    if request.len() > 0 {
        let earlier = request.drop_last();
        assert forall|i: int|
            0 <= i < earlier.len() && (#[trigger] earlier[i]).0 == field implies earlier[i].1
            is None by {
            assert(request[i] == earlier[i]);
        }
        law_omitted_field_is_never_written(earlier, field);
        let last = request[request.len() - 1];
        if last.1 is Some {
            let before = carried_names(earlier);
            let after = before.push(last.0);
            if after.contains(field) {
                let i = after.index_of(field);
                if i < before.len() {
                    assert(before[i] == field);
                }
            }
        }
    }
}

/// The answer of an update: the stored row, or the refusal of a write that
/// matched nothing, which is that the row is gone where nothing guards it.
pub fn answer<T>(row: Option<T>, refused: Option<AppError>) -> (result: Result<T, AppError>)
    ensures
        row is Some ==> result == Ok::<T, AppError>(row->0),
        row is None ==> result is Err && result->Err_0@ == (match refused {
            Some(refused) => refused@,
            None => AppErrorView::NotFound,
        }),
{
    match row {
        Some(row) => Ok(row),
        None => match refused {
            Some(refused) => Err(refused),
            None => Err(AppError::NotFound),
        },
    }
}

/// The statement a counter move waits for.
#[derive(Clone, Copy, PartialEq, Eq, Structural, Debug)]
pub enum Moving {
    /// Give a reference back on the row the link moves off.
    Release,
    /// Take a reference on the row the link moves to.
    Claim,
    /// Write the row, guarded; its row is the answer.
    Update,
    /// Ask whether only the link had moved.
    Probe,
}

/// Why a counter move is rolled back.
#[derive(Clone, Copy, PartialEq, Eq, Structural, Debug)]
pub enum MoveRefusal {
    /// The claimed row is gone.
    ClaimGone,
    /// The link had changed since it was read.
    Stale,
    /// The row is gone, or its own guard refused the write.
    Gone,
}

impl MoveRefusal {
    /// The mark of each refusal.
    pub open spec fn marked(self) -> Seq<char> {
        match self {
            MoveRefusal::ClaimGone => REFUSAL_MARK@,
            MoveRefusal::Stale => STALE_MARK@,
            MoveRefusal::Gone => GONE_MARK@,
        }
    }

    /// The error a refused move leaves its transaction with.
    pub fn error(self) -> (error: AppError)
        ensures
            error@ == AppErrorView::Internal(self.marked()),
    {
        match self {
            MoveRefusal::ClaimGone => mark(REFUSAL_MARK),
            MoveRefusal::Stale => mark(STALE_MARK),
            MoveRefusal::Gone => mark(GONE_MARK),
        }
    }
}

/// The first statement of a move: the release goes before the claim.
pub open spec fn move_start(release: bool, claim: bool) -> Moving {
    if release {
        Moving::Release
    } else if claim {
        Moving::Claim
    } else {
        Moving::Update
    }
}

/// What a move does once the statement of `at` is answered.
pub open spec fn move_next(at: Moving, claim: bool, reply: Reply) -> Step<Moving, (), MoveRefusal> {
    match at {
        Moving::Release => if claim {
            Step::Ask(Moving::Claim)
        } else {
            Step::Ask(Moving::Update)
        },
        Moving::Claim => if reply.has_row() {
            Step::Ask(Moving::Update)
        } else {
            Step::Abort(MoveRefusal::ClaimGone)
        },
        Moving::Update => if reply.has_row() {
            Step::Commit(())
        } else {
            Step::Ask(Moving::Probe)
        },
        Moving::Probe => if reply.has_row() {
            Step::Abort(MoveRefusal::Stale)
        } else {
            Step::Abort(MoveRefusal::Gone)
        },
    }
}

/// The first statement of a counter move.
pub fn start_refcount_tx(release: bool, claim: bool) -> (first: Moving)
    ensures
        first == move_start(release, claim),
{
    if release {
        Moving::Release
    } else if claim {
        Moving::Claim
    } else {
        Moving::Update
    }
}

/// One counter move: the release, the claim, the guarded row write and, on an
/// empty write, the probe that tells a stale link apart from a row that is
/// gone.
pub fn run_refcount_tx(at: Moving, claim: bool, reply: Reply) -> (step: Step<
    Moving,
    (),
    MoveRefusal,
>)
    ensures
        step == move_next(at, claim, reply),
{
    match at {
        Moving::Release => if claim {
            Step::Ask(Moving::Claim)
        } else {
            Step::Ask(Moving::Update)
        },
        Moving::Claim => if reply.row() {
            Step::Ask(Moving::Update)
        } else {
            Step::Abort(MoveRefusal::ClaimGone)
        },
        Moving::Update => if reply.row() {
            Step::Commit(())
        } else {
            Step::Ask(Moving::Probe)
        },
        Moving::Probe => if reply.row() {
            Step::Abort(MoveRefusal::Stale)
        } else {
            Step::Abort(MoveRefusal::Gone)
        },
    }
}

/// Whether an error is the internal mark `kind`.
pub open spec fn is_marked(error: AppError, kind: Seq<char>) -> bool {
    error@ == AppErrorView::Internal(kind)
}

/// What a finished move comes to: a refused claim is the caller's refusal, a
/// stale link a conflict, and a row that is gone a write that matched
/// nothing. No mark leaves this function.
pub fn run_with_refcount<T>(outcome: Result<Option<T>, AppError>, refused: AppError) -> (row: Result<
    Option<T>,
    AppError,
>)
    ensures
        outcome is Ok ==> row == outcome,
        outcome is Err ==> {
            let error = outcome->Err_0;
            if is_marked(error, REFUSAL_MARK@) {
                row == Err::<Option<T>, AppError>(refused)
            } else if is_marked(error, STALE_MARK@) {
                row is Err && row->Err_0@ == AppErrorView::Conflict(STALE_MOVE@)
            } else if is_marked(error, GONE_MARK@) {
                row is Ok && row->Ok_0 is None
            } else {
                row == outcome
            }
        },
{
    match outcome {
        Ok(row) => Ok(row),
        Err(error) => {
            let kind: u8 = match &error {
                AppError::Internal(text) => if same_text(text.as_str(), REFUSAL_MARK) {
                    1
                } else if same_text(text.as_str(), STALE_MARK) {
                    2
                } else if same_text(text.as_str(), GONE_MARK) {
                    3
                } else {
                    0
                },
                _ => 0,
            };
            if kind == 1 {
                Err(refused)
            } else if kind == 2 {
                Err(AppError::Conflict(STALE_MOVE))
            } else if kind == 3 {
                Ok(None)
            } else {
                Err(error)
            }
        },
    }
}

/// A row that carries a link, and whether the update's own guards hold of it.
pub struct LinkRow {
    pub link: Option<Uuid>,
    pub guarded: bool,
}

/// The tables of a counter move.
#[verifier::ext_equal]
pub struct Links {
    pub rows: Map<Uuid, LinkRow>,
    pub counters: Map<Uuid, int>,
}

/// A move of the link of `id`, read as `expected`, to `target`.
pub struct LinkMove {
    pub id: Uuid,
    pub expected: Option<Uuid>,
    pub target: Option<Uuid>,
}

impl LinkMove {
    /// The row that is claimed: the target, where the link changes.
    pub open spec fn claim(self) -> Option<Uuid> {
        if self.target == self.expected {
            None
        } else {
            self.target
        }
    }

    /// The row that is released: the one linked before, where the link changes.
    pub open spec fn release(self) -> Option<Uuid> {
        if self.target == self.expected {
            None
        } else {
            self.expected
        }
    }
}

impl Links {
    /// Every counter is the number of rows linked to it.
    pub open spec fn counted(self) -> bool {
        &&& self.rows.dom().finite()
        &&& forall|parent: Uuid| #[trigger]
            self.counters.contains_key(parent) ==> self.counters[parent] == crate::tally::tally(
                self.rows,
                linked_to(parent),
            )
    }
}

/// The rows linked to `parent`.
pub open spec fn linked_to(parent: Uuid) -> spec_fn(Uuid, LinkRow) -> bool {
    |key: Uuid, row: LinkRow| row.link == Some(parent)
}

/// What each statement of a move does to the tables, and what it replies.
pub open spec fn move_effect(db: Links, change: LinkMove, at: Moving) -> (Links, Reply) {
    match at {
        Moving::Release => (
            match change.release() {
                Some(parent) if db.counters.contains_key(parent) => Links {
                    counters: db.counters.insert(
                        parent,
                        crate::tally::floored(db.counters[parent] - 1),
                    ),
                    ..db
                },
                _ => db,
            },
            Reply::Row,
        ),
        Moving::Claim => match change.claim() {
            Some(parent) if db.counters.contains_key(parent) => (
                Links {
                    counters: db.counters.insert(parent, db.counters[parent] + 1),
                    ..db
                },
                Reply::Row,
            ),
            _ => (db, Reply::Empty),
        },
        Moving::Update => if db.rows.contains_key(change.id) && db.rows[change.id].guarded
            && db.rows[change.id].link == change.expected {
            (
                Links {
                    rows: db.rows.insert(
                        change.id,
                        LinkRow { link: change.target, ..db.rows[change.id] },
                    ),
                    ..db
                },
                Reply::Row,
            )
        } else {
            (db, Reply::Empty)
        },
        Moving::Probe => (
            db,
            if db.rows.contains_key(change.id) && db.rows[change.id].guarded
                && db.rows[change.id].link != change.expected {
                Reply::Row
            } else {
                Reply::Empty
            },
        ),
    }
}

/// A whole move against the tables.
pub open spec fn move_run(db: Links, change: LinkMove) -> (Links, Step<Moving, (), MoveRefusal>) {
    crate::transaction::run(
        db,
        Step::Ask(move_start(change.release() is Some, change.claim() is Some)),
        |at: Moving, reply: Reply| move_next(at, change.claim() is Some, reply),
        |tables: Links, at: Moving| move_effect(tables, change, at),
        4,
    )
}

/// What the tables hold after a move, committed or rolled back.
pub open spec fn after_move(db: Links, change: LinkMove) -> Links {
    crate::transaction::stored(db, move_run(db, change))
}

/// The refusal a move meets, if any. A claim that is gone is met first; a
/// link that moved is reported only of a row that is there and whose own
/// guards hold.
pub open spec fn move_refusal(db: Links, change: LinkMove) -> Option<MoveRefusal> {
    if change.claim() is Some && !db.counters.contains_key(change.claim()->0) {
        Some(MoveRefusal::ClaimGone)
    } else if !db.rows.contains_key(change.id) || !db.rows[change.id].guarded {
        Some(MoveRefusal::Gone)
    } else if db.rows[change.id].link != change.expected {
        Some(MoveRefusal::Stale)
    } else {
        None
    }
}

/// A move lands exactly when its claimed row is there, its own guards hold
/// and the link is still the one that was read: a mover and a re-stater that
/// read a link someone has since moved are both refused, and a re-statement
/// of the stored link lands. A refused move leaves every row and counter as
/// it was.
pub proof fn law_move_answers(db: Links, change: LinkMove)
    ensures
        move_run(db, change).1 == crate::transaction::ends::<Moving, (), MoveRefusal>(
            (),
            move_refusal(db, change),
        ),
        move_refusal(db, change) is Some ==> after_move(db, change) == db,
{
    reveal_with_fuel(crate::transaction::run, 5);
}

/// A move keeps every counter equal to the rows linked to it, whether it
/// lands or is refused.
pub proof fn law_move_keeps_counters(db: Links, change: LinkMove)
    requires
        db.counted(),
    ensures
        after_move(db, change).counted(),
{
    law_move_answers(db, change);
    if move_refusal(db, change) is None {
        reveal_with_fuel(crate::transaction::run, 5);
        let after = after_move(db, change);
        let row = LinkRow { link: change.target, ..db.rows[change.id] };
        assert(after.rows == db.rows.insert(change.id, row));
        assert forall|parent: Uuid| #[trigger] after.counters.contains_key(parent) implies
            after.counters[parent] == crate::tally::tally(after.rows, linked_to(parent)) by {
            assert(db.counters.contains_key(parent));
            crate::tally::lemma_tally_insert(db.rows, change.id, row, linked_to(parent));
            crate::tally::lemma_tally_holds(db.rows, change.id, linked_to(parent));
        }
    }
}

/// Moving a link and moving it back leaves the rows and the counters as they
/// were.
pub proof fn law_move_and_back(db: Links, change: LinkMove)
    requires
        db.counted(),
        move_refusal(db, change) is None,
        change.expected is Some ==> db.counters.contains_key(change.expected->0),
    ensures
        ({
            let back = LinkMove {
                id: change.id,
                expected: change.target,
                target: change.expected,
            };
            after_move(after_move(db, change), back) == db
        }),
{
    let between = after_move(db, change);
    let back = LinkMove { id: change.id, expected: change.target, target: change.expected };
    law_move_answers(db, change);
    law_move_keeps_counters(db, change);
    law_move_answers(between, back);
    law_move_keeps_counters(between, back);
    reveal_with_fuel(crate::transaction::run, 5);
    let after = after_move(between, back);
    assert(after.rows =~= db.rows);
    assert(after.counters.dom() =~= db.counters.dom());
    assert forall|parent: Uuid| #[trigger] db.counters.contains_key(parent) implies
        after.counters[parent] == db.counters[parent] by {
        assert(after.counters.contains_key(parent));
    }
    assert(after.counters =~= db.counters);
}

impl FieldUpdate {
    /// What the write says: each field is set to the value bound at its place.
    /// What stands behind `WHERE` is read apart.
    pub open spec fn reading(self) -> Writing {
        Writing {
            head: "UPDATE "@,
            table: self.table@,
            sets: Seq::new(
                self.sets@.len(),
                |k: int| (self.sets@[k].field@, crate::sql::bind((k + 1) as nat)),
            ),
            conditions: Seq::empty(),
            rest: crate::sql::before(" WHERE "@, Text::Open),
        }
    }

    /// The write that is sent.
    pub open spec fn sent(self) -> StatementView {
        StatementView { sql: self.update_sql(), binds: self.write_binds() }
    }

    /// The one end of a range on the merged row.
    pub open spec fn side_term(self, field: Seq<char>) -> Term {
        if writes(self.fields(), field) {
            Term::Bind((place(self.fields(), field) + 1) as nat)
        } else {
            Term::Column(field)
        }
    }
}

proof fn lemma_joined_first(parts: Seq<Seq<char>>, separator: Seq<char>)
    requires
        parts.len() >= 2,
    ensures
        crate::text::joined(parts, separator) == parts[0] + separator + crate::text::joined(
            parts.drop_first(),
            separator,
        ),
    decreases parts.len(),
{
    let rest = parts.drop_first();
    if parts.len() == 2 {
        assert(parts.drop_last().len() == 1);
        assert(parts.drop_last()[0] == parts[0]);
        assert(rest.len() == 1 && rest[0] == parts[1]);
        assert(crate::text::joined(parts.drop_last(), separator) == parts[0]);
        assert(crate::text::joined(rest, separator) == parts[1]);
        assert(crate::text::joined(parts, separator) =~= parts[0] + separator + parts[1]);
    } else {
        lemma_joined_first(parts.drop_last(), separator);
        assert(parts.drop_last().drop_first() =~= rest.drop_last());
        assert(rest.last() == parts.last());
        let inner = crate::text::joined(rest.drop_last(), separator);
        assert(crate::text::joined(rest, separator) == inner + separator + rest.last());
        assert(crate::text::joined(parts, separator) == crate::text::joined(
            parts.drop_last(),
            separator,
        ) + separator + parts.last());
        assert(parts[0] + separator + inner + separator + rest.last() =~= parts[0] + separator + (
        inner + separator + rest.last()));
    }
}

proof fn lemma_set_regrouped(
    a: Seq<char>,
    b: Seq<char>,
    c: Seq<char>,
    d: Seq<char>,
    e: Seq<char>,
)
    ensures
        a + (b + (c + (d + e))) == a + (b + c + d) + e,
{
    assert(a + (b + (c + (d + e))) =~= a + (b + c + d) + e);
}

proof fn lemma_list_regrouped(
    a: Seq<char>,
    b: Seq<char>,
    c: Seq<char>,
    d: Seq<char>,
    e: Seq<char>,
)
    ensures
        a + b + (c + d + e) == a + (b + c + d) + e,
{
    assert(a + b + (c + d + e) =~= a + (b + c + d) + e);
}

#[verifier::rlimit(40)]
#[verifier::spinoff_prover]
proof fn lemma_set_text(fields: Seq<Seq<char>>, sets: Seq<(Seq<char>, Expr)>, i: nat, rest: Text)
    requires
        i < fields.len() == sets.len(),
        forall|k: int|
            0 <= k < sets.len() ==> #[trigger] sets[k] == (
                fields[k],
                crate::sql::bind((k + 1) as nat),
            ),
    ensures
        crate::sql::flat(crate::sql::set_text(sets, i, rest)) == (if i == 0 {
            " SET "@
        } else {
            ", "@
        }) + crate::text::joined(
            Seq::new(
                fields.len(),
                |k: int| fields[k] + " = "@ + crate::text::placeholder((k + 1) as nat),
            ).skip(i as int),
            ", "@,
        ) + crate::sql::flat(rest),
    decreases fields.len() - i,
{
    let parts = Seq::new(
        fields.len(),
        |k: int| fields[k] + " = "@ + crate::text::placeholder((k + 1) as nat),
    );
    let mark = if i == 0 {
        " SET "@
    } else {
        ", "@
    };
    let from = parts.skip(i as int);
    let part = fields[i as int] + " = "@ + crate::text::placeholder((i + 1) as nat);
    assert(sets[i as int] == (fields[i as int], crate::sql::bind((i + 1) as nat)));
    assert(from[0] == part);
    let more = crate::sql::set_text(sets, i + 1, rest);
    let here = crate::sql::set_text(sets, i, rest);
    reveal_with_fuel(crate::sql::flat, 6);
    assert(crate::sql::flat(here) == mark + (fields[i as int] + (" = "@ + (
    crate::text::placeholder((i + 1) as nat) + crate::sql::flat(more)))));
    lemma_set_regrouped(
        mark,
        fields[i as int],
        " = "@,
        crate::text::placeholder((i + 1) as nat),
        crate::sql::flat(more),
    );
    assert(crate::sql::flat(here) == mark + part + crate::sql::flat(more));
    if i + 1 < fields.len() {
        lemma_set_text(fields, sets, i + 1, rest);
        lemma_joined_first(from, ", "@);
        assert(from.drop_first() =~= parts.skip((i + 1) as int));
        let later = crate::text::joined(parts.skip((i + 1) as int), ", "@);
        lemma_list_regrouped(mark, part, ", "@, later, crate::sql::flat(rest));
    } else {
        assert(from.len() == 1);
        assert(crate::text::joined(from, ", "@) == part);
    }
}

proof fn lemma_regrouped(
    a: Seq<char>,
    b: Seq<char>,
    c: Seq<char>,
    d: Seq<char>,
    e: Seq<char>,
    f: Seq<char>,
    g: Seq<char>,
)
    ensures
        a + b + c + d + e + f + g == a + (b + (c + d + e)) + (f + g),
{
    assert(a + b + c + d + e + f + g =~= a + (b + (c + d + e)) + (f + g));
}

/// The write as it is sent is read as setting each field to the value bound at
/// its place.
#[verifier::rlimit(40)]
#[verifier::spinoff_prover]
pub proof fn law_write_is_read(update: FieldUpdate)
    requires
        update.sets@.len() > 0,
    ensures
        update.reading().is_read(update.sent()),
{
    let reading = update.reading();
    let sets = reading.sets;
    let fields = update.fields();
    reveal(crate::sql::Writing::text);
    assert forall|k: int| 0 <= k < sets.len() implies #[trigger] sets[k] == (
        fields[k],
        crate::sql::bind((k + 1) as nat),
    ) by {}
    let rest = crate::sql::before(" WHERE "@, Text::Open);
    assert(crate::sql::where_text(reading.conditions, 0, rest) == rest);
    lemma_set_text(fields, sets, 0, rest);
    let text = reading.text();
    let tail = crate::text::joined(update.conditions(), " AND "@) + " RETURNING *"@;
    let parts = Seq::new(
        fields.len(),
        |k: int| fields[k] + " = "@ + crate::text::placeholder((k + 1) as nat),
    );
    assert(parts.skip(0) =~= parts);
    assert(set_list(fields) == crate::text::joined(parts, ", "@));
    reveal_with_fuel(crate::sql::flat, 3);
    assert(crate::sql::flat(rest) =~= " WHERE "@);
    let sql = update.update_sql();
    assert(crate::sql::flat(text) == "UPDATE "@ + (update.table@ + crate::sql::flat(
        crate::sql::set_text(sets, 0, rest),
    )));
    lemma_regrouped(
        "UPDATE "@,
        update.table@,
        " SET "@,
        set_list(fields),
        " WHERE "@,
        crate::text::joined(update.conditions(), " AND "@),
        " RETURNING *"@,
    );
    assert(sql == crate::sql::flat(text) + tail);
    assert(sql.skip(0) =~= sql);
    reveal_with_fuel(crate::sql::is_open, 3);
    lemma_set_text_open(sets, 0, rest);
    crate::sql::lemma_spells_flat(sql, 0, text, tail);
}

proof fn lemma_set_text_open(sets: Seq<(Seq<char>, Expr)>, i: nat, rest: Text)
    requires
        crate::sql::is_open(rest),
        forall|k: int|
            0 <= k < sets.len() ==> (#[trigger] sets[k]).1 == crate::sql::bind((k + 1) as nat),
    ensures
        crate::sql::is_open(crate::sql::set_text(sets, i, rest)),
    decreases sets.len() - i,
{
    if i < sets.len() {
        lemma_set_text_open(sets, i + 1, rest);
        assert(sets[i as int].1 == crate::sql::bind((i + 1) as nat));
        reveal_with_fuel(crate::sql::is_open, 6);
    }
}

/// The write, carried out on a row with its own bound values, leaves every field
/// that the update carries holding the value that it carries for that field, and
/// every other column as it was. No field is carried twice.
pub proof fn law_write_lands_in_its_fields(update: FieldUpdate, row: Row, column: Seq<char>)
    requires
        update.fields().no_duplicates(),
    ensures
        ({
            let after = update.reading().leaves(update.sent().binds, row);
            &&& forall|k: int|
                0 <= k < update.sets@.len() && (#[trigger] update.sets@[k]).field@ == column
                    ==> after.contains_key(column) && after[column] == crate::sql::cell(
                    update.sets@[k].value@,
                )
            &&& !update.fields().contains(column) ==> after.contains_key(column)
                == row.contains_key(column) && after[column] == row[column]
        }),
{
    let binds = update.sent().binds;
    let cells = update.reading().writes(binds, row);
    let fields = update.fields();
    assert forall|k: int| 0 <= k < cells.len() implies #[trigger] cells[k] == (
        fields[k],
        crate::sql::cell(update.sets@[k].value@),
    ) by {
        assert(binds[k] == values(update.sets@)[k]);
    }
    crate::sql::lemma_put(row, cells, column);
    assert forall|k: int|
        0 <= k < update.sets@.len() && (#[trigger] update.sets@[k]).field@ == column implies
        update.reading().leaves(binds, row).contains_key(column) && update.reading().leaves(
        binds,
        row,
    )[column] == crate::sql::cell(update.sets@[k].value@) by {
        assert(cells[k].0 == column);
        assert forall|j: int| k < j < cells.len() implies (#[trigger] cells[j]).0 != column by {
            assert(fields[j] != fields[k]);
        }
    }
    if !fields.contains(column) {
        assert forall|k: int| 0 <= k < cells.len() implies (#[trigger] cells[k]).0 != column by {
            assert(fields[k] != column);
        }
    }
}

/// The conditions of a write are about its own row: the last one compares the
/// key with the update's, and the one before it, where the link is carried,
/// compares the link with what the snapshot showed.
pub proof fn law_write_picks_its_row(update: FieldUpdate, row: Row)
    ensures
        ({
            let binds = update.sent().binds;
            let n = update.conditions().len();
            let key = Cond::Equal(crate::sql::column("id"@), crate::sql::bind(update.id_at()));
            &&& n >= 1
            &&& update.conditions()[n - 1] == crate::sql::flat(key.text(Text::End))
            &&& key.holds(binds, row) == (row["id"@] == Cell::Uuid(update.id))
            &&& update.link_armed() ==> {
                let link = update.refcount->0.link@;
                let same = Cond::Same(
                    crate::sql::column(link),
                    crate::sql::bind(update.expected_at()),
                );
                &&& n >= 2
                &&& update.conditions()[n - 2] == crate::sql::flat(same.text(Text::End))
                &&& same.holds(binds, row) == (row[link] == crate::sql::opt_uuid(
                    update.refcount->0.expected,
                ))
            }
        }),
{
    reveal_with_fuel(crate::sql::flat, 4);
    let key = Cond::Equal(crate::sql::column("id"@), crate::sql::bind(update.id_at()));
    reveal_strlit("id = ");
    reveal_strlit("id");
    reveal_strlit(" = ");
    assert("id = "@ =~= "id"@ + " = "@);
    let number = crate::text::placeholder(update.id_at());
    assert("id"@ + (" = "@ + (number + Seq::<char>::empty())) =~= "id = "@ + number);
    if update.link_armed() {
        let link = update.refcount->0.link@;
        let expected = crate::text::placeholder(update.expected_at());
        assert(link + (" IS NOT DISTINCT FROM "@ + (expected + Seq::<char>::empty())) =~= link
            + " IS NOT DISTINCT FROM "@ + expected);
    }
}

/// The range is asked of the merged row: an end that the update carries is the
/// value it carries for it, and one that it does not is the stored column.
pub proof fn law_range_is_on_the_merged_row(update: FieldUpdate, field: Seq<char>, row: Row)
    requires
        update.fields().no_duplicates(),
    ensures
        side(update.fields(), field) == crate::sql::flat(
            update.side_term(field).text(Text::End),
        ),
        forall|k: int|
            0 <= k < update.sets@.len() && (#[trigger] update.sets@[k]).field@ == field
                ==> update.side_term(field).value(update.sent().binds, row) == crate::sql::cell(
                update.sets@[k].value@,
            ),
        !update.fields().contains(field) ==> update.side_term(field).value(
            update.sent().binds,
            row,
        ) == row[field],
{
    reveal_with_fuel(crate::sql::flat, 3);
    let fields = update.fields();
    let binds = update.sent().binds;
    let text = update.side_term(field).text(Text::End);
    assert(crate::sql::flat(text) =~= side(fields, field));
    assert forall|k: int| 0 <= k < update.sets@.len() && (#[trigger] update.sets@[k]).field@
        == field implies update.side_term(field).value(binds, row) == crate::sql::cell(
        update.sets@[k].value@,
    ) by {
        assert(fields[k] == field);
        assert(fields.contains(field));
        assert forall|j: int| 0 <= j < k implies fields[j] != field by {
            assert(fields[j] != fields[k]);
        }
        lemma_place(fields, field, k);
        assert(binds[k] == values(update.sets@)[k]);
    }
}

/// What a request asks of a column: the value it carries for it, or what the
/// row holds where it carries none.
pub open spec fn asked_of(
    request: Seq<(Seq<char>, Option<ParamView>)>,
    row: Row,
    column: Seq<char>,
) -> Cell
    decreases request.len(),
{
    if request.len() == 0 {
        row[column]
    } else if request.last().0 == column && request.last().1 is Some {
        crate::sql::cell(request.last().1->0)
    } else {
        asked_of(request.drop_last(), row, column)
    }
}

/// Whether a request names no column twice.
pub open spec fn names_once(request: Seq<(Seq<char>, Option<ParamView>)>) -> bool {
    forall|i: int, j: int|
        0 <= i < j < request.len() ==> (#[trigger] request[i]).0 != (#[trigger] request[j]).0
}

proof fn lemma_carried(request: Seq<(Seq<char>, Option<ParamView>)>, row: Row, column: Seq<char>)
    requires
        names_once(request),
    ensures
        carried_names(request).len() == carried_values(request).len(),
        forall|k: int|
            0 <= k < carried_names(request).len() ==> exists|i: int|
                0 <= i < request.len() && (#[trigger] request[i]).0 == #[trigger] carried_names(
                    request,
                )[k],
        carried_names(request).no_duplicates(),
        forall|k: int|
            0 <= k < carried_names(request).len() && #[trigger] carried_names(request)[k] == column
                ==> asked_of(request, row, column) == crate::sql::cell(carried_values(request)[k]),
        !carried_names(request).contains(column) ==> asked_of(request, row, column) == row[column],
    decreases request.len(),
{
    if request.len() > 0 {
        let earlier = request.drop_last();
        let last = request.last();
        assert forall|i: int, j: int| 0 <= i < j < earlier.len() implies (#[trigger] earlier[i]).0
            != (#[trigger] earlier[j]).0 by {
            assert(request[i] == earlier[i] && request[j] == earlier[j]);
        }
        lemma_carried(earlier, row, column);
        let before = carried_names(earlier);
        let names = carried_names(request);
        assert forall|k: int| 0 <= k < before.len() implies #[trigger] before[k] != last.0 by {
            let i = choose|i: int|
                0 <= i < earlier.len() && (#[trigger] earlier[i]).0 == before[k];
            assert(request[i] == earlier[i]);
            assert(request[request.len() - 1] == last);
        }
        assert forall|k: int| 0 <= k < names.len() implies exists|i: int|
            0 <= i < request.len() && (#[trigger] request[i]).0 == #[trigger] names[k] by {
            if k < before.len() {
                let i = choose|i: int|
                    0 <= i < earlier.len() && (#[trigger] earlier[i]).0 == before[k];
                assert(request[i] == earlier[i]);
                assert(names[k] == before[k]);
            } else {
                assert(request[request.len() - 1].0 == names[k]);
            }
        }
        if last.1 is Some {
            assert(names =~= before.push(last.0));
            assert(names[before.len() as int] == last.0);
            if !names.contains(column) {
                assert(last.0 != column);
                assert forall|k: int| 0 <= k < before.len() implies before[k] != column by {
                    assert(names[k] == before[k]);
                }
            }
        }
    }
}

/// The write that a request comes to, carried out on a row with its own bound
/// values, leaves each column holding what the request asks of it: the value it
/// carries, or what was there.
pub proof fn law_request_lands_in_its_fields(
    plan: UpdatePlan,
    table: Seq<char>,
    id: Uuid,
    request: Seq<(Seq<char>, Option<ParamView>)>,
    range: Option<(Seq<char>, Seq<char>, AppErrorView)>,
    row: Row,
) -> (reading: Writing)
    requires
        updates(plan, table, id, request, range),
        plan is Write,
        names_once(request),
    ensures
        reading.is_read(plan->Write_update@),
        reading.table == table,
        forall|column: Seq<char>| #[trigger]
            reading.leaves(plan->Write_update@.binds, row)[column] == asked_of(
                request,
                row,
                column,
            ),
{
    let update = choose|update: FieldUpdate| #[trigger]
        update.sends(plan) && update.table@ == table && update.id == id && update.fields()
            == carried_names(request) && values(update.sets@) == carried_values(request)
            && update.guard is None && update.refcount is None && (match range {
            Some((low, high, refused)) => update.ordered is Some && update.ordered->0.low@ == low
                && update.ordered->0.high@ == high && update.ordered->0.refused@ == refused,
            None => update.ordered is None,
        });
    law_write_is_read(update);
    let reading = update.reading();
    let binds = update.sent().binds;
    assert forall|column: Seq<char>| #[trigger] reading.leaves(binds, row)[column] == asked_of(
        request,
        row,
        column,
    ) by {
        lemma_carried(request, row, column);
        law_write_lands_in_its_fields(update, row, column);
        let fields = update.fields();
        if fields.contains(column) {
            let k = fields.index_of(column);
            assert(update.sets@[k].field@ == column);
            assert(values(update.sets@)[k] == update.sets@[k].value@);
        }
    }
    reading
}

impl Refcount {
    /// What the release says: the counter of one row falls by one, never below
    /// zero.
    pub open spec fn release_reading(self) -> Writing {
        Writing {
            head: "UPDATE "@,
            table: self.counter_table@,
            sets: seq![
                (
                    self.counter_field@,
                    Expr::Floored(
                        Term::Column(self.counter_field@),
                        Term::Word("1"@, Cell::Int(1)),
                    ),
                ),
            ],
            conditions: seq![crate::sql::is_bound("id"@, 1)],
            rest: Text::End,
        }
    }

    /// What the claim says: the counter of one row rises by one.
    pub open spec fn claim_reading(self) -> Writing {
        Writing {
            head: "UPDATE "@,
            table: self.counter_table@,
            sets: seq![
                (
                    self.counter_field@,
                    Expr::Plus(
                        Term::Column(self.counter_field@),
                        Term::Word("1"@, Cell::Int(1)),
                    ),
                ),
            ],
            conditions: seq![crate::sql::is_bound("id"@, 1)],
            rest: crate::sql::returning(),
        }
    }
}

/// A counter move takes one reference off the row that is released, never below
/// zero, and puts one on the row that is claimed; no other row is touched.
pub proof fn law_counter_moves_by_one(refcount: Refcount, released: Uuid, claimed: Uuid, row: Row)
    ensures
        ({
            let release = StatementView {
                sql: refcount.release_sql(),
                binds: seq![ParamView::Uuid(released)],
            };
            let claim = StatementView {
                sql: refcount.claim_sql(),
                binds: seq![ParamView::Uuid(claimed)],
            };
            let count = row[refcount.counter_field@].number();
            &&& refcount.release_reading().is_read(release)
            &&& refcount.release_reading().picks(release.binds, row) == (row["id"@] == Cell::Uuid(
                released,
            ))
            &&& refcount.release_reading().writes(release.binds, row) == seq![
                (refcount.counter_field@, Cell::Int(crate::tally::floored(count - 1))),
            ]
            &&& refcount.claim_reading().is_read(claim)
            &&& refcount.claim_reading().picks(claim.binds, row) == (row["id"@] == Cell::Uuid(
                claimed,
            ))
            &&& refcount.claim_reading().writes(claim.binds, row) == seq![
                (refcount.counter_field@, Cell::Int(count + 1)),
            ]
        }),
{
    reveal_with_fuel(crate::sql::all_hold, 2);
    lemma_release_reads(refcount);
    lemma_claim_reads(refcount);
}

/// The end of the release, piece by piece.
spec fn release_end() -> Text {
    crate::sql::before(
        " - "@,
        crate::sql::before(
            "1"@,
            crate::sql::before(
                ", 0)"@,
                crate::sql::where_text(seq![crate::sql::is_bound("id"@, 1)], 0, Text::End),
            ),
        ),
    )
}

/// The end of the claim, piece by piece.
spec fn claim_end() -> Text {
    crate::sql::before(
        " + "@,
        crate::sql::before(
            "1"@,
            crate::sql::where_text(
                seq![crate::sql::is_bound("id"@, 1)],
                0,
                crate::sql::returning(),
            ),
        ),
    )
}

#[verifier::rlimit(40)]
#[verifier::spinoff_prover]
proof fn lemma_release_end()
    ensures
        crate::sql::flat(release_end()) == " - 1, 0) WHERE id = $1"@,
        !crate::sql::is_open(release_end()),
{
    reveal_strlit(" - 1, 0) WHERE id = $1");
    reveal_strlit(" - ");
    reveal_strlit("1");
    reveal_strlit(", 0)");
    reveal_strlit(" WHERE ");
    reveal_strlit("id");
    reveal_strlit(" = ");
    reveal_strlit("$");
    reveal_with_fuel(crate::sql::where_text, 2);
    reveal_with_fuel(crate::sql::flat, 9);
    reveal_with_fuel(crate::sql::is_open, 9);
    reveal_with_fuel(agree, 24);
    lemma_same_text(crate::sql::flat(release_end()), " - 1, 0) WHERE id = $1"@);
}

#[verifier::rlimit(40)]
#[verifier::spinoff_prover]
proof fn lemma_claim_end()
    ensures
        crate::sql::flat(claim_end()) + "1"@ == " + 1 WHERE id = $1 RETURNING 1"@,
        crate::sql::is_open(claim_end()),
{
    reveal_strlit(" + 1 WHERE id = $1 RETURNING 1");
    reveal_strlit(" + ");
    reveal_strlit("1");
    reveal_strlit(" WHERE ");
    reveal_strlit("id");
    reveal_strlit(" = ");
    reveal_strlit("$");
    reveal_strlit(" RETURNING ");
    reveal_with_fuel(crate::sql::where_text, 2);
    reveal_with_fuel(crate::sql::flat, 9);
    reveal_with_fuel(crate::sql::is_open, 9);
    reveal_with_fuel(agree, 32);
    lemma_same_text(
        crate::sql::flat(claim_end()) + "1"@,
        " + 1 WHERE id = $1 RETURNING 1"@,
    );
}

proof fn lemma_counter_regrouped(
    a: Seq<char>,
    b: Seq<char>,
    c: Seq<char>,
    d: Seq<char>,
    e: Seq<char>,
    f: Seq<char>,
    g: Seq<char>,
)
    ensures
        a + (b + (c + (d + (e + (f + g))))) == a + b + c + d + e + f + g,
{
    assert(a + (b + (c + (d + (e + (f + g))))) =~= a + b + c + d + e + f + g);
}

#[verifier::rlimit(40)]
#[verifier::spinoff_prover]
proof fn lemma_release_reads(refcount: Refcount)
    ensures
        crate::sql::spells(refcount.release_sql(), 0, refcount.release_reading().text()),
{
    let table = refcount.counter_table@;
    let field = refcount.counter_field@;
    let text = refcount.release_reading().text();
    let sql = refcount.release_sql();
    let end = crate::sql::flat(release_end());
    lemma_release_end();
    reveal(crate::sql::Writing::text);
    reveal_with_fuel(crate::sql::set_text, 2);
    assert(text == crate::sql::before("UPDATE "@, crate::sql::before(table, crate::sql::before(
        " SET "@,
        crate::sql::before(field, crate::sql::before(" = "@, crate::sql::before(
            "GREATEST("@,
            crate::sql::before(field, release_end()),
        ))),
    ))));
    reveal_with_fuel(crate::sql::flat, 8);
    reveal_with_fuel(crate::sql::is_open, 8);
    let set = " = "@ + "GREATEST("@;
    assert(set == " = GREATEST("@) by {
        reveal_strlit(" = ");
        reveal_strlit("GREATEST(");
        reveal_strlit(" = GREATEST(");
        reveal_with_fuel(agree, 14);
        lemma_same_text(set, " = GREATEST("@);
    }
    assert(" = "@ + ("GREATEST("@ + (field + end)) =~= set + (field + end));
    lemma_counter_regrouped("UPDATE "@, table, " SET "@, field, set, field, end);
    assert(crate::sql::flat(text) == sql);
    assert(sql.skip(0) =~= sql);
    assert(sql + Seq::<char>::empty() =~= sql);
    crate::sql::lemma_spells_flat(sql, 0, text, Seq::empty());
}

#[verifier::rlimit(40)]
#[verifier::spinoff_prover]
proof fn lemma_claim_reads(refcount: Refcount)
    ensures
        crate::sql::spells(refcount.claim_sql(), 0, refcount.claim_reading().text()),
{
    let table = refcount.counter_table@;
    let field = refcount.counter_field@;
    let text = refcount.claim_reading().text();
    let sql = refcount.claim_sql();
    let end = crate::sql::flat(claim_end());
    lemma_claim_end();
    reveal(crate::sql::Writing::text);
    reveal_with_fuel(crate::sql::set_text, 2);
    assert(text == crate::sql::before("UPDATE "@, crate::sql::before(table, crate::sql::before(
        " SET "@,
        crate::sql::before(field, crate::sql::before(" = "@, crate::sql::before(
            field,
            claim_end(),
        ))),
    ))));
    reveal_with_fuel(crate::sql::flat, 7);
    reveal_with_fuel(crate::sql::is_open, 7);
    lemma_counter_regrouped("UPDATE "@, table, " SET "@, field, " = "@, field, end);
    let head = "UPDATE "@ + table + " SET "@ + field + " = "@ + field;
    assert(head + end + "1"@ =~= head + (end + "1"@));
    assert(crate::sql::flat(text) + "1"@ == sql);
    assert(sql.skip(0) =~= sql);
    crate::sql::lemma_spells_flat(sql, 0, text, "1"@);
}

/// Whether two texts agree from the `k`-th character on.
spec fn agree(a: Seq<char>, b: Seq<char>, k: int) -> bool
    decreases a.len() - k,
{
    k >= a.len() || (a[k] == b[k] && agree(a, b, k + 1))
}

proof fn lemma_agree(a: Seq<char>, b: Seq<char>, k: int, i: int)
    requires
        agree(a, b, k),
        0 <= k <= i < a.len(),
    ensures
        a[i] == b[i],
    decreases a.len() - k,
{
    if k < i {
        lemma_agree(a, b, k + 1, i);
    }
}

/// Two short texts with the same characters are one.
proof fn lemma_same_text(a: Seq<char>, b: Seq<char>)
    requires
        a.len() == b.len(),
        agree(a, b, 0),
    ensures
        a == b,
{
    assert forall|i: int| 0 <= i < a.len() implies a[i] == b[i] by {
        lemma_agree(a, b, 0, i);
    }
    assert(a =~= b);
}

} // verus!
