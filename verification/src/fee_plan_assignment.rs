//! The `fee_plan_assignment` table: the claim that places a student on a plan
//! and so freezes the plan, and the reads over placements.

use vstd::prelude::*;

use crate::claim::{verdict, Claimed};
use crate::error::{AppError, AppErrorView, DbError};
use crate::fee_plan::{EditRefusal, Plans, Update};
use crate::id::{FeePlanId, Timestamp, UserId};
use crate::page::{paged, Param, ParamView, Statement};
use crate::sql::{Cell, Cond, Conflict, Cuts, Expr, Picking, Row, Storing, Term, Text, Writing};
use crate::transaction::Step;

verus! {

pub const READ: &'static str =
    "SELECT plan, student, assigned_by, created_at FROM fee_plan_assignment WHERE plan = $1 AND \
     student = $2";

/// The read of a student's placement on a plan.
pub fn read(plan: FeePlanId, student: UserId) -> (statement: Statement)
    ensures
        statement@ == crate::page::sends(
            READ,
            seq![ParamView::Uuid(plan.0), ParamView::Uuid(student.0)],
        ),
{
    Statement::new(READ, vec![Param::Uuid(plan.0), Param::Uuid(student.0)])
}

pub const CREATE: &'static str =
    "WITH seat AS ( UPDATE fee_plan SET assignment_count = assignment_count + 1 WHERE id = $1 \
     AND assignment_count < $2 RETURNING 1) INSERT INTO fee_plan_assignment (plan, student, \
     assigned_by, created_at) SELECT $3, $4, $5, $6 WHERE EXISTS (SELECT 1 FROM seat) RETURNING \
     plan, student, assigned_by, created_at";

/// The placement of a student on a plan, with the claim on the plan's counter
/// in the same statement. `unlimited` is the bound of an uncapped counter.
pub fn create(
    plan: FeePlanId,
    student: UserId,
    assigned_by: UserId,
    created_at: Timestamp,
    unlimited: i64,
) -> (statement: Statement)
    ensures
        statement@ == crate::page::sends(
            CREATE,
            seq![
                ParamView::Uuid(plan.0),
                ParamView::I64(unlimited),
                ParamView::Uuid(plan.0),
                ParamView::Uuid(student.0),
                ParamView::Uuid(assigned_by.0),
                ParamView::I64(created_at.0),
            ],
        ),
{
    Statement::new(
        CREATE,
        vec![
            Param::Uuid(plan.0),
            Param::I64(unlimited),
            Param::Uuid(plan.0),
            Param::Uuid(student.0),
            Param::Uuid(assigned_by.0),
            Param::I64(created_at.0),
        ],
    )
}

/// The unique constraint of a placement.
pub const ASSIGNMENT_PAIR: &'static str = "fee_plan_assignment_plan";

/// What a placement comes to: the row; a rival placement of the same pair
/// that won; or a plan that is gone.
pub fn created<T>(outcome: Result<Option<T>, DbError>) -> (claimed: Result<Claimed<T>, AppError>)
    ensures
        match outcome {
            Ok(Some(row)) => claimed == Ok::<Claimed<T>, AppError>(Claimed::Made(row)),
            Ok(None) => claimed == Ok::<Claimed<T>, AppError>(Claimed::Full),
            Err(error) => if error.violates_unique(ASSIGNMENT_PAIR@) {
                claimed == Ok::<Claimed<T>, AppError>(Claimed::Duplicate)
            } else {
                claimed is Err && claimed->Err_0@ == AppErrorView::Db(error)
            },
        },
{
    verdict(outcome, ASSIGNMENT_PAIR)
}

pub const LIST_FOR_PLAN_FROM: &'static str =
    "fee_plan_assignment WHERE plan = $1";

pub const LIST_FOR_PLAN_ORDER: &'static str = "ORDER BY created_at DESC, plan DESC, student DESC";

/// The read of who is on a plan, newest first.
pub fn list_for_plan(
    plan: FeePlanId,
    limit: Option<i64>,
    offset: i64,
) -> (both: (Statement, Option<Statement>))
    ensures
        crate::page::pages(
            both,
            LIST_FOR_PLAN_FROM@,
            LIST_FOR_PLAN_ORDER@,
            seq![ParamView::Uuid(plan.0)],
            limit,
            offset,
        ),
{
    let binds: Vec<Param> = vec![Param::Uuid(plan.0)];
    assert(crate::page::bound(binds@) =~= seq![ParamView::Uuid(plan.0)]);
    paged(LIST_FOR_PLAN_FROM, LIST_FOR_PLAN_ORDER, binds, limit, offset)
}

pub const EXISTS_FOR_PLAN: &'static str =
    "SELECT EXISTS (SELECT 1 FROM fee_plan_assignment WHERE plan = $1)";

/// The read of whether anybody is on a plan.
pub fn exists_for_plan(plan: FeePlanId) -> (statement: Statement)
    ensures
        statement@ == crate::page::sends(EXISTS_FOR_PLAN, seq![ParamView::Uuid(plan.0)]),
{
    Statement::new(EXISTS_FOR_PLAN, vec![Param::Uuid(plan.0)])
}

pub const LIST_FOR_STUDENT_FROM: &'static str =
    "fee_plan_assignment WHERE student = $1";

pub const LIST_FOR_STUDENT_ORDER: &'static str = "ORDER BY created_at DESC, plan DESC, student DESC";

/// The read of the plans a student is on, newest first.
pub fn list_for_student(
    student: UserId,
    limit: Option<i64>,
    offset: i64,
) -> (both: (Statement, Option<Statement>))
    ensures
        crate::page::pages(
            both,
            LIST_FOR_STUDENT_FROM@,
            LIST_FOR_STUDENT_ORDER@,
            seq![ParamView::Uuid(student.0)],
            limit,
            offset,
        ),
{
    let binds: Vec<Param> = vec![Param::Uuid(student.0)];
    assert(crate::page::bound(binds@) =~= seq![ParamView::Uuid(student.0)]);
    paged(LIST_FOR_STUDENT_FROM, LIST_FOR_STUDENT_ORDER, binds, limit, offset)
}

/// What a placement leaves, and what it comes to.
pub open spec fn placed(db: Plans, plan: FeePlanId, student: UserId, unlimited: int) -> (
    Plans,
    Claimed<()>,
) {
    let key = (plan, student);
    if !db.terms.contains_key(plan) || db.roster.counts[plan] >= unlimited {
        (db, Claimed::Full)
    } else if db.roster.links.contains_key(key) {
        (db, Claimed::Duplicate)
    } else {
        (Plans { roster: db.roster.claimed(plan).linked(key, plan), ..db }, Claimed::Made(()))
    }
}

/// A placement lands with its claim or not at all: the counter of every plan
/// stays the number of students on it.
pub proof fn law_placement_keeps_counts(
    db: Plans,
    plan: FeePlanId,
    student: UserId,
    unlimited: int,
)
    requires
        db.sound(),
    ensures
        placed(db, plan, student, unlimited).0.sound(),
        placed(db, plan, student, unlimited).1 !is Made ==> placed(
            db,
            plan,
            student,
            unlimited,
        ).0 == db,
{
    let after = placed(db, plan, student, unlimited);
    if after.1 is Made {
        crate::reference::lemma_link_counted(db.roster, (plan, student), plan);
        assert(after.0.roster.counts.dom() =~= db.roster.counts.dom());
    }
}

/// A placement freezes its plan: every edit that carries a field is refused
/// from then on, and the plan cannot be deleted.
pub proof fn law_placement_freezes_the_plan(
    db: Plans,
    plan: FeePlanId,
    student: UserId,
    unlimited: int,
    name: Option<Seq<char>>,
    installments: Option<serde_json::Value>,
)
    requires
        db.sound(),
        placed(db, plan, student, unlimited).1 is Made,
        name is Some || installments is Some,
    ensures
        ({
            let after = placed(db, plan, student, unlimited).0;
            &&& crate::fee_plan::update_run(after, plan, name, installments).1 == Step::<
                Update,
                (),
                EditRefusal,
            >::Abort(EditRefusal::Assigned)
            &&& crate::fee_plan::delete_run(after, plan).1 == Step::<
                crate::fee_plan::Delete,
                bool,
                crate::error::Gone,
            >::Commit(false)
        }),
{
    let after = placed(db, plan, student, unlimited).0;
    assert(db.roster.counts.contains_key(plan));
    assert(db.roster.counts[plan] >= 0);
    law_placement_keeps_counts(db, plan, student, unlimited);
    crate::fee_plan::law_assigned_plan_is_frozen(after, plan, name, installments);
    crate::fee_plan::law_assigned_plan_stays(after, plan, (plan, student));
}

/// What [`READ`] says.
pub open spec fn read_reading() -> Picking {
    Picking {
        skip: 0,
        head: "SELECT "@,
        columns: seq!["plan"@, "student"@, "assigned_by"@, "created_at"@],
        table: "fee_plan_assignment"@,
        conditions: seq![crate::sql::is_bound("plan"@, 1), crate::sql::is_bound("student"@, 2)],
        rest: Text::End,
    }
}

proof fn lemma_read_reads()
    ensures
        crate::sql::spells(READ@, 0, read_reading().text()),
{
    reveal_strlit("SELECT plan, student, assigned_by, created_at FROM fee_plan_assignment WHERE plan = $1 AND student = $2");
    reveal_strlit("SELECT ");
    reveal_strlit("plan");
    reveal_strlit(", ");
    reveal_strlit("student");
    reveal_strlit("assigned_by");
    reveal_strlit("created_at");
    reveal_strlit(" FROM ");
    reveal_strlit("fee_plan_assignment");
    reveal_strlit(" WHERE ");
    reveal_strlit(" = ");
    reveal_strlit("$");
    reveal_strlit(" AND ");
    reveal(crate::sql::Picking::text);
    reveal_with_fuel(crate::sql::where_text, 3);
    reveal_with_fuel(crate::sql::names_text, 5);
    reveal_with_fuel(crate::sql::stands, 20);
    reveal_with_fuel(crate::sql::spells_by, 19);
    crate::sql::lemma_spells_by(READ@, 0, read_reading().text(), crate::sql::cut(7, crate::sql::cut(11, crate::sql::cut(13, crate::sql::cut(20, crate::sql::cut(22, crate::sql::cut(33, crate::sql::cut(35, crate::sql::cut(45, crate::sql::cut(51, crate::sql::cut(70, crate::sql::cut(77, crate::sql::cut(81, crate::sql::cut(84, crate::sql::cut(86, crate::sql::cut(91, crate::sql::cut(98, crate::sql::cut(101, crate::sql::cut(103, Cuts::Last)))))))))))))))))));
}

/// [`read`] reads the rows it names and no other.
pub proof fn law_read_reads_its_rows(
    plan: FeePlanId,
    student: UserId,
    sent: Statement,
    row: Row,
)
    requires
        call_ensures(read, (plan, student), sent),
    ensures
        read_reading().is_read(sent@),
        read_reading().picks(sent@.binds, row) == (row["plan"@] == Cell::Uuid(plan.0) && row["student"@] == Cell::Uuid(student.0)),
{
    lemma_read_reads();
    reveal_with_fuel(crate::sql::all_hold, 3);
}

/// The row that [`CREATE`] inserts where its first part wrote.
pub open spec fn create_row() -> Storing {
    Storing {
        head: "INSERT INTO "@,
        table: "fee_plan_assignment"@,
        columns: seq!["plan"@, "student"@, "assigned_by"@, "created_at"@],
        values: seq![Term::Bind(3), Term::Bind(4), Term::Bind(5), Term::Bind(6)],
        selected: true,
        conflict: Conflict::Unread,
        rest: crate::sql::before(" WHERE EXISTS (SELECT 1 FROM seat)"@, crate::sql::returning()),
    }
}

/// What [`CREATE`] says.
pub open spec fn create_reading() -> Writing {
    Writing {
        head: "WITH seat AS ( UPDATE "@,
        table: "fee_plan"@,
        sets: seq![("assignment_count"@, Expr::Plus(Term::Column("assignment_count"@), Term::Word("1"@, Cell::Int(1))))],
        conditions: seq![crate::sql::is_bound("id"@, 1), Cond::Below(crate::sql::column("assignment_count"@), crate::sql::bind(2))],
        rest: crate::sql::before(" RETURNING 1) "@, create_row().text()),
    }
}

#[verifier::rlimit(20)]
proof fn lemma_create_reads()
    ensures
        crate::sql::spells(CREATE@, 0, create_reading().text()),
{
    reveal_strlit("WITH seat AS ( UPDATE fee_plan SET assignment_count = assignment_count + 1 WHERE id = $1 AND assignment_count < $2 RETURNING 1) INSERT INTO fee_plan_assignment (plan, student, assigned_by, created_at) SELECT $3, $4, $5, $6 WHERE EXISTS (SELECT 1 FROM seat) RETURNING plan, student, assigned_by, created_at");
    reveal_strlit("WITH seat AS ( UPDATE ");
    reveal_strlit("fee_plan");
    reveal_strlit(" SET ");
    reveal_strlit("assignment_count");
    reveal_strlit(" = ");
    reveal_strlit(" + ");
    reveal_strlit("1");
    reveal_strlit(" WHERE ");
    reveal_strlit("id");
    reveal_strlit("$");
    reveal_strlit(" AND ");
    reveal_strlit(" < ");
    reveal_strlit(" RETURNING 1) ");
    reveal_strlit("INSERT INTO ");
    reveal_strlit("fee_plan_assignment");
    reveal_strlit(" (");
    reveal_strlit("plan");
    reveal_strlit(", ");
    reveal_strlit("student");
    reveal_strlit("assigned_by");
    reveal_strlit("created_at");
    reveal_strlit(") SELECT ");
    reveal_strlit(" WHERE EXISTS (SELECT 1 FROM seat)");
    reveal_strlit(" RETURNING ");
    reveal(crate::sql::Writing::text);
    reveal(crate::sql::Storing::text);
    reveal_with_fuel(crate::sql::set_text, 2);
    reveal_with_fuel(crate::sql::where_text, 3);
    reveal_with_fuel(crate::sql::names_text, 5);
    reveal_with_fuel(crate::sql::values_text, 5);
    reveal_with_fuel(crate::sql::stands, 35);
    reveal_with_fuel(crate::sql::spells_by, 38);
    crate::sql::lemma_spells_by(CREATE@, 0, create_reading().text(), crate::sql::cut(22, crate::sql::cut(30, crate::sql::cut(35, crate::sql::cut(51, crate::sql::cut(54, crate::sql::cut(70, crate::sql::cut(73, crate::sql::cut(74, crate::sql::cut(81, crate::sql::cut(83, crate::sql::cut(86, crate::sql::cut(88, crate::sql::cut(93, crate::sql::cut(109, crate::sql::cut(112, crate::sql::cut(114, crate::sql::cut(128, crate::sql::cut(140, crate::sql::cut(159, crate::sql::cut(161, crate::sql::cut(165, crate::sql::cut(167, crate::sql::cut(174, crate::sql::cut(176, crate::sql::cut(187, crate::sql::cut(189, crate::sql::cut(199, crate::sql::cut(208, crate::sql::cut(210, crate::sql::cut(212, crate::sql::cut(214, crate::sql::cut(216, crate::sql::cut(218, crate::sql::cut(220, crate::sql::cut(222, crate::sql::cut(256, crate::sql::cut(267, Cuts::Last))))))))))))))))))))))))))))))))))))));
}

/// [`create`] writes the row it names where its condition holds, and then stores the
/// new row, each value in its own column.
pub proof fn law_create_lands_in_its_columns(
    plan: FeePlanId,
    student: UserId,
    assigned_by: UserId,
    created_at: Timestamp,
    unlimited: i64,
    sent: Statement,
    row: Row,
)
    requires
        call_ensures(create, (plan, student, assigned_by, created_at, unlimited), sent),
    ensures
        create_reading().is_read(sent@),
        create_reading().picks(sent@.binds, row) == (row["id"@] == Cell::Uuid(plan.0) && (row["assignment_count"@] is Int && row["assignment_count"@].number() < unlimited as int)),
        create_reading().writes(sent@.binds, row) == seq![
            ("assignment_count"@, Cell::Int(row["assignment_count"@].number() + 1)),
        ],
        create_row().stores(sent@.binds) == seq![
            ("plan"@, Cell::Uuid(plan.0)),
            ("student"@, Cell::Uuid(student.0)),
            ("assigned_by"@, Cell::Uuid(assigned_by.0)),
            ("created_at"@, Cell::Int(created_at.0 as int)),
        ],
{
    lemma_create_reads();
    reveal_with_fuel(crate::sql::all_hold, 3);
}

/// What [`EXISTS_FOR_PLAN`] says.
pub open spec fn exists_for_plan_reading() -> Picking {
    Picking {
        skip: 0,
        head: "SELECT EXISTS (SELECT 1 FROM "@,
        columns: Seq::empty(),
        table: "fee_plan_assignment"@,
        conditions: seq![crate::sql::is_bound("plan"@, 1)],
        rest: crate::sql::before(")"@, Text::End),
    }
}

proof fn lemma_exists_for_plan_reads()
    ensures
        crate::sql::spells(EXISTS_FOR_PLAN@, 0, exists_for_plan_reading().text()),
{
    reveal_strlit("SELECT EXISTS (SELECT 1 FROM fee_plan_assignment WHERE plan = $1)");
    reveal_strlit("SELECT EXISTS (SELECT 1 FROM ");
    reveal_strlit("fee_plan_assignment");
    reveal_strlit(" WHERE ");
    reveal_strlit("plan");
    reveal_strlit(" = ");
    reveal_strlit("$");
    reveal_strlit(")");
    reveal(crate::sql::Picking::text);
    reveal_with_fuel(crate::sql::where_text, 2);
    reveal_with_fuel(crate::sql::stands, 30);
    reveal_with_fuel(crate::sql::spells_by, 8);
    crate::sql::lemma_spells_by(EXISTS_FOR_PLAN@, 0, exists_for_plan_reading().text(), crate::sql::cut(29, crate::sql::cut(48, crate::sql::cut(55, crate::sql::cut(59, crate::sql::cut(62, crate::sql::cut(64, crate::sql::cut(65, Cuts::Last))))))));
}

/// [`exists_for_plan`] reads the rows it names and no other.
pub proof fn law_exists_for_plan_reads_its_rows(
    plan: FeePlanId,
    sent: Statement,
    row: Row,
)
    requires
        call_ensures(exists_for_plan, (plan,), sent),
    ensures
        exists_for_plan_reading().is_read(sent@),
        exists_for_plan_reading().picks(sent@.binds, row) == (row["plan"@] == Cell::Uuid(plan.0)),
{
    lemma_exists_for_plan_reads();
    reveal_with_fuel(crate::sql::all_hold, 2);
}

/// What [`LIST_FOR_PLAN_FROM`] says.
pub open spec fn list_for_plan_from_reading() -> Picking {
    Picking {
        skip: 0,
        head: ""@,
        columns: Seq::empty(),
        table: "fee_plan_assignment"@,
        conditions: seq![crate::sql::is_bound("plan"@, 1)],
        rest: Text::End,
    }
}

proof fn lemma_list_for_plan_from_reads()
    ensures
        crate::sql::spells(LIST_FOR_PLAN_FROM@, 0, list_for_plan_from_reading().text()),
{
    reveal_strlit("fee_plan_assignment WHERE plan = $1");
    reveal_strlit("");
    reveal_strlit("fee_plan_assignment");
    reveal_strlit(" WHERE ");
    reveal_strlit("plan");
    reveal_strlit(" = ");
    reveal_strlit("$");
    reveal(crate::sql::Picking::text);
    reveal_with_fuel(crate::sql::where_text, 2);
    reveal_with_fuel(crate::sql::stands, 20);
    reveal_with_fuel(crate::sql::spells_by, 7);
    crate::sql::lemma_spells_by(LIST_FOR_PLAN_FROM@, 0, list_for_plan_from_reading().text(), crate::sql::cut(0, crate::sql::cut(19, crate::sql::cut(26, crate::sql::cut(30, crate::sql::cut(33, crate::sql::cut(35, Cuts::Last)))))));
}

/// [`list_for_plan`] pages the rows it names and no other.
pub proof fn law_list_for_plan_reads_its_rows(
    plan: FeePlanId,
    limit: Option<i64>,
    offset: i64,
    both: (Statement, Option<Statement>),
    row: Row,
)
    requires
        call_ensures(list_for_plan, (plan, limit, offset), both),
    ensures
        crate::sql::spells(
            both.0@.sql,
            0,
            crate::sql::before("SELECT * FROM "@, crate::sql::opened(list_for_plan_from_reading().text())),
        ),
        list_for_plan_from_reading().picks(both.0@.binds, row) == (row["plan"@] == Cell::Uuid(plan.0)),
{
    lemma_list_for_plan_from_reads();
    reveal(crate::sql::Picking::text);
    reveal_with_fuel(crate::sql::where_text, 2);
    reveal_with_fuel(crate::sql::is_open, 7);
    reveal_with_fuel(crate::sql::all_hold, 2);
    crate::page::law_page_reads_its_rows(
        both,
        LIST_FOR_PLAN_FROM@,
        LIST_FOR_PLAN_ORDER@,
        seq![ParamView::Uuid(plan.0)],
        limit,
        offset,
        list_for_plan_from_reading().text(),
    );
}

/// What [`LIST_FOR_STUDENT_FROM`] says.
pub open spec fn list_for_student_from_reading() -> Picking {
    Picking {
        skip: 0,
        head: ""@,
        columns: Seq::empty(),
        table: "fee_plan_assignment"@,
        conditions: seq![crate::sql::is_bound("student"@, 1)],
        rest: Text::End,
    }
}

proof fn lemma_list_for_student_from_reads()
    ensures
        crate::sql::spells(LIST_FOR_STUDENT_FROM@, 0, list_for_student_from_reading().text()),
{
    reveal_strlit("fee_plan_assignment WHERE student = $1");
    reveal_strlit("");
    reveal_strlit("fee_plan_assignment");
    reveal_strlit(" WHERE ");
    reveal_strlit("student");
    reveal_strlit(" = ");
    reveal_strlit("$");
    reveal(crate::sql::Picking::text);
    reveal_with_fuel(crate::sql::where_text, 2);
    reveal_with_fuel(crate::sql::stands, 20);
    reveal_with_fuel(crate::sql::spells_by, 7);
    crate::sql::lemma_spells_by(LIST_FOR_STUDENT_FROM@, 0, list_for_student_from_reading().text(), crate::sql::cut(0, crate::sql::cut(19, crate::sql::cut(26, crate::sql::cut(33, crate::sql::cut(36, crate::sql::cut(38, Cuts::Last)))))));
}

/// [`list_for_student`] pages the rows it names and no other.
pub proof fn law_list_for_student_reads_its_rows(
    student: UserId,
    limit: Option<i64>,
    offset: i64,
    both: (Statement, Option<Statement>),
    row: Row,
)
    requires
        call_ensures(list_for_student, (student, limit, offset), both),
    ensures
        crate::sql::spells(
            both.0@.sql,
            0,
            crate::sql::before("SELECT * FROM "@, crate::sql::opened(list_for_student_from_reading().text())),
        ),
        list_for_student_from_reading().picks(both.0@.binds, row) == (row["student"@] == Cell::Uuid(student.0)),
{
    lemma_list_for_student_from_reads();
    reveal(crate::sql::Picking::text);
    reveal_with_fuel(crate::sql::where_text, 2);
    reveal_with_fuel(crate::sql::is_open, 7);
    reveal_with_fuel(crate::sql::all_hold, 2);
    crate::page::law_page_reads_its_rows(
        both,
        LIST_FOR_STUDENT_FROM@,
        LIST_FOR_STUDENT_ORDER@,
        seq![ParamView::Uuid(student.0)],
        limit,
        offset,
        list_for_student_from_reading().text(),
    );
}

} // verus!
