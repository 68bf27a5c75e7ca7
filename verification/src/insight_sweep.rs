//! The derived insight tables: the sweep of what has expired, and the purge of
//! what belongs to those who left.

use vstd::prelude::*;

use crate::error::{AppError, AppErrorView, ValidationError, ValidationErrorView};
use crate::insight::parse_all;
use crate::page::{uuids, Param, ParamView, Statement, StatementView, Uuid};
use crate::sql::{Cell, Cond, Cuts, Picking, Row, Term, Text};
use crate::text::decimal;

verus! {

/// Those who are enrolled: everybody not named loses their derived rows.
#[derive(Debug)]
pub struct PurgeRequest {
    pub students: Vec<String>,
}

/// How each table fared, in the order of the tables' names.
#[derive(Debug)]
pub struct TableVerdicts {
    pub tables: Vec<(String, bool)>,
}

/// The verdicts as names and flags.
pub open spec fn verdicts(tables: Seq<(String, bool)>) -> Seq<(Seq<char>, bool)> {
    Seq::new(tables.len(), |i: int| (tables[i].0@, tables[i].1))
}

/// One table's part in a sweep.
#[derive(Debug)]
pub struct SweepStep {
    pub table: &'static str,
    pub statement: Statement,
}

/// What the steps of a sweep send, with the tables they sweep.
pub open spec fn swept_by(steps: Seq<SweepStep>) -> Seq<(Seq<char>, StatementView)> {
    Seq::new(steps.len(), |i: int| (steps[i].table@, steps[i].statement@))
}

pub const SWEEP_ATTENTION_ITEM: &'static str =
    "DELETE FROM zeka_attention_item WHERE student IN (SELECT student FROM zeka_student_summary \
     WHERE retain_until < $1)";

pub const SWEEP_QUESTION_SEGMENT_DIMENSION: &'static str =
    "DELETE FROM zeka_question_segment_dimension WHERE question IN (SELECT question FROM \
     zeka_question_segment WHERE retain_until < $1)";

pub const SWEEP_RUN_PENDING: &'static str =
    "DELETE FROM zeka_run_pending WHERE run IN (SELECT run_day FROM zeka_run WHERE retain_until \
     < $1)";

pub const SWEEP_RUN_FAILED_MODULE: &'static str =
    "DELETE FROM zeka_run_failed_module WHERE run IN (SELECT run_day FROM zeka_run WHERE \
     retain_until < $1)";

pub const SWEEP_STUDENT_SUMMARY: &'static str =
    "DELETE FROM zeka_student_summary WHERE retain_until < $1";

pub const SWEEP_RECOMMENDATION: &'static str =
    "DELETE FROM zeka_recommendation WHERE retain_until < $1";

pub const SWEEP_RUN: &'static str =
    "DELETE FROM zeka_run WHERE retain_until < $1";

pub const SWEEP_QUESTION_SEGMENT: &'static str =
    "DELETE FROM zeka_question_segment WHERE retain_until < $1";

pub const SWEEP_STUDENT_SEGMENT_PROFILE: &'static str =
    "DELETE FROM zeka_student_segment_profile WHERE retain_until < $1";

/// The steps of a sweep, the children before the parents they hang off.
pub open spec fn sweep_order(now_ms: i64) -> Seq<(Seq<char>, StatementView)> {
    let now = seq![ParamView::I64(now_ms)];
    seq![
        ("zeka_attention_item"@, crate::page::sends(SWEEP_ATTENTION_ITEM, now)),
        (
            "zeka_question_segment_dimension"@,
            crate::page::sends(SWEEP_QUESTION_SEGMENT_DIMENSION, now),
        ),
        ("zeka_run_pending"@, crate::page::sends(SWEEP_RUN_PENDING, now)),
        ("zeka_run_failed_module"@, crate::page::sends(SWEEP_RUN_FAILED_MODULE, now)),
        ("zeka_student_summary"@, crate::page::sends(SWEEP_STUDENT_SUMMARY, now)),
        ("zeka_recommendation"@, crate::page::sends(SWEEP_RECOMMENDATION, now)),
        ("zeka_run"@, crate::page::sends(SWEEP_RUN, now)),
        ("zeka_question_segment"@, crate::page::sends(SWEEP_QUESTION_SEGMENT, now)),
        ("zeka_student_segment_profile"@, crate::page::sends(SWEEP_STUDENT_SEGMENT_PROFILE, now)),
    ]
}

fn sweep_step(table: &'static str, sql: &'static str, now_ms: i64) -> (step: SweepStep)
    ensures
        step.table@ == table@,
        step.statement@ == crate::page::sends(sql, seq![ParamView::I64(now_ms)]),
{
    SweepStep { table, statement: Statement::new(sql, vec![Param::I64(now_ms)]) }
}

/// The deletes of every row whose retention has closed at `now_ms`, one table
/// at a time. A table whose delete fails does not stop the rest: [`swept`]
/// says how each fared.
pub fn sweep(now_ms: i64) -> (steps: Vec<SweepStep>)
    ensures
        swept_by(steps@) == sweep_order(now_ms),
{
    let steps = vec![
        sweep_step("zeka_attention_item", SWEEP_ATTENTION_ITEM, now_ms),
        sweep_step("zeka_question_segment_dimension", SWEEP_QUESTION_SEGMENT_DIMENSION, now_ms),
        sweep_step("zeka_run_pending", SWEEP_RUN_PENDING, now_ms),
        sweep_step("zeka_run_failed_module", SWEEP_RUN_FAILED_MODULE, now_ms),
        sweep_step("zeka_student_summary", SWEEP_STUDENT_SUMMARY, now_ms),
        sweep_step("zeka_recommendation", SWEEP_RECOMMENDATION, now_ms),
        sweep_step("zeka_run", SWEEP_RUN, now_ms),
        sweep_step("zeka_question_segment", SWEEP_QUESTION_SEGMENT, now_ms),
        sweep_step("zeka_student_segment_profile", SWEEP_STUDENT_SEGMENT_PROFILE, now_ms),
    ];
    assert(swept_by(steps@) =~~= sweep_order(now_ms));
    steps
}

/// How each table fared, given whether each step of a [`sweep`] went through.
pub fn swept(outcomes: &Vec<bool>) -> (told: TableVerdicts)
    requires
        outcomes@.len() == 9,
    ensures
        verdicts(told.tables@) == seq![
            ("zeka_attention_item"@, outcomes@[0]),
            ("zeka_question_segment"@, outcomes@[7]),
            ("zeka_question_segment_dimension"@, outcomes@[1]),
            ("zeka_recommendation"@, outcomes@[5]),
            ("zeka_run"@, outcomes@[6]),
            ("zeka_run_failed_module"@, outcomes@[3]),
            ("zeka_run_pending"@, outcomes@[2]),
            ("zeka_student_segment_profile"@, outcomes@[8]),
            ("zeka_student_summary"@, outcomes@[4]),
        ],
{
    let tables = vec![
        ("zeka_attention_item".to_owned(), outcomes[0]),
        ("zeka_question_segment".to_owned(), outcomes[7]),
        ("zeka_question_segment_dimension".to_owned(), outcomes[1]),
        ("zeka_recommendation".to_owned(), outcomes[5]),
        ("zeka_run".to_owned(), outcomes[6]),
        ("zeka_run_failed_module".to_owned(), outcomes[3]),
        ("zeka_run_pending".to_owned(), outcomes[2]),
        ("zeka_student_segment_profile".to_owned(), outcomes[8]),
        ("zeka_student_summary".to_owned(), outcomes[4]),
    ];
    assert(verdicts(tables@) =~~= seq![
        ("zeka_attention_item"@, outcomes@[0]),
        ("zeka_question_segment"@, outcomes@[7]),
        ("zeka_question_segment_dimension"@, outcomes@[1]),
        ("zeka_recommendation"@, outcomes@[5]),
        ("zeka_run"@, outcomes@[6]),
        ("zeka_run_failed_module"@, outcomes@[3]),
        ("zeka_run_pending"@, outcomes@[2]),
        ("zeka_student_segment_profile"@, outcomes@[8]),
        ("zeka_student_summary"@, outcomes@[4]),
    ]);
    TableVerdicts { tables }
}

/// The refusal of a roster of `ids` where `most` are allowed.
pub open spec fn too_many_ids(ids: nat, most: nat) -> Seq<char> {
    "students: "@ + crate::text::decimal_text(ids) + " ids is over the ceiling of "@
        + crate::text::decimal_text(most) + " per call"@
}

pub const PURGE_ATTENTION_ITEM: &'static str =
    "DELETE FROM zeka_attention_item WHERE student <> ALL($1)";

pub const PURGE_STUDENT_SUMMARY: &'static str =
    "DELETE FROM zeka_student_summary WHERE student <> ALL($1)";

pub const PURGE_STUDENT_SEGMENT_PROFILE: &'static str =
    "DELETE FROM zeka_student_segment_profile WHERE student <> ALL($1)";

pub const PURGE_RECOMMENDATION: &'static str =
    "DELETE FROM zeka_recommendation WHERE about IS NOT NULL AND about <> ALL($1)";

pub const PURGE_RUN_PENDING: &'static str =
    "DELETE FROM zeka_run_pending WHERE student <> ALL($1)";

/// What a purge sends: the children before the summaries they hang off.
pub open spec fn purge_sent(active: Seq<Uuid>) -> Seq<StatementView> {
    let roster = seq![ParamView::Uuids(active)];
    seq![
        crate::page::sends(PURGE_ATTENTION_ITEM, roster),
        crate::page::sends(PURGE_STUDENT_SUMMARY, roster),
        crate::page::sends(PURGE_STUDENT_SEGMENT_PROFILE, roster),
        crate::page::sends(PURGE_RECOMMENDATION, roster),
        crate::page::sends(PURGE_RUN_PENDING, roster),
    ]
}

/// The statements of a purge.
pub fn purge_departed_in(active: &Vec<Uuid>) -> (statements: Vec<Statement>)
    ensures
        crate::page::all_sent(statements@) == purge_sent(active@),
{
    let statements = vec![
        Statement::new(PURGE_ATTENTION_ITEM, vec![Param::Uuids(uuids(active))]),
        Statement::new(PURGE_STUDENT_SUMMARY, vec![Param::Uuids(uuids(active))]),
        Statement::new(PURGE_STUDENT_SEGMENT_PROFILE, vec![Param::Uuids(uuids(active))]),
        Statement::new(PURGE_RECOMMENDATION, vec![Param::Uuids(uuids(active))]),
        Statement::new(PURGE_RUN_PENDING, vec![Param::Uuids(uuids(active))]),
    ];
    assert(crate::page::all_sent(statements@) =~~= purge_sent(active@));
    statements
}

/// The deletes of the derived rows of everybody who is not on the roster, in
/// one transaction. An empty roster is refused and never obeyed: it is almost
/// always a fetch that failed, and would delete everything.
pub fn purge_departed(students: &Vec<String>, most: usize) -> (statements: Result<
    Vec<Statement>,
    AppError,
>)
    ensures
        if students@.len() == 0 {
            statements is Err && statements->Err_0@ == AppErrorView::Validation(
                ValidationErrorView::Empty("students"@),
            )
        } else if students@.len() > most {
            statements is Err && statements->Err_0@ == AppErrorView::PayloadTooLarge(
                too_many_ids(students@.len(), most as nat),
            )
        } else if !crate::insight::all_spelled(students@) {
            statements is Err && statements->Err_0@ == crate::insight::not_a_key("students"@)
        } else {
            statements is Ok && crate::page::all_sent(statements->Ok_0@) == purge_sent(
                crate::insight::keys_of(students@),
            )
        },
{
    if students.len() == 0 {
        return Err(AppError::Validation(ValidationError::Empty("students")));
    }
    if students.len() > most {
        let mut text = "students: ".to_owned();
        text.append(decimal(students.len() as u128).as_str());
        text.append(" ids is over the ceiling of ");
        text.append(decimal(most as u128).as_str());
        text.append(" per call");
        return Err(AppError::PayloadTooLarge(text));
    }
    match parse_all("students", students) {
        Err(error) => Err(error),
        Ok(active) => Ok(purge_departed_in(&active)),
    }
}

/// How each table fared once a purge went through: one transaction, so they
/// all did.
pub fn purged() -> (told: TableVerdicts)
    ensures
        verdicts(told.tables@) == seq![
            ("zeka_attention_item"@, true),
            ("zeka_recommendation"@, true),
            ("zeka_run_pending"@, true),
            ("zeka_student_segment_profile"@, true),
            ("zeka_student_summary"@, true),
        ],
{
    let tables = vec![
        ("zeka_attention_item".to_owned(), true),
        ("zeka_recommendation".to_owned(), true),
        ("zeka_run_pending".to_owned(), true),
        ("zeka_student_segment_profile".to_owned(), true),
        ("zeka_student_summary".to_owned(), true),
    ];
    assert(verdicts(tables@) =~~= seq![
        ("zeka_attention_item"@, true),
        ("zeka_recommendation"@, true),
        ("zeka_run_pending"@, true),
        ("zeka_student_segment_profile"@, true),
        ("zeka_student_summary"@, true),
    ]);
    TableVerdicts { tables }
}

/// Whether the step at `i` of a sweep is that of `table`.
pub open spec fn sweeps(now_ms: i64, i: int, table: Seq<char>) -> bool {
    0 <= i < sweep_order(now_ms).len() && sweep_order(now_ms)[i].0 == table
}

/// Every child table is swept before its parent.
pub proof fn law_children_are_swept_first(now_ms: i64)
    ensures
        sweeps(now_ms, 0, "zeka_attention_item"@) && sweeps(now_ms, 4, "zeka_student_summary"@),
        sweeps(
            now_ms,
            1,
            "zeka_question_segment_dimension"@,
        ) && sweeps(now_ms, 7, "zeka_question_segment"@),
        sweeps(now_ms, 2, "zeka_run_pending"@) && sweeps(now_ms, 6, "zeka_run"@),
        sweeps(now_ms, 3, "zeka_run_failed_module"@) && sweeps(now_ms, 6, "zeka_run"@),
        sweep_order(now_ms).len() == 9,
{
}

/// What the sweep of a child table leaves: the children of the parents that
/// stay.
pub open spec fn children_left<K, P>(
    children: Map<K, P>,
    parents: Map<P, int>,
    now: int,
) -> Map<K, P> {
    children.restrict(
        Set::new(
            |key: K|
                children.contains_key(key) && !(parents.contains_key(children[key])
                    && parents[children[key]] < now),
        ),
    )
}

/// What the sweep of a parent table leaves: the rows whose retention has not
/// closed.
pub open spec fn parents_left<P>(parents: Map<P, int>, now: int) -> Map<P, int> {
    parents.restrict(Set::new(|key: P| parents.contains_key(key) && parents[key] >= now))
}

/// A sweep takes exactly the rows whose retention has closed and the children
/// of those, and leaves no child without its parent.
pub proof fn law_sweep_takes_the_expired<K, P>(
    children: Map<K, P>,
    parents: Map<P, int>,
    now: int,
    child: K,
    parent: P,
)
    requires
        children.contains_key(child) ==> parents.contains_key(children[child]),
    ensures
        parents_left(parents, now).contains_key(parent) <==> parents.contains_key(parent)
            && parents[parent] >= now,
        children_left(children, parents, now).contains_key(child) <==> children.contains_key(child)
            && parents[children[child]] >= now,
        children_left(children, parents, now).contains_key(child) ==> parents_left(
            parents,
            now,
        ).contains_key(children[child]),
{
}

/// The students of the derived rows, and the student each card is about where
/// it is about one.
#[verifier::ext_equal]
#[verifier::reject_recursive_types(K)]
pub struct Derived<K> {
    pub attention: Set<Uuid>,
    pub summaries: Set<Uuid>,
    pub profiles: Set<Uuid>,
    pub cards: Map<K, Option<Uuid>>,
    pub pending: Set<Uuid>,
}

/// What a purge leaves.
pub open spec fn after_purge<K>(db: Derived<K>, active: Set<Uuid>) -> Derived<K> {
    Derived {
        attention: db.attention.intersect(active),
        summaries: db.summaries.intersect(active),
        profiles: db.profiles.intersect(active),
        cards: db.cards.restrict(
            Set::new(
                |card: K|
                    db.cards.contains_key(card) && (db.cards[card] is None || active.contains(
                        db.cards[card]->0,
                    )),
            ),
        ),
        pending: db.pending.intersect(active),
    }
}

/// A purge leaves nothing about anybody who left and everything about everybody
/// who stays; a card about nobody stays.
pub proof fn law_purge_keeps_the_enrolled<K>(
    db: Derived<K>,
    active: Set<Uuid>,
    student: Uuid,
    card: K,
)
    ensures
        ({
            let after = after_purge(db, active);
            &&& !active.contains(student) ==> !after.attention.contains(student)
                && !after.summaries.contains(student) && !after.profiles.contains(student)
                && !after.pending.contains(student)
            &&& active.contains(student) ==> after.attention.contains(student)
                == db.attention.contains(student) && after.summaries.contains(student)
                == db.summaries.contains(student) && after.profiles.contains(student)
                == db.profiles.contains(student) && after.pending.contains(student)
                == db.pending.contains(student)
            &&& after.cards.contains_key(card) <==> db.cards.contains_key(card) && (
            db.cards[card] is None || active.contains(db.cards[card]->0))
        }),
{
}

/// What [`SWEEP_ATTENTION_ITEM`] says.
pub open spec fn sweep_attention_item_reading() -> Picking {
    Picking {
        skip: 0,
        head: "DELETE FROM zeka_attention_item WHERE student IN (SELECT student FROM "@,
        columns: Seq::empty(),
        table: "zeka_student_summary"@,
        conditions: seq![Cond::Below(crate::sql::column("retain_until"@), crate::sql::bind(1))],
        rest: crate::sql::before(")"@, Text::End),
    }
}

proof fn lemma_sweep_attention_item_reads()
    ensures
        crate::sql::spells(SWEEP_ATTENTION_ITEM@, 0, sweep_attention_item_reading().text()),
{
    reveal_strlit("DELETE FROM zeka_attention_item WHERE student IN (SELECT student FROM zeka_student_summary WHERE retain_until < $1)");
    reveal_strlit("DELETE FROM zeka_attention_item WHERE student IN (SELECT student FROM ");
    reveal_strlit("zeka_student_summary");
    reveal_strlit(" WHERE ");
    reveal_strlit("retain_until");
    reveal_strlit(" < ");
    reveal_strlit("$");
    reveal_strlit(")");
    reveal(crate::sql::Picking::text);
    reveal_with_fuel(crate::sql::where_text, 2);
    reveal_with_fuel(crate::sql::stands, 71);
    reveal_with_fuel(crate::sql::spells_by, 8);
    crate::sql::lemma_spells_by(SWEEP_ATTENTION_ITEM@, 0, sweep_attention_item_reading().text(), crate::sql::cut(70, crate::sql::cut(90, crate::sql::cut(97, crate::sql::cut(109, crate::sql::cut(112, crate::sql::cut(114, crate::sql::cut(115, Cuts::Last))))))));
}

/// The text of [`SWEEP_QUESTION_SEGMENT_DIMENSION`], taken apart at its placeholders.
pub open spec fn sweep_question_segment_dimension_text() -> Text {
    crate::sql::before("DELETE FROM zeka_question_segment_dimension"@, crate::sql::before(" WHERE question IN (SELECT question FROM"@, crate::sql::before(" zeka_question_segment WHERE retain_until < "@, crate::sql::before(crate::text::placeholder(1), crate::sql::before(")"@, Text::End)))))
}

proof fn lemma_sweep_question_segment_dimension_reads()
    ensures
        crate::sql::spells(SWEEP_QUESTION_SEGMENT_DIMENSION@, 0, sweep_question_segment_dimension_text()),
{
    reveal_strlit("DELETE FROM zeka_question_segment_dimension WHERE question IN (SELECT question FROM zeka_question_segment WHERE retain_until < $1)");
    reveal_strlit("DELETE FROM zeka_question_segment_dimension");
    reveal_strlit(" WHERE question IN (SELECT question FROM");
    reveal_strlit(" zeka_question_segment WHERE retain_until < ");
    reveal_strlit("$");
    reveal_strlit(")");
    reveal_with_fuel(crate::sql::stands, 45);
    reveal_with_fuel(crate::sql::spells_by, 6);
    crate::sql::lemma_spells_by(SWEEP_QUESTION_SEGMENT_DIMENSION@, 0, sweep_question_segment_dimension_text(), crate::sql::cut(43, crate::sql::cut(83, crate::sql::cut(127, crate::sql::cut(129, crate::sql::cut(130, Cuts::Last))))));
}

/// What [`SWEEP_RUN_PENDING`] says.
pub open spec fn sweep_run_pending_reading() -> Picking {
    Picking {
        skip: 0,
        head: "DELETE FROM zeka_run_pending WHERE run IN (SELECT run_day FROM "@,
        columns: Seq::empty(),
        table: "zeka_run"@,
        conditions: seq![Cond::Below(crate::sql::column("retain_until"@), crate::sql::bind(1))],
        rest: crate::sql::before(")"@, Text::End),
    }
}

proof fn lemma_sweep_run_pending_reads()
    ensures
        crate::sql::spells(SWEEP_RUN_PENDING@, 0, sweep_run_pending_reading().text()),
{
    reveal_strlit("DELETE FROM zeka_run_pending WHERE run IN (SELECT run_day FROM zeka_run WHERE retain_until < $1)");
    reveal_strlit("DELETE FROM zeka_run_pending WHERE run IN (SELECT run_day FROM ");
    reveal_strlit("zeka_run");
    reveal_strlit(" WHERE ");
    reveal_strlit("retain_until");
    reveal_strlit(" < ");
    reveal_strlit("$");
    reveal_strlit(")");
    reveal(crate::sql::Picking::text);
    reveal_with_fuel(crate::sql::where_text, 2);
    reveal_with_fuel(crate::sql::stands, 64);
    reveal_with_fuel(crate::sql::spells_by, 8);
    crate::sql::lemma_spells_by(SWEEP_RUN_PENDING@, 0, sweep_run_pending_reading().text(), crate::sql::cut(63, crate::sql::cut(71, crate::sql::cut(78, crate::sql::cut(90, crate::sql::cut(93, crate::sql::cut(95, crate::sql::cut(96, Cuts::Last))))))));
}

/// What [`SWEEP_RUN_FAILED_MODULE`] says.
pub open spec fn sweep_run_failed_module_reading() -> Picking {
    Picking {
        skip: 0,
        head: "DELETE FROM zeka_run_failed_module WHERE run IN (SELECT run_day FROM "@,
        columns: Seq::empty(),
        table: "zeka_run"@,
        conditions: seq![Cond::Below(crate::sql::column("retain_until"@), crate::sql::bind(1))],
        rest: crate::sql::before(")"@, Text::End),
    }
}

proof fn lemma_sweep_run_failed_module_reads()
    ensures
        crate::sql::spells(SWEEP_RUN_FAILED_MODULE@, 0, sweep_run_failed_module_reading().text()),
{
    reveal_strlit("DELETE FROM zeka_run_failed_module WHERE run IN (SELECT run_day FROM zeka_run WHERE retain_until < $1)");
    reveal_strlit("DELETE FROM zeka_run_failed_module WHERE run IN (SELECT run_day FROM ");
    reveal_strlit("zeka_run");
    reveal_strlit(" WHERE ");
    reveal_strlit("retain_until");
    reveal_strlit(" < ");
    reveal_strlit("$");
    reveal_strlit(")");
    reveal(crate::sql::Picking::text);
    reveal_with_fuel(crate::sql::where_text, 2);
    reveal_with_fuel(crate::sql::stands, 70);
    reveal_with_fuel(crate::sql::spells_by, 8);
    crate::sql::lemma_spells_by(SWEEP_RUN_FAILED_MODULE@, 0, sweep_run_failed_module_reading().text(), crate::sql::cut(69, crate::sql::cut(77, crate::sql::cut(84, crate::sql::cut(96, crate::sql::cut(99, crate::sql::cut(101, crate::sql::cut(102, Cuts::Last))))))));
}

/// What [`SWEEP_STUDENT_SUMMARY`] says.
pub open spec fn sweep_student_summary_reading() -> Picking {
    Picking {
        skip: 0,
        head: "DELETE FROM "@,
        columns: Seq::empty(),
        table: "zeka_student_summary"@,
        conditions: seq![Cond::Below(crate::sql::column("retain_until"@), crate::sql::bind(1))],
        rest: Text::End,
    }
}

proof fn lemma_sweep_student_summary_reads()
    ensures
        crate::sql::spells(SWEEP_STUDENT_SUMMARY@, 0, sweep_student_summary_reading().text()),
{
    reveal_strlit("DELETE FROM zeka_student_summary WHERE retain_until < $1");
    reveal_strlit("DELETE FROM ");
    reveal_strlit("zeka_student_summary");
    reveal_strlit(" WHERE ");
    reveal_strlit("retain_until");
    reveal_strlit(" < ");
    reveal_strlit("$");
    reveal(crate::sql::Picking::text);
    reveal_with_fuel(crate::sql::where_text, 2);
    reveal_with_fuel(crate::sql::stands, 21);
    reveal_with_fuel(crate::sql::spells_by, 7);
    crate::sql::lemma_spells_by(SWEEP_STUDENT_SUMMARY@, 0, sweep_student_summary_reading().text(), crate::sql::cut(12, crate::sql::cut(32, crate::sql::cut(39, crate::sql::cut(51, crate::sql::cut(54, crate::sql::cut(56, Cuts::Last)))))));
}

/// What [`SWEEP_RECOMMENDATION`] says.
pub open spec fn sweep_recommendation_reading() -> Picking {
    Picking {
        skip: 0,
        head: "DELETE FROM "@,
        columns: Seq::empty(),
        table: "zeka_recommendation"@,
        conditions: seq![Cond::Below(crate::sql::column("retain_until"@), crate::sql::bind(1))],
        rest: Text::End,
    }
}

proof fn lemma_sweep_recommendation_reads()
    ensures
        crate::sql::spells(SWEEP_RECOMMENDATION@, 0, sweep_recommendation_reading().text()),
{
    reveal_strlit("DELETE FROM zeka_recommendation WHERE retain_until < $1");
    reveal_strlit("DELETE FROM ");
    reveal_strlit("zeka_recommendation");
    reveal_strlit(" WHERE ");
    reveal_strlit("retain_until");
    reveal_strlit(" < ");
    reveal_strlit("$");
    reveal(crate::sql::Picking::text);
    reveal_with_fuel(crate::sql::where_text, 2);
    reveal_with_fuel(crate::sql::stands, 20);
    reveal_with_fuel(crate::sql::spells_by, 7);
    crate::sql::lemma_spells_by(SWEEP_RECOMMENDATION@, 0, sweep_recommendation_reading().text(), crate::sql::cut(12, crate::sql::cut(31, crate::sql::cut(38, crate::sql::cut(50, crate::sql::cut(53, crate::sql::cut(55, Cuts::Last)))))));
}

/// What [`SWEEP_RUN`] says.
pub open spec fn sweep_run_reading() -> Picking {
    Picking {
        skip: 0,
        head: "DELETE FROM "@,
        columns: Seq::empty(),
        table: "zeka_run"@,
        conditions: seq![Cond::Below(crate::sql::column("retain_until"@), crate::sql::bind(1))],
        rest: Text::End,
    }
}

proof fn lemma_sweep_run_reads()
    ensures
        crate::sql::spells(SWEEP_RUN@, 0, sweep_run_reading().text()),
{
    reveal_strlit("DELETE FROM zeka_run WHERE retain_until < $1");
    reveal_strlit("DELETE FROM ");
    reveal_strlit("zeka_run");
    reveal_strlit(" WHERE ");
    reveal_strlit("retain_until");
    reveal_strlit(" < ");
    reveal_strlit("$");
    reveal(crate::sql::Picking::text);
    reveal_with_fuel(crate::sql::where_text, 2);
    reveal_with_fuel(crate::sql::stands, 13);
    reveal_with_fuel(crate::sql::spells_by, 7);
    crate::sql::lemma_spells_by(SWEEP_RUN@, 0, sweep_run_reading().text(), crate::sql::cut(12, crate::sql::cut(20, crate::sql::cut(27, crate::sql::cut(39, crate::sql::cut(42, crate::sql::cut(44, Cuts::Last)))))));
}

/// What [`SWEEP_QUESTION_SEGMENT`] says.
pub open spec fn sweep_question_segment_reading() -> Picking {
    Picking {
        skip: 0,
        head: "DELETE FROM "@,
        columns: Seq::empty(),
        table: "zeka_question_segment"@,
        conditions: seq![Cond::Below(crate::sql::column("retain_until"@), crate::sql::bind(1))],
        rest: Text::End,
    }
}

proof fn lemma_sweep_question_segment_reads()
    ensures
        crate::sql::spells(SWEEP_QUESTION_SEGMENT@, 0, sweep_question_segment_reading().text()),
{
    reveal_strlit("DELETE FROM zeka_question_segment WHERE retain_until < $1");
    reveal_strlit("DELETE FROM ");
    reveal_strlit("zeka_question_segment");
    reveal_strlit(" WHERE ");
    reveal_strlit("retain_until");
    reveal_strlit(" < ");
    reveal_strlit("$");
    reveal(crate::sql::Picking::text);
    reveal_with_fuel(crate::sql::where_text, 2);
    reveal_with_fuel(crate::sql::stands, 22);
    reveal_with_fuel(crate::sql::spells_by, 7);
    crate::sql::lemma_spells_by(SWEEP_QUESTION_SEGMENT@, 0, sweep_question_segment_reading().text(), crate::sql::cut(12, crate::sql::cut(33, crate::sql::cut(40, crate::sql::cut(52, crate::sql::cut(55, crate::sql::cut(57, Cuts::Last)))))));
}

/// What [`SWEEP_STUDENT_SEGMENT_PROFILE`] says.
pub open spec fn sweep_student_segment_profile_reading() -> Picking {
    Picking {
        skip: 0,
        head: "DELETE FROM "@,
        columns: Seq::empty(),
        table: "zeka_student_segment_profile"@,
        conditions: seq![Cond::Below(crate::sql::column("retain_until"@), crate::sql::bind(1))],
        rest: Text::End,
    }
}

proof fn lemma_sweep_student_segment_profile_reads()
    ensures
        crate::sql::spells(SWEEP_STUDENT_SEGMENT_PROFILE@, 0, sweep_student_segment_profile_reading().text()),
{
    reveal_strlit("DELETE FROM zeka_student_segment_profile WHERE retain_until < $1");
    reveal_strlit("DELETE FROM ");
    reveal_strlit("zeka_student_segment_profile");
    reveal_strlit(" WHERE ");
    reveal_strlit("retain_until");
    reveal_strlit(" < ");
    reveal_strlit("$");
    reveal(crate::sql::Picking::text);
    reveal_with_fuel(crate::sql::where_text, 2);
    reveal_with_fuel(crate::sql::stands, 29);
    reveal_with_fuel(crate::sql::spells_by, 7);
    crate::sql::lemma_spells_by(SWEEP_STUDENT_SEGMENT_PROFILE@, 0, sweep_student_segment_profile_reading().text(), crate::sql::cut(12, crate::sql::cut(40, crate::sql::cut(47, crate::sql::cut(59, crate::sql::cut(62, crate::sql::cut(64, Cuts::Last)))))));
}

/// A sweep picks the rows whose time to keep is over, and before them what hangs
/// off those rows.
pub proof fn law_sweep_deletes_what_is_over(
    now_ms: i64,
    row: Row,
)
    ensures
        sweep_attention_item_reading().is_read(sweep_order(now_ms)[0].1),
        sweep_attention_item_reading().picks(sweep_order(now_ms)[0].1.binds, row) == ((row["retain_until"@] is Int && row["retain_until"@].number() < now_ms as int)),
        crate::sql::spells(sweep_order(now_ms)[1].1.sql, 0, sweep_question_segment_dimension_text()),
        sweep_order(now_ms)[1].1.binds.len() == 1,
        crate::sql::cell(sweep_order(now_ms)[1].1.binds[0]) == Cell::Int(now_ms as int),
        sweep_run_pending_reading().is_read(sweep_order(now_ms)[2].1),
        sweep_run_pending_reading().picks(sweep_order(now_ms)[2].1.binds, row) == ((row["retain_until"@] is Int && row["retain_until"@].number() < now_ms as int)),
        sweep_run_failed_module_reading().is_read(sweep_order(now_ms)[3].1),
        sweep_run_failed_module_reading().picks(sweep_order(now_ms)[3].1.binds, row) == ((row["retain_until"@] is Int && row["retain_until"@].number() < now_ms as int)),
        sweep_student_summary_reading().is_read(sweep_order(now_ms)[4].1),
        sweep_student_summary_reading().picks(sweep_order(now_ms)[4].1.binds, row) == ((row["retain_until"@] is Int && row["retain_until"@].number() < now_ms as int)),
        sweep_recommendation_reading().is_read(sweep_order(now_ms)[5].1),
        sweep_recommendation_reading().picks(sweep_order(now_ms)[5].1.binds, row) == ((row["retain_until"@] is Int && row["retain_until"@].number() < now_ms as int)),
        sweep_run_reading().is_read(sweep_order(now_ms)[6].1),
        sweep_run_reading().picks(sweep_order(now_ms)[6].1.binds, row) == ((row["retain_until"@] is Int && row["retain_until"@].number() < now_ms as int)),
        sweep_question_segment_reading().is_read(sweep_order(now_ms)[7].1),
        sweep_question_segment_reading().picks(sweep_order(now_ms)[7].1.binds, row) == ((row["retain_until"@] is Int && row["retain_until"@].number() < now_ms as int)),
        sweep_student_segment_profile_reading().is_read(sweep_order(now_ms)[8].1),
        sweep_student_segment_profile_reading().picks(sweep_order(now_ms)[8].1.binds, row) == ((row["retain_until"@] is Int && row["retain_until"@].number() < now_ms as int)),
{
    lemma_sweep_attention_item_reads();
    lemma_sweep_question_segment_dimension_reads();
    lemma_sweep_run_pending_reads();
    lemma_sweep_run_failed_module_reads();
    lemma_sweep_student_summary_reads();
    lemma_sweep_recommendation_reads();
    lemma_sweep_run_reads();
    lemma_sweep_question_segment_reads();
    lemma_sweep_student_segment_profile_reads();
    reveal_with_fuel(crate::sql::all_hold, 2);
}

/// What [`PURGE_ATTENTION_ITEM`] says.
pub open spec fn purge_attention_item_reading() -> Picking {
    Picking {
        skip: 0,
        head: "DELETE FROM "@,
        columns: Seq::empty(),
        table: "zeka_attention_item"@,
        conditions: seq![Cond::Outside(Term::Column("student"@), Term::Bind(1))],
        rest: Text::End,
    }
}

proof fn lemma_purge_attention_item_reads()
    ensures
        crate::sql::spells(PURGE_ATTENTION_ITEM@, 0, purge_attention_item_reading().text()),
{
    reveal_strlit("DELETE FROM zeka_attention_item WHERE student <> ALL($1)");
    reveal_strlit("DELETE FROM ");
    reveal_strlit("zeka_attention_item");
    reveal_strlit(" WHERE ");
    reveal_strlit("student");
    reveal_strlit(" <> ALL(");
    reveal_strlit("$");
    reveal_strlit(")");
    reveal(crate::sql::Picking::text);
    reveal_with_fuel(crate::sql::where_text, 2);
    reveal_with_fuel(crate::sql::stands, 20);
    reveal_with_fuel(crate::sql::spells_by, 8);
    crate::sql::lemma_spells_by(PURGE_ATTENTION_ITEM@, 0, purge_attention_item_reading().text(), crate::sql::cut(12, crate::sql::cut(31, crate::sql::cut(38, crate::sql::cut(45, crate::sql::cut(53, crate::sql::cut(55, crate::sql::cut(56, Cuts::Last))))))));
}

/// What [`PURGE_STUDENT_SUMMARY`] says.
pub open spec fn purge_student_summary_reading() -> Picking {
    Picking {
        skip: 0,
        head: "DELETE FROM "@,
        columns: Seq::empty(),
        table: "zeka_student_summary"@,
        conditions: seq![Cond::Outside(Term::Column("student"@), Term::Bind(1))],
        rest: Text::End,
    }
}

proof fn lemma_purge_student_summary_reads()
    ensures
        crate::sql::spells(PURGE_STUDENT_SUMMARY@, 0, purge_student_summary_reading().text()),
{
    reveal_strlit("DELETE FROM zeka_student_summary WHERE student <> ALL($1)");
    reveal_strlit("DELETE FROM ");
    reveal_strlit("zeka_student_summary");
    reveal_strlit(" WHERE ");
    reveal_strlit("student");
    reveal_strlit(" <> ALL(");
    reveal_strlit("$");
    reveal_strlit(")");
    reveal(crate::sql::Picking::text);
    reveal_with_fuel(crate::sql::where_text, 2);
    reveal_with_fuel(crate::sql::stands, 21);
    reveal_with_fuel(crate::sql::spells_by, 8);
    crate::sql::lemma_spells_by(PURGE_STUDENT_SUMMARY@, 0, purge_student_summary_reading().text(), crate::sql::cut(12, crate::sql::cut(32, crate::sql::cut(39, crate::sql::cut(46, crate::sql::cut(54, crate::sql::cut(56, crate::sql::cut(57, Cuts::Last))))))));
}

/// What [`PURGE_STUDENT_SEGMENT_PROFILE`] says.
pub open spec fn purge_student_segment_profile_reading() -> Picking {
    Picking {
        skip: 0,
        head: "DELETE FROM "@,
        columns: Seq::empty(),
        table: "zeka_student_segment_profile"@,
        conditions: seq![Cond::Outside(Term::Column("student"@), Term::Bind(1))],
        rest: Text::End,
    }
}

proof fn lemma_purge_student_segment_profile_reads()
    ensures
        crate::sql::spells(PURGE_STUDENT_SEGMENT_PROFILE@, 0, purge_student_segment_profile_reading().text()),
{
    reveal_strlit("DELETE FROM zeka_student_segment_profile WHERE student <> ALL($1)");
    reveal_strlit("DELETE FROM ");
    reveal_strlit("zeka_student_segment_profile");
    reveal_strlit(" WHERE ");
    reveal_strlit("student");
    reveal_strlit(" <> ALL(");
    reveal_strlit("$");
    reveal_strlit(")");
    reveal(crate::sql::Picking::text);
    reveal_with_fuel(crate::sql::where_text, 2);
    reveal_with_fuel(crate::sql::stands, 29);
    reveal_with_fuel(crate::sql::spells_by, 8);
    crate::sql::lemma_spells_by(PURGE_STUDENT_SEGMENT_PROFILE@, 0, purge_student_segment_profile_reading().text(), crate::sql::cut(12, crate::sql::cut(40, crate::sql::cut(47, crate::sql::cut(54, crate::sql::cut(62, crate::sql::cut(64, crate::sql::cut(65, Cuts::Last))))))));
}

/// What [`PURGE_RECOMMENDATION`] says.
pub open spec fn purge_recommendation_reading() -> Picking {
    Picking {
        skip: 0,
        head: "DELETE FROM "@,
        columns: Seq::empty(),
        table: "zeka_recommendation"@,
        conditions: seq![Cond::NotNull(crate::sql::column("about"@)), Cond::Outside(Term::Column("about"@), Term::Bind(1))],
        rest: Text::End,
    }
}

proof fn lemma_purge_recommendation_reads()
    ensures
        crate::sql::spells(PURGE_RECOMMENDATION@, 0, purge_recommendation_reading().text()),
{
    reveal_strlit("DELETE FROM zeka_recommendation WHERE about IS NOT NULL AND about <> ALL($1)");
    reveal_strlit("DELETE FROM ");
    reveal_strlit("zeka_recommendation");
    reveal_strlit(" WHERE ");
    reveal_strlit("about");
    reveal_strlit(" IS NOT NULL");
    reveal_strlit(" AND ");
    reveal_strlit(" <> ALL(");
    reveal_strlit("$");
    reveal_strlit(")");
    reveal(crate::sql::Picking::text);
    reveal_with_fuel(crate::sql::where_text, 3);
    reveal_with_fuel(crate::sql::stands, 20);
    reveal_with_fuel(crate::sql::spells_by, 11);
    crate::sql::lemma_spells_by(PURGE_RECOMMENDATION@, 0, purge_recommendation_reading().text(), crate::sql::cut(12, crate::sql::cut(31, crate::sql::cut(38, crate::sql::cut(43, crate::sql::cut(55, crate::sql::cut(60, crate::sql::cut(65, crate::sql::cut(73, crate::sql::cut(75, crate::sql::cut(76, Cuts::Last)))))))))));
}

/// What [`PURGE_RUN_PENDING`] says.
pub open spec fn purge_run_pending_reading() -> Picking {
    Picking {
        skip: 0,
        head: "DELETE FROM "@,
        columns: Seq::empty(),
        table: "zeka_run_pending"@,
        conditions: seq![Cond::Outside(Term::Column("student"@), Term::Bind(1))],
        rest: Text::End,
    }
}

proof fn lemma_purge_run_pending_reads()
    ensures
        crate::sql::spells(PURGE_RUN_PENDING@, 0, purge_run_pending_reading().text()),
{
    reveal_strlit("DELETE FROM zeka_run_pending WHERE student <> ALL($1)");
    reveal_strlit("DELETE FROM ");
    reveal_strlit("zeka_run_pending");
    reveal_strlit(" WHERE ");
    reveal_strlit("student");
    reveal_strlit(" <> ALL(");
    reveal_strlit("$");
    reveal_strlit(")");
    reveal(crate::sql::Picking::text);
    reveal_with_fuel(crate::sql::where_text, 2);
    reveal_with_fuel(crate::sql::stands, 17);
    reveal_with_fuel(crate::sql::spells_by, 8);
    crate::sql::lemma_spells_by(PURGE_RUN_PENDING@, 0, purge_run_pending_reading().text(), crate::sql::cut(12, crate::sql::cut(28, crate::sql::cut(35, crate::sql::cut(42, crate::sql::cut(50, crate::sql::cut(52, crate::sql::cut(53, Cuts::Last))))))));
}

/// A purge picks the rows of who is not on the roster and no other; a card about
/// nobody stays.
pub proof fn law_purge_deletes_who_left(
    active: Seq<Uuid>,
    row: Row,
)
    ensures
        purge_attention_item_reading().is_read(purge_sent(active)[0]),
        purge_attention_item_reading().picks(purge_sent(active)[0].binds, row) == ((row["student"@] is Uuid && !active.contains(row["student"@]->Uuid_0))),
        purge_student_summary_reading().is_read(purge_sent(active)[1]),
        purge_student_summary_reading().picks(purge_sent(active)[1].binds, row) == ((row["student"@] is Uuid && !active.contains(row["student"@]->Uuid_0))),
        purge_student_segment_profile_reading().is_read(purge_sent(active)[2]),
        purge_student_segment_profile_reading().picks(purge_sent(active)[2].binds, row) == ((row["student"@] is Uuid && !active.contains(row["student"@]->Uuid_0))),
        purge_recommendation_reading().is_read(purge_sent(active)[3]),
        purge_recommendation_reading().picks(purge_sent(active)[3].binds, row) == (row["about"@] !is Null && (row["about"@] is Uuid && !active.contains(row["about"@]->Uuid_0))),
        purge_run_pending_reading().is_read(purge_sent(active)[4]),
        purge_run_pending_reading().picks(purge_sent(active)[4].binds, row) == ((row["student"@] is Uuid && !active.contains(row["student"@]->Uuid_0))),
{
    lemma_purge_attention_item_reads();
    lemma_purge_student_summary_reads();
    lemma_purge_student_segment_profile_reads();
    lemma_purge_recommendation_reads();
    lemma_purge_run_pending_reads();
    reveal_with_fuel(crate::sql::all_hold, 3);
}

} // verus!
