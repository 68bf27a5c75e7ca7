//! The `offering_exam_weight` and `class_course_exam_weight` tables: per-kind
//! weight overrides under the grade-level template and the class section.
//! Every class-owned write moves the section's override flag in the same
//! statement; [`crate::section`] states what that keeps.

use vstd::prelude::*;

use crate::error::{found, AppError, AppErrorView};
use crate::id::{ClassCourseId, CourseOfferingId};
use crate::page::{Param, ParamView, Statement};
use crate::sql::{Cell, Conflict, Cuts, Picking, Row, Storing, Term, Text, Writing};

verus! {

/// The weight of one kind of exam.
#[derive(Debug)]
pub struct ExamWeight {
    pub kind: String,
    pub weight: i64,
}

pub const LIST_FOR_OFFERING: &'static str =
    "SELECT kind, weight::bigint AS weight FROM offering_exam_weight WHERE offering = $1 ORDER \
     BY kind";

/// The read of an offering's own weights, by kind.
pub fn list_for_offering(offering: CourseOfferingId) -> (statement: Statement)
    ensures
        statement@ == crate::page::sends(LIST_FOR_OFFERING, seq![ParamView::Uuid(offering.0)]),
{
    Statement::new(LIST_FOR_OFFERING, vec![Param::Uuid(offering.0)])
}

pub const OFFERING_WEIGHT: &'static str =
    "SELECT kind, weight::bigint AS weight FROM offering_exam_weight WHERE offering = $1 AND \
     kind = $2";

/// The read of one weight of an offering.
pub fn offering_weight(offering: CourseOfferingId, kind: &str) -> (statement: Statement)
    ensures
        statement@ == crate::page::sends(
            OFFERING_WEIGHT,
            seq![ParamView::Uuid(offering.0), ParamView::Text(kind@)],
        ),
{
    Statement::new(OFFERING_WEIGHT, vec![Param::Uuid(offering.0), Param::Text(kind.to_owned())])
}

pub const UPSERT_FOR_OFFERING: &'static str =
    "INSERT INTO offering_exam_weight (offering, kind, weight) VALUES ($1, $2, \
     $3::bigint::smallint) ON CONFLICT (offering, kind) DO UPDATE SET weight = EXCLUDED.weight";

/// The write of one weight on the template; one that is there is rewritten.
pub fn upsert_for_offering(
    offering: CourseOfferingId,
    kind: &str,
    weight: i64,
) -> (statement: Statement)
    ensures
        statement@ == crate::page::sends(
            UPSERT_FOR_OFFERING,
            seq![ParamView::Uuid(offering.0), ParamView::Text(kind@), ParamView::I64(weight)],
        ),
{
    Statement::new(
        UPSERT_FOR_OFFERING,
        vec![Param::Uuid(offering.0), Param::Text(kind.to_owned()), Param::I64(weight)],
    )
}

pub const DELETE_FROM_OFFERING: &'static str =
    "DELETE FROM offering_exam_weight WHERE offering = $1 AND kind = $2";

/// The drop of one weight from the template; [`crate::error::any_affected`]
/// says whether there was one.
pub fn delete_from_offering(offering: CourseOfferingId, kind: &str) -> (statement: Statement)
    ensures
        statement@ == crate::page::sends(
            DELETE_FROM_OFFERING,
            seq![ParamView::Uuid(offering.0), ParamView::Text(kind@)],
        ),
{
    Statement::new(
        DELETE_FROM_OFFERING,
        vec![Param::Uuid(offering.0), Param::Text(kind.to_owned())],
    )
}

pub const LIST_FOR_CLASS: &'static str =
    "SELECT kind, weight::bigint AS weight FROM class_course_exam_weight WHERE class_course = \
     $1 ORDER BY kind";

/// The read of a section's own weights, by kind: authoritative exactly while it
/// does not inherit, also where there are none.
pub fn list_for_class(instance: ClassCourseId) -> (statement: Statement)
    ensures
        statement@ == crate::page::sends(LIST_FOR_CLASS, seq![ParamView::Uuid(instance.0)]),
{
    Statement::new(LIST_FOR_CLASS, vec![Param::Uuid(instance.0)])
}

pub const CLASS_WEIGHT: &'static str =
    "SELECT kind, weight::bigint AS weight FROM class_course_exam_weight WHERE class_course = \
     $1 AND kind = $2";

/// The read of one weight of a section.
pub fn class_weight(instance: ClassCourseId, kind: &str) -> (statement: Statement)
    ensures
        statement@ == crate::page::sends(
            CLASS_WEIGHT,
            seq![ParamView::Uuid(instance.0), ParamView::Text(kind@)],
        ),
{
    Statement::new(CLASS_WEIGHT, vec![Param::Uuid(instance.0), Param::Text(kind.to_owned())])
}

pub const UPSERT_FOR_CLASS: &'static str =
    "WITH updated AS ( UPDATE class_course SET exam_weights_inherited = FALSE WHERE id = $1 \
     RETURNING id ), written AS ( INSERT INTO class_course_exam_weight (class_course, kind, \
     weight) SELECT $1, $2, $3::bigint::smallint WHERE EXISTS (SELECT 1 FROM updated) ON \
     CONFLICT (class_course, kind) DO UPDATE SET weight = EXCLUDED.weight RETURNING \
     class_course ) SELECT u.id FROM updated u";

/// The write of one weight on a section, which takes the set own in the same
/// statement; `NotFound` where nothing comes back.
pub fn upsert_for_class(instance: ClassCourseId, kind: &str, weight: i64) -> (statement: Statement)
    ensures
        statement@ == crate::page::sends(
            UPSERT_FOR_CLASS,
            seq![ParamView::Uuid(instance.0), ParamView::Text(kind@), ParamView::I64(weight)],
        ),
{
    Statement::new(
        UPSERT_FOR_CLASS,
        vec![Param::Uuid(instance.0), Param::Text(kind.to_owned()), Param::I64(weight)],
    )
}

pub const DELETE_FROM_CLASS: &'static str =
    "WITH kicked AS ( DELETE FROM class_course_exam_weight WHERE class_course = $1 AND kind = \
     $2 RETURNING class_course ), updated AS ( UPDATE class_course SET exam_weights_inherited = \
     CASE WHEN EXISTS (SELECT 1 FROM kicked) THEN FALSE ELSE exam_weights_inherited END WHERE \
     id = $1 RETURNING exam_weights_inherited ) SELECT u.exam_weights_inherited AS inherited, \
     (SELECT count(*)::bigint FROM kicked) AS removed FROM updated u";

/// The drop of one weight from a section, which takes the set own only where a
/// row was dropped; it replies how many were.
pub fn delete_from_class(instance: ClassCourseId, kind: &str) -> (statement: Statement)
    ensures
        statement@ == crate::page::sends(
            DELETE_FROM_CLASS,
            seq![ParamView::Uuid(instance.0), ParamView::Text(kind@)],
        ),
{
    Statement::new(DELETE_FROM_CLASS, vec![Param::Uuid(instance.0), Param::Text(kind.to_owned())])
}

/// What the drop of a section's weight answers: whether there was one, or
/// that the section is gone.
pub fn deleted_from_class(removed: Option<i64>) -> (answer: Result<bool, AppError>)
    ensures
        match removed {
            Some(count) => answer == Ok::<bool, AppError>(count > 0),
            None => answer is Err && answer->Err_0@ == AppErrorView::NotFound,
        },
{
    match found(removed) {
        Ok(count) => Ok(count > 0),
        Err(error) => Err(error),
    }
}

pub const RESET_CLASS: &'static str =
    "WITH kicked AS ( DELETE FROM class_course_exam_weight WHERE class_course = $1 ), updated \
     AS ( UPDATE class_course SET exam_weights_inherited = TRUE WHERE id = $1 RETURNING id ) \
     SELECT u.id FROM updated u";

/// The sweep of a section's own weights, which restores the template in the
/// same statement; `NotFound` where nothing comes back.
pub fn reset_class(instance: ClassCourseId) -> (statement: Statement)
    ensures
        statement@ == crate::page::sends(RESET_CLASS, seq![ParamView::Uuid(instance.0)]),
{
    Statement::new(RESET_CLASS, vec![Param::Uuid(instance.0)])
}

/// What [`LIST_FOR_OFFERING`] says.
pub open spec fn list_for_offering_reading() -> Picking {
    Picking {
        skip: 0,
        head: "SELECT "@,
        columns: seq!["kind"@, "weight::bigint AS weight"@],
        table: "offering_exam_weight"@,
        conditions: seq![crate::sql::is_bound("offering"@, 1)],
        rest: crate::sql::before(" ORDER BY kind"@, Text::End),
    }
}

proof fn lemma_list_for_offering_reads()
    ensures
        crate::sql::spells(LIST_FOR_OFFERING@, 0, list_for_offering_reading().text()),
{
    reveal_strlit("SELECT kind, weight::bigint AS weight FROM offering_exam_weight WHERE offering = $1 ORDER BY kind");
    reveal_strlit("SELECT ");
    reveal_strlit("kind");
    reveal_strlit(", ");
    reveal_strlit("weight::bigint AS weight");
    reveal_strlit(" FROM ");
    reveal_strlit("offering_exam_weight");
    reveal_strlit(" WHERE ");
    reveal_strlit("offering");
    reveal_strlit(" = ");
    reveal_strlit("$");
    reveal_strlit(" ORDER BY kind");
    reveal(crate::sql::Picking::text);
    reveal_with_fuel(crate::sql::where_text, 2);
    reveal_with_fuel(crate::sql::names_text, 3);
    reveal_with_fuel(crate::sql::stands, 25);
    reveal_with_fuel(crate::sql::spells_by, 12);
    crate::sql::lemma_spells_by(LIST_FOR_OFFERING@, 0, list_for_offering_reading().text(), crate::sql::cut(7, crate::sql::cut(11, crate::sql::cut(13, crate::sql::cut(37, crate::sql::cut(43, crate::sql::cut(63, crate::sql::cut(70, crate::sql::cut(78, crate::sql::cut(81, crate::sql::cut(83, crate::sql::cut(97, Cuts::Last))))))))))));
}

/// [`list_for_offering`] reads the rows it names and no other.
pub proof fn law_list_for_offering_reads_its_rows(
    offering: CourseOfferingId,
    sent: Statement,
    row: Row,
)
    requires
        call_ensures(list_for_offering, (offering,), sent),
    ensures
        list_for_offering_reading().is_read(sent@),
        list_for_offering_reading().picks(sent@.binds, row) == (row["offering"@] == Cell::Uuid(offering.0)),
{
    lemma_list_for_offering_reads();
    reveal_with_fuel(crate::sql::all_hold, 2);
}

/// What [`OFFERING_WEIGHT`] says.
pub open spec fn offering_weight_reading() -> Picking {
    Picking {
        skip: 0,
        head: "SELECT "@,
        columns: seq!["kind"@, "weight::bigint AS weight"@],
        table: "offering_exam_weight"@,
        conditions: seq![crate::sql::is_bound("offering"@, 1), crate::sql::is_bound("kind"@, 2)],
        rest: Text::End,
    }
}

proof fn lemma_offering_weight_reads()
    ensures
        crate::sql::spells(OFFERING_WEIGHT@, 0, offering_weight_reading().text()),
{
    reveal_strlit("SELECT kind, weight::bigint AS weight FROM offering_exam_weight WHERE offering = $1 AND kind = $2");
    reveal_strlit("SELECT ");
    reveal_strlit("kind");
    reveal_strlit(", ");
    reveal_strlit("weight::bigint AS weight");
    reveal_strlit(" FROM ");
    reveal_strlit("offering_exam_weight");
    reveal_strlit(" WHERE ");
    reveal_strlit("offering");
    reveal_strlit(" = ");
    reveal_strlit("$");
    reveal_strlit(" AND ");
    reveal(crate::sql::Picking::text);
    reveal_with_fuel(crate::sql::where_text, 3);
    reveal_with_fuel(crate::sql::names_text, 3);
    reveal_with_fuel(crate::sql::stands, 25);
    reveal_with_fuel(crate::sql::spells_by, 15);
    crate::sql::lemma_spells_by(OFFERING_WEIGHT@, 0, offering_weight_reading().text(), crate::sql::cut(7, crate::sql::cut(11, crate::sql::cut(13, crate::sql::cut(37, crate::sql::cut(43, crate::sql::cut(63, crate::sql::cut(70, crate::sql::cut(78, crate::sql::cut(81, crate::sql::cut(83, crate::sql::cut(88, crate::sql::cut(92, crate::sql::cut(95, crate::sql::cut(97, Cuts::Last)))))))))))))));
}

/// [`offering_weight`] reads the rows it names and no other.
pub proof fn law_offering_weight_reads_its_rows(
    offering: CourseOfferingId,
    kind: &str,
    sent: Statement,
    row: Row,
)
    requires
        call_ensures(offering_weight, (offering, kind), sent),
    ensures
        offering_weight_reading().is_read(sent@),
        offering_weight_reading().picks(sent@.binds, row) == (row["offering"@] == Cell::Uuid(offering.0) && row["kind"@] == Cell::Text(kind@)),
{
    lemma_offering_weight_reads();
    reveal_with_fuel(crate::sql::all_hold, 3);
}

/// What [`UPSERT_FOR_OFFERING`] says.
pub open spec fn upsert_for_offering_reading() -> Storing {
    Storing {
        head: "INSERT INTO "@,
        table: "offering_exam_weight"@,
        columns: seq!["offering"@, "kind"@, "weight"@],
        values: seq![Term::Bind(1), Term::Bind(2), Term::Cast(3, "bigint::smallint"@)],
        selected: false,
        conflict: Conflict::Takes(seq!["offering"@, "kind"@], seq!["weight"@]),
        rest: Text::End,
    }
}

proof fn lemma_upsert_for_offering_reads()
    ensures
        crate::sql::spells(UPSERT_FOR_OFFERING@, 0, upsert_for_offering_reading().text()),
{
    reveal_strlit("INSERT INTO offering_exam_weight (offering, kind, weight) VALUES ($1, $2, $3::bigint::smallint) ON CONFLICT (offering, kind) DO UPDATE SET weight = EXCLUDED.weight");
    reveal_strlit("INSERT INTO ");
    reveal_strlit("offering_exam_weight");
    reveal_strlit(" (");
    reveal_strlit("offering");
    reveal_strlit(", ");
    reveal_strlit("kind");
    reveal_strlit("weight");
    reveal_strlit(") VALUES (");
    reveal_strlit("$");
    reveal_strlit("::");
    reveal_strlit("bigint::smallint");
    reveal_strlit(")");
    reveal_strlit(" ON CONFLICT (");
    reveal_strlit(") DO UPDATE");
    reveal_strlit(" SET ");
    reveal_strlit(" = EXCLUDED.");
    reveal(crate::sql::Storing::text);
    reveal_with_fuel(crate::sql::names_text, 4);
    reveal_with_fuel(crate::sql::values_text, 4);
    reveal_with_fuel(crate::sql::excluded_text, 2);
    reveal_with_fuel(crate::sql::stands, 21);
    reveal_with_fuel(crate::sql::spells_by, 27);
    crate::sql::lemma_spells_by(UPSERT_FOR_OFFERING@, 0, upsert_for_offering_reading().text(), crate::sql::cut(12, crate::sql::cut(32, crate::sql::cut(34, crate::sql::cut(42, crate::sql::cut(44, crate::sql::cut(48, crate::sql::cut(50, crate::sql::cut(56, crate::sql::cut(66, crate::sql::cut(68, crate::sql::cut(70, crate::sql::cut(72, crate::sql::cut(74, crate::sql::cut(76, crate::sql::cut(78, crate::sql::cut(94, crate::sql::cut(95, crate::sql::cut(109, crate::sql::cut(117, crate::sql::cut(119, crate::sql::cut(123, crate::sql::cut(134, crate::sql::cut(139, crate::sql::cut(145, crate::sql::cut(157, crate::sql::cut(163, Cuts::Last)))))))))))))))))))))))))));
}

/// What [`upsert_for_offering`] stores, column by column, is what it is given.
pub proof fn law_upsert_for_offering_lands_in_its_columns(
    offering: CourseOfferingId,
    kind: &str,
    weight: i64,
    sent: Statement,
)
    requires
        call_ensures(upsert_for_offering, (offering, kind, weight), sent),
    ensures
        upsert_for_offering_reading().is_read(sent@),
        upsert_for_offering_reading().stores(sent@.binds) == seq![
            ("offering"@, Cell::Uuid(offering.0)),
            ("kind"@, Cell::Text(kind@)),
            ("weight"@, Cell::Int(weight as int)),
        ],
        upsert_for_offering_reading().conflict == Conflict::Takes(seq!["offering"@, "kind"@], seq!["weight"@]),
{
    lemma_upsert_for_offering_reads();
}

/// What [`DELETE_FROM_OFFERING`] says.
pub open spec fn delete_from_offering_reading() -> Picking {
    Picking {
        skip: 0,
        head: "DELETE FROM "@,
        columns: Seq::empty(),
        table: "offering_exam_weight"@,
        conditions: seq![crate::sql::is_bound("offering"@, 1), crate::sql::is_bound("kind"@, 2)],
        rest: Text::End,
    }
}

proof fn lemma_delete_from_offering_reads()
    ensures
        crate::sql::spells(DELETE_FROM_OFFERING@, 0, delete_from_offering_reading().text()),
{
    reveal_strlit("DELETE FROM offering_exam_weight WHERE offering = $1 AND kind = $2");
    reveal_strlit("DELETE FROM ");
    reveal_strlit("offering_exam_weight");
    reveal_strlit(" WHERE ");
    reveal_strlit("offering");
    reveal_strlit(" = ");
    reveal_strlit("$");
    reveal_strlit(" AND ");
    reveal_strlit("kind");
    reveal(crate::sql::Picking::text);
    reveal_with_fuel(crate::sql::where_text, 3);
    reveal_with_fuel(crate::sql::stands, 21);
    reveal_with_fuel(crate::sql::spells_by, 11);
    crate::sql::lemma_spells_by(DELETE_FROM_OFFERING@, 0, delete_from_offering_reading().text(), crate::sql::cut(12, crate::sql::cut(32, crate::sql::cut(39, crate::sql::cut(47, crate::sql::cut(50, crate::sql::cut(52, crate::sql::cut(57, crate::sql::cut(61, crate::sql::cut(64, crate::sql::cut(66, Cuts::Last)))))))))));
}

/// [`delete_from_offering`] deletes the rows it names and no other.
pub proof fn law_delete_from_offering_deletes_its_rows(
    offering: CourseOfferingId,
    kind: &str,
    sent: Statement,
    row: Row,
)
    requires
        call_ensures(delete_from_offering, (offering, kind), sent),
    ensures
        delete_from_offering_reading().is_read(sent@),
        delete_from_offering_reading().picks(sent@.binds, row) == (row["offering"@] == Cell::Uuid(offering.0) && row["kind"@] == Cell::Text(kind@)),
{
    lemma_delete_from_offering_reads();
    reveal_with_fuel(crate::sql::all_hold, 3);
}

/// What [`LIST_FOR_CLASS`] says.
pub open spec fn list_for_class_reading() -> Picking {
    Picking {
        skip: 0,
        head: "SELECT "@,
        columns: seq!["kind"@, "weight::bigint AS weight"@],
        table: "class_course_exam_weight"@,
        conditions: seq![crate::sql::is_bound("class_course"@, 1)],
        rest: crate::sql::before(" ORDER BY kind"@, Text::End),
    }
}

proof fn lemma_list_for_class_reads()
    ensures
        crate::sql::spells(LIST_FOR_CLASS@, 0, list_for_class_reading().text()),
{
    reveal_strlit("SELECT kind, weight::bigint AS weight FROM class_course_exam_weight WHERE class_course = $1 ORDER BY kind");
    reveal_strlit("SELECT ");
    reveal_strlit("kind");
    reveal_strlit(", ");
    reveal_strlit("weight::bigint AS weight");
    reveal_strlit(" FROM ");
    reveal_strlit("class_course_exam_weight");
    reveal_strlit(" WHERE ");
    reveal_strlit("class_course");
    reveal_strlit(" = ");
    reveal_strlit("$");
    reveal_strlit(" ORDER BY kind");
    reveal(crate::sql::Picking::text);
    reveal_with_fuel(crate::sql::where_text, 2);
    reveal_with_fuel(crate::sql::names_text, 3);
    reveal_with_fuel(crate::sql::stands, 25);
    reveal_with_fuel(crate::sql::spells_by, 12);
    crate::sql::lemma_spells_by(LIST_FOR_CLASS@, 0, list_for_class_reading().text(), crate::sql::cut(7, crate::sql::cut(11, crate::sql::cut(13, crate::sql::cut(37, crate::sql::cut(43, crate::sql::cut(67, crate::sql::cut(74, crate::sql::cut(86, crate::sql::cut(89, crate::sql::cut(91, crate::sql::cut(105, Cuts::Last))))))))))));
}

/// [`list_for_class`] reads the rows it names and no other.
pub proof fn law_list_for_class_reads_its_rows(
    instance: ClassCourseId,
    sent: Statement,
    row: Row,
)
    requires
        call_ensures(list_for_class, (instance,), sent),
    ensures
        list_for_class_reading().is_read(sent@),
        list_for_class_reading().picks(sent@.binds, row) == (row["class_course"@] == Cell::Uuid(instance.0)),
{
    lemma_list_for_class_reads();
    reveal_with_fuel(crate::sql::all_hold, 2);
}

/// What [`CLASS_WEIGHT`] says.
pub open spec fn class_weight_reading() -> Picking {
    Picking {
        skip: 0,
        head: "SELECT "@,
        columns: seq!["kind"@, "weight::bigint AS weight"@],
        table: "class_course_exam_weight"@,
        conditions: seq![crate::sql::is_bound("class_course"@, 1), crate::sql::is_bound("kind"@, 2)],
        rest: Text::End,
    }
}

proof fn lemma_class_weight_reads()
    ensures
        crate::sql::spells(CLASS_WEIGHT@, 0, class_weight_reading().text()),
{
    reveal_strlit("SELECT kind, weight::bigint AS weight FROM class_course_exam_weight WHERE class_course = $1 AND kind = $2");
    reveal_strlit("SELECT ");
    reveal_strlit("kind");
    reveal_strlit(", ");
    reveal_strlit("weight::bigint AS weight");
    reveal_strlit(" FROM ");
    reveal_strlit("class_course_exam_weight");
    reveal_strlit(" WHERE ");
    reveal_strlit("class_course");
    reveal_strlit(" = ");
    reveal_strlit("$");
    reveal_strlit(" AND ");
    reveal(crate::sql::Picking::text);
    reveal_with_fuel(crate::sql::where_text, 3);
    reveal_with_fuel(crate::sql::names_text, 3);
    reveal_with_fuel(crate::sql::stands, 25);
    reveal_with_fuel(crate::sql::spells_by, 15);
    crate::sql::lemma_spells_by(CLASS_WEIGHT@, 0, class_weight_reading().text(), crate::sql::cut(7, crate::sql::cut(11, crate::sql::cut(13, crate::sql::cut(37, crate::sql::cut(43, crate::sql::cut(67, crate::sql::cut(74, crate::sql::cut(86, crate::sql::cut(89, crate::sql::cut(91, crate::sql::cut(96, crate::sql::cut(100, crate::sql::cut(103, crate::sql::cut(105, Cuts::Last)))))))))))))));
}

/// [`class_weight`] reads the rows it names and no other.
pub proof fn law_class_weight_reads_its_rows(
    instance: ClassCourseId,
    kind: &str,
    sent: Statement,
    row: Row,
)
    requires
        call_ensures(class_weight, (instance, kind), sent),
    ensures
        class_weight_reading().is_read(sent@),
        class_weight_reading().picks(sent@.binds, row) == (row["class_course"@] == Cell::Uuid(instance.0) && row["kind"@] == Cell::Text(kind@)),
{
    lemma_class_weight_reads();
    reveal_with_fuel(crate::sql::all_hold, 3);
}

/// The row that [`UPSERT_FOR_CLASS`] inserts where its first part wrote.
pub open spec fn upsert_for_class_row() -> Storing {
    Storing {
        head: "INSERT INTO "@,
        table: "class_course_exam_weight"@,
        columns: seq!["class_course"@, "kind"@, "weight"@],
        values: seq![Term::Bind(1), Term::Bind(2), Term::Cast(3, "bigint::smallint"@)],
        selected: true,
        conflict: Conflict::Unread,
        rest: crate::sql::before(" WHERE EXISTS (SELECT 1 FROM updated) ON"@, crate::sql::before(" CONFLICT (class_course, kind) DO UPDATE SET"@, crate::sql::before(" weight = EXCLUDED.weight"@, crate::sql::returning()))),
    }
}

/// What [`UPSERT_FOR_CLASS`] says.
pub open spec fn upsert_for_class_reading() -> Writing {
    Writing {
        head: "WITH updated AS ( UPDATE "@,
        table: "class_course"@,
        sets: seq![("exam_weights_inherited"@, crate::sql::word("FALSE"@, Cell::Bool(false)))],
        conditions: seq![crate::sql::is_bound("id"@, 1)],
        rest: crate::sql::before(" RETURNING id ), written AS ( "@, upsert_for_class_row().text()),
    }
}

#[verifier::rlimit(20)]
proof fn lemma_upsert_for_class_reads()
    ensures
        crate::sql::spells(UPSERT_FOR_CLASS@, 0, upsert_for_class_reading().text()),
{
    reveal_strlit("WITH updated AS ( UPDATE class_course SET exam_weights_inherited = FALSE WHERE id = $1 RETURNING id ), written AS ( INSERT INTO class_course_exam_weight (class_course, kind, weight) SELECT $1, $2, $3::bigint::smallint WHERE EXISTS (SELECT 1 FROM updated) ON CONFLICT (class_course, kind) DO UPDATE SET weight = EXCLUDED.weight RETURNING class_course ) SELECT u.id FROM updated u");
    reveal_strlit("WITH updated AS ( UPDATE ");
    reveal_strlit("class_course");
    reveal_strlit(" SET ");
    reveal_strlit("exam_weights_inherited");
    reveal_strlit(" = ");
    reveal_strlit("FALSE");
    reveal_strlit(" WHERE ");
    reveal_strlit("id");
    reveal_strlit("$");
    reveal_strlit(" RETURNING id ), written AS ( ");
    reveal_strlit("INSERT INTO ");
    reveal_strlit("class_course_exam_weight");
    reveal_strlit(" (");
    reveal_strlit(", ");
    reveal_strlit("kind");
    reveal_strlit("weight");
    reveal_strlit(") SELECT ");
    reveal_strlit("::");
    reveal_strlit("bigint::smallint");
    reveal_strlit(" WHERE EXISTS (SELECT 1 FROM updated) ON");
    reveal_strlit(" CONFLICT (class_course, kind) DO UPDATE SET");
    reveal_strlit(" weight = EXCLUDED.weight");
    reveal_strlit(" RETURNING ");
    reveal(crate::sql::Writing::text);
    reveal(crate::sql::Storing::text);
    reveal_with_fuel(crate::sql::set_text, 2);
    reveal_with_fuel(crate::sql::where_text, 2);
    reveal_with_fuel(crate::sql::names_text, 4);
    reveal_with_fuel(crate::sql::values_text, 4);
    reveal_with_fuel(crate::sql::stands, 45);
    reveal_with_fuel(crate::sql::spells_by, 32);
    crate::sql::lemma_spells_by(UPSERT_FOR_CLASS@, 0, upsert_for_class_reading().text(), crate::sql::cut(25, crate::sql::cut(37, crate::sql::cut(42, crate::sql::cut(64, crate::sql::cut(67, crate::sql::cut(72, crate::sql::cut(79, crate::sql::cut(81, crate::sql::cut(84, crate::sql::cut(86, crate::sql::cut(116, crate::sql::cut(128, crate::sql::cut(152, crate::sql::cut(154, crate::sql::cut(166, crate::sql::cut(168, crate::sql::cut(172, crate::sql::cut(174, crate::sql::cut(180, crate::sql::cut(189, crate::sql::cut(191, crate::sql::cut(193, crate::sql::cut(195, crate::sql::cut(197, crate::sql::cut(199, crate::sql::cut(201, crate::sql::cut(217, crate::sql::cut(257, crate::sql::cut(301, crate::sql::cut(326, crate::sql::cut(337, Cuts::Last))))))))))))))))))))))))))))))));
}

/// [`upsert_for_class`] writes the row it names where its condition holds, and then stores the
/// new row, each value in its own column.
pub proof fn law_upsert_for_class_lands_in_its_columns(
    instance: ClassCourseId,
    kind: &str,
    weight: i64,
    sent: Statement,
    row: Row,
)
    requires
        call_ensures(upsert_for_class, (instance, kind, weight), sent),
    ensures
        upsert_for_class_reading().is_read(sent@),
        upsert_for_class_reading().picks(sent@.binds, row) == (row["id"@] == Cell::Uuid(instance.0)),
        upsert_for_class_reading().writes(sent@.binds, row) == seq![
            ("exam_weights_inherited"@, Cell::Bool(false)),
        ],
        upsert_for_class_row().stores(sent@.binds) == seq![
            ("class_course"@, Cell::Uuid(instance.0)),
            ("kind"@, Cell::Text(kind@)),
            ("weight"@, Cell::Int(weight as int)),
        ],
{
    lemma_upsert_for_class_reads();
    reveal_with_fuel(crate::sql::all_hold, 2);
}

/// What [`DELETE_FROM_CLASS`] says.
pub open spec fn delete_from_class_reading() -> Picking {
    Picking {
        skip: 0,
        head: "WITH kicked AS ( DELETE FROM "@,
        columns: Seq::empty(),
        table: "class_course_exam_weight"@,
        conditions: seq![crate::sql::is_bound("class_course"@, 1), crate::sql::is_bound("kind"@, 2)],
        rest: crate::sql::returning(),
    }
}

proof fn lemma_delete_from_class_reads()
    ensures
        crate::sql::spells(DELETE_FROM_CLASS@, 0, delete_from_class_reading().text()),
{
    reveal_strlit("WITH kicked AS ( DELETE FROM class_course_exam_weight WHERE class_course = $1 AND kind = $2 RETURNING class_course ), updated AS ( UPDATE class_course SET exam_weights_inherited = CASE WHEN EXISTS (SELECT 1 FROM kicked) THEN FALSE ELSE exam_weights_inherited END WHERE id = $1 RETURNING exam_weights_inherited ) SELECT u.exam_weights_inherited AS inherited, (SELECT count(*)::bigint FROM kicked) AS removed FROM updated u");
    reveal_strlit("WITH kicked AS ( DELETE FROM ");
    reveal_strlit("class_course_exam_weight");
    reveal_strlit(" WHERE ");
    reveal_strlit("class_course");
    reveal_strlit(" = ");
    reveal_strlit("$");
    reveal_strlit(" AND ");
    reveal_strlit("kind");
    reveal_strlit(" RETURNING ");
    reveal(crate::sql::Picking::text);
    reveal_with_fuel(crate::sql::where_text, 3);
    reveal_with_fuel(crate::sql::stands, 30);
    reveal_with_fuel(crate::sql::spells_by, 12);
    crate::sql::lemma_spells_by(DELETE_FROM_CLASS@, 0, delete_from_class_reading().text(), crate::sql::cut(29, crate::sql::cut(53, crate::sql::cut(60, crate::sql::cut(72, crate::sql::cut(75, crate::sql::cut(77, crate::sql::cut(82, crate::sql::cut(86, crate::sql::cut(89, crate::sql::cut(91, crate::sql::cut(102, Cuts::Last))))))))))));
}

/// [`delete_from_class`] reads the rows it names and no other.
pub proof fn law_delete_from_class_reads_its_rows(
    instance: ClassCourseId,
    kind: &str,
    sent: Statement,
    row: Row,
)
    requires
        call_ensures(delete_from_class, (instance, kind), sent),
    ensures
        delete_from_class_reading().is_read(sent@),
        delete_from_class_reading().picks(sent@.binds, row) == (row["class_course"@] == Cell::Uuid(instance.0) && row["kind"@] == Cell::Text(kind@)),
{
    lemma_delete_from_class_reads();
    reveal_with_fuel(crate::sql::all_hold, 3);
}

/// What [`RESET_CLASS`] says.
pub open spec fn reset_class_reading() -> Picking {
    Picking {
        skip: 0,
        head: "WITH kicked AS ( DELETE FROM "@,
        columns: Seq::empty(),
        table: "class_course_exam_weight"@,
        conditions: seq![crate::sql::is_bound("class_course"@, 1)],
        rest: crate::sql::before(" ), "@, Text::Open),
    }
}

proof fn lemma_reset_class_reads()
    ensures
        crate::sql::spells(RESET_CLASS@, 0, reset_class_reading().text()),
{
    reveal_strlit("WITH kicked AS ( DELETE FROM class_course_exam_weight WHERE class_course = $1 ), updated AS ( UPDATE class_course SET exam_weights_inherited = TRUE WHERE id = $1 RETURNING id ) SELECT u.id FROM updated u");
    reveal_strlit("WITH kicked AS ( DELETE FROM ");
    reveal_strlit("class_course_exam_weight");
    reveal_strlit(" WHERE ");
    reveal_strlit("class_course");
    reveal_strlit(" = ");
    reveal_strlit("$");
    reveal_strlit(" ), ");
    reveal(crate::sql::Picking::text);
    reveal_with_fuel(crate::sql::where_text, 2);
    reveal_with_fuel(crate::sql::stands, 30);
    reveal_with_fuel(crate::sql::spells_by, 8);
    crate::sql::lemma_spells_by(RESET_CLASS@, 0, reset_class_reading().text(), crate::sql::cut(29, crate::sql::cut(53, crate::sql::cut(60, crate::sql::cut(72, crate::sql::cut(75, crate::sql::cut(77, crate::sql::cut(81, Cuts::Last))))))));
}

/// [`reset_class`] reads the rows it names and no other.
pub proof fn law_reset_class_reads_its_rows(
    instance: ClassCourseId,
    sent: Statement,
    row: Row,
)
    requires
        call_ensures(reset_class, (instance,), sent),
    ensures
        reset_class_reading().is_read(sent@),
        reset_class_reading().picks(sent@.binds, row) == (row["class_course"@] == Cell::Uuid(instance.0)),
{
    lemma_reset_class_reads();
    reveal_with_fuel(crate::sql::all_hold, 2);
}

} // verus!
