//! The syllabus selection junctions: `offering_subject` (what the grade-level
//! template teaches) and `class_course_subject` (what one section teaches for
//! itself). Every class-side write moves the section's override flag in the
//! same statement; [`crate::section`] states what that keeps.

use vstd::prelude::*;

use crate::error::{foreign_key_violation, AppError, AppErrorView, DbError};
use crate::id::{ClassCourseId, CourseId, CourseOfferingId, SubjectId};
use crate::page::{Param, ParamView, Statement};
use crate::section::Section;
use crate::sql::{Cell, Conflict, Cuts, Picking, Row, Storing, Term, Text, Writing};

verus! {

/// A topic of a course.
#[derive(Debug)]
pub struct Subject {
    pub id: SubjectId,
    pub course: CourseId,
    pub name: String,
    pub description: String,
}

/// The answer to a write the database refused: a parent that is gone is
/// `NotFound`.
pub fn gone(error: DbError) -> (answer: AppError)
    ensures
        answer@ == (if error.violates_foreign_key() {
            AppErrorView::NotFound
        } else {
            AppErrorView::Db(error)
        }),
{
    if foreign_key_violation(&error) {
        AppError::NotFound
    } else {
        AppError::Db(error)
    }
}

pub const LIST_FOR_OFFERING: &'static str =
    "SELECT s.id, s.course, s.name, s.description FROM offering_subject os JOIN subject s ON \
     s.id = os.subject WHERE os.offering = $1 ORDER BY s.name ASC, s.id ASC";

/// The read of an offering's topics, by name, then key.
pub fn list_for_offering(offering: CourseOfferingId) -> (statement: Statement)
    ensures
        statement@ == crate::page::sends(LIST_FOR_OFFERING, seq![ParamView::Uuid(offering.0)]),
{
    Statement::new(LIST_FOR_OFFERING, vec![Param::Uuid(offering.0)])
}

pub const LIST_FOR_CLASS_COURSE: &'static str =
    "SELECT s.id, s.course, s.name, s.description FROM class_course_subject ccs JOIN subject s \
     ON s.id = ccs.subject WHERE ccs.class_course = $1 ORDER BY s.name ASC, s.id ASC";

/// The read of a section's own topics, by name, then key.
pub fn list_for_class_course(class_course: ClassCourseId) -> (statement: Statement)
    ensures
        statement@ == crate::page::sends(
            LIST_FOR_CLASS_COURSE,
            seq![ParamView::Uuid(class_course.0)],
        ),
{
    Statement::new(LIST_FOR_CLASS_COURSE, vec![Param::Uuid(class_course.0)])
}

pub const ADD_FOR_OFFERING: &'static str =
    "INSERT INTO offering_subject (offering, subject) VALUES ($1, $2) ON CONFLICT DO NOTHING";

/// The addition of a topic to an offering; [`crate::error::any_affected`] says
/// whether it is new, and [`gone`] answers a refused one.
pub fn add_for_offering(offering: CourseOfferingId, subject: SubjectId) -> (statement: Statement)
    ensures
        statement@ == crate::page::sends(
            ADD_FOR_OFFERING,
            seq![ParamView::Uuid(offering.0), ParamView::Uuid(subject.0)],
        ),
{
    Statement::new(ADD_FOR_OFFERING, vec![Param::Uuid(offering.0), Param::Uuid(subject.0)])
}

pub const REMOVE_FOR_OFFERING: &'static str =
    "DELETE FROM offering_subject WHERE offering = $1 AND subject = $2";

/// The drop of a topic from an offering; [`crate::error::any_affected`] says
/// whether it was there.
pub fn remove_for_offering(offering: CourseOfferingId, subject: SubjectId) -> (statement: Statement)
    ensures
        statement@ == crate::page::sends(
            REMOVE_FOR_OFFERING,
            seq![ParamView::Uuid(offering.0), ParamView::Uuid(subject.0)],
        ),
{
    Statement::new(REMOVE_FOR_OFFERING, vec![Param::Uuid(offering.0), Param::Uuid(subject.0)])
}

pub const ADD_FOR_CLASS_COURSE: &'static str =
    "WITH flipped AS ( UPDATE class_course SET subjects_inherited = FALSE WHERE id = $1 \
     RETURNING id ), inserted AS ( INSERT INTO class_course_subject (class_course, subject) \
     SELECT $1, $2 WHERE EXISTS (SELECT 1 FROM flipped) ON CONFLICT DO NOTHING RETURNING \
     subject ) SELECT EXISTS (SELECT 1 FROM flipped) AS live, EXISTS (SELECT 1 FROM inserted) \
     AS added";

/// The addition of a topic to a section's own set, which takes the set own in
/// the same statement. It replies whether the section is there and whether the
/// topic is new.
pub fn add_for_class_course(
    class_course: ClassCourseId,
    subject: SubjectId,
) -> (statement: Statement)
    ensures
        statement@ == crate::page::sends(
            ADD_FOR_CLASS_COURSE,
            seq![ParamView::Uuid(class_course.0), ParamView::Uuid(subject.0)],
        ),
{
    Statement::new(ADD_FOR_CLASS_COURSE, vec![Param::Uuid(class_course.0), Param::Uuid(subject.0)])
}

pub const REMOVE_FOR_CLASS_COURSE: &'static str =
    "WITH dropped AS ( DELETE FROM class_course_subject WHERE class_course = $1 AND subject = \
     $2 RETURNING subject ), flipped AS ( UPDATE class_course SET subjects_inherited = FALSE \
     WHERE id = $1 AND EXISTS (SELECT 1 FROM dropped) RETURNING id ) SELECT EXISTS (SELECT 1 \
     FROM flipped) AS live, EXISTS (SELECT 1 FROM dropped) AS dropped";

/// The drop of a topic from a section's own set, which takes the set own only
/// where a row went. It replies whether the set was taken own and whether a row
/// went.
pub fn remove_for_class_course(
    class_course: ClassCourseId,
    subject: SubjectId,
) -> (statement: Statement)
    ensures
        statement@ == crate::page::sends(
            REMOVE_FOR_CLASS_COURSE,
            seq![ParamView::Uuid(class_course.0), ParamView::Uuid(subject.0)],
        ),
{
    Statement::new(
        REMOVE_FOR_CLASS_COURSE,
        vec![Param::Uuid(class_course.0), Param::Uuid(subject.0)],
    )
}

pub const RESET_FOR_CLASS_COURSE: &'static str =
    "WITH swept AS ( DELETE FROM class_course_subject WHERE class_course = $1 RETURNING subject \
     ), restored AS ( UPDATE class_course SET subjects_inherited = TRUE WHERE id = $1 RETURNING \
     id ) SELECT (SELECT count(*) FROM swept) AS swept, EXISTS (SELECT 1 FROM restored) AS live";

/// The sweep of a section's own topics, which restores the template in the same
/// statement. It replies how many were swept and whether the section is there.
pub fn reset_for_class_course(class_course: ClassCourseId) -> (statement: Statement)
    ensures
        statement@ == crate::page::sends(
            RESET_FOR_CLASS_COURSE,
            seq![ParamView::Uuid(class_course.0)],
        ),
{
    Statement::new(RESET_FOR_CLASS_COURSE, vec![Param::Uuid(class_course.0)])
}

pub const RESOLVES_FOR_CLASS_COURSE: &'static str =
    "SELECT CASE WHEN cc.subjects_inherited THEN EXISTS (SELECT 1 FROM offering_subject os \
     WHERE os.offering = cc.offering AND os.subject = $2) ELSE EXISTS (SELECT 1 FROM \
     class_course_subject ccs WHERE ccs.class_course = cc.id AND ccs.subject = $2) END AS \
     member FROM class_course cc WHERE cc.id = $1";

/// The read of whether a section teaches a topic: by its own rows while it does
/// not inherit, else by the offering's. Nothing comes back where the section is
/// gone.
pub fn resolves_for_class_course(
    class_course: ClassCourseId,
    subject: SubjectId,
) -> (statement: Statement)
    ensures
        statement@ == crate::page::sends(
            RESOLVES_FOR_CLASS_COURSE,
            seq![ParamView::Uuid(class_course.0), ParamView::Uuid(subject.0)],
        ),
{
    Statement::new(
        RESOLVES_FOR_CLASS_COURSE,
        vec![Param::Uuid(class_course.0), Param::Uuid(subject.0)],
    )
}

/// Whether a section teaches a topic, over what its offering teaches.
pub open spec fn teaches(
    section: Section<SubjectId, ()>,
    offering: Set<SubjectId>,
    subject: SubjectId,
) -> bool {
    if section.inherited {
        offering.contains(subject)
    } else {
        section.own.contains_key(subject)
    }
}

/// A topic added to a section is taught there and a dropped one is not,
/// whatever its offering teaches; a reset section teaches what its offering
/// does.
pub proof fn law_membership_follows_the_flag(
    section: Section<SubjectId, ()>,
    offering: Set<SubjectId>,
    subject: SubjectId,
)
    ensures
        teaches(section.written(subject, ()), offering, subject),
        section.own.contains_key(subject) ==> !teaches(section.dropped(subject), offering, subject),
        teaches(section.reset(), offering, subject) == offering.contains(subject),
{
}

/// What [`LIST_FOR_OFFERING`] says.
pub open spec fn list_for_offering_reading() -> Picking {
    Picking {
        skip: 0,
        head: "SELECT "@,
        columns: seq!["s.id"@, "s.course"@, "s.name"@, "s.description"@],
        table: "offering_subject os JOIN subject s ON s.id = os.subject"@,
        conditions: seq![crate::sql::is_bound("os.offering"@, 1)],
        rest: crate::sql::before(" ORDER BY s.name ASC, s.id ASC"@, Text::End),
    }
}

proof fn lemma_list_for_offering_reads()
    ensures
        crate::sql::spells(LIST_FOR_OFFERING@, 0, list_for_offering_reading().text()),
{
    reveal_strlit("SELECT s.id, s.course, s.name, s.description FROM offering_subject os JOIN subject s ON s.id = os.subject WHERE os.offering = $1 ORDER BY s.name ASC, s.id ASC");
    reveal_strlit("SELECT ");
    reveal_strlit("s.id");
    reveal_strlit(", ");
    reveal_strlit("s.course");
    reveal_strlit("s.name");
    reveal_strlit("s.description");
    reveal_strlit(" FROM ");
    reveal_strlit("offering_subject os JOIN subject s ON s.id = os.subject");
    reveal_strlit(" WHERE ");
    reveal_strlit("os.offering");
    reveal_strlit(" = ");
    reveal_strlit("$");
    reveal_strlit(" ORDER BY s.name ASC, s.id ASC");
    reveal(crate::sql::Picking::text);
    reveal_with_fuel(crate::sql::where_text, 2);
    reveal_with_fuel(crate::sql::names_text, 5);
    reveal_with_fuel(crate::sql::stands, 56);
    reveal_with_fuel(crate::sql::spells_by, 16);
    crate::sql::lemma_spells_by(LIST_FOR_OFFERING@, 0, list_for_offering_reading().text(), crate::sql::cut(7, crate::sql::cut(11, crate::sql::cut(13, crate::sql::cut(21, crate::sql::cut(23, crate::sql::cut(29, crate::sql::cut(31, crate::sql::cut(44, crate::sql::cut(50, crate::sql::cut(105, crate::sql::cut(112, crate::sql::cut(123, crate::sql::cut(126, crate::sql::cut(128, crate::sql::cut(158, Cuts::Last))))))))))))))));
}

/// [`list_for_offering`] reads the rows it names and no other.
pub proof fn law_list_for_offering_reads_its_rows(
    offering: CourseOfferingId,
    sent: Statement,
    row: Row,
)
    requires
        call_ensures(list_for_offering, (offering,), sent),
    ensures
        list_for_offering_reading().is_read(sent@),
        list_for_offering_reading().picks(sent@.binds, row) == (row["os.offering"@] == Cell::Uuid(offering.0)),
{
    lemma_list_for_offering_reads();
    reveal_with_fuel(crate::sql::all_hold, 2);
}

/// What [`LIST_FOR_CLASS_COURSE`] says.
pub open spec fn list_for_class_course_reading() -> Picking {
    Picking {
        skip: 0,
        head: "SELECT "@,
        columns: seq!["s.id"@, "s.course"@, "s.name"@, "s.description"@],
        table: "class_course_subject ccs JOIN subject s ON s.id = ccs.subject"@,
        conditions: seq![crate::sql::is_bound("ccs.class_course"@, 1)],
        rest: crate::sql::before(" ORDER BY s.name ASC, s.id ASC"@, Text::End),
    }
}

proof fn lemma_list_for_class_course_reads()
    ensures
        crate::sql::spells(LIST_FOR_CLASS_COURSE@, 0, list_for_class_course_reading().text()),
{
    reveal_strlit("SELECT s.id, s.course, s.name, s.description FROM class_course_subject ccs JOIN subject s ON s.id = ccs.subject WHERE ccs.class_course = $1 ORDER BY s.name ASC, s.id ASC");
    reveal_strlit("SELECT ");
    reveal_strlit("s.id");
    reveal_strlit(", ");
    reveal_strlit("s.course");
    reveal_strlit("s.name");
    reveal_strlit("s.description");
    reveal_strlit(" FROM ");
    reveal_strlit("class_course_subject ccs JOIN subject s ON s.id = ccs.subject");
    reveal_strlit(" WHERE ");
    reveal_strlit("ccs.class_course");
    reveal_strlit(" = ");
    reveal_strlit("$");
    reveal_strlit(" ORDER BY s.name ASC, s.id ASC");
    reveal(crate::sql::Picking::text);
    reveal_with_fuel(crate::sql::where_text, 2);
    reveal_with_fuel(crate::sql::names_text, 5);
    reveal_with_fuel(crate::sql::stands, 62);
    reveal_with_fuel(crate::sql::spells_by, 16);
    crate::sql::lemma_spells_by(LIST_FOR_CLASS_COURSE@, 0, list_for_class_course_reading().text(), crate::sql::cut(7, crate::sql::cut(11, crate::sql::cut(13, crate::sql::cut(21, crate::sql::cut(23, crate::sql::cut(29, crate::sql::cut(31, crate::sql::cut(44, crate::sql::cut(50, crate::sql::cut(111, crate::sql::cut(118, crate::sql::cut(134, crate::sql::cut(137, crate::sql::cut(139, crate::sql::cut(169, Cuts::Last))))))))))))))));
}

/// [`list_for_class_course`] reads the rows it names and no other.
pub proof fn law_list_for_class_course_reads_its_rows(
    class_course: ClassCourseId,
    sent: Statement,
    row: Row,
)
    requires
        call_ensures(list_for_class_course, (class_course,), sent),
    ensures
        list_for_class_course_reading().is_read(sent@),
        list_for_class_course_reading().picks(sent@.binds, row) == (row["ccs.class_course"@] == Cell::Uuid(class_course.0)),
{
    lemma_list_for_class_course_reads();
    reveal_with_fuel(crate::sql::all_hold, 2);
}

/// What [`ADD_FOR_OFFERING`] says.
pub open spec fn add_for_offering_reading() -> Storing {
    Storing {
        head: "INSERT INTO "@,
        table: "offering_subject"@,
        columns: seq!["offering"@, "subject"@],
        values: seq![Term::Bind(1), Term::Bind(2)],
        selected: false,
        conflict: Conflict::Skips(" ON CONFLICT DO NOTHING"@),
        rest: Text::End,
    }
}

proof fn lemma_add_for_offering_reads()
    ensures
        crate::sql::spells(ADD_FOR_OFFERING@, 0, add_for_offering_reading().text()),
{
    reveal_strlit("INSERT INTO offering_subject (offering, subject) VALUES ($1, $2) ON CONFLICT DO NOTHING");
    reveal_strlit("INSERT INTO ");
    reveal_strlit("offering_subject");
    reveal_strlit(" (");
    reveal_strlit("offering");
    reveal_strlit(", ");
    reveal_strlit("subject");
    reveal_strlit(") VALUES (");
    reveal_strlit("$");
    reveal_strlit(")");
    reveal_strlit(" ON CONFLICT DO NOTHING");
    reveal(crate::sql::Storing::text);
    reveal_with_fuel(crate::sql::names_text, 3);
    reveal_with_fuel(crate::sql::values_text, 3);
    reveal_with_fuel(crate::sql::stands, 24);
    reveal_with_fuel(crate::sql::spells_by, 13);
    crate::sql::lemma_spells_by(ADD_FOR_OFFERING@, 0, add_for_offering_reading().text(), crate::sql::cut(12, crate::sql::cut(28, crate::sql::cut(30, crate::sql::cut(38, crate::sql::cut(40, crate::sql::cut(47, crate::sql::cut(57, crate::sql::cut(59, crate::sql::cut(61, crate::sql::cut(63, crate::sql::cut(64, crate::sql::cut(87, Cuts::Last)))))))))))));
}

/// What [`add_for_offering`] stores, column by column, is what it is given.
pub proof fn law_add_for_offering_lands_in_its_columns(
    offering: CourseOfferingId,
    subject: SubjectId,
    sent: Statement,
)
    requires
        call_ensures(add_for_offering, (offering, subject), sent),
    ensures
        add_for_offering_reading().is_read(sent@),
        add_for_offering_reading().stores(sent@.binds) == seq![
            ("offering"@, Cell::Uuid(offering.0)),
            ("subject"@, Cell::Uuid(subject.0)),
        ],
{
    lemma_add_for_offering_reads();
}

/// What [`REMOVE_FOR_OFFERING`] says.
pub open spec fn remove_for_offering_reading() -> Picking {
    Picking {
        skip: 0,
        head: "DELETE FROM "@,
        columns: Seq::empty(),
        table: "offering_subject"@,
        conditions: seq![crate::sql::is_bound("offering"@, 1), crate::sql::is_bound("subject"@, 2)],
        rest: Text::End,
    }
}

proof fn lemma_remove_for_offering_reads()
    ensures
        crate::sql::spells(REMOVE_FOR_OFFERING@, 0, remove_for_offering_reading().text()),
{
    reveal_strlit("DELETE FROM offering_subject WHERE offering = $1 AND subject = $2");
    reveal_strlit("DELETE FROM ");
    reveal_strlit("offering_subject");
    reveal_strlit(" WHERE ");
    reveal_strlit("offering");
    reveal_strlit(" = ");
    reveal_strlit("$");
    reveal_strlit(" AND ");
    reveal_strlit("subject");
    reveal(crate::sql::Picking::text);
    reveal_with_fuel(crate::sql::where_text, 3);
    reveal_with_fuel(crate::sql::stands, 17);
    reveal_with_fuel(crate::sql::spells_by, 11);
    crate::sql::lemma_spells_by(REMOVE_FOR_OFFERING@, 0, remove_for_offering_reading().text(), crate::sql::cut(12, crate::sql::cut(28, crate::sql::cut(35, crate::sql::cut(43, crate::sql::cut(46, crate::sql::cut(48, crate::sql::cut(53, crate::sql::cut(60, crate::sql::cut(63, crate::sql::cut(65, Cuts::Last)))))))))));
}

/// [`remove_for_offering`] deletes the rows it names and no other.
pub proof fn law_remove_for_offering_deletes_its_rows(
    offering: CourseOfferingId,
    subject: SubjectId,
    sent: Statement,
    row: Row,
)
    requires
        call_ensures(remove_for_offering, (offering, subject), sent),
    ensures
        remove_for_offering_reading().is_read(sent@),
        remove_for_offering_reading().picks(sent@.binds, row) == (row["offering"@] == Cell::Uuid(offering.0) && row["subject"@] == Cell::Uuid(subject.0)),
{
    lemma_remove_for_offering_reads();
    reveal_with_fuel(crate::sql::all_hold, 3);
}

/// The row that [`ADD_FOR_CLASS_COURSE`] inserts where its first part wrote.
pub open spec fn add_for_class_course_row() -> Storing {
    Storing {
        head: "INSERT INTO "@,
        table: "class_course_subject"@,
        columns: seq!["class_course"@, "subject"@],
        values: seq![Term::Bind(1), Term::Bind(2)],
        selected: true,
        conflict: Conflict::Unread,
        rest: crate::sql::before(" WHERE EXISTS (SELECT 1 FROM flipped) ON"@, crate::sql::before(" CONFLICT DO NOTHING"@, crate::sql::returning())),
    }
}

/// What [`ADD_FOR_CLASS_COURSE`] says.
pub open spec fn add_for_class_course_reading() -> Writing {
    Writing {
        head: "WITH flipped AS ( UPDATE "@,
        table: "class_course"@,
        sets: seq![("subjects_inherited"@, crate::sql::word("FALSE"@, Cell::Bool(false)))],
        conditions: seq![crate::sql::is_bound("id"@, 1)],
        rest: crate::sql::before(" RETURNING id ), inserted AS ( "@, add_for_class_course_row().text()),
    }
}

proof fn lemma_add_for_class_course_reads()
    ensures
        crate::sql::spells(ADD_FOR_CLASS_COURSE@, 0, add_for_class_course_reading().text()),
{
    reveal_strlit("WITH flipped AS ( UPDATE class_course SET subjects_inherited = FALSE WHERE id = $1 RETURNING id ), inserted AS ( INSERT INTO class_course_subject (class_course, subject) SELECT $1, $2 WHERE EXISTS (SELECT 1 FROM flipped) ON CONFLICT DO NOTHING RETURNING subject ) SELECT EXISTS (SELECT 1 FROM flipped) AS live, EXISTS (SELECT 1 FROM inserted) AS added");
    reveal_strlit("WITH flipped AS ( UPDATE ");
    reveal_strlit("class_course");
    reveal_strlit(" SET ");
    reveal_strlit("subjects_inherited");
    reveal_strlit(" = ");
    reveal_strlit("FALSE");
    reveal_strlit(" WHERE ");
    reveal_strlit("id");
    reveal_strlit("$");
    reveal_strlit(" RETURNING id ), inserted AS ( ");
    reveal_strlit("INSERT INTO ");
    reveal_strlit("class_course_subject");
    reveal_strlit(" (");
    reveal_strlit(", ");
    reveal_strlit("subject");
    reveal_strlit(") SELECT ");
    reveal_strlit(" WHERE EXISTS (SELECT 1 FROM flipped) ON");
    reveal_strlit(" CONFLICT DO NOTHING");
    reveal_strlit(" RETURNING ");
    reveal(crate::sql::Writing::text);
    reveal(crate::sql::Storing::text);
    reveal_with_fuel(crate::sql::set_text, 2);
    reveal_with_fuel(crate::sql::where_text, 2);
    reveal_with_fuel(crate::sql::names_text, 3);
    reveal_with_fuel(crate::sql::values_text, 3);
    reveal_with_fuel(crate::sql::stands, 41);
    reveal_with_fuel(crate::sql::spells_by, 25);
    crate::sql::lemma_spells_by(ADD_FOR_CLASS_COURSE@, 0, add_for_class_course_reading().text(), crate::sql::cut(25, crate::sql::cut(37, crate::sql::cut(42, crate::sql::cut(60, crate::sql::cut(63, crate::sql::cut(68, crate::sql::cut(75, crate::sql::cut(77, crate::sql::cut(80, crate::sql::cut(82, crate::sql::cut(113, crate::sql::cut(125, crate::sql::cut(145, crate::sql::cut(147, crate::sql::cut(159, crate::sql::cut(161, crate::sql::cut(168, crate::sql::cut(177, crate::sql::cut(179, crate::sql::cut(181, crate::sql::cut(183, crate::sql::cut(223, crate::sql::cut(243, crate::sql::cut(254, Cuts::Last)))))))))))))))))))))))));
}

/// [`add_for_class_course`] writes the row it names where its condition holds, and then stores the
/// new row, each value in its own column.
pub proof fn law_add_for_class_course_lands_in_its_columns(
    class_course: ClassCourseId,
    subject: SubjectId,
    sent: Statement,
    row: Row,
)
    requires
        call_ensures(add_for_class_course, (class_course, subject), sent),
    ensures
        add_for_class_course_reading().is_read(sent@),
        add_for_class_course_reading().picks(sent@.binds, row) == (row["id"@] == Cell::Uuid(class_course.0)),
        add_for_class_course_reading().writes(sent@.binds, row) == seq![
            ("subjects_inherited"@, Cell::Bool(false)),
        ],
        add_for_class_course_row().stores(sent@.binds) == seq![
            ("class_course"@, Cell::Uuid(class_course.0)),
            ("subject"@, Cell::Uuid(subject.0)),
        ],
{
    lemma_add_for_class_course_reads();
    reveal_with_fuel(crate::sql::all_hold, 2);
}

/// What [`REMOVE_FOR_CLASS_COURSE`] says.
pub open spec fn remove_for_class_course_reading() -> Picking {
    Picking {
        skip: 0,
        head: "WITH dropped AS ( DELETE FROM "@,
        columns: Seq::empty(),
        table: "class_course_subject"@,
        conditions: seq![crate::sql::is_bound("class_course"@, 1), crate::sql::is_bound("subject"@, 2)],
        rest: crate::sql::returning(),
    }
}

proof fn lemma_remove_for_class_course_reads()
    ensures
        crate::sql::spells(REMOVE_FOR_CLASS_COURSE@, 0, remove_for_class_course_reading().text()),
{
    reveal_strlit("WITH dropped AS ( DELETE FROM class_course_subject WHERE class_course = $1 AND subject = $2 RETURNING subject ), flipped AS ( UPDATE class_course SET subjects_inherited = FALSE WHERE id = $1 AND EXISTS (SELECT 1 FROM dropped) RETURNING id ) SELECT EXISTS (SELECT 1 FROM flipped) AS live, EXISTS (SELECT 1 FROM dropped) AS dropped");
    reveal_strlit("WITH dropped AS ( DELETE FROM ");
    reveal_strlit("class_course_subject");
    reveal_strlit(" WHERE ");
    reveal_strlit("class_course");
    reveal_strlit(" = ");
    reveal_strlit("$");
    reveal_strlit(" AND ");
    reveal_strlit("subject");
    reveal_strlit(" RETURNING ");
    reveal(crate::sql::Picking::text);
    reveal_with_fuel(crate::sql::where_text, 3);
    reveal_with_fuel(crate::sql::stands, 31);
    reveal_with_fuel(crate::sql::spells_by, 12);
    crate::sql::lemma_spells_by(REMOVE_FOR_CLASS_COURSE@, 0, remove_for_class_course_reading().text(), crate::sql::cut(30, crate::sql::cut(50, crate::sql::cut(57, crate::sql::cut(69, crate::sql::cut(72, crate::sql::cut(74, crate::sql::cut(79, crate::sql::cut(86, crate::sql::cut(89, crate::sql::cut(91, crate::sql::cut(102, Cuts::Last))))))))))));
}

/// [`remove_for_class_course`] reads the rows it names and no other.
pub proof fn law_remove_for_class_course_reads_its_rows(
    class_course: ClassCourseId,
    subject: SubjectId,
    sent: Statement,
    row: Row,
)
    requires
        call_ensures(remove_for_class_course, (class_course, subject), sent),
    ensures
        remove_for_class_course_reading().is_read(sent@),
        remove_for_class_course_reading().picks(sent@.binds, row) == (row["class_course"@] == Cell::Uuid(class_course.0) && row["subject"@] == Cell::Uuid(subject.0)),
{
    lemma_remove_for_class_course_reads();
    reveal_with_fuel(crate::sql::all_hold, 3);
}

/// What [`RESET_FOR_CLASS_COURSE`] says.
pub open spec fn reset_for_class_course_reading() -> Picking {
    Picking {
        skip: 0,
        head: "WITH swept AS ( DELETE FROM "@,
        columns: Seq::empty(),
        table: "class_course_subject"@,
        conditions: seq![crate::sql::is_bound("class_course"@, 1)],
        rest: crate::sql::returning(),
    }
}

proof fn lemma_reset_for_class_course_reads()
    ensures
        crate::sql::spells(RESET_FOR_CLASS_COURSE@, 0, reset_for_class_course_reading().text()),
{
    reveal_strlit("WITH swept AS ( DELETE FROM class_course_subject WHERE class_course = $1 RETURNING subject ), restored AS ( UPDATE class_course SET subjects_inherited = TRUE WHERE id = $1 RETURNING id ) SELECT (SELECT count(*) FROM swept) AS swept, EXISTS (SELECT 1 FROM restored) AS live");
    reveal_strlit("WITH swept AS ( DELETE FROM ");
    reveal_strlit("class_course_subject");
    reveal_strlit(" WHERE ");
    reveal_strlit("class_course");
    reveal_strlit(" = ");
    reveal_strlit("$");
    reveal_strlit(" RETURNING ");
    reveal(crate::sql::Picking::text);
    reveal_with_fuel(crate::sql::where_text, 2);
    reveal_with_fuel(crate::sql::stands, 29);
    reveal_with_fuel(crate::sql::spells_by, 8);
    crate::sql::lemma_spells_by(RESET_FOR_CLASS_COURSE@, 0, reset_for_class_course_reading().text(), crate::sql::cut(28, crate::sql::cut(48, crate::sql::cut(55, crate::sql::cut(67, crate::sql::cut(70, crate::sql::cut(72, crate::sql::cut(83, Cuts::Last))))))));
}

/// [`reset_for_class_course`] reads the rows it names and no other.
pub proof fn law_reset_for_class_course_reads_its_rows(
    class_course: ClassCourseId,
    sent: Statement,
    row: Row,
)
    requires
        call_ensures(reset_for_class_course, (class_course,), sent),
    ensures
        reset_for_class_course_reading().is_read(sent@),
        reset_for_class_course_reading().picks(sent@.binds, row) == (row["class_course"@] == Cell::Uuid(class_course.0)),
{
    lemma_reset_for_class_course_reads();
    reveal_with_fuel(crate::sql::all_hold, 2);
}

/// The text of [`RESOLVES_FOR_CLASS_COURSE`], taken apart at its placeholders.
pub open spec fn resolves_for_class_course_text() -> Text {
    crate::sql::before("SELECT CASE WHEN cc.subjects_inherited THEN"@, crate::sql::before(" EXISTS (SELECT 1 FROM offering_subject os"@, crate::sql::before(" WHERE os.offering = cc.offering AND os.subject"@, crate::sql::before(" = "@, crate::sql::before(crate::text::placeholder(2), crate::sql::before(") ELSE EXISTS (SELECT 1 FROM"@, crate::sql::before(" class_course_subject ccs WHERE"@, crate::sql::before(" ccs.class_course = cc.id AND ccs.subject = "@, crate::sql::before(crate::text::placeholder(2), crate::sql::before(") END AS member FROM class_course cc WHERE"@, crate::sql::before(" cc.id = "@, crate::sql::before(crate::text::placeholder(1), Text::End))))))))))))
}

proof fn lemma_resolves_for_class_course_reads()
    ensures
        crate::sql::spells(RESOLVES_FOR_CLASS_COURSE@, 0, resolves_for_class_course_text()),
{
    reveal_strlit("SELECT CASE WHEN cc.subjects_inherited THEN EXISTS (SELECT 1 FROM offering_subject os WHERE os.offering = cc.offering AND os.subject = $2) ELSE EXISTS (SELECT 1 FROM class_course_subject ccs WHERE ccs.class_course = cc.id AND ccs.subject = $2) END AS member FROM class_course cc WHERE cc.id = $1");
    reveal_strlit("SELECT CASE WHEN cc.subjects_inherited THEN");
    reveal_strlit(" EXISTS (SELECT 1 FROM offering_subject os");
    reveal_strlit(" WHERE os.offering = cc.offering AND os.subject");
    reveal_strlit(" = ");
    reveal_strlit("$");
    reveal_strlit(") ELSE EXISTS (SELECT 1 FROM");
    reveal_strlit(" class_course_subject ccs WHERE");
    reveal_strlit(" ccs.class_course = cc.id AND ccs.subject = ");
    reveal_strlit(") END AS member FROM class_course cc WHERE");
    reveal_strlit(" cc.id = ");
    reveal_with_fuel(crate::sql::stands, 48);
    reveal_with_fuel(crate::sql::spells_by, 13);
    crate::sql::lemma_spells_by(RESOLVES_FOR_CLASS_COURSE@, 0, resolves_for_class_course_text(), crate::sql::cut(43, crate::sql::cut(85, crate::sql::cut(132, crate::sql::cut(135, crate::sql::cut(137, crate::sql::cut(165, crate::sql::cut(196, crate::sql::cut(240, crate::sql::cut(242, crate::sql::cut(284, crate::sql::cut(293, crate::sql::cut(295, Cuts::Last)))))))))))));
}

/// [`resolves_for_class_course`] binds each value at its own place in the text.
pub proof fn law_resolves_for_class_course_binds_its_values(
    class_course: ClassCourseId,
    subject: SubjectId,
    sent: Statement,
)
    requires
        call_ensures(resolves_for_class_course, (class_course, subject), sent),
    ensures
        crate::sql::spells(sent@.sql, 0, resolves_for_class_course_text()),
        sent@.binds.len() == 2,
        crate::sql::cell(sent@.binds[0]) == Cell::Uuid(class_course.0),
        crate::sql::cell(sent@.binds[1]) == Cell::Uuid(subject.0),
{
    lemma_resolves_for_class_course_reads();
}

} // verus!
