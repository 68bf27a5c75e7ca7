//! The `exam_audience` junction: which instances one exam is announced to.

use vstd::prelude::*;

use crate::error::{foreign_key_violation, AppError, AppErrorView, DbError};
use crate::id::{ClassCourseId, ClassGroupId, CourseId, ExamId, UserId};
use crate::page::{Param, ParamView, Statement};
use crate::sql::{Cell, Conflict, Cuts, Picking, Row, Storing, Term, Text};

verus! {

/// One audience row, resolved to what a client needs to name it: the
/// instance, the class it belongs to and the course it teaches.
#[derive(Debug)]
pub struct Audience {
    pub class_course: ClassCourseId,
    pub class: ClassGroupId,
    pub course: CourseId,
}

impl Audience {
    /// The instance the exam is announced to.
    pub fn get_instance(&self) -> (instance: &ClassCourseId)
        ensures
            *instance == self.class_course,
    {
        &self.class_course
    }

    /// The class that instance belongs to.
    pub fn get_class(&self) -> (class: &ClassGroupId)
        ensures
            *class == self.class,
    {
        &self.class
    }

    /// The course that instance teaches.
    pub fn get_course(&self) -> (course: &CourseId)
        ensures
            *course == self.course,
    {
        &self.course
    }
}

pub const ADD: &'static str =
    "INSERT INTO exam_audience (exam, class_course) VALUES ($1, $2) ON CONFLICT ON CONSTRAINT \
     exam_audience_pk DO NOTHING";

/// The announcement of an exam to an instance; one that is there already stays
/// as it is.
pub fn add(exam: ExamId, class_course: ClassCourseId) -> (statement: Statement)
    ensures
        statement@ == crate::page::sends(
            ADD,
            seq![ParamView::Uuid(exam.0), ParamView::Uuid(class_course.0)],
        ),
{
    Statement::new(ADD, vec![Param::Uuid(exam.0), Param::Uuid(class_course.0)])
}

/// What an announcement answers: a parent that is gone is `NotFound`.
pub fn added(outcome: Result<(), DbError>) -> (answer: Result<(), AppError>)
    ensures
        match outcome {
            Ok(()) => answer is Ok,
            Err(error) => answer is Err && answer->Err_0@ == (if error.violates_foreign_key() {
                AppErrorView::NotFound
            } else {
                AppErrorView::Db(error)
            }),
        },
{
    match outcome {
        Ok(()) => Ok(()),
        Err(error) => if foreign_key_violation(&error) {
            Err(AppError::NotFound)
        } else {
            Err(AppError::Db(error))
        },
    }
}

pub const REMOVE: &'static str =
    "DELETE FROM exam_audience WHERE exam = $1 AND class_course = $2";

/// The drop of an audience row; [`crate::error::any_affected`] says whether
/// there was one.
pub fn remove(exam: ExamId, class_course: ClassCourseId) -> (statement: Statement)
    ensures
        statement@ == crate::page::sends(
            REMOVE,
            seq![ParamView::Uuid(exam.0), ParamView::Uuid(class_course.0)],
        ),
{
    Statement::new(REMOVE, vec![Param::Uuid(exam.0), Param::Uuid(class_course.0)])
}

pub const LIST_FOR_EXAM: &'static str =
    "SELECT a.class_course, c.class, c.course FROM exam_audience a JOIN class_course c ON c.id \
     = a.class_course WHERE a.exam = $1 ORDER BY a.class_course";

/// The read of every instance an exam is announced to, in the order they were
/// announced.
pub fn list_for_exam(exam: ExamId) -> (statement: Statement)
    ensures
        statement@ == crate::page::sends(LIST_FOR_EXAM, seq![ParamView::Uuid(exam.0)]),
{
    Statement::new(LIST_FOR_EXAM, vec![Param::Uuid(exam.0)])
}

pub const LIST_FOR_INSTANCE: &'static str =
    "SELECT exam FROM exam_audience WHERE class_course = $1 ORDER BY exam";

/// The read of the exams addressed to one instance.
pub fn list_for_instance(class_course: ClassCourseId) -> (statement: Statement)
    ensures
        statement@ == crate::page::sends(LIST_FOR_INSTANCE, seq![ParamView::Uuid(class_course.0)]),
{
    Statement::new(LIST_FOR_INSTANCE, vec![Param::Uuid(class_course.0)])
}

pub const ENROLLED: &'static str =
    "SELECT EXISTS( SELECT 1 FROM exam_audience a JOIN enrollment e ON e.class_course = \
     a.class_course WHERE a.exam = $1 AND e.app_user = $2) AS enrolled";

/// The read of whether a user is enrolled in any instance an exam is addressed
/// to.
pub fn enrolled(exam: ExamId, user: UserId) -> (statement: Statement)
    ensures
        statement@ == crate::page::sends(
            ENROLLED,
            seq![ParamView::Uuid(exam.0), ParamView::Uuid(user.0)],
        ),
{
    Statement::new(ENROLLED, vec![Param::Uuid(exam.0), Param::Uuid(user.0)])
}

/// The audience of every exam, after one announcement.
pub open spec fn announced(
    audience: Set<(ExamId, ClassCourseId)>,
    exam: ExamId,
    instance: ClassCourseId,
) -> Set<(ExamId, ClassCourseId)> {
    audience.insert((exam, instance))
}

/// The instances that are there: the class each belongs to and the course it
/// teaches.
pub type Instances = Map<ClassCourseId, (ClassGroupId, CourseId)>;

/// Whether `rows` is what the read of an exam's audience replies: every
/// announced instance that is there once, with its own class and course, in
/// the order of their keys.
pub open spec fn lists_audience(
    audience: Set<(ExamId, ClassCourseId)>,
    instances: Instances,
    exam: ExamId,
    rows: Seq<Audience>,
) -> bool {
    &&& forall|i: int|
        0 <= i < rows.len() ==> {
            let instance = (#[trigger] rows[i]).class_course;
            &&& audience.contains((exam, instance))
            &&& instances.contains_key(instance)
            &&& instances[instance] == (rows[i].class, rows[i].course)
        }
    &&& forall|i: int, j: int|
        0 <= i < j < rows.len() ==> (#[trigger] rows[i]).class_course.0.0 < (
        #[trigger] rows[j]).class_course.0.0
    &&& forall|instance: ClassCourseId| #[trigger]
        audience.contains((exam, instance)) && instances.contains_key(instance)
            ==> exists|i: int| 0 <= i < rows.len() && (#[trigger] rows[i]).class_course == instance
}

/// A listed row's class and course are those of the very instance it names,
/// and an instance that is there and was just announced is listed exactly
/// once.
pub proof fn law_listed_row_is_its_instance(
    audience: Set<(ExamId, ClassCourseId)>,
    instances: Instances,
    exam: ExamId,
    instance: ClassCourseId,
    rows: Seq<Audience>,
    i: int,
)
    requires
        lists_audience(announced(audience, exam, instance), instances, exam, rows),
        instances.contains_key(instance),
        0 <= i < rows.len(),
    ensures
        rows[i].class == instances[rows[i].class_course].0,
        rows[i].course == instances[rows[i].class_course].1,
        announced(audience, exam, instance).contains((exam, rows[i].class_course)),
        exists|k: int|
            0 <= k < rows.len() && (#[trigger] rows[k]).class_course == instance && forall|j: int|
                0 <= j < rows.len() && (#[trigger] rows[j]).class_course == instance ==> j == k,
{
    assert(announced(audience, exam, instance).contains((exam, instance)));
    let k = choose|k: int|
        0 <= k < rows.len() && (#[trigger] rows[k]).class_course == instance;
    assert forall|j: int|
        0 <= j < rows.len() && (#[trigger] rows[j]).class_course == instance implies j == k by {
        if j < k {
            assert(rows[j].class_course.0.0 < rows[k].class_course.0.0);
        } else if k < j {
            assert(rows[k].class_course.0.0 < rows[j].class_course.0.0);
        }
    }
}

/// An announcement is idempotent, and its removal undoes it where it was new.
pub proof fn law_announcement_is_idempotent(
    audience: Set<(ExamId, ClassCourseId)>,
    exam: ExamId,
    instance: ClassCourseId,
)
    ensures
        announced(announced(audience, exam, instance), exam, instance) == announced(
            audience,
            exam,
            instance,
        ),
        !audience.contains((exam, instance)) ==> announced(audience, exam, instance).remove(
            (exam, instance),
        ) == audience,
{
    assert(announced(announced(audience, exam, instance), exam, instance) =~= announced(
        audience,
        exam,
        instance,
    ));
    if !audience.contains((exam, instance)) {
        assert(announced(audience, exam, instance).remove((exam, instance)) =~= audience);
    }
}

/// What [`ADD`] says.
pub open spec fn add_reading() -> Storing {
    Storing {
        head: "INSERT INTO "@,
        table: "exam_audience"@,
        columns: seq!["exam"@, "class_course"@],
        values: seq![Term::Bind(1), Term::Bind(2)],
        selected: false,
        conflict: Conflict::Skips(" ON CONFLICT ON CONSTRAINT exam_audience_pk DO NOTHING"@),
        rest: Text::End,
    }
}

proof fn lemma_add_reads()
    ensures
        crate::sql::spells(ADD@, 0, add_reading().text()),
{
    reveal_strlit("INSERT INTO exam_audience (exam, class_course) VALUES ($1, $2) ON CONFLICT ON CONSTRAINT exam_audience_pk DO NOTHING");
    reveal_strlit("INSERT INTO ");
    reveal_strlit("exam_audience");
    reveal_strlit(" (");
    reveal_strlit("exam");
    reveal_strlit(", ");
    reveal_strlit("class_course");
    reveal_strlit(") VALUES (");
    reveal_strlit("$");
    reveal_strlit(")");
    reveal_strlit(" ON CONFLICT ON CONSTRAINT exam_audience_pk DO NOTHING");
    reveal(crate::sql::Storing::text);
    reveal_with_fuel(crate::sql::names_text, 3);
    reveal_with_fuel(crate::sql::values_text, 3);
    reveal_with_fuel(crate::sql::stands, 55);
    reveal_with_fuel(crate::sql::spells_by, 13);
    crate::sql::lemma_spells_by(ADD@, 0, add_reading().text(), crate::sql::cut(12, crate::sql::cut(25, crate::sql::cut(27, crate::sql::cut(31, crate::sql::cut(33, crate::sql::cut(45, crate::sql::cut(55, crate::sql::cut(57, crate::sql::cut(59, crate::sql::cut(61, crate::sql::cut(62, crate::sql::cut(116, Cuts::Last)))))))))))));
}

/// What [`add`] stores, column by column, is what it is given.
pub proof fn law_add_lands_in_its_columns(
    exam: ExamId,
    class_course: ClassCourseId,
    sent: Statement,
)
    requires
        call_ensures(add, (exam, class_course), sent),
    ensures
        add_reading().is_read(sent@),
        add_reading().stores(sent@.binds) == seq![
            ("exam"@, Cell::Uuid(exam.0)),
            ("class_course"@, Cell::Uuid(class_course.0)),
        ],
{
    lemma_add_reads();
}

/// What [`REMOVE`] says.
pub open spec fn remove_reading() -> Picking {
    Picking {
        skip: 0,
        head: "DELETE FROM "@,
        columns: Seq::empty(),
        table: "exam_audience"@,
        conditions: seq![crate::sql::is_bound("exam"@, 1), crate::sql::is_bound("class_course"@, 2)],
        rest: Text::End,
    }
}

proof fn lemma_remove_reads()
    ensures
        crate::sql::spells(REMOVE@, 0, remove_reading().text()),
{
    reveal_strlit("DELETE FROM exam_audience WHERE exam = $1 AND class_course = $2");
    reveal_strlit("DELETE FROM ");
    reveal_strlit("exam_audience");
    reveal_strlit(" WHERE ");
    reveal_strlit("exam");
    reveal_strlit(" = ");
    reveal_strlit("$");
    reveal_strlit(" AND ");
    reveal_strlit("class_course");
    reveal(crate::sql::Picking::text);
    reveal_with_fuel(crate::sql::where_text, 3);
    reveal_with_fuel(crate::sql::stands, 14);
    reveal_with_fuel(crate::sql::spells_by, 11);
    crate::sql::lemma_spells_by(REMOVE@, 0, remove_reading().text(), crate::sql::cut(12, crate::sql::cut(25, crate::sql::cut(32, crate::sql::cut(36, crate::sql::cut(39, crate::sql::cut(41, crate::sql::cut(46, crate::sql::cut(58, crate::sql::cut(61, crate::sql::cut(63, Cuts::Last)))))))))));
}

/// [`remove`] deletes the rows it names and no other.
pub proof fn law_remove_deletes_its_rows(
    exam: ExamId,
    class_course: ClassCourseId,
    sent: Statement,
    row: Row,
)
    requires
        call_ensures(remove, (exam, class_course), sent),
    ensures
        remove_reading().is_read(sent@),
        remove_reading().picks(sent@.binds, row) == (row["exam"@] == Cell::Uuid(exam.0) && row["class_course"@] == Cell::Uuid(class_course.0)),
{
    lemma_remove_reads();
    reveal_with_fuel(crate::sql::all_hold, 3);
}

/// What [`LIST_FOR_EXAM`] says.
pub open spec fn list_for_exam_reading() -> Picking {
    Picking {
        skip: 0,
        head: "SELECT "@,
        columns: seq!["a.class_course"@, "c.class"@, "c.course"@],
        table: "exam_audience a JOIN class_course c ON c.id = a.class_course"@,
        conditions: seq![crate::sql::is_bound("a.exam"@, 1)],
        rest: crate::sql::before(" ORDER BY a.class_course"@, Text::End),
    }
}

proof fn lemma_list_for_exam_reads()
    ensures
        crate::sql::spells(LIST_FOR_EXAM@, 0, list_for_exam_reading().text()),
{
    reveal_strlit("SELECT a.class_course, c.class, c.course FROM exam_audience a JOIN class_course c ON c.id = a.class_course WHERE a.exam = $1 ORDER BY a.class_course");
    reveal_strlit("SELECT ");
    reveal_strlit("a.class_course");
    reveal_strlit(", ");
    reveal_strlit("c.class");
    reveal_strlit("c.course");
    reveal_strlit(" FROM ");
    reveal_strlit("exam_audience a JOIN class_course c ON c.id = a.class_course");
    reveal_strlit(" WHERE ");
    reveal_strlit("a.exam");
    reveal_strlit(" = ");
    reveal_strlit("$");
    reveal_strlit(" ORDER BY a.class_course");
    reveal(crate::sql::Picking::text);
    reveal_with_fuel(crate::sql::where_text, 2);
    reveal_with_fuel(crate::sql::names_text, 4);
    reveal_with_fuel(crate::sql::stands, 61);
    reveal_with_fuel(crate::sql::spells_by, 14);
    crate::sql::lemma_spells_by(LIST_FOR_EXAM@, 0, list_for_exam_reading().text(), crate::sql::cut(7, crate::sql::cut(21, crate::sql::cut(23, crate::sql::cut(30, crate::sql::cut(32, crate::sql::cut(40, crate::sql::cut(46, crate::sql::cut(106, crate::sql::cut(113, crate::sql::cut(119, crate::sql::cut(122, crate::sql::cut(124, crate::sql::cut(148, Cuts::Last))))))))))))));
}

/// [`list_for_exam`] reads the rows it names and no other.
pub proof fn law_list_for_exam_reads_its_rows(
    exam: ExamId,
    sent: Statement,
    row: Row,
)
    requires
        call_ensures(list_for_exam, (exam,), sent),
    ensures
        list_for_exam_reading().is_read(sent@),
        list_for_exam_reading().picks(sent@.binds, row) == (row["a.exam"@] == Cell::Uuid(exam.0)),
{
    lemma_list_for_exam_reads();
    reveal_with_fuel(crate::sql::all_hold, 2);
}

/// What [`LIST_FOR_INSTANCE`] says.
pub open spec fn list_for_instance_reading() -> Picking {
    Picking {
        skip: 0,
        head: "SELECT "@,
        columns: seq!["exam"@],
        table: "exam_audience"@,
        conditions: seq![crate::sql::is_bound("class_course"@, 1)],
        rest: crate::sql::before(" ORDER BY exam"@, Text::End),
    }
}

proof fn lemma_list_for_instance_reads()
    ensures
        crate::sql::spells(LIST_FOR_INSTANCE@, 0, list_for_instance_reading().text()),
{
    reveal_strlit("SELECT exam FROM exam_audience WHERE class_course = $1 ORDER BY exam");
    reveal_strlit("SELECT ");
    reveal_strlit("exam");
    reveal_strlit(" FROM ");
    reveal_strlit("exam_audience");
    reveal_strlit(" WHERE ");
    reveal_strlit("class_course");
    reveal_strlit(" = ");
    reveal_strlit("$");
    reveal_strlit(" ORDER BY exam");
    reveal(crate::sql::Picking::text);
    reveal_with_fuel(crate::sql::where_text, 2);
    reveal_with_fuel(crate::sql::names_text, 2);
    reveal_with_fuel(crate::sql::stands, 15);
    reveal_with_fuel(crate::sql::spells_by, 10);
    crate::sql::lemma_spells_by(LIST_FOR_INSTANCE@, 0, list_for_instance_reading().text(), crate::sql::cut(7, crate::sql::cut(11, crate::sql::cut(17, crate::sql::cut(30, crate::sql::cut(37, crate::sql::cut(49, crate::sql::cut(52, crate::sql::cut(54, crate::sql::cut(68, Cuts::Last))))))))));
}

/// [`list_for_instance`] reads the rows it names and no other.
pub proof fn law_list_for_instance_reads_its_rows(
    class_course: ClassCourseId,
    sent: Statement,
    row: Row,
)
    requires
        call_ensures(list_for_instance, (class_course,), sent),
    ensures
        list_for_instance_reading().is_read(sent@),
        list_for_instance_reading().picks(sent@.binds, row) == (row["class_course"@] == Cell::Uuid(class_course.0)),
{
    lemma_list_for_instance_reads();
    reveal_with_fuel(crate::sql::all_hold, 2);
}

/// The text of [`ENROLLED`], taken apart at its placeholders.
pub open spec fn enrolled_text() -> Text {
    crate::sql::before("SELECT EXISTS( SELECT 1 FROM exam_audience a"@, crate::sql::before(" JOIN enrollment e ON e.class_course ="@, crate::sql::before(" a.class_course WHERE a.exam = "@, crate::sql::before(crate::text::placeholder(1), crate::sql::before(" AND e.app_user = "@, crate::sql::before(crate::text::placeholder(2), crate::sql::before(") AS enrolled"@, Text::End)))))))
}

proof fn lemma_enrolled_reads()
    ensures
        crate::sql::spells(ENROLLED@, 0, enrolled_text()),
{
    reveal_strlit("SELECT EXISTS( SELECT 1 FROM exam_audience a JOIN enrollment e ON e.class_course = a.class_course WHERE a.exam = $1 AND e.app_user = $2) AS enrolled");
    reveal_strlit("SELECT EXISTS( SELECT 1 FROM exam_audience a");
    reveal_strlit(" JOIN enrollment e ON e.class_course =");
    reveal_strlit(" a.class_course WHERE a.exam = ");
    reveal_strlit("$");
    reveal_strlit(" AND e.app_user = ");
    reveal_strlit(") AS enrolled");
    reveal_with_fuel(crate::sql::stands, 45);
    reveal_with_fuel(crate::sql::spells_by, 8);
    crate::sql::lemma_spells_by(ENROLLED@, 0, enrolled_text(), crate::sql::cut(44, crate::sql::cut(82, crate::sql::cut(113, crate::sql::cut(115, crate::sql::cut(133, crate::sql::cut(135, crate::sql::cut(148, Cuts::Last))))))));
}

/// [`enrolled`] binds each value at its own place in the text.
pub proof fn law_enrolled_binds_its_values(
    exam: ExamId,
    user: UserId,
    sent: Statement,
)
    requires
        call_ensures(enrolled, (exam, user), sent),
    ensures
        crate::sql::spells(sent@.sql, 0, enrolled_text()),
        sent@.binds.len() == 2,
        crate::sql::cell(sent@.binds[0]) == Cell::Uuid(exam.0),
        crate::sql::cell(sent@.binds[1]) == Cell::Uuid(user.0),
{
    lemma_enrolled_reads();
}

} // verus!
