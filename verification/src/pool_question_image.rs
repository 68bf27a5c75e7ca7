//! The `pool_question_image` table: the reads behind the photos of pool
//! questions, of which a question has at most one. The writes belong to the
//! question's own transactions.

use vstd::prelude::*;

use crate::id::PoolQuestionId;
use crate::page::{uuids, Param, ParamView, Statement, Uuid};
use crate::sql::{Cell, Cond, Cuts, Picking, Row, Term, Text};

verus! {

/// A photo of a pool question. `file` names its blob.
#[derive(Debug)]
pub struct PoolQuestionImage {
    pub question: PoolQuestionId,
    pub file: String,
    pub content_type: String,
    pub size: i64,
}

pub const READ: &'static str =
    "SELECT question, file, content_type, size FROM pool_question_image WHERE question = $1";

/// The read of a question's photo.
pub fn read(question: PoolQuestionId) -> (statement: Statement)
    ensures
        statement@ == crate::page::sends(READ, seq![ParamView::Uuid(question.0)]),
{
    Statement::new(READ, vec![Param::Uuid(question.0)])
}

pub const LIST_FOR_QUESTIONS: &'static str =
    "SELECT question, file, content_type, size FROM pool_question_image WHERE question = ANY($1)";

/// The read of the photos of several questions, or none where there is no
/// question to read for.
pub fn list_for_questions(questions: &Vec<Uuid>) -> (statement: Option<Statement>)
    ensures
        questions@.len() == 0 ==> statement is None,
        questions@.len() > 0 ==> statement is Some && statement->0@ == crate::page::sends(
            LIST_FOR_QUESTIONS,
            seq![ParamView::Uuids(questions@)],
        ),
{
    if questions.len() == 0 {
        None
    } else {
        Some(Statement::new(LIST_FOR_QUESTIONS, vec![Param::Uuids(uuids(questions))]))
    }
}

/// What [`READ`] says.
pub open spec fn read_reading() -> Picking {
    Picking {
        skip: 0,
        head: "SELECT "@,
        columns: seq!["question"@, "file"@, "content_type"@, "size"@],
        table: "pool_question_image"@,
        conditions: seq![crate::sql::is_bound("question"@, 1)],
        rest: Text::End,
    }
}

proof fn lemma_read_reads()
    ensures
        crate::sql::spells(READ@, 0, read_reading().text()),
{
    reveal_strlit("SELECT question, file, content_type, size FROM pool_question_image WHERE question = $1");
    reveal_strlit("SELECT ");
    reveal_strlit("question");
    reveal_strlit(", ");
    reveal_strlit("file");
    reveal_strlit("content_type");
    reveal_strlit("size");
    reveal_strlit(" FROM ");
    reveal_strlit("pool_question_image");
    reveal_strlit(" WHERE ");
    reveal_strlit(" = ");
    reveal_strlit("$");
    reveal(crate::sql::Picking::text);
    reveal_with_fuel(crate::sql::where_text, 2);
    reveal_with_fuel(crate::sql::names_text, 5);
    reveal_with_fuel(crate::sql::stands, 20);
    reveal_with_fuel(crate::sql::spells_by, 15);
    crate::sql::lemma_spells_by(READ@, 0, read_reading().text(), crate::sql::cut(7, crate::sql::cut(15, crate::sql::cut(17, crate::sql::cut(21, crate::sql::cut(23, crate::sql::cut(35, crate::sql::cut(37, crate::sql::cut(41, crate::sql::cut(47, crate::sql::cut(66, crate::sql::cut(73, crate::sql::cut(81, crate::sql::cut(84, crate::sql::cut(86, Cuts::Last)))))))))))))));
}

/// [`read`] reads the rows it names and no other.
pub proof fn law_read_reads_its_rows(
    question: PoolQuestionId,
    sent: Statement,
    row: Row,
)
    requires
        call_ensures(read, (question,), sent),
    ensures
        read_reading().is_read(sent@),
        read_reading().picks(sent@.binds, row) == (row["question"@] == Cell::Uuid(question.0)),
{
    lemma_read_reads();
    reveal_with_fuel(crate::sql::all_hold, 2);
}

/// What [`LIST_FOR_QUESTIONS`] says.
pub open spec fn list_for_questions_reading() -> Picking {
    Picking {
        skip: 0,
        head: "SELECT "@,
        columns: seq!["question"@, "file"@, "content_type"@, "size"@],
        table: "pool_question_image"@,
        conditions: seq![Cond::Among(Term::Column("question"@), Term::Bind(1))],
        rest: Text::End,
    }
}

proof fn lemma_list_for_questions_reads()
    ensures
        crate::sql::spells(LIST_FOR_QUESTIONS@, 0, list_for_questions_reading().text()),
{
    reveal_strlit("SELECT question, file, content_type, size FROM pool_question_image WHERE question = ANY($1)");
    reveal_strlit("SELECT ");
    reveal_strlit("question");
    reveal_strlit(", ");
    reveal_strlit("file");
    reveal_strlit("content_type");
    reveal_strlit("size");
    reveal_strlit(" FROM ");
    reveal_strlit("pool_question_image");
    reveal_strlit(" WHERE ");
    reveal_strlit(" = ANY(");
    reveal_strlit("$");
    reveal_strlit(")");
    reveal(crate::sql::Picking::text);
    reveal_with_fuel(crate::sql::where_text, 2);
    reveal_with_fuel(crate::sql::names_text, 5);
    reveal_with_fuel(crate::sql::stands, 20);
    reveal_with_fuel(crate::sql::spells_by, 16);
    crate::sql::lemma_spells_by(LIST_FOR_QUESTIONS@, 0, list_for_questions_reading().text(), crate::sql::cut(7, crate::sql::cut(15, crate::sql::cut(17, crate::sql::cut(21, crate::sql::cut(23, crate::sql::cut(35, crate::sql::cut(37, crate::sql::cut(41, crate::sql::cut(47, crate::sql::cut(66, crate::sql::cut(73, crate::sql::cut(81, crate::sql::cut(88, crate::sql::cut(90, crate::sql::cut(91, Cuts::Last))))))))))))))));
}

/// [`list_for_questions`] reads the rows it names and no other.
pub proof fn law_list_for_questions_reads_its_rows(
    questions: &Vec<Uuid>,
    sent: Option<Statement>,
    row: Row,
)
    requires
        call_ensures(list_for_questions, (questions,), sent),
        sent is Some,
    ensures
        list_for_questions_reading().is_read(sent->0@),
        list_for_questions_reading().picks(sent->0@.binds, row) == ((row["question"@] is Uuid && questions@.contains(row["question"@]->Uuid_0))),
{
    lemma_list_for_questions_reads();
    reveal_with_fuel(crate::sql::all_hold, 2);
}

} // verus!
