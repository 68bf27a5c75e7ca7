//! The derived insight tables: what a nightly batch writes.
//!
//! A batch is one transaction: it lands whole or not at all. The rows a parent
//! owns are replaced and never merged, so a fact that is no longer produced
//! does not stay.

use vstd::prelude::*;

use crate::error::{foreign_key_violation, AppError, AppErrorView, ValidationError, ValidationErrorView};
use crate::json::{fields, opt_json, put_text};
use crate::key::read_key;
use crate::page::{
    opt_string, Bits, Param, ParamView, Statement, StatementView, Uuid,
};
use crate::sql::{Cell, Conflict, Cuts, Picking, Row, Storing, Term, Text};
use crate::text::decimal;

verus! {

/// A student's computed summary with the attention items that travel with it.
#[derive(Debug)]
pub struct SummaryRow {
    pub student: String,
    pub marks: Option<serde_json::Value>,
    pub attendance: Option<serde_json::Value>,
    pub submission: Option<serde_json::Value>,
    pub study: Option<serde_json::Value>,
    pub confidence: String,
    pub computed_at: i64,
    pub retain_until: i64,
    pub attention: Vec<AttentionRow>,
}

/// An attention item: a fact about a student that a teacher should see.
#[derive(Debug)]
pub struct AttentionRow {
    pub trigger: String,
    pub course: Option<String>,
    pub fact: String,
    pub window_from: i64,
    pub window_to: i64,
    pub evidence: serde_json::Value,
}

/// A recommendation card.
#[derive(Debug)]
pub struct RecommendationRow {
    pub audience: String,
    pub product: String,
    pub rule_id: String,
    pub rule_version: i64,
    pub scope: Option<String>,
    pub about: Option<String>,
    pub audience_role: String,
    pub course: Option<String>,
    pub evidence: serde_json::Value,
    pub limitation: Option<String>,
    pub confidence: String,
    pub computed_at: i64,
    pub expires_at: i64,
    pub retain_until: i64,
}

/// The four rubric labels of a question.
#[derive(Debug)]
pub struct SegmentLabels {
    pub bilissel_talep: String,
    pub dikkat_tuzagi: String,
    pub okuma_yuku: String,
    pub adim_sayisi: String,
}

/// The model's confidence in each of the four labels.
#[derive(Clone, Copy, PartialEq, Eq, Structural, Debug)]
pub struct SegmentConfidences {
    pub bilissel_talep: Bits,
    pub dikkat_tuzagi: Bits,
    pub okuma_yuku: Bits,
    pub adim_sayisi: Bits,
}

/// A question's segment labels with the dimension split that travels with
/// them.
#[derive(Debug)]
pub struct SegmentRow {
    pub question: String,
    pub exam: String,
    pub course: String,
    pub subject: String,
    pub labels: SegmentLabels,
    pub confidences: SegmentConfidences,
    pub confidence: String,
    pub trap_choice: Option<String>,
    pub rationale: String,
    pub model: String,
    pub prompt_version: String,
    pub variant: Option<String>,
    pub computed_at: i64,
    pub retain_until: i64,
    pub downstream_dimensions: Vec<String>,
    pub experimental_dimensions: Vec<String>,
}

/// A student's accuracy inside one rubric segment, against the same student's
/// overall rate.
#[derive(Debug)]
pub struct ProfileRow {
    pub student: String,
    pub dimension: String,
    pub label: String,
    pub n_answers: i64,
    pub n_correct: i64,
    pub accuracy: Bits,
    pub overall_n_answers: i64,
    pub overall_accuracy: Bits,
    pub contrast: Bits,
    pub confidence: String,
    pub computed_at: i64,
    pub retain_until: i64,
}

/// A compute run with the run's own children.
#[derive(Debug)]
pub struct RunRow {
    pub run_day: String,
    pub started_at: i64,
    pub finished_at: Option<i64>,
    pub status: String,
    pub duration_ms: Option<i64>,
    pub students_total: i64,
    pub students_ok: i64,
    pub students_failed: i64,
    pub students_skipped: i64,
    pub rows_written: i64,
    pub budget_exceeded: bool,
    pub budget_ms: i64,
    pub retain_until: i64,
    pub pending_students: Vec<String>,
    pub failed_modules: Vec<String>,
}

/// A batch of summaries.
#[derive(Debug)]
pub struct SummaryWriteRequest {
    pub rows: Vec<SummaryRow>,
}

/// A batch of recommendations.
#[derive(Debug)]
pub struct RecommendationWriteRequest {
    pub rows: Vec<RecommendationRow>,
}

/// A batch of segments.
#[derive(Debug)]
pub struct SegmentWriteRequest {
    pub rows: Vec<SegmentRow>,
}

/// A batch of profiles.
#[derive(Debug)]
pub struct ProfileWriteRequest {
    pub rows: Vec<ProfileRow>,
}

/// One run to store.
#[derive(Debug)]
pub struct RunWriteRequest {
    pub run: RunRow,
}

/// What a bulk write did: the rows written, and the rows kept out for want of
/// evidence.
#[derive(Clone, Copy, PartialEq, Eq, Structural, Debug)]
pub struct WriteReceipt {
    pub written: u64,
    pub rejected: u64,
}

/// Whether a count is left out of a receipt.
pub fn is_zero(value: &u64) -> (zero: bool)
    ensures
        zero == (*value == 0),
{
    *value == 0
}

/// The refusal of a batch of `rows` rows where `most` are allowed.
pub open spec fn too_many(field: Seq<char>, rows: nat, most: nat) -> Seq<char> {
    field + ": "@ + crate::text::decimal_text(rows) + " rows is over the ceiling of "@
        + crate::text::decimal_text(most) + " rows per call"@
}

/// Refuses a batch past the ceiling as a whole: a batch is the unit that is
/// retried, so taking a part of one would turn the retry into a duplicate.
pub fn check_batch<T>(field: &'static str, rows: &Vec<T>, most: usize) -> (checked: Result<
    (),
    AppError,
>)
    ensures
        checked is Ok <==> rows@.len() <= most,
        checked is Err ==> checked->Err_0@ == AppErrorView::PayloadTooLarge(
            too_many(field@, rows@.len(), most as nat),
        ),
{
    if rows.len() > most {
        let mut text = field.to_owned();
        text.append(": ");
        text.append(decimal(rows.len() as u128).as_str());
        text.append(" rows is over the ceiling of ");
        text.append(decimal(most as u128).as_str());
        text.append(" rows per call");
        return Err(AppError::PayloadTooLarge(text));
    }
    Ok(())
}

/// A reference to a missing row is an error of the payload: the caller named
/// a row this school does not have, and can mend it. Every other error stands
/// as it is.
pub fn as_validation(err: AppError) -> (mapped: AppError)
    ensures
        match err {
            AppError::Db(source) => if source.violates_foreign_key() {
                mapped@ == AppErrorView::Validation(
                    ValidationErrorView::Invalid {
                        field: "rows"@,
                        reason: "a referenced row does not exist in this school"@,
                    },
                )
            } else {
                mapped == err
            },
            _ => mapped == err,
        },
{
    match err {
        AppError::Db(source) => if foreign_key_violation(&source) {
            AppError::Validation(
                ValidationError::Invalid {
                    field: "rows",
                    reason: "a referenced row does not exist in this school",
                },
            )
        } else {
            AppError::Db(source)
        },
        other => other,
    }
}

/// The refusal of a text that spells no key.
pub open spec fn not_a_key(field: Seq<char>) -> AppErrorView {
    AppErrorView::Validation(
        ValidationErrorView::Invalid { field, reason: "must be a hyphenated uuid"@ },
    )
}

/// The key a field spells, or the refusal of the field.
pub fn parse_uuid(field: &'static str, value: &str) -> (id: Result<Uuid, AppError>)
    ensures
        match crate::key::spelled(value@) {
            Some(key) => id == Ok::<Uuid, AppError>(key),
            None => id is Err && id->Err_0@ == not_a_key(field@),
        },
{
    match read_key(value) {
        Some(key) => Ok(key),
        None => Err(
            AppError::Validation(
                ValidationError::Invalid { field, reason: "must be a hyphenated uuid" },
            ),
        ),
    }
}

/// The key an optional field spells; `None` where the field is there and
/// spells none.
pub open spec fn opt_spelled(value: Option<String>) -> Option<Option<Uuid>> {
    match value {
        Some(text) => match crate::key::spelled(text@) {
            Some(key) => Some(Some(key)),
            None => None,
        },
        None => Some(None),
    }
}

/// The key an optional field spells, or the refusal of the field.
pub fn parse_opt(field: &'static str, value: &Option<String>) -> (id: Result<
    Option<Uuid>,
    AppError,
>)
    ensures
        match opt_spelled(*value) {
            Some(key) => id == Ok::<Option<Uuid>, AppError>(key),
            None => id is Err && id->Err_0@ == not_a_key(field@),
        },
{
    match value {
        Some(text) => match parse_uuid(field, text.as_str()) {
            Ok(key) => Ok(Some(key)),
            Err(error) => Err(error),
        },
        None => Ok(None),
    }
}

/// Whether every text spells a key.
pub open spec fn all_spelled(values: Seq<String>) -> bool {
    forall|i: int| 0 <= i < values.len() ==> crate::key::spelled((#[trigger] values[i])@) is Some
}

/// The keys that texts spell.
pub open spec fn keys_of(values: Seq<String>) -> Seq<Uuid> {
    Seq::new(values.len(), |i: int| crate::key::spelled(values[i]@)->0)
}

/// The keys a list field spells, or the refusal of the field.
pub fn parse_all(field: &'static str, values: &Vec<String>) -> (ids: Result<Vec<Uuid>, AppError>)
    ensures
        ids is Ok <==> all_spelled(values@),
        ids is Ok ==> ids->Ok_0@ == keys_of(values@),
        ids is Err ==> ids->Err_0@ == not_a_key(field@),
{
    let mut ids: Vec<Uuid> = Vec::new();
    let mut i: usize = 0;
    while i < values.len()
        invariant
            0 <= i <= values.len(),
            ids@.len() == i,
            forall|k: int|
                0 <= k < i ==> crate::key::spelled((#[trigger] values@[k])@) == Some(ids@[k]),
        decreases values.len() - i,
    {
        match parse_uuid(field, values[i].as_str()) {
            Ok(key) => {
                ids.push(key);
            },
            Err(error) => {
                assert(crate::key::spelled(values@[i as int]@) is None);
                return Err(error);
            },
        }
        i += 1;
    }
    assert(ids@ =~= keys_of(values@));
    Ok(ids)
}

/// Whether a text is a day, `YYYY-MM-DD`.
pub open spec fn is_run_day(day: Seq<char>) -> bool {
    &&& day.len() == 10
    &&& forall|i: int|
        0 <= i < 10 ==> if i == 4 || i == 7 {
            #[trigger] day[i] == '-'
        } else {
            '0' <= day[i] <= '9'
        }
}

/// Whether a text is a day, `YYYY-MM-DD`: four digits, two and two, with
/// hyphens between.
pub fn run_day_ok(day: &str) -> (ok: bool)
    ensures
        ok == is_run_day(day@),
{
    if day.unicode_len() != 10 {
        return false;
    }
    let mut i: usize = 0;
    while i < 10
        invariant
            0 <= i <= 10,
            day@.len() == 10,
            forall|k: int|
                0 <= k < i ==> if k == 4 || k == 7 {
                    #[trigger] day@[k] == '-'
                } else {
                    '0' <= day@[k] <= '9'
                },
        decreases 10 - i,
    {
        let c = day.get_char(i);
        let fits = if i == 4 || i == 7 {
            c == '-'
        } else {
            '0' <= c && c <= '9'
        };
        if !fits {
            assert(!is_run_day(day@)) by {
                assert(day@[i as int] == c);
            }
            return false;
        }
        i += 1;
    }
    true
}

/// The statements of a batch in the order they are sent, and the refusal of
/// the payload that comes after them, if it is refused: nothing lands then.
#[derive(Debug)]
pub struct Batch {
    pub statements: Vec<Statement>,
    pub refusal: Option<AppError>,
}

/// What a [`Batch`] sends, and how it is refused.
#[verifier::ext_equal]
pub struct BatchView {
    pub sent: Seq<StatementView>,
    pub refusal: Option<AppErrorView>,
}

impl View for Batch {
    type V = BatchView;

    open spec fn view(&self) -> BatchView {
        BatchView {
            sent: crate::page::all_sent(self.statements@),
            refusal: match self.refusal {
                Some(error) => Some(error@),
                None => None,
            },
        }
    }
}

/// A batch that sends some statements and is not refused.
pub open spec fn sending(sent: Seq<StatementView>) -> BatchView {
    BatchView { sent, refusal: None }
}

/// A batch that is refused before it sends anything.
pub open spec fn refused(refusal: AppErrorView) -> BatchView {
    BatchView { sent: Seq::empty(), refusal: Some(refusal) }
}

/// A batch and what follows it: nothing follows a refusal.
pub open spec fn followed(first: BatchView, second: BatchView) -> BatchView {
    if first.refusal is Some {
        first
    } else {
        BatchView { sent: first.sent + second.sent, refusal: second.refusal }
    }
}

impl Batch {
    /// A batch that sends nothing.
    pub fn new() -> (batch: Batch)
        ensures
            batch@ == sending(Seq::empty()),
    {
        let batch = Batch { statements: Vec::new(), refusal: None };
        assert(batch@.sent =~= Seq::empty());
        batch
    }

    /// A batch that is refused before it sends anything.
    pub fn refuse(error: AppError) -> (batch: Batch)
        ensures
            batch@ == refused(error@),
    {
        let batch = Batch { statements: Vec::new(), refusal: Some(error) };
        assert(batch@.sent =~= Seq::empty());
        batch
    }

    /// One more statement at the end of a batch that is not refused.
    pub fn push(&mut self, statement: Statement)
        requires
            old(self).refusal is None,
        ensures
            final(self)@ == (BatchView { sent: old(self)@.sent.push(statement@), refusal: None }),
            final(self).refusal is None,
    {
        self.statements.push(statement);
        assert(self@.sent =~= old(self)@.sent.push(statement@));
    }

    /// What follows a batch that is not refused, at its end.
    pub fn extend(&mut self, more: Batch)
        requires
            old(self).refusal is None,
        ensures
            final(self)@ == followed(old(self)@, more@),
            final(self).refusal is Some == more.refusal is Some,
    {
        let mut rest = more.statements;
        let ghost tail = rest@;
        self.statements.append(&mut rest);
        self.refusal = more.refusal;
        assert(self@.sent =~= old(self)@.sent + crate::page::all_sent(tail));
    }
}

pub const UPSERT_SUMMARY: &'static str =
    "INSERT INTO zeka_student_summary (student, marks, attendance, submission, study, \
     confidence, computed_at, retain_until) VALUES ($1, $2, $3, $4, $5, $6, $7, $8) ON CONFLICT \
     (student) DO UPDATE SET marks = EXCLUDED.marks, attendance = EXCLUDED.attendance, \
     submission = EXCLUDED.submission, study = EXCLUDED.study, confidence = \
     EXCLUDED.confidence, computed_at = EXCLUDED.computed_at, retain_until = \
     EXCLUDED.retain_until";

pub const CLEAR_ATTENTION: &'static str =
    "DELETE FROM zeka_attention_item WHERE student = $1";

pub const INSERT_ATTENTION: &'static str =
    "INSERT INTO zeka_attention_item (student, trigger, course, fact, window_from, window_to, \
     evidence, ord) VALUES ($1, $2, $3, $4, $5, $6, $7, $8)";

/// The insert of one attention item under its place in the list.
pub open spec fn attention_sent(
    student: Uuid,
    item: AttentionRow,
    course: Option<Uuid>,
    ord: int,
) -> StatementView {
    crate::page::sends(
        INSERT_ATTENTION,
        seq![
            ParamView::Uuid(student),
            ParamView::Text(item.trigger@),
            ParamView::OptUuid(course),
            ParamView::Text(item.fact@),
            ParamView::I64(item.window_from),
            ParamView::I64(item.window_to),
            ParamView::Json(item.evidence),
            ParamView::I16(ord as i16),
        ],
    )
}

/// What the attention items of a student send, in order.
pub open spec fn attention_batch(student: Uuid, items: Seq<AttentionRow>) -> BatchView
    decreases items.len(),
{
    if items.len() == 0 {
        sending(Seq::empty())
    } else {
        let item = items.last();
        followed(
            attention_batch(student, items.drop_last()),
            match opt_spelled(item.course) {
                Some(course) => sending(
                    seq![attention_sent(student, item, course, items.len() - 1)],
                ),
                None => refused(not_a_key("course"@)),
            },
        )
    }
}

fn attention_items(student: Uuid, items: &Vec<AttentionRow>) -> (batch: Batch)
    ensures
        batch@ == attention_batch(student, items@),
{
    let mut batch = Batch::new();
    let mut ord: usize = 0;
    assert(items@.take(0) =~= Seq::empty());
    while ord < items.len()
        invariant
            0 <= ord <= items.len(),
            batch.refusal is None,
            batch@ == attention_batch(student, items@.take(ord as int)),
        decreases items.len() - ord,
    {
        let item = &items[ord];
        let ghost seen = items@.take(ord + 1);
        assert(seen.drop_last() =~= items@.take(ord as int));
        assert(seen.last() == *item);
        match parse_opt("course", &item.course) {
            Ok(course) => {
                let place: i16 = #[verifier::truncate]
                (ord as i16);
                let ghost before = batch@;
                batch.push(
                    Statement::new(
                        INSERT_ATTENTION,
                        vec![
                            Param::Uuid(student),
                            Param::Text(item.trigger.clone()),
                            Param::OptUuid(course),
                            Param::Text(item.fact.clone()),
                            Param::I64(item.window_from),
                            Param::I64(item.window_to),
                            Param::Json(item.evidence.clone()),
                            Param::I16(place),
                        ],
                    ),
                );
                assert(batch@.sent =~~= attention_batch(student, seen).sent);
            },
            Err(error) => {
                batch.extend(Batch::refuse(error));
                proof {
                    lemma_refused_attention(student, items@, ord + 1);
                }
                return batch;
            },
        }
        ord += 1;
    }
    assert(items@.take(items.len() as int) =~= items@);
    batch
}

/// A list refused at one of its items is refused there however it goes on.
proof fn lemma_refused_attention(student: Uuid, items: Seq<AttentionRow>, n: int)
    requires
        0 <= n <= items.len(),
        attention_batch(student, items.take(n)).refusal is Some,
    ensures
        attention_batch(student, items) == attention_batch(student, items.take(n)),
    decreases items.len() - n,
{
    if n == items.len() {
        assert(items.take(n) =~= items);
    } else {
        assert(items.take(n + 1).drop_last() =~= items.take(n));
        lemma_refused_attention(student, items, n + 1);
    }
}

/// What one summary sends: the summary, the removal of the student's
/// attention items, and the items anew.
pub open spec fn summary_batch(row: SummaryRow) -> BatchView {
    match crate::key::spelled(row.student@) {
        None => refused(not_a_key("student"@)),
        Some(student) => followed(
            sending(
                seq![
                    crate::page::sends(
                        UPSERT_SUMMARY,
                        seq![
                            ParamView::Uuid(student),
                            ParamView::OptJson(row.marks),
                            ParamView::OptJson(row.attendance),
                            ParamView::OptJson(row.submission),
                            ParamView::OptJson(row.study),
                            ParamView::Text(row.confidence@),
                            ParamView::I64(row.computed_at),
                            ParamView::I64(row.retain_until),
                        ],
                    ),
                    crate::page::sends(CLEAR_ATTENTION, seq![ParamView::Uuid(student)]),
                ],
            ),
            attention_batch(student, row.attention@),
        ),
    }
}

fn summary_statements(row: &SummaryRow) -> (batch: Batch)
    ensures
        batch@ == summary_batch(*row),
{
    let student = match parse_uuid("student", row.student.as_str()) {
        Ok(student) => student,
        Err(error) => {
            return Batch::refuse(error);
        },
    };
    let mut batch = Batch::new();
    batch.push(
        Statement::new(
            UPSERT_SUMMARY,
            vec![
                Param::Uuid(student),
                Param::OptJson(opt_json(&row.marks)),
                Param::OptJson(opt_json(&row.attendance)),
                Param::OptJson(opt_json(&row.submission)),
                Param::OptJson(opt_json(&row.study)),
                Param::Text(row.confidence.clone()),
                Param::I64(row.computed_at),
                Param::I64(row.retain_until),
            ],
        ),
    );
    batch.push(Statement::new(CLEAR_ATTENTION, vec![Param::Uuid(student)]));
    let items = attention_items(student, &row.attention);
    batch.extend(items);
    assert(batch@.sent =~~= summary_batch(*row).sent);
    batch
}

/// What a batch of summaries sends, row by row.
pub open spec fn summaries_batch(rows: Seq<SummaryRow>) -> BatchView
    decreases rows.len(),
{
    if rows.len() == 0 {
        sending(Seq::empty())
    } else {
        followed(summaries_batch(rows.drop_last()), summary_batch(rows.last()))
    }
}

proof fn lemma_refused_summaries(rows: Seq<SummaryRow>, n: int)
    requires
        0 <= n <= rows.len(),
        summaries_batch(rows.take(n)).refusal is Some,
    ensures
        summaries_batch(rows) == summaries_batch(rows.take(n)),
    decreases rows.len() - n,
{
    if n == rows.len() {
        assert(rows.take(n) =~= rows);
    } else {
        assert(rows.take(n + 1).drop_last() =~= rows.take(n));
        lemma_refused_summaries(rows, n + 1);
    }
}

/// The statements of a batch of summaries, row by row, up to the first row that
/// is refused.
pub fn write_summaries_in(rows: &Vec<SummaryRow>) -> (batch: Batch)
    ensures
        batch@ == summaries_batch(rows@),
{
    let mut batch = Batch::new();
    let mut i: usize = 0;
    assert(rows@.take(0) =~= Seq::empty());
    while i < rows.len()
        invariant
            0 <= i <= rows.len(),
            batch.refusal is None,
            batch@ == summaries_batch(rows@.take(i as int)),
        decreases rows.len() - i,
    {
        let ghost seen = rows@.take(i + 1);
        assert(seen.drop_last() =~= rows@.take(i as int));
        assert(seen.last() == rows@[i as int]);
        batch.extend(summary_statements(&rows[i]));
        assert(batch@ == summaries_batch(seen));
        if batch.refusal.is_some() {
            proof {
                lemma_refused_summaries(rows@, i + 1);
            }
            return batch;
        }
        i += 1;
    }
    assert(rows@.take(rows.len() as int) =~= rows@);
    batch
}

/// Store a batch of summaries: its statements and the receipt it is answered with
/// once they all landed, or the refusal of a batch past the ceiling.
pub fn write_summaries(rows: &Vec<SummaryRow>, most: usize) -> (written: Result<
    (Batch, WriteReceipt),
    AppError,
>)
    ensures
        if rows@.len() > most {
            written is Err && written->Err_0@ == AppErrorView::PayloadTooLarge(
                too_many("rows"@, rows@.len(), most as nat),
            )
        } else {
            written is Ok && written->Ok_0.0@ == summaries_batch(rows@) && written->Ok_0.1 == (
            WriteReceipt { written: rows@.len() as u64, rejected: 0 })
        },
{
    match check_batch("rows", rows, most) {
        Err(error) => Err(error),
        Ok(_) => Ok(
            (
                write_summaries_in(rows),
                WriteReceipt { written: rows.len() as u64, rejected: 0 },
            ),
        ),
    }
}

/// The key a limitation stands under.
pub const LIMITATION: &'static str = "limitation";

/// Whether an entry of an object is evidence: not its limitation, and not
/// `null`.
pub open spec fn is_evidence(object: Map<Seq<char>, serde_json::Value>, key: Seq<char>) -> bool {
    object.contains_key(key) && key != LIMITATION@ && !crate::json::null(object[key])
}

/// Whether a document is an object that carries evidence.
pub open spec fn has_evidence(evidence: serde_json::Value) -> bool {
    match crate::json::entries(evidence) {
        Some(object) => exists|key: Seq<char>| is_evidence(object, key),
        None => false,
    }
}

/// Whether a card carries more than its limitation: an object with an entry
/// that is neither that nor `null`.
pub fn carries_evidence(evidence: &serde_json::Value) -> (carries: bool)
    ensures
        carries == has_evidence(*evidence),
{
    let listed = match fields(evidence) {
        Some(listed) => listed,
        None => {
            return false;
        },
    };
    let ghost object = crate::json::entries(*evidence)->0;
    let mut i: usize = 0;
    while i < listed.len()
        invariant
            0 <= i <= listed.len(),
            crate::json::entries(*evidence) == Some(object),
            forall|k: int|
                0 <= k < listed@.len() ==> object.contains_key((#[trigger] listed@[k]).0@)
                    && listed@[k].1 == crate::json::null(object[listed@[k].0@]),
            forall|key: Seq<char>| #[trigger]
                object.contains_key(key) ==> exists|k: int|
                    0 <= k < listed@.len() && (#[trigger] listed@[k]).0@ == key,
            forall|k: int| 0 <= k < i ==> !is_evidence(object, (#[trigger] listed@[k]).0@),
        decreases listed.len() - i,
    {
        let entry = &listed[i];
        if !crate::error::same_text(entry.0.as_str(), LIMITATION) && !entry.1 {
            assert(is_evidence(object, listed@[i as int].0@));
            assert(has_evidence(*evidence)) by {
                let found = crate::json::entries(*evidence)->0;
                assert(is_evidence(found, listed@[i as int].0@));
            }
            return true;
        }
        i += 1;
    }
    assert forall|key: Seq<char>| !is_evidence(object, key) by {
        if object.contains_key(key) {
            let k = choose|k: int|
                0 <= k < listed@.len() && (#[trigger] listed@[k]).0@ == key;
            assert(!is_evidence(object, listed@[k].0@));
        }
    }
    false
}

/// The refusal of evidence that is no object.
pub open spec fn not_an_object() -> AppErrorView {
    AppErrorView::Validation(
        ValidationErrorView::Invalid { field: "evidence"@, reason: "must be a JSON object"@ },
    )
}

/// The stored evidence: the object, with the limitation in it where there is
/// one.
pub open spec fn merged(evidence: serde_json::Value, limitation: Option<Seq<char>>) -> serde_json::Value {
    match limitation {
        Some(text) => crate::json::with_text(evidence, LIMITATION@, text),
        None => evidence,
    }
}

/// The evidence object with its limitation written into it, or the refusal of
/// evidence that is no object.
pub fn merge_limitation(evidence: &serde_json::Value, limitation: Option<&str>) -> (stored: Result<
    serde_json::Value,
    AppError,
>)
    ensures
        match crate::json::entries(*evidence) {
            None => stored is Err && stored->Err_0@ == not_an_object(),
            Some(object) => stored is Ok && stored->Ok_0 == merged(
                *evidence,
                crate::page::opt_view(limitation),
            ) && crate::json::entries(stored->Ok_0) == Some(
                match limitation {
                    Some(text) => object.insert(
                        LIMITATION@,
                        crate::json::text_document(text@),
                    ),
                    None => object,
                },
            ),
        },
{
    let stored = match limitation {
        Some(text) => put_text(evidence, LIMITATION, text),
        None => match fields(evidence) {
            Some(_) => Some(evidence.clone()),
            None => None,
        },
    };
    match stored {
        Some(stored) => Ok(stored),
        None => Err(
            AppError::Validation(
                ValidationError::Invalid { field: "evidence", reason: "must be a JSON object" },
            ),
        ),
    }
}

pub const UPSERT_RECOMMENDATION: &'static str =
    "INSERT INTO zeka_recommendation (id, audience, product, rule_id, rule_version, scope, \
     about, audience_role, course, evidence, confidence, created_at, expires_at, retain_until) \
     VALUES ($1, $2, $3, $4, $5, $6, $7, $8, $9, $10, $11, $12, $13, $14) ON CONFLICT \
     (audience, product, rule_id, about, scope) DO UPDATE SET rule_version = \
     EXCLUDED.rule_version, audience_role = EXCLUDED.audience_role, course = EXCLUDED.course, \
     evidence = EXCLUDED.evidence, confidence = EXCLUDED.confidence, created_at = \
     EXCLUDED.created_at, expires_at = EXCLUDED.expires_at, retain_until = \
     EXCLUDED.retain_until";

/// What one card that carries evidence sends, under the key `id`.
pub open spec fn recommendation_batch(row: RecommendationRow, id: Uuid) -> BatchView {
    match crate::key::spelled(row.audience@) {
        None => refused(not_a_key("audience"@)),
        Some(audience) => match opt_spelled(row.about) {
            None => refused(not_a_key("about"@)),
            Some(about) => match opt_spelled(row.course) {
                None => refused(not_a_key("course"@)),
                Some(course) => sending(
                    seq![
                        crate::page::sends(
                            UPSERT_RECOMMENDATION,
                            seq![
                                ParamView::Uuid(id),
                                ParamView::Uuid(audience),
                                ParamView::Text(row.product@),
                                ParamView::Text(row.rule_id@),
                                ParamView::I64(row.rule_version),
                                ParamView::OptText(crate::page::opt_string_view(row.scope)),
                                ParamView::OptUuid(about),
                                ParamView::Text(row.audience_role@),
                                ParamView::OptUuid(course),
                                ParamView::Json(
                                    merged(
                                        row.evidence,
                                        crate::page::opt_string_view(row.limitation),
                                    ),
                                ),
                                ParamView::Text(row.confidence@),
                                ParamView::I64(row.computed_at),
                                ParamView::I64(row.expires_at),
                                ParamView::I64(row.retain_until),
                            ],
                        ),
                    ],
                ),
            },
        },
    }
}

fn recommendation_statements(row: &RecommendationRow, id: Uuid) -> (batch: Batch)
    requires
        has_evidence(row.evidence),
    ensures
        batch@ == recommendation_batch(*row, id),
{
    let limitation = match &row.limitation {
        Some(text) => Some(text.as_str()),
        None => None,
    };
    let evidence = match merge_limitation(&row.evidence, limitation) {
        Ok(evidence) => evidence,
        Err(error) => {
            return Batch::refuse(error);
        },
    };
    let audience = match parse_uuid("audience", row.audience.as_str()) {
        Ok(audience) => audience,
        Err(error) => {
            return Batch::refuse(error);
        },
    };
    let about = match parse_opt("about", &row.about) {
        Ok(about) => about,
        Err(error) => {
            return Batch::refuse(error);
        },
    };
    let course = match parse_opt("course", &row.course) {
        Ok(course) => course,
        Err(error) => {
            return Batch::refuse(error);
        },
    };
    let mut batch = Batch::new();
    batch.push(
        Statement::new(
            UPSERT_RECOMMENDATION,
            vec![
                Param::Uuid(id),
                Param::Uuid(audience),
                Param::Text(row.product.clone()),
                Param::Text(row.rule_id.clone()),
                Param::I64(row.rule_version),
                Param::OptText(opt_string(&row.scope)),
                Param::OptUuid(about),
                Param::Text(row.audience_role.clone()),
                Param::OptUuid(course),
                Param::Json(evidence),
                Param::Text(row.confidence.clone()),
                Param::I64(row.computed_at),
                Param::I64(row.expires_at),
                Param::I64(row.retain_until),
            ],
        ),
    );
    assert(batch@.sent =~~= recommendation_batch(*row, id).sent);
    batch
}

/// What a batch of cards sends, row by row: a card that carries no evidence
/// sends nothing. `ids` holds a fresh key for each row.
pub open spec fn recommendations_batch(rows: Seq<RecommendationRow>, ids: Seq<Uuid>) -> BatchView
    decreases rows.len(),
{
    if rows.len() == 0 {
        sending(Seq::empty())
    } else {
        let row = rows.last();
        followed(
            recommendations_batch(rows.drop_last(), ids),
            if has_evidence(row.evidence) {
                recommendation_batch(row, ids[rows.len() - 1])
            } else {
                sending(Seq::empty())
            },
        )
    }
}

/// The number of cards that carry evidence.
pub open spec fn with_evidence(rows: Seq<RecommendationRow>) -> nat
    decreases rows.len(),
{
    if rows.len() == 0 {
        0
    } else {
        with_evidence(rows.drop_last()) + if has_evidence(rows.last().evidence) {
            1nat
        } else {
            0nat
        }
    }
}

proof fn lemma_refused_recommendations(rows: Seq<RecommendationRow>, ids: Seq<Uuid>, n: int)
    requires
        0 <= n <= rows.len(),
        recommendations_batch(rows.take(n), ids).refusal is Some,
    ensures
        recommendations_batch(rows, ids) == recommendations_batch(rows.take(n), ids),
    decreases rows.len() - n,
{
    if n == rows.len() {
        assert(rows.take(n) =~= rows);
    } else {
        assert(rows.take(n + 1).drop_last() =~= rows.take(n));
        lemma_refused_recommendations(rows, ids, n + 1);
    }
}

/// The statements of a batch of cards, up to the first row that is refused,
/// and what the batch is answered with once they all landed: the cards
/// written, and those rejected because they carry nothing but their
/// limitation.
pub fn write_recommendations_in(rows: &Vec<RecommendationRow>, ids: &Vec<Uuid>) -> (both: (
    Batch,
    WriteReceipt,
))
    requires
        ids@.len() >= rows@.len(),
    ensures
        both.0@ == recommendations_batch(rows@, ids@),
        both.0.refusal is None ==> both.1.written == with_evidence(rows@) && both.1.rejected
            == rows@.len() - with_evidence(rows@),
{
    let mut batch = Batch::new();
    let mut written: u64 = 0;
    let mut rejected: u64 = 0;
    let mut i: usize = 0;
    assert(rows@.take(0) =~= Seq::empty());
    while i < rows.len()
        invariant
            0 <= i <= rows.len(),
            ids@.len() >= rows@.len(),
            batch.refusal is None,
            batch@ == recommendations_batch(rows@.take(i as int), ids@),
            written == with_evidence(rows@.take(i as int)),
            written + rejected == i,
        decreases rows.len() - i,
    {
        let row = &rows[i];
        let ghost seen = rows@.take(i + 1);
        assert(seen.drop_last() =~= rows@.take(i as int));
        assert(seen.last() == *row);
        if carries_evidence(&row.evidence) {
            batch.extend(recommendation_statements(row, ids[i]));
            assert(batch@ == recommendations_batch(seen, ids@));
            if batch.refusal.is_some() {
                proof {
                    lemma_refused_recommendations(rows@, ids@, i + 1);
                }
                return (batch, WriteReceipt { written, rejected });
            }
            written += 1;
        } else {
            assert(followed(
                recommendations_batch(rows@.take(i as int), ids@),
                sending(Seq::empty()),
            ).sent =~= batch@.sent);
            rejected += 1;
        }
        i += 1;
    }
    assert(rows@.take(rows.len() as int) =~= rows@);
    (batch, WriteReceipt { written, rejected })
}

/// Store a batch of cards: its statements and the receipt it is answered with
/// once they all landed, or the refusal of a batch past the ceiling. `ids`
/// holds a fresh key for each row.
pub fn write_recommendations(rows: &Vec<RecommendationRow>, ids: &Vec<Uuid>, most: usize) -> (written:
    Result<(Batch, WriteReceipt), AppError>)
    requires
        ids@.len() >= rows@.len(),
    ensures
        if rows@.len() > most {
            written is Err && written->Err_0@ == AppErrorView::PayloadTooLarge(
                too_many("rows"@, rows@.len(), most as nat),
            )
        } else {
            written is Ok && written->Ok_0.0@ == recommendations_batch(rows@, ids@) && (
            written->Ok_0.0.refusal is None ==> written->Ok_0.1.written == with_evidence(rows@)
                && written->Ok_0.1.rejected == rows@.len() - with_evidence(rows@))
        },
{
    match check_batch("rows", rows, most) {
        Err(error) => Err(error),
        Ok(_) => Ok(write_recommendations_in(rows, ids)),
    }
}

pub const UPSERT_SEGMENT: &'static str =
    "INSERT INTO zeka_question_segment (question, exam, course, subject, bilissel_talep, \
     dikkat_tuzagi, okuma_yuku, adim_sayisi, confidence_bilissel_talep, \
     confidence_dikkat_tuzagi, confidence_okuma_yuku, confidence_adim_sayisi, confidence, \
     trap_choice, rationale, model, prompt_version, variant, computed_at, retain_until) VALUES \
     ($1, $2, $3, $4, $5, $6, $7, $8, $9, $10, $11, $12, $13, $14, $15, $16, $17, $18, $19, \
     $20) ON CONFLICT (question) DO UPDATE SET exam = EXCLUDED.exam, course = EXCLUDED.course, \
     subject = EXCLUDED.subject, bilissel_talep = EXCLUDED.bilissel_talep, dikkat_tuzagi = \
     EXCLUDED.dikkat_tuzagi, okuma_yuku = EXCLUDED.okuma_yuku, adim_sayisi = \
     EXCLUDED.adim_sayisi, confidence_bilissel_talep = EXCLUDED.confidence_bilissel_talep, \
     confidence_dikkat_tuzagi = EXCLUDED.confidence_dikkat_tuzagi, confidence_okuma_yuku = \
     EXCLUDED.confidence_okuma_yuku, confidence_adim_sayisi = EXCLUDED.confidence_adim_sayisi, \
     confidence = EXCLUDED.confidence, trap_choice = EXCLUDED.trap_choice, rationale = \
     EXCLUDED.rationale, model = EXCLUDED.model, prompt_version = EXCLUDED.prompt_version, \
     variant = EXCLUDED.variant, computed_at = EXCLUDED.computed_at, retain_until = \
     EXCLUDED.retain_until";

pub const CLEAR_DIMENSIONS: &'static str =
    "DELETE FROM zeka_question_segment_dimension WHERE question = $1";

pub const INSERT_DIMENSION: &'static str =
    "INSERT INTO zeka_question_segment_dimension (question, dimension, role, ord) VALUES ($1, \
     $2, $3, $4)";

/// The inserts of a question's dimensions, the downstream ones first, numbered
/// through.
pub open spec fn dimensions_sent(
    question: Uuid,
    downstream: Seq<String>,
    experimental: Seq<String>,
) -> Seq<StatementView> {
    Seq::new(
        downstream.len() + experimental.len(),
        |i: int|
            crate::page::sends(
                INSERT_DIMENSION,
                seq![
                    ParamView::Uuid(question),
                    ParamView::Text(
                        if i < downstream.len() {
                            downstream[i]@
                        } else {
                            experimental[i - downstream.len()]@
                        },
                    ),
                    ParamView::Text(
                        if i < downstream.len() {
                            "downstream"@
                        } else {
                            "experimental"@
                        },
                    ),
                    ParamView::I16(i as i16),
                ],
            ),
    )
}

fn dimension_statements(question: Uuid, downstream: &Vec<String>, experimental: &Vec<String>) -> (batch:
    Batch)
    requires
        downstream@.len() + experimental@.len() <= i16::MAX,
    ensures
        batch@ == sending(dimensions_sent(question, downstream@, experimental@)),
{
    let mut batch = Batch::new();
    let mut ord: i16 = 0;
    let ghost all = dimensions_sent(question, downstream@, experimental@);
    let mut i: usize = 0;
    assert(all.take(0) =~= Seq::empty());
    while i < downstream.len()
        invariant
            0 <= i <= downstream.len(),
            downstream@.len() + experimental@.len() <= i16::MAX,
            all == dimensions_sent(question, downstream@, experimental@),
            ord == i,
            batch.refusal is None,
            batch@ == sending(all.take(i as int)),
        decreases downstream.len() - i,
    {
        batch.push(
            Statement::new(
                INSERT_DIMENSION,
                vec![
                    Param::Uuid(question),
                    Param::Text(downstream[i].clone()),
                    Param::Text("downstream".to_owned()),
                    Param::I16(ord),
                ],
            ),
        );
        assert(batch@.sent =~~= all.take(i + 1));
        ord += 1;
        i += 1;
    }
    let mut k: usize = 0;
    while k < experimental.len()
        invariant
            0 <= k <= experimental.len(),
            downstream@.len() + experimental@.len() <= i16::MAX,
            all == dimensions_sent(question, downstream@, experimental@),
            ord == downstream@.len() + k,
            batch.refusal is None,
            batch@ == sending(all.take(downstream@.len() + k)),
        decreases experimental.len() - k,
    {
        batch.push(
            Statement::new(
                INSERT_DIMENSION,
                vec![
                    Param::Uuid(question),
                    Param::Text(experimental[k].clone()),
                    Param::Text("experimental".to_owned()),
                    Param::I16(ord),
                ],
            ),
        );
        assert(batch@.sent =~~= all.take(downstream@.len() + k + 1));
        ord += 1;
        k += 1;
    }
    assert(all.take(all.len() as int) =~= all);
    batch
}

/// What one segment sends: the labels, the removal of the question's
/// dimensions, and the dimensions anew.
pub open spec fn segment_batch(row: SegmentRow) -> BatchView {
    match (
        crate::key::spelled(row.question@),
        crate::key::spelled(row.exam@),
        crate::key::spelled(row.course@),
        crate::key::spelled(row.subject@),
    ) {
        (None, _, _, _) => refused(not_a_key("question"@)),
        (_, None, _, _) => refused(not_a_key("exam"@)),
        (_, _, None, _) => refused(not_a_key("course"@)),
        (_, _, _, None) => refused(not_a_key("subject"@)),
        (Some(question), Some(exam), Some(course), Some(subject)) => sending(
            seq![
                crate::page::sends(
                    UPSERT_SEGMENT,
                    seq![
                        ParamView::Uuid(question),
                        ParamView::Uuid(exam),
                        ParamView::Uuid(course),
                        ParamView::Uuid(subject),
                        ParamView::Text(row.labels.bilissel_talep@),
                        ParamView::Text(row.labels.dikkat_tuzagi@),
                        ParamView::Text(row.labels.okuma_yuku@),
                        ParamView::Text(row.labels.adim_sayisi@),
                        ParamView::Real(row.confidences.bilissel_talep),
                        ParamView::Real(row.confidences.dikkat_tuzagi),
                        ParamView::Real(row.confidences.okuma_yuku),
                        ParamView::Real(row.confidences.adim_sayisi),
                        ParamView::Text(row.confidence@),
                        ParamView::OptText(crate::page::opt_string_view(row.trap_choice)),
                        ParamView::Text(row.rationale@),
                        ParamView::Text(row.model@),
                        ParamView::Text(row.prompt_version@),
                        ParamView::OptText(crate::page::opt_string_view(row.variant)),
                        ParamView::I64(row.computed_at),
                        ParamView::I64(row.retain_until),
                    ],
                ),
                crate::page::sends(CLEAR_DIMENSIONS, seq![ParamView::Uuid(question)]),
            ] + dimensions_sent(
                question,
                row.downstream_dimensions@,
                row.experimental_dimensions@,
            ),
        ),
    }
}

/// Whether the places of a question's dimensions fit their column.
pub open spec fn places_fit(row: SegmentRow) -> bool {
    row.downstream_dimensions@.len() + row.experimental_dimensions@.len() <= i16::MAX
}

fn segment_statements(row: &SegmentRow) -> (batch: Batch)
    requires
        places_fit(*row),
    ensures
        batch@ == segment_batch(*row),
{
    let question = match parse_uuid("question", row.question.as_str()) {
        Ok(question) => question,
        Err(error) => {
            return Batch::refuse(error);
        },
    };
    let exam = match parse_uuid("exam", row.exam.as_str()) {
        Ok(exam) => exam,
        Err(error) => {
            return Batch::refuse(error);
        },
    };
    let course = match parse_uuid("course", row.course.as_str()) {
        Ok(course) => course,
        Err(error) => {
            return Batch::refuse(error);
        },
    };
    let subject = match parse_uuid("subject", row.subject.as_str()) {
        Ok(subject) => subject,
        Err(error) => {
            return Batch::refuse(error);
        },
    };
    let mut batch = Batch::new();
    batch.push(
        Statement::new(
            UPSERT_SEGMENT,
            vec![
                Param::Uuid(question),
                Param::Uuid(exam),
                Param::Uuid(course),
                Param::Uuid(subject),
                Param::Text(row.labels.bilissel_talep.clone()),
                Param::Text(row.labels.dikkat_tuzagi.clone()),
                Param::Text(row.labels.okuma_yuku.clone()),
                Param::Text(row.labels.adim_sayisi.clone()),
                Param::Real(row.confidences.bilissel_talep),
                Param::Real(row.confidences.dikkat_tuzagi),
                Param::Real(row.confidences.okuma_yuku),
                Param::Real(row.confidences.adim_sayisi),
                Param::Text(row.confidence.clone()),
                Param::OptText(opt_string(&row.trap_choice)),
                Param::Text(row.rationale.clone()),
                Param::Text(row.model.clone()),
                Param::Text(row.prompt_version.clone()),
                Param::OptText(opt_string(&row.variant)),
                Param::I64(row.computed_at),
                Param::I64(row.retain_until),
            ],
        ),
    );
    batch.push(Statement::new(CLEAR_DIMENSIONS, vec![Param::Uuid(question)]));
    let dimensions = dimension_statements(
        question,
        &row.downstream_dimensions,
        &row.experimental_dimensions,
    );
    batch.extend(dimensions);
    assert(batch@.sent =~~= segment_batch(*row).sent);
    batch
}

/// What a batch of segments sends, row by row.
pub open spec fn segments_batch(rows: Seq<SegmentRow>) -> BatchView
    decreases rows.len(),
{
    if rows.len() == 0 {
        sending(Seq::empty())
    } else {
        followed(segments_batch(rows.drop_last()), segment_batch(rows.last()))
    }
}

proof fn lemma_refused_segments(rows: Seq<SegmentRow>, n: int)
    requires
        0 <= n <= rows.len(),
        segments_batch(rows.take(n)).refusal is Some,
    ensures
        segments_batch(rows) == segments_batch(rows.take(n)),
    decreases rows.len() - n,
{
    if n == rows.len() {
        assert(rows.take(n) =~= rows);
    } else {
        assert(rows.take(n + 1).drop_last() =~= rows.take(n));
        lemma_refused_segments(rows, n + 1);
    }
}

/// The statements of a batch of segments, row by row, up to the first row that
/// is refused.
pub fn write_segments_in(rows: &Vec<SegmentRow>) -> (batch: Batch)
    requires
        forall|i: int| 0 <= i < rows@.len() ==> places_fit(#[trigger] rows@[i]),
    ensures
        batch@ == segments_batch(rows@),
{
    let mut batch = Batch::new();
    let mut i: usize = 0;
    assert(rows@.take(0) =~= Seq::empty());
    while i < rows.len()
        invariant
            0 <= i <= rows.len(),
            batch.refusal is None,
            batch@ == segments_batch(rows@.take(i as int)),
            forall|i: int| 0 <= i < rows@.len() ==> places_fit(#[trigger] rows@[i]),
        decreases rows.len() - i,
    {
        let ghost seen = rows@.take(i + 1);
        assert(seen.drop_last() =~= rows@.take(i as int));
        assert(seen.last() == rows@[i as int]);
        batch.extend(segment_statements(&rows[i]));
        assert(batch@ == segments_batch(seen));
        if batch.refusal.is_some() {
            proof {
                lemma_refused_segments(rows@, i + 1);
            }
            return batch;
        }
        i += 1;
    }
    assert(rows@.take(rows.len() as int) =~= rows@);
    batch
}

/// Store a batch of segments: its statements and the receipt it is answered with
/// once they all landed, or the refusal of a batch past the ceiling.
pub fn write_segments(rows: &Vec<SegmentRow>, most: usize) -> (written: Result<
    (Batch, WriteReceipt),
    AppError,
>)
    requires
        forall|i: int| 0 <= i < rows@.len() ==> places_fit(#[trigger] rows@[i]),
    ensures
        if rows@.len() > most {
            written is Err && written->Err_0@ == AppErrorView::PayloadTooLarge(
                too_many("rows"@, rows@.len(), most as nat),
            )
        } else {
            written is Ok && written->Ok_0.0@ == segments_batch(rows@) && written->Ok_0.1 == (
            WriteReceipt { written: rows@.len() as u64, rejected: 0 })
        },
{
    match check_batch("rows", rows, most) {
        Err(error) => Err(error),
        Ok(_) => Ok(
            (
                write_segments_in(rows),
                WriteReceipt { written: rows.len() as u64, rejected: 0 },
            ),
        ),
    }
}

pub const UPSERT_PROFILE: &'static str =
    "INSERT INTO zeka_student_segment_profile (student, dimension, label, n_answers, n_correct, \
     accuracy, overall_n_answers, overall_accuracy, contrast, confidence, computed_at, \
     retain_until) VALUES ($1, $2, $3, $4, $5, $6, $7, $8, $9, $10, $11, $12) ON CONFLICT \
     (student, dimension, label) DO UPDATE SET n_answers = EXCLUDED.n_answers, n_correct = \
     EXCLUDED.n_correct, accuracy = EXCLUDED.accuracy, overall_n_answers = \
     EXCLUDED.overall_n_answers, overall_accuracy = EXCLUDED.overall_accuracy, contrast = \
     EXCLUDED.contrast, confidence = EXCLUDED.confidence, computed_at = EXCLUDED.computed_at, \
     retain_until = EXCLUDED.retain_until";

/// What one profile sends.
pub open spec fn profile_batch(row: ProfileRow) -> BatchView {
    match crate::key::spelled(row.student@) {
        None => refused(not_a_key("student"@)),
        Some(student) => sending(
            seq![
                crate::page::sends(
                    UPSERT_PROFILE,
                    seq![
                        ParamView::Uuid(student),
                        ParamView::Text(row.dimension@),
                        ParamView::Text(row.label@),
                        ParamView::I64(row.n_answers),
                        ParamView::I64(row.n_correct),
                        ParamView::Real(row.accuracy),
                        ParamView::I64(row.overall_n_answers),
                        ParamView::Real(row.overall_accuracy),
                        ParamView::Real(row.contrast),
                        ParamView::Text(row.confidence@),
                        ParamView::I64(row.computed_at),
                        ParamView::I64(row.retain_until),
                    ],
                ),
            ],
        ),
    }
}

fn profile_statements(row: &ProfileRow) -> (batch: Batch)
    ensures
        batch@ == profile_batch(*row),
{
    let student = match parse_uuid("student", row.student.as_str()) {
        Ok(student) => student,
        Err(error) => {
            return Batch::refuse(error);
        },
    };
    let mut batch = Batch::new();
    batch.push(
        Statement::new(
            UPSERT_PROFILE,
            vec![
                Param::Uuid(student),
                Param::Text(row.dimension.clone()),
                Param::Text(row.label.clone()),
                Param::I64(row.n_answers),
                Param::I64(row.n_correct),
                Param::Real(row.accuracy),
                Param::I64(row.overall_n_answers),
                Param::Real(row.overall_accuracy),
                Param::Real(row.contrast),
                Param::Text(row.confidence.clone()),
                Param::I64(row.computed_at),
                Param::I64(row.retain_until),
            ],
        ),
    );
    assert(batch@.sent =~~= profile_batch(*row).sent);
    batch
}

/// What a batch of profiles sends, row by row.
pub open spec fn profiles_batch(rows: Seq<ProfileRow>) -> BatchView
    decreases rows.len(),
{
    if rows.len() == 0 {
        sending(Seq::empty())
    } else {
        followed(profiles_batch(rows.drop_last()), profile_batch(rows.last()))
    }
}

proof fn lemma_refused_profiles(rows: Seq<ProfileRow>, n: int)
    requires
        0 <= n <= rows.len(),
        profiles_batch(rows.take(n)).refusal is Some,
    ensures
        profiles_batch(rows) == profiles_batch(rows.take(n)),
    decreases rows.len() - n,
{
    if n == rows.len() {
        assert(rows.take(n) =~= rows);
    } else {
        assert(rows.take(n + 1).drop_last() =~= rows.take(n));
        lemma_refused_profiles(rows, n + 1);
    }
}

/// The statements of a batch of profiles, row by row, up to the first row that
/// is refused.
pub fn write_profiles_in(rows: &Vec<ProfileRow>) -> (batch: Batch)
    ensures
        batch@ == profiles_batch(rows@),
{
    let mut batch = Batch::new();
    let mut i: usize = 0;
    assert(rows@.take(0) =~= Seq::empty());
    while i < rows.len()
        invariant
            0 <= i <= rows.len(),
            batch.refusal is None,
            batch@ == profiles_batch(rows@.take(i as int)),
        decreases rows.len() - i,
    {
        let ghost seen = rows@.take(i + 1);
        assert(seen.drop_last() =~= rows@.take(i as int));
        assert(seen.last() == rows@[i as int]);
        batch.extend(profile_statements(&rows[i]));
        assert(batch@ == profiles_batch(seen));
        if batch.refusal.is_some() {
            proof {
                lemma_refused_profiles(rows@, i + 1);
            }
            return batch;
        }
        i += 1;
    }
    assert(rows@.take(rows.len() as int) =~= rows@);
    batch
}

/// Store a batch of profiles: its statements and the receipt it is answered with
/// once they all landed, or the refusal of a batch past the ceiling.
pub fn write_profiles(rows: &Vec<ProfileRow>, most: usize) -> (written: Result<
    (Batch, WriteReceipt),
    AppError,
>)
    ensures
        if rows@.len() > most {
            written is Err && written->Err_0@ == AppErrorView::PayloadTooLarge(
                too_many("rows"@, rows@.len(), most as nat),
            )
        } else {
            written is Ok && written->Ok_0.0@ == profiles_batch(rows@) && written->Ok_0.1 == (
            WriteReceipt { written: rows@.len() as u64, rejected: 0 })
        },
{
    match check_batch("rows", rows, most) {
        Err(error) => Err(error),
        Ok(_) => Ok(
            (
                write_profiles_in(rows),
                WriteReceipt { written: rows.len() as u64, rejected: 0 },
            ),
        ),
    }
}

pub const UPSERT_RUN: &'static str =
    "INSERT INTO zeka_run (run_day, started_at, finished_at, status, duration_ms, \
     students_total, students_ok, students_failed, students_skipped, rows_written, \
     budget_exceeded, budget_ms, retain_until) VALUES ($1, $2, $3, $4, $5, $6, $7, $8, $9, $10, \
     $11, $12, $13) ON CONFLICT (run_day) DO UPDATE SET started_at = EXCLUDED.started_at, \
     finished_at = EXCLUDED.finished_at, status = EXCLUDED.status, duration_ms = \
     EXCLUDED.duration_ms, students_total = EXCLUDED.students_total, students_ok = \
     EXCLUDED.students_ok, students_failed = EXCLUDED.students_failed, students_skipped = \
     EXCLUDED.students_skipped, rows_written = EXCLUDED.rows_written, budget_exceeded = \
     EXCLUDED.budget_exceeded, budget_ms = EXCLUDED.budget_ms, retain_until = \
     EXCLUDED.retain_until";

pub const CLEAR_PENDING: &'static str =
    "DELETE FROM zeka_run_pending WHERE run = $1";

pub const CLEAR_FAILED: &'static str =
    "DELETE FROM zeka_run_failed_module WHERE run = $1";

pub const INSERT_PENDING: &'static str =
    "INSERT INTO zeka_run_pending (run, student, ord) VALUES ($1, $2, $3)";

pub const INSERT_FAILED: &'static str =
    "INSERT INTO zeka_run_failed_module (run, module, ord) VALUES ($1, $2, $3)";

/// What a run sends first: its row, and the removal of its children.
pub open spec fn run_row_sent(run: RunRow) -> Seq<StatementView> {
    seq![
        crate::page::sends(
            UPSERT_RUN,
            seq![
                ParamView::Text(run.run_day@),
                ParamView::I64(run.started_at),
                ParamView::OptI64(run.finished_at),
                ParamView::Text(run.status@),
                ParamView::OptI64(run.duration_ms),
                ParamView::I64(run.students_total),
                ParamView::I64(run.students_ok),
                ParamView::I64(run.students_failed),
                ParamView::I64(run.students_skipped),
                ParamView::I64(run.rows_written),
                ParamView::Bool(run.budget_exceeded),
                ParamView::I64(run.budget_ms),
                ParamView::I64(run.retain_until),
            ],
        ),
        crate::page::sends(CLEAR_PENDING, seq![ParamView::Text(run.run_day@)]),
        crate::page::sends(CLEAR_FAILED, seq![ParamView::Text(run.run_day@)]),
    ]
}

/// The inserts of a run's pending students, in order.
pub open spec fn pending_sent(run: RunRow, pending: Seq<Uuid>) -> Seq<StatementView> {
    Seq::new(
        pending.len(),
        |i: int|
            crate::page::sends(
                INSERT_PENDING,
                seq![
                    ParamView::Text(run.run_day@),
                    ParamView::Uuid(pending[i]),
                    ParamView::I32(i as i32),
                ],
            ),
    )
}

/// The inserts of a run's failed modules, in order.
pub open spec fn failed_sent(run: RunRow) -> Seq<StatementView> {
    Seq::new(
        run.failed_modules@.len(),
        |i: int|
            crate::page::sends(
                INSERT_FAILED,
                seq![
                    ParamView::Text(run.run_day@),
                    ParamView::Text(run.failed_modules@[i]@),
                    ParamView::I16(i as i16),
                ],
            ),
    )
}

/// What a run sends: its row, and its children anew.
pub open spec fn run_sent(run: RunRow, pending: Seq<Uuid>) -> Seq<StatementView> {
    run_row_sent(run) + pending_sent(run, pending) + failed_sent(run)
}

/// The statements of a run: its row, the removal of its children, and the
/// children anew.
pub fn write_run_in(run: &RunRow, pending: &Vec<Uuid>) -> (batch: Batch)
    ensures
        batch@ == sending(run_sent(*run, pending@)),
{
    let mut batch = Batch::new();
    batch.push(
        Statement::new(
            UPSERT_RUN,
            vec![
                Param::Text(run.run_day.clone()),
                Param::I64(run.started_at),
                Param::OptI64(run.finished_at),
                Param::Text(run.status.clone()),
                Param::OptI64(run.duration_ms),
                Param::I64(run.students_total),
                Param::I64(run.students_ok),
                Param::I64(run.students_failed),
                Param::I64(run.students_skipped),
                Param::I64(run.rows_written),
                Param::Bool(run.budget_exceeded),
                Param::I64(run.budget_ms),
                Param::I64(run.retain_until),
            ],
        ),
    );
    batch.push(Statement::new(CLEAR_PENDING, vec![Param::Text(run.run_day.clone())]));
    batch.push(Statement::new(CLEAR_FAILED, vec![Param::Text(run.run_day.clone())]));
    assert(batch@.sent =~~= run_row_sent(*run));
    let ghost first = batch@.sent;
    let mut i: usize = 0;
    assert(first + pending_sent(*run, pending@).take(0) =~= first);
    while i < pending.len()
        invariant
            0 <= i <= pending.len(),
            batch.refusal is None,
            batch@ == sending(first + pending_sent(*run, pending@).take(i as int)),
        decreases pending.len() - i,
    {
        let ord: i32 = #[verifier::truncate]
        (i as i32);
        batch.push(
            Statement::new(
                INSERT_PENDING,
                vec![
                    Param::Text(run.run_day.clone()),
                    Param::Uuid(pending[i]),
                    Param::I32(ord),
                ],
            ),
        );
        assert(batch@.sent =~~= first + pending_sent(*run, pending@).take(i + 1));
        i += 1;
    }
    assert(pending_sent(*run, pending@).take(pending.len() as int) =~= pending_sent(
        *run,
        pending@,
    ));
    let ghost second = batch@.sent;
    let mut k: usize = 0;
    assert(second + failed_sent(*run).take(0) =~= second);
    while k < run.failed_modules.len()
        invariant
            0 <= k <= run.failed_modules.len(),
            batch.refusal is None,
            batch@ == sending(second + failed_sent(*run).take(k as int)),
        decreases run.failed_modules.len() - k,
    {
        let ord: i16 = #[verifier::truncate]
        (k as i16);
        batch.push(
            Statement::new(
                INSERT_FAILED,
                vec![
                    Param::Text(run.run_day.clone()),
                    Param::Text(run.failed_modules[k].clone()),
                    Param::I16(ord),
                ],
            ),
        );
        assert(batch@.sent =~~= second + failed_sent(*run).take(k + 1));
        k += 1;
    }
    assert(failed_sent(*run).take(run.failed_modules@.len() as int) =~= failed_sent(*run));
    assert(batch@.sent =~= run_sent(*run, pending@));
    batch
}

/// The refusal of a run whose day is none.
pub open spec fn not_a_day() -> AppErrorView {
    AppErrorView::Validation(
        ValidationErrorView::Invalid { field: "run_day"@, reason: "must be YYYY-MM-DD"@ },
    )
}

/// Store a run: its statements and the receipt it is answered with once they
/// all landed, or the refusal of its day or of a pending student.
pub fn write_run(run: &RunRow) -> (written: Result<(Batch, WriteReceipt), AppError>)
    ensures
        if !is_run_day(run.run_day@) {
            written is Err && written->Err_0@ == not_a_day()
        } else if !all_spelled(run.pending_students@) {
            written is Err && written->Err_0@ == not_a_key("pending_students"@)
        } else {
            written is Ok && written->Ok_0.0@ == sending(
                run_sent(*run, keys_of(run.pending_students@)),
            ) && written->Ok_0.1 == (WriteReceipt { written: 1, rejected: 0 })
        },
{
    if !run_day_ok(run.run_day.as_str()) {
        return Err(
            AppError::Validation(
                ValidationError::Invalid { field: "run_day", reason: "must be YYYY-MM-DD" },
            ),
        );
    }
    match parse_all("pending_students", &run.pending_students) {
        Err(error) => Err(error),
        Ok(pending) => Ok(
            (write_run_in(run, &pending), WriteReceipt { written: 1, rejected: 0 }),
        ),
    }
}

/// A card that carries evidence still carries it with its limitation in it,
/// and every entry but the limitation is stored as it came.
pub proof fn law_limitation_adds_no_evidence(
    object: Map<Seq<char>, serde_json::Value>,
    limitation: serde_json::Value,
    key: Seq<char>,
)
    ensures
        ({
            let stored = object.insert(LIMITATION@, limitation);
            &&& is_evidence(stored, key) <==> is_evidence(object, key)
            &&& key != LIMITATION@ ==> stored.contains_key(key) == object.contains_key(key)
            &&& key != LIMITATION@ && object.contains_key(key) ==> stored[key] == object[key]
        }),
{
}

/// A batch that is not refused sends one statement for each card it counts as
/// written, and every card is either written or rejected.
pub proof fn law_every_card_is_counted(rows: Seq<RecommendationRow>, ids: Seq<Uuid>)
    ensures
        recommendations_batch(rows, ids).refusal is None ==> recommendations_batch(
            rows,
            ids,
        ).sent.len() == with_evidence(rows),
        with_evidence(rows) <= rows.len(),
    decreases rows.len(),
{
    if rows.len() > 0 {
        law_every_card_is_counted(rows.drop_last(), ids);
    }
}

proof fn lemma_attention_sends(student: Uuid, items: Seq<AttentionRow>)
    requires
        attention_batch(student, items).refusal is None,
    ensures
        attention_batch(student, items).sent.len() == items.len(),
        forall|i: int|
            0 <= i < items.len() ==> #[trigger] attention_batch(student, items).sent[i]
                == attention_sent(student, items[i], opt_spelled(items[i].course)->0, i),
    decreases items.len(),
{
    if items.len() > 0 {
        let earlier = items.drop_last();
        assert(attention_batch(student, earlier).refusal is None);
        lemma_attention_sends(student, earlier);
        let sent = attention_batch(student, items).sent;
        let before = attention_batch(student, earlier).sent;
        assert forall|i: int| 0 <= i < items.len() implies #[trigger] sent[i] == attention_sent(
            student,
            items[i],
            opt_spelled(items[i].course)->0,
            i,
        ) by {
            if i < earlier.len() {
                assert(sent[i] == before[i]);
                assert(earlier[i] == items[i]);
            }
        }
    }
}

/// A student's attention items are replaced and never merged: a summary that
/// is not refused clears them all and then writes exactly those it carries,
/// in their order.
pub proof fn law_attention_is_replaced(row: SummaryRow, i: int)
    requires
        summary_batch(row).refusal is None,
        0 <= i < row.attention@.len(),
    ensures
        ({
            let student = crate::key::spelled(row.student@)->0;
            let sent = summary_batch(row).sent;
            &&& sent.len() == 2 + row.attention@.len()
            &&& sent[1] == crate::page::sends(CLEAR_ATTENTION, seq![ParamView::Uuid(student)])
            &&& sent[2 + i] == attention_sent(
                student,
                row.attention@[i],
                opt_spelled(row.attention@[i].course)->0,
                i,
            )
        }),
{
    let student = crate::key::spelled(row.student@)->0;
    lemma_attention_sends(student, row.attention@);
    let items = attention_batch(student, row.attention@).sent;
    assert(summary_batch(row).sent[2 + i] == items[i]);
}

/// One bad row refuses the whole batch, and the refusal is that of the first.
pub proof fn law_first_refusal_stands(rows: Seq<SummaryRow>, n: int)
    requires
        0 <= n <= rows.len(),
        summaries_batch(rows.take(n)).refusal is Some,
    ensures
        summaries_batch(rows).refusal == summaries_batch(rows.take(n)).refusal,
{
    lemma_refused_summaries(rows, n);
}

/// What [`UPSERT_SUMMARY`] says up to the key of a row in the way.
pub open spec fn upsert_summary_reading() -> Storing {
    Storing {
        head: "INSERT INTO "@,
        table: "zeka_student_summary"@,
        columns: seq!["student"@, "marks"@, "attendance"@, "submission"@, "study"@, "confidence"@, "computed_at"@, "retain_until"@],
        values: seq![Term::Bind(1), Term::Bind(2), Term::Bind(3), Term::Bind(4), Term::Bind(5), Term::Bind(6), Term::Bind(7), Term::Bind(8)],
        selected: false,
        conflict: Conflict::Unread,
        rest: crate::sql::before(" ON CONFLICT ("@, Text::Open),
    }
}

/// The values of [`UPSERT_SUMMARY`].
pub open spec fn upsert_summary_values() -> Text {
    crate::sql::before(
        ") VALUES ("@,
        crate::sql::values_text(
            upsert_summary_reading().values,
            0,
            crate::sql::before(")"@, upsert_summary_reading().rest),
        ),
    )
}

proof fn lemma_upsert_summary_values()
    ensures
        crate::sql::spells(UPSERT_SUMMARY@, 118, upsert_summary_values()),
{
    reveal_strlit("INSERT INTO zeka_student_summary (student, marks, attendance, submission, study, confidence, computed_at, retain_until) VALUES ($1, $2, $3, $4, $5, $6, $7, $8) ON CONFLICT (student) DO UPDATE SET marks = EXCLUDED.marks, attendance = EXCLUDED.attendance, submission = EXCLUDED.submission, study = EXCLUDED.study, confidence = EXCLUDED.confidence, computed_at = EXCLUDED.computed_at, retain_until = EXCLUDED.retain_until");
    reveal_strlit(") VALUES (");
    reveal_strlit("$");
    reveal_strlit(", ");
    reveal_strlit(")");
    reveal_strlit(" ON CONFLICT (");
    reveal_with_fuel(crate::sql::values_text, 9);
    reveal_with_fuel(crate::sql::stands, 15);
    reveal_with_fuel(crate::sql::spells_by, 19);
    crate::sql::lemma_spells_by(UPSERT_SUMMARY@, 118, upsert_summary_values(), crate::sql::cut(128, crate::sql::cut(130, crate::sql::cut(132, crate::sql::cut(134, crate::sql::cut(136, crate::sql::cut(138, crate::sql::cut(140, crate::sql::cut(142, crate::sql::cut(144, crate::sql::cut(146, crate::sql::cut(148, crate::sql::cut(150, crate::sql::cut(152, crate::sql::cut(154, crate::sql::cut(156, crate::sql::cut(158, crate::sql::cut(159, crate::sql::cut(173, Cuts::Last)))))))))))))))))));
}

proof fn lemma_upsert_summary_reads()
    ensures
        crate::sql::spells(UPSERT_SUMMARY@, 0, upsert_summary_reading().text()),
{
    lemma_upsert_summary_values();
    reveal_strlit("INSERT INTO zeka_student_summary (student, marks, attendance, submission, study, confidence, computed_at, retain_until) VALUES ($1, $2, $3, $4, $5, $6, $7, $8) ON CONFLICT (student) DO UPDATE SET marks = EXCLUDED.marks, attendance = EXCLUDED.attendance, submission = EXCLUDED.submission, study = EXCLUDED.study, confidence = EXCLUDED.confidence, computed_at = EXCLUDED.computed_at, retain_until = EXCLUDED.retain_until");
    reveal_strlit("INSERT INTO ");
    reveal_strlit("zeka_student_summary");
    reveal_strlit(" (");
    reveal_strlit("student");
    reveal_strlit(", ");
    reveal_strlit("marks");
    reveal_strlit("attendance");
    reveal_strlit("submission");
    reveal_strlit("study");
    reveal_strlit("confidence");
    reveal_strlit("computed_at");
    reveal_strlit("retain_until");
    reveal(crate::sql::Storing::text);
    reveal_with_fuel(crate::sql::names_text, 9);
    reveal_with_fuel(crate::sql::stands, 21);
    reveal_with_fuel(crate::sql::spells_by, 19);
    crate::sql::lemma_spells_by(UPSERT_SUMMARY@, 0, upsert_summary_reading().text(), crate::sql::cut(12, crate::sql::cut(32, crate::sql::cut(34, crate::sql::cut(41, crate::sql::cut(43, crate::sql::cut(48, crate::sql::cut(50, crate::sql::cut(60, crate::sql::cut(62, crate::sql::cut(72, crate::sql::cut(74, crate::sql::cut(79, crate::sql::cut(81, crate::sql::cut(91, crate::sql::cut(93, crate::sql::cut(104, crate::sql::cut(106, crate::sql::cut(118, Cuts::Rest)))))))))))))))))));
}

/// What [`CLEAR_ATTENTION`] says.
pub open spec fn clear_attention_reading() -> Picking {
    Picking {
        skip: 0,
        head: "DELETE FROM "@,
        columns: Seq::empty(),
        table: "zeka_attention_item"@,
        conditions: seq![crate::sql::is_bound("student"@, 1)],
        rest: Text::End,
    }
}

proof fn lemma_clear_attention_reads()
    ensures
        crate::sql::spells(CLEAR_ATTENTION@, 0, clear_attention_reading().text()),
{
    reveal_strlit("DELETE FROM zeka_attention_item WHERE student = $1");
    reveal_strlit("DELETE FROM ");
    reveal_strlit("zeka_attention_item");
    reveal_strlit(" WHERE ");
    reveal_strlit("student");
    reveal_strlit(" = ");
    reveal_strlit("$");
    reveal(crate::sql::Picking::text);
    reveal_with_fuel(crate::sql::where_text, 2);
    reveal_with_fuel(crate::sql::stands, 20);
    reveal_with_fuel(crate::sql::spells_by, 7);
    crate::sql::lemma_spells_by(CLEAR_ATTENTION@, 0, clear_attention_reading().text(), crate::sql::cut(12, crate::sql::cut(31, crate::sql::cut(38, crate::sql::cut(45, crate::sql::cut(48, crate::sql::cut(50, Cuts::Last)))))));
}

/// A summary lands column by column as it is, and then every attention item of
/// its own student goes.
pub proof fn law_summary_lands_in_its_columns(
    row: SummaryRow,
    stored: Row,
)
    requires
        crate::key::spelled(row.student@) is Some,
    ensures
        upsert_summary_reading().is_read(summary_batch(row).sent[0]),
        upsert_summary_reading().stores(summary_batch(row).sent[0].binds) == seq![
            ("student"@, Cell::Uuid(crate::key::spelled(row.student@)->0)),
            ("marks"@, crate::sql::opt_json(row.marks)),
            ("attendance"@, crate::sql::opt_json(row.attendance)),
            ("submission"@, crate::sql::opt_json(row.submission)),
            ("study"@, crate::sql::opt_json(row.study)),
            ("confidence"@, Cell::Text(row.confidence@)),
            ("computed_at"@, Cell::Int(row.computed_at as int)),
            ("retain_until"@, Cell::Int(row.retain_until as int)),
        ],
        clear_attention_reading().is_read(summary_batch(row).sent[1]),
        clear_attention_reading().picks(summary_batch(row).sent[1].binds, stored) == (stored["student"@] == Cell::Uuid(crate::key::spelled(row.student@)->0)),
{
    lemma_upsert_summary_reads();
    lemma_clear_attention_reads();
    reveal_with_fuel(crate::sql::all_hold, 2);
}

/// What [`INSERT_ATTENTION`] says.
pub open spec fn insert_attention_reading() -> Storing {
    Storing {
        head: "INSERT INTO "@,
        table: "zeka_attention_item"@,
        columns: seq!["student"@, "trigger"@, "course"@, "fact"@, "window_from"@, "window_to"@, "evidence"@, "ord"@],
        values: seq![Term::Bind(1), Term::Bind(2), Term::Bind(3), Term::Bind(4), Term::Bind(5), Term::Bind(6), Term::Bind(7), Term::Bind(8)],
        selected: false,
        conflict: Conflict::Unread,
        rest: Text::End,
    }
}

proof fn lemma_insert_attention_reads()
    ensures
        crate::sql::spells(INSERT_ATTENTION@, 0, insert_attention_reading().text()),
{
    reveal_strlit("INSERT INTO zeka_attention_item (student, trigger, course, fact, window_from, window_to, evidence, ord) VALUES ($1, $2, $3, $4, $5, $6, $7, $8)");
    reveal_strlit("INSERT INTO ");
    reveal_strlit("zeka_attention_item");
    reveal_strlit(" (");
    reveal_strlit("student");
    reveal_strlit(", ");
    reveal_strlit("trigger");
    reveal_strlit("course");
    reveal_strlit("fact");
    reveal_strlit("window_from");
    reveal_strlit("window_to");
    reveal_strlit("evidence");
    reveal_strlit("ord");
    reveal_strlit(") VALUES (");
    reveal_strlit("$");
    reveal_strlit(")");
    reveal(crate::sql::Storing::text);
    reveal_with_fuel(crate::sql::names_text, 9);
    reveal_with_fuel(crate::sql::values_text, 9);
    reveal_with_fuel(crate::sql::stands, 20);
    reveal_with_fuel(crate::sql::spells_by, 36);
    crate::sql::lemma_spells_by(INSERT_ATTENTION@, 0, insert_attention_reading().text(), crate::sql::cut(12, crate::sql::cut(31, crate::sql::cut(33, crate::sql::cut(40, crate::sql::cut(42, crate::sql::cut(49, crate::sql::cut(51, crate::sql::cut(57, crate::sql::cut(59, crate::sql::cut(63, crate::sql::cut(65, crate::sql::cut(76, crate::sql::cut(78, crate::sql::cut(87, crate::sql::cut(89, crate::sql::cut(97, crate::sql::cut(99, crate::sql::cut(102, crate::sql::cut(112, crate::sql::cut(114, crate::sql::cut(116, crate::sql::cut(118, crate::sql::cut(120, crate::sql::cut(122, crate::sql::cut(124, crate::sql::cut(126, crate::sql::cut(128, crate::sql::cut(130, crate::sql::cut(132, crate::sql::cut(134, crate::sql::cut(136, crate::sql::cut(138, crate::sql::cut(140, crate::sql::cut(142, crate::sql::cut(143, Cuts::Last))))))))))))))))))))))))))))))))))));
}

/// An attention item lands column by column as it is, under its student and its
/// place.
pub proof fn law_attention_lands_in_its_columns(
    student: Uuid,
    item: AttentionRow,
    course: Option<Uuid>,
    ord: int,
)
    requires
        0 <= ord <= i16::MAX,
    ensures
        insert_attention_reading().is_read(attention_sent(student, item, course, ord)),
        insert_attention_reading().stores(attention_sent(student, item, course, ord).binds) == seq![
            ("student"@, Cell::Uuid(student)),
            ("trigger"@, Cell::Text(item.trigger@)),
            ("course"@, crate::sql::opt_uuid(course)),
            ("fact"@, Cell::Text(item.fact@)),
            ("window_from"@, Cell::Int(item.window_from as int)),
            ("window_to"@, Cell::Int(item.window_to as int)),
            ("evidence"@, Cell::Json(item.evidence)),
            ("ord"@, Cell::Int(ord)),
        ],
{
    lemma_insert_attention_reads();
}

/// What [`UPSERT_RECOMMENDATION`] says up to the key of a row in the way.
pub open spec fn upsert_recommendation_reading() -> Storing {
    Storing {
        head: "INSERT INTO "@,
        table: "zeka_recommendation"@,
        columns: seq!["id"@, "audience"@, "product"@, "rule_id"@, "rule_version"@, "scope"@, "about"@, "audience_role"@, "course"@, "evidence"@, "confidence"@, "created_at"@, "expires_at"@, "retain_until"@],
        values: seq![Term::Bind(1), Term::Bind(2), Term::Bind(3), Term::Bind(4), Term::Bind(5), Term::Bind(6), Term::Bind(7), Term::Bind(8), Term::Bind(9), Term::Bind(10), Term::Bind(11), Term::Bind(12), Term::Bind(13), Term::Bind(14)],
        selected: false,
        conflict: Conflict::Unread,
        rest: crate::sql::before(" ON CONFLICT ("@, Text::Open),
    }
}

/// The values of [`UPSERT_RECOMMENDATION`].
pub open spec fn upsert_recommendation_values() -> Text {
    crate::sql::before(
        ") VALUES ("@,
        crate::sql::values_text(
            upsert_recommendation_reading().values,
            0,
            crate::sql::before(")"@, upsert_recommendation_reading().rest),
        ),
    )
}

proof fn lemma_upsert_recommendation_values()
    ensures
        crate::sql::spells(UPSERT_RECOMMENDATION@, 174, upsert_recommendation_values()),
{
    reveal_strlit("INSERT INTO zeka_recommendation (id, audience, product, rule_id, rule_version, scope, about, audience_role, course, evidence, confidence, created_at, expires_at, retain_until) VALUES ($1, $2, $3, $4, $5, $6, $7, $8, $9, $10, $11, $12, $13, $14) ON CONFLICT (audience, product, rule_id, about, scope) DO UPDATE SET rule_version = EXCLUDED.rule_version, audience_role = EXCLUDED.audience_role, course = EXCLUDED.course, evidence = EXCLUDED.evidence, confidence = EXCLUDED.confidence, created_at = EXCLUDED.created_at, expires_at = EXCLUDED.expires_at, retain_until = EXCLUDED.retain_until");
    reveal_strlit(") VALUES (");
    reveal_strlit("$");
    reveal_strlit(", ");
    reveal_strlit(")");
    reveal_strlit(" ON CONFLICT (");
    reveal_with_fuel(crate::text::decimal_text, 2);
    reveal_with_fuel(crate::sql::values_text, 15);
    reveal_with_fuel(crate::sql::stands, 15);
    reveal_with_fuel(crate::sql::spells_by, 31);
    crate::sql::lemma_spells_by(UPSERT_RECOMMENDATION@, 174, upsert_recommendation_values(), crate::sql::cut(184, crate::sql::cut(186, crate::sql::cut(188, crate::sql::cut(190, crate::sql::cut(192, crate::sql::cut(194, crate::sql::cut(196, crate::sql::cut(198, crate::sql::cut(200, crate::sql::cut(202, crate::sql::cut(204, crate::sql::cut(206, crate::sql::cut(208, crate::sql::cut(210, crate::sql::cut(212, crate::sql::cut(214, crate::sql::cut(216, crate::sql::cut(218, crate::sql::cut(220, crate::sql::cut(223, crate::sql::cut(225, crate::sql::cut(228, crate::sql::cut(230, crate::sql::cut(233, crate::sql::cut(235, crate::sql::cut(238, crate::sql::cut(240, crate::sql::cut(243, crate::sql::cut(244, crate::sql::cut(258, Cuts::Last)))))))))))))))))))))))))))))));
}

proof fn lemma_upsert_recommendation_reads()
    ensures
        crate::sql::spells(UPSERT_RECOMMENDATION@, 0, upsert_recommendation_reading().text()),
{
    lemma_upsert_recommendation_values();
    reveal_strlit("INSERT INTO zeka_recommendation (id, audience, product, rule_id, rule_version, scope, about, audience_role, course, evidence, confidence, created_at, expires_at, retain_until) VALUES ($1, $2, $3, $4, $5, $6, $7, $8, $9, $10, $11, $12, $13, $14) ON CONFLICT (audience, product, rule_id, about, scope) DO UPDATE SET rule_version = EXCLUDED.rule_version, audience_role = EXCLUDED.audience_role, course = EXCLUDED.course, evidence = EXCLUDED.evidence, confidence = EXCLUDED.confidence, created_at = EXCLUDED.created_at, expires_at = EXCLUDED.expires_at, retain_until = EXCLUDED.retain_until");
    reveal_strlit("INSERT INTO ");
    reveal_strlit("zeka_recommendation");
    reveal_strlit(" (");
    reveal_strlit("id");
    reveal_strlit(", ");
    reveal_strlit("audience");
    reveal_strlit("product");
    reveal_strlit("rule_id");
    reveal_strlit("rule_version");
    reveal_strlit("scope");
    reveal_strlit("about");
    reveal_strlit("audience_role");
    reveal_strlit("course");
    reveal_strlit("evidence");
    reveal_strlit("confidence");
    reveal_strlit("created_at");
    reveal_strlit("expires_at");
    reveal_strlit("retain_until");
    reveal(crate::sql::Storing::text);
    reveal_with_fuel(crate::sql::names_text, 15);
    reveal_with_fuel(crate::sql::stands, 20);
    reveal_with_fuel(crate::sql::spells_by, 31);
    crate::sql::lemma_spells_by(UPSERT_RECOMMENDATION@, 0, upsert_recommendation_reading().text(), crate::sql::cut(12, crate::sql::cut(31, crate::sql::cut(33, crate::sql::cut(35, crate::sql::cut(37, crate::sql::cut(45, crate::sql::cut(47, crate::sql::cut(54, crate::sql::cut(56, crate::sql::cut(63, crate::sql::cut(65, crate::sql::cut(77, crate::sql::cut(79, crate::sql::cut(84, crate::sql::cut(86, crate::sql::cut(91, crate::sql::cut(93, crate::sql::cut(106, crate::sql::cut(108, crate::sql::cut(114, crate::sql::cut(116, crate::sql::cut(124, crate::sql::cut(126, crate::sql::cut(136, crate::sql::cut(138, crate::sql::cut(148, crate::sql::cut(150, crate::sql::cut(160, crate::sql::cut(162, crate::sql::cut(174, Cuts::Rest)))))))))))))))))))))))))))))));
}

/// A card lands column by column as it is, its limitation in its evidence.
pub proof fn law_card_lands_in_its_columns(
    row: RecommendationRow,
    id: Uuid,
)
    requires
        crate::key::spelled(row.audience@) is Some,
        opt_spelled(row.about) is Some,
        opt_spelled(row.course) is Some,
    ensures
        upsert_recommendation_reading().is_read(recommendation_batch(row, id).sent[0]),
        upsert_recommendation_reading().stores(recommendation_batch(row, id).sent[0].binds) == seq![
            ("id"@, Cell::Uuid(id)),
            ("audience"@, Cell::Uuid(crate::key::spelled(row.audience@)->0)),
            ("product"@, Cell::Text(row.product@)),
            ("rule_id"@, Cell::Text(row.rule_id@)),
            ("rule_version"@, Cell::Int(row.rule_version as int)),
            ("scope"@, crate::sql::opt_text(crate::page::opt_string_view(row.scope))),
            ("about"@, crate::sql::opt_uuid(opt_spelled(row.about)->0)),
            ("audience_role"@, Cell::Text(row.audience_role@)),
            ("course"@, crate::sql::opt_uuid(opt_spelled(row.course)->0)),
            ("evidence"@, Cell::Json(merged( row.evidence, crate::page::opt_string_view(row.limitation), ))),
            ("confidence"@, Cell::Text(row.confidence@)),
            ("created_at"@, Cell::Int(row.computed_at as int)),
            ("expires_at"@, Cell::Int(row.expires_at as int)),
            ("retain_until"@, Cell::Int(row.retain_until as int)),
        ],
{
    lemma_upsert_recommendation_reads();
}

/// What [`UPSERT_SEGMENT`] says up to the key of a row in the way.
pub open spec fn upsert_segment_reading() -> Storing {
    Storing {
        head: "INSERT INTO "@,
        table: "zeka_question_segment"@,
        columns: seq!["question"@, "exam"@, "course"@, "subject"@, "bilissel_talep"@, "dikkat_tuzagi"@, "okuma_yuku"@, "adim_sayisi"@, "confidence_bilissel_talep"@, "confidence_dikkat_tuzagi"@, "confidence_okuma_yuku"@, "confidence_adim_sayisi"@, "confidence"@, "trap_choice"@, "rationale"@, "model"@, "prompt_version"@, "variant"@, "computed_at"@, "retain_until"@],
        values: seq![Term::Bind(1), Term::Bind(2), Term::Bind(3), Term::Bind(4), Term::Bind(5), Term::Bind(6), Term::Bind(7), Term::Bind(8), Term::Bind(9), Term::Bind(10), Term::Bind(11), Term::Bind(12), Term::Bind(13), Term::Bind(14), Term::Bind(15), Term::Bind(16), Term::Bind(17), Term::Bind(18), Term::Bind(19), Term::Bind(20)],
        selected: false,
        conflict: Conflict::Unread,
        rest: crate::sql::before(" ON CONFLICT ("@, Text::Open),
    }
}

/// The values of [`UPSERT_SEGMENT`].
pub open spec fn upsert_segment_values() -> Text {
    crate::sql::before(
        ") VALUES ("@,
        crate::sql::values_text(
            upsert_segment_reading().values,
            0,
            crate::sql::before(")"@, upsert_segment_reading().rest),
        ),
    )
}

proof fn lemma_upsert_segment_values()
    ensures
        crate::sql::spells(UPSERT_SEGMENT@, 317, upsert_segment_values()),
{
    reveal_strlit("INSERT INTO zeka_question_segment (question, exam, course, subject, bilissel_talep, dikkat_tuzagi, okuma_yuku, adim_sayisi, confidence_bilissel_talep, confidence_dikkat_tuzagi, confidence_okuma_yuku, confidence_adim_sayisi, confidence, trap_choice, rationale, model, prompt_version, variant, computed_at, retain_until) VALUES ($1, $2, $3, $4, $5, $6, $7, $8, $9, $10, $11, $12, $13, $14, $15, $16, $17, $18, $19, $20) ON CONFLICT (question) DO UPDATE SET exam = EXCLUDED.exam, course = EXCLUDED.course, subject = EXCLUDED.subject, bilissel_talep = EXCLUDED.bilissel_talep, dikkat_tuzagi = EXCLUDED.dikkat_tuzagi, okuma_yuku = EXCLUDED.okuma_yuku, adim_sayisi = EXCLUDED.adim_sayisi, confidence_bilissel_talep = EXCLUDED.confidence_bilissel_talep, confidence_dikkat_tuzagi = EXCLUDED.confidence_dikkat_tuzagi, confidence_okuma_yuku = EXCLUDED.confidence_okuma_yuku, confidence_adim_sayisi = EXCLUDED.confidence_adim_sayisi, confidence = EXCLUDED.confidence, trap_choice = EXCLUDED.trap_choice, rationale = EXCLUDED.rationale, model = EXCLUDED.model, prompt_version = EXCLUDED.prompt_version, variant = EXCLUDED.variant, computed_at = EXCLUDED.computed_at, retain_until = EXCLUDED.retain_until");
    reveal_strlit(") VALUES (");
    reveal_strlit("$");
    reveal_strlit(", ");
    reveal_strlit(")");
    reveal_strlit(" ON CONFLICT (");
    reveal_with_fuel(crate::text::decimal_text, 2);
    reveal_with_fuel(crate::sql::values_text, 21);
    reveal_with_fuel(crate::sql::stands, 15);
    reveal_with_fuel(crate::sql::spells_by, 43);
    crate::sql::lemma_spells_by(UPSERT_SEGMENT@, 317, upsert_segment_values(), crate::sql::cut(327, crate::sql::cut(329, crate::sql::cut(331, crate::sql::cut(333, crate::sql::cut(335, crate::sql::cut(337, crate::sql::cut(339, crate::sql::cut(341, crate::sql::cut(343, crate::sql::cut(345, crate::sql::cut(347, crate::sql::cut(349, crate::sql::cut(351, crate::sql::cut(353, crate::sql::cut(355, crate::sql::cut(357, crate::sql::cut(359, crate::sql::cut(361, crate::sql::cut(363, crate::sql::cut(366, crate::sql::cut(368, crate::sql::cut(371, crate::sql::cut(373, crate::sql::cut(376, crate::sql::cut(378, crate::sql::cut(381, crate::sql::cut(383, crate::sql::cut(386, crate::sql::cut(388, crate::sql::cut(391, crate::sql::cut(393, crate::sql::cut(396, crate::sql::cut(398, crate::sql::cut(401, crate::sql::cut(403, crate::sql::cut(406, crate::sql::cut(408, crate::sql::cut(411, crate::sql::cut(413, crate::sql::cut(416, crate::sql::cut(417, crate::sql::cut(431, Cuts::Last)))))))))))))))))))))))))))))))))))))))))));
}

proof fn lemma_upsert_segment_reads()
    ensures
        crate::sql::spells(UPSERT_SEGMENT@, 0, upsert_segment_reading().text()),
{
    lemma_upsert_segment_values();
    reveal_strlit("INSERT INTO zeka_question_segment (question, exam, course, subject, bilissel_talep, dikkat_tuzagi, okuma_yuku, adim_sayisi, confidence_bilissel_talep, confidence_dikkat_tuzagi, confidence_okuma_yuku, confidence_adim_sayisi, confidence, trap_choice, rationale, model, prompt_version, variant, computed_at, retain_until) VALUES ($1, $2, $3, $4, $5, $6, $7, $8, $9, $10, $11, $12, $13, $14, $15, $16, $17, $18, $19, $20) ON CONFLICT (question) DO UPDATE SET exam = EXCLUDED.exam, course = EXCLUDED.course, subject = EXCLUDED.subject, bilissel_talep = EXCLUDED.bilissel_talep, dikkat_tuzagi = EXCLUDED.dikkat_tuzagi, okuma_yuku = EXCLUDED.okuma_yuku, adim_sayisi = EXCLUDED.adim_sayisi, confidence_bilissel_talep = EXCLUDED.confidence_bilissel_talep, confidence_dikkat_tuzagi = EXCLUDED.confidence_dikkat_tuzagi, confidence_okuma_yuku = EXCLUDED.confidence_okuma_yuku, confidence_adim_sayisi = EXCLUDED.confidence_adim_sayisi, confidence = EXCLUDED.confidence, trap_choice = EXCLUDED.trap_choice, rationale = EXCLUDED.rationale, model = EXCLUDED.model, prompt_version = EXCLUDED.prompt_version, variant = EXCLUDED.variant, computed_at = EXCLUDED.computed_at, retain_until = EXCLUDED.retain_until");
    reveal_strlit("INSERT INTO ");
    reveal_strlit("zeka_question_segment");
    reveal_strlit(" (");
    reveal_strlit("question");
    reveal_strlit(", ");
    reveal_strlit("exam");
    reveal_strlit("course");
    reveal_strlit("subject");
    reveal_strlit("bilissel_talep");
    reveal_strlit("dikkat_tuzagi");
    reveal_strlit("okuma_yuku");
    reveal_strlit("adim_sayisi");
    reveal_strlit("confidence_bilissel_talep");
    reveal_strlit("confidence_dikkat_tuzagi");
    reveal_strlit("confidence_okuma_yuku");
    reveal_strlit("confidence_adim_sayisi");
    reveal_strlit("confidence");
    reveal_strlit("trap_choice");
    reveal_strlit("rationale");
    reveal_strlit("model");
    reveal_strlit("prompt_version");
    reveal_strlit("variant");
    reveal_strlit("computed_at");
    reveal_strlit("retain_until");
    reveal(crate::sql::Storing::text);
    reveal_with_fuel(crate::sql::names_text, 21);
    reveal_with_fuel(crate::sql::stands, 26);
    reveal_with_fuel(crate::sql::spells_by, 43);
    crate::sql::lemma_spells_by(UPSERT_SEGMENT@, 0, upsert_segment_reading().text(), crate::sql::cut(12, crate::sql::cut(33, crate::sql::cut(35, crate::sql::cut(43, crate::sql::cut(45, crate::sql::cut(49, crate::sql::cut(51, crate::sql::cut(57, crate::sql::cut(59, crate::sql::cut(66, crate::sql::cut(68, crate::sql::cut(82, crate::sql::cut(84, crate::sql::cut(97, crate::sql::cut(99, crate::sql::cut(109, crate::sql::cut(111, crate::sql::cut(122, crate::sql::cut(124, crate::sql::cut(149, crate::sql::cut(151, crate::sql::cut(175, crate::sql::cut(177, crate::sql::cut(198, crate::sql::cut(200, crate::sql::cut(222, crate::sql::cut(224, crate::sql::cut(234, crate::sql::cut(236, crate::sql::cut(247, crate::sql::cut(249, crate::sql::cut(258, crate::sql::cut(260, crate::sql::cut(265, crate::sql::cut(267, crate::sql::cut(281, crate::sql::cut(283, crate::sql::cut(290, crate::sql::cut(292, crate::sql::cut(303, crate::sql::cut(305, crate::sql::cut(317, Cuts::Rest)))))))))))))))))))))))))))))))))))))))))));
}

/// What [`CLEAR_DIMENSIONS`] says.
pub open spec fn clear_dimensions_reading() -> Picking {
    Picking {
        skip: 0,
        head: "DELETE FROM "@,
        columns: Seq::empty(),
        table: "zeka_question_segment_dimension"@,
        conditions: seq![crate::sql::is_bound("question"@, 1)],
        rest: Text::End,
    }
}

proof fn lemma_clear_dimensions_reads()
    ensures
        crate::sql::spells(CLEAR_DIMENSIONS@, 0, clear_dimensions_reading().text()),
{
    reveal_strlit("DELETE FROM zeka_question_segment_dimension WHERE question = $1");
    reveal_strlit("DELETE FROM ");
    reveal_strlit("zeka_question_segment_dimension");
    reveal_strlit(" WHERE ");
    reveal_strlit("question");
    reveal_strlit(" = ");
    reveal_strlit("$");
    reveal(crate::sql::Picking::text);
    reveal_with_fuel(crate::sql::where_text, 2);
    reveal_with_fuel(crate::sql::stands, 32);
    reveal_with_fuel(crate::sql::spells_by, 7);
    crate::sql::lemma_spells_by(CLEAR_DIMENSIONS@, 0, clear_dimensions_reading().text(), crate::sql::cut(12, crate::sql::cut(43, crate::sql::cut(50, crate::sql::cut(58, crate::sql::cut(61, crate::sql::cut(63, Cuts::Last)))))));
}

/// A segment lands column by column as it is, each label beside its own
/// confidence, and then every dimension of its own question goes.
pub proof fn law_segment_lands_in_its_columns(
    row: SegmentRow,
    stored: Row,
)
    requires
        crate::key::spelled(row.question@) is Some,
        crate::key::spelled(row.exam@) is Some,
        crate::key::spelled(row.course@) is Some,
        crate::key::spelled(row.subject@) is Some,
    ensures
        upsert_segment_reading().is_read(segment_batch(row).sent[0]),
        upsert_segment_reading().stores(segment_batch(row).sent[0].binds) == seq![
            ("question"@, Cell::Uuid(crate::key::spelled(row.question@)->0)),
            ("exam"@, Cell::Uuid(crate::key::spelled(row.exam@)->0)),
            ("course"@, Cell::Uuid(crate::key::spelled(row.course@)->0)),
            ("subject"@, Cell::Uuid(crate::key::spelled(row.subject@)->0)),
            ("bilissel_talep"@, Cell::Text(row.labels.bilissel_talep@)),
            ("dikkat_tuzagi"@, Cell::Text(row.labels.dikkat_tuzagi@)),
            ("okuma_yuku"@, Cell::Text(row.labels.okuma_yuku@)),
            ("adim_sayisi"@, Cell::Text(row.labels.adim_sayisi@)),
            ("confidence_bilissel_talep"@, Cell::Real(row.confidences.bilissel_talep)),
            ("confidence_dikkat_tuzagi"@, Cell::Real(row.confidences.dikkat_tuzagi)),
            ("confidence_okuma_yuku"@, Cell::Real(row.confidences.okuma_yuku)),
            ("confidence_adim_sayisi"@, Cell::Real(row.confidences.adim_sayisi)),
            ("confidence"@, Cell::Text(row.confidence@)),
            ("trap_choice"@, crate::sql::opt_text(crate::page::opt_string_view(row.trap_choice))),
            ("rationale"@, Cell::Text(row.rationale@)),
            ("model"@, Cell::Text(row.model@)),
            ("prompt_version"@, Cell::Text(row.prompt_version@)),
            ("variant"@, crate::sql::opt_text(crate::page::opt_string_view(row.variant))),
            ("computed_at"@, Cell::Int(row.computed_at as int)),
            ("retain_until"@, Cell::Int(row.retain_until as int)),
        ],
        clear_dimensions_reading().is_read(segment_batch(row).sent[1]),
        clear_dimensions_reading().picks(segment_batch(row).sent[1].binds, stored) == (stored["question"@] == Cell::Uuid(crate::key::spelled(row.question@)->0)),
{
    lemma_upsert_segment_reads();
    lemma_clear_dimensions_reads();
    reveal_with_fuel(crate::sql::all_hold, 2);
}

/// What [`INSERT_DIMENSION`] says.
pub open spec fn insert_dimension_reading() -> Storing {
    Storing {
        head: "INSERT INTO "@,
        table: "zeka_question_segment_dimension"@,
        columns: seq!["question"@, "dimension"@, "role"@, "ord"@],
        values: seq![Term::Bind(1), Term::Bind(2), Term::Bind(3), Term::Bind(4)],
        selected: false,
        conflict: Conflict::Unread,
        rest: Text::End,
    }
}

proof fn lemma_insert_dimension_reads()
    ensures
        crate::sql::spells(INSERT_DIMENSION@, 0, insert_dimension_reading().text()),
{
    reveal_strlit("INSERT INTO zeka_question_segment_dimension (question, dimension, role, ord) VALUES ($1, $2, $3, $4)");
    reveal_strlit("INSERT INTO ");
    reveal_strlit("zeka_question_segment_dimension");
    reveal_strlit(" (");
    reveal_strlit("question");
    reveal_strlit(", ");
    reveal_strlit("dimension");
    reveal_strlit("role");
    reveal_strlit("ord");
    reveal_strlit(") VALUES (");
    reveal_strlit("$");
    reveal_strlit(")");
    reveal(crate::sql::Storing::text);
    reveal_with_fuel(crate::sql::names_text, 5);
    reveal_with_fuel(crate::sql::values_text, 5);
    reveal_with_fuel(crate::sql::stands, 32);
    reveal_with_fuel(crate::sql::spells_by, 20);
    crate::sql::lemma_spells_by(INSERT_DIMENSION@, 0, insert_dimension_reading().text(), crate::sql::cut(12, crate::sql::cut(43, crate::sql::cut(45, crate::sql::cut(53, crate::sql::cut(55, crate::sql::cut(64, crate::sql::cut(66, crate::sql::cut(70, crate::sql::cut(72, crate::sql::cut(75, crate::sql::cut(85, crate::sql::cut(87, crate::sql::cut(89, crate::sql::cut(91, crate::sql::cut(93, crate::sql::cut(95, crate::sql::cut(97, crate::sql::cut(99, crate::sql::cut(100, Cuts::Last))))))))))))))))))));
}

/// A dimension lands under its own question with its name, its role and its
/// place, the downstream ones before the experimental ones.
pub proof fn law_dimension_lands_in_its_columns(
    question: Uuid,
    downstream: Seq<String>,
    experimental: Seq<String>,
    i: int,
)
    requires
        0 <= i < downstream.len() + experimental.len() <= i16::MAX,
    ensures
        insert_dimension_reading().is_read(dimensions_sent(question, downstream, experimental)[i]),
        insert_dimension_reading().stores(dimensions_sent(question, downstream, experimental)[i].binds) == seq![
            ("question"@, Cell::Uuid(question)),
            ("dimension"@, Cell::Text(if i < downstream.len() { downstream[i]@ } else { experimental[i - downstream.len()]@ })),
            ("role"@, Cell::Text(if i < downstream.len() { "downstream"@ } else { "experimental"@ })),
            ("ord"@, Cell::Int(i)),
        ],
{
    lemma_insert_dimension_reads();
}

/// What [`UPSERT_PROFILE`] says up to the key of a row in the way.
pub open spec fn upsert_profile_reading() -> Storing {
    Storing {
        head: "INSERT INTO "@,
        table: "zeka_student_segment_profile"@,
        columns: seq!["student"@, "dimension"@, "label"@, "n_answers"@, "n_correct"@, "accuracy"@, "overall_n_answers"@, "overall_accuracy"@, "contrast"@, "confidence"@, "computed_at"@, "retain_until"@],
        values: seq![Term::Bind(1), Term::Bind(2), Term::Bind(3), Term::Bind(4), Term::Bind(5), Term::Bind(6), Term::Bind(7), Term::Bind(8), Term::Bind(9), Term::Bind(10), Term::Bind(11), Term::Bind(12)],
        selected: false,
        conflict: Conflict::Unread,
        rest: crate::sql::before(" ON CONFLICT ("@, Text::Open),
    }
}

/// The values of [`UPSERT_PROFILE`].
pub open spec fn upsert_profile_values() -> Text {
    crate::sql::before(
        ") VALUES ("@,
        crate::sql::values_text(
            upsert_profile_reading().values,
            0,
            crate::sql::before(")"@, upsert_profile_reading().rest),
        ),
    )
}

proof fn lemma_upsert_profile_values()
    ensures
        crate::sql::spells(UPSERT_PROFILE@, 185, upsert_profile_values()),
{
    reveal_strlit("INSERT INTO zeka_student_segment_profile (student, dimension, label, n_answers, n_correct, accuracy, overall_n_answers, overall_accuracy, contrast, confidence, computed_at, retain_until) VALUES ($1, $2, $3, $4, $5, $6, $7, $8, $9, $10, $11, $12) ON CONFLICT (student, dimension, label) DO UPDATE SET n_answers = EXCLUDED.n_answers, n_correct = EXCLUDED.n_correct, accuracy = EXCLUDED.accuracy, overall_n_answers = EXCLUDED.overall_n_answers, overall_accuracy = EXCLUDED.overall_accuracy, contrast = EXCLUDED.contrast, confidence = EXCLUDED.confidence, computed_at = EXCLUDED.computed_at, retain_until = EXCLUDED.retain_until");
    reveal_strlit(") VALUES (");
    reveal_strlit("$");
    reveal_strlit(", ");
    reveal_strlit(")");
    reveal_strlit(" ON CONFLICT (");
    reveal_with_fuel(crate::text::decimal_text, 2);
    reveal_with_fuel(crate::sql::values_text, 13);
    reveal_with_fuel(crate::sql::stands, 15);
    reveal_with_fuel(crate::sql::spells_by, 27);
    crate::sql::lemma_spells_by(UPSERT_PROFILE@, 185, upsert_profile_values(), crate::sql::cut(195, crate::sql::cut(197, crate::sql::cut(199, crate::sql::cut(201, crate::sql::cut(203, crate::sql::cut(205, crate::sql::cut(207, crate::sql::cut(209, crate::sql::cut(211, crate::sql::cut(213, crate::sql::cut(215, crate::sql::cut(217, crate::sql::cut(219, crate::sql::cut(221, crate::sql::cut(223, crate::sql::cut(225, crate::sql::cut(227, crate::sql::cut(229, crate::sql::cut(231, crate::sql::cut(234, crate::sql::cut(236, crate::sql::cut(239, crate::sql::cut(241, crate::sql::cut(244, crate::sql::cut(245, crate::sql::cut(259, Cuts::Last)))))))))))))))))))))))))));
}

proof fn lemma_upsert_profile_reads()
    ensures
        crate::sql::spells(UPSERT_PROFILE@, 0, upsert_profile_reading().text()),
{
    lemma_upsert_profile_values();
    reveal_strlit("INSERT INTO zeka_student_segment_profile (student, dimension, label, n_answers, n_correct, accuracy, overall_n_answers, overall_accuracy, contrast, confidence, computed_at, retain_until) VALUES ($1, $2, $3, $4, $5, $6, $7, $8, $9, $10, $11, $12) ON CONFLICT (student, dimension, label) DO UPDATE SET n_answers = EXCLUDED.n_answers, n_correct = EXCLUDED.n_correct, accuracy = EXCLUDED.accuracy, overall_n_answers = EXCLUDED.overall_n_answers, overall_accuracy = EXCLUDED.overall_accuracy, contrast = EXCLUDED.contrast, confidence = EXCLUDED.confidence, computed_at = EXCLUDED.computed_at, retain_until = EXCLUDED.retain_until");
    reveal_strlit("INSERT INTO ");
    reveal_strlit("zeka_student_segment_profile");
    reveal_strlit(" (");
    reveal_strlit("student");
    reveal_strlit(", ");
    reveal_strlit("dimension");
    reveal_strlit("label");
    reveal_strlit("n_answers");
    reveal_strlit("n_correct");
    reveal_strlit("accuracy");
    reveal_strlit("overall_n_answers");
    reveal_strlit("overall_accuracy");
    reveal_strlit("contrast");
    reveal_strlit("confidence");
    reveal_strlit("computed_at");
    reveal_strlit("retain_until");
    reveal(crate::sql::Storing::text);
    reveal_with_fuel(crate::sql::names_text, 13);
    reveal_with_fuel(crate::sql::stands, 29);
    reveal_with_fuel(crate::sql::spells_by, 27);
    crate::sql::lemma_spells_by(UPSERT_PROFILE@, 0, upsert_profile_reading().text(), crate::sql::cut(12, crate::sql::cut(40, crate::sql::cut(42, crate::sql::cut(49, crate::sql::cut(51, crate::sql::cut(60, crate::sql::cut(62, crate::sql::cut(67, crate::sql::cut(69, crate::sql::cut(78, crate::sql::cut(80, crate::sql::cut(89, crate::sql::cut(91, crate::sql::cut(99, crate::sql::cut(101, crate::sql::cut(118, crate::sql::cut(120, crate::sql::cut(136, crate::sql::cut(138, crate::sql::cut(146, crate::sql::cut(148, crate::sql::cut(158, crate::sql::cut(160, crate::sql::cut(171, crate::sql::cut(173, crate::sql::cut(185, Cuts::Rest)))))))))))))))))))))))))));
}

/// A profile row lands column by column as it is.
pub proof fn law_profile_lands_in_its_columns(
    row: ProfileRow,
)
    requires
        crate::key::spelled(row.student@) is Some,
    ensures
        upsert_profile_reading().is_read(profile_batch(row).sent[0]),
        upsert_profile_reading().stores(profile_batch(row).sent[0].binds) == seq![
            ("student"@, Cell::Uuid(crate::key::spelled(row.student@)->0)),
            ("dimension"@, Cell::Text(row.dimension@)),
            ("label"@, Cell::Text(row.label@)),
            ("n_answers"@, Cell::Int(row.n_answers as int)),
            ("n_correct"@, Cell::Int(row.n_correct as int)),
            ("accuracy"@, Cell::Real(row.accuracy)),
            ("overall_n_answers"@, Cell::Int(row.overall_n_answers as int)),
            ("overall_accuracy"@, Cell::Real(row.overall_accuracy)),
            ("contrast"@, Cell::Real(row.contrast)),
            ("confidence"@, Cell::Text(row.confidence@)),
            ("computed_at"@, Cell::Int(row.computed_at as int)),
            ("retain_until"@, Cell::Int(row.retain_until as int)),
        ],
{
    lemma_upsert_profile_reads();
}

/// What [`UPSERT_RUN`] says up to the key of a row in the way.
pub open spec fn upsert_run_reading() -> Storing {
    Storing {
        head: "INSERT INTO "@,
        table: "zeka_run"@,
        columns: seq!["run_day"@, "started_at"@, "finished_at"@, "status"@, "duration_ms"@, "students_total"@, "students_ok"@, "students_failed"@, "students_skipped"@, "rows_written"@, "budget_exceeded"@, "budget_ms"@, "retain_until"@],
        values: seq![Term::Bind(1), Term::Bind(2), Term::Bind(3), Term::Bind(4), Term::Bind(5), Term::Bind(6), Term::Bind(7), Term::Bind(8), Term::Bind(9), Term::Bind(10), Term::Bind(11), Term::Bind(12), Term::Bind(13)],
        selected: false,
        conflict: Conflict::Unread,
        rest: crate::sql::before(" ON CONFLICT ("@, Text::Open),
    }
}

/// The values of [`UPSERT_RUN`].
pub open spec fn upsert_run_values() -> Text {
    crate::sql::before(
        ") VALUES ("@,
        crate::sql::values_text(
            upsert_run_reading().values,
            0,
            crate::sql::before(")"@, upsert_run_reading().rest),
        ),
    )
}

proof fn lemma_upsert_run_values()
    ensures
        crate::sql::spells(UPSERT_RUN@, 195, upsert_run_values()),
{
    reveal_strlit("INSERT INTO zeka_run (run_day, started_at, finished_at, status, duration_ms, students_total, students_ok, students_failed, students_skipped, rows_written, budget_exceeded, budget_ms, retain_until) VALUES ($1, $2, $3, $4, $5, $6, $7, $8, $9, $10, $11, $12, $13) ON CONFLICT (run_day) DO UPDATE SET started_at = EXCLUDED.started_at, finished_at = EXCLUDED.finished_at, status = EXCLUDED.status, duration_ms = EXCLUDED.duration_ms, students_total = EXCLUDED.students_total, students_ok = EXCLUDED.students_ok, students_failed = EXCLUDED.students_failed, students_skipped = EXCLUDED.students_skipped, rows_written = EXCLUDED.rows_written, budget_exceeded = EXCLUDED.budget_exceeded, budget_ms = EXCLUDED.budget_ms, retain_until = EXCLUDED.retain_until");
    reveal_strlit(") VALUES (");
    reveal_strlit("$");
    reveal_strlit(", ");
    reveal_strlit(")");
    reveal_strlit(" ON CONFLICT (");
    reveal_with_fuel(crate::text::decimal_text, 2);
    reveal_with_fuel(crate::sql::values_text, 14);
    reveal_with_fuel(crate::sql::stands, 15);
    reveal_with_fuel(crate::sql::spells_by, 29);
    crate::sql::lemma_spells_by(UPSERT_RUN@, 195, upsert_run_values(), crate::sql::cut(205, crate::sql::cut(207, crate::sql::cut(209, crate::sql::cut(211, crate::sql::cut(213, crate::sql::cut(215, crate::sql::cut(217, crate::sql::cut(219, crate::sql::cut(221, crate::sql::cut(223, crate::sql::cut(225, crate::sql::cut(227, crate::sql::cut(229, crate::sql::cut(231, crate::sql::cut(233, crate::sql::cut(235, crate::sql::cut(237, crate::sql::cut(239, crate::sql::cut(241, crate::sql::cut(244, crate::sql::cut(246, crate::sql::cut(249, crate::sql::cut(251, crate::sql::cut(254, crate::sql::cut(256, crate::sql::cut(259, crate::sql::cut(260, crate::sql::cut(274, Cuts::Last)))))))))))))))))))))))))))));
}

proof fn lemma_upsert_run_reads()
    ensures
        crate::sql::spells(UPSERT_RUN@, 0, upsert_run_reading().text()),
{
    lemma_upsert_run_values();
    reveal_strlit("INSERT INTO zeka_run (run_day, started_at, finished_at, status, duration_ms, students_total, students_ok, students_failed, students_skipped, rows_written, budget_exceeded, budget_ms, retain_until) VALUES ($1, $2, $3, $4, $5, $6, $7, $8, $9, $10, $11, $12, $13) ON CONFLICT (run_day) DO UPDATE SET started_at = EXCLUDED.started_at, finished_at = EXCLUDED.finished_at, status = EXCLUDED.status, duration_ms = EXCLUDED.duration_ms, students_total = EXCLUDED.students_total, students_ok = EXCLUDED.students_ok, students_failed = EXCLUDED.students_failed, students_skipped = EXCLUDED.students_skipped, rows_written = EXCLUDED.rows_written, budget_exceeded = EXCLUDED.budget_exceeded, budget_ms = EXCLUDED.budget_ms, retain_until = EXCLUDED.retain_until");
    reveal_strlit("INSERT INTO ");
    reveal_strlit("zeka_run");
    reveal_strlit(" (");
    reveal_strlit("run_day");
    reveal_strlit(", ");
    reveal_strlit("started_at");
    reveal_strlit("finished_at");
    reveal_strlit("status");
    reveal_strlit("duration_ms");
    reveal_strlit("students_total");
    reveal_strlit("students_ok");
    reveal_strlit("students_failed");
    reveal_strlit("students_skipped");
    reveal_strlit("rows_written");
    reveal_strlit("budget_exceeded");
    reveal_strlit("budget_ms");
    reveal_strlit("retain_until");
    reveal(crate::sql::Storing::text);
    reveal_with_fuel(crate::sql::names_text, 14);
    reveal_with_fuel(crate::sql::stands, 17);
    reveal_with_fuel(crate::sql::spells_by, 29);
    crate::sql::lemma_spells_by(UPSERT_RUN@, 0, upsert_run_reading().text(), crate::sql::cut(12, crate::sql::cut(20, crate::sql::cut(22, crate::sql::cut(29, crate::sql::cut(31, crate::sql::cut(41, crate::sql::cut(43, crate::sql::cut(54, crate::sql::cut(56, crate::sql::cut(62, crate::sql::cut(64, crate::sql::cut(75, crate::sql::cut(77, crate::sql::cut(91, crate::sql::cut(93, crate::sql::cut(104, crate::sql::cut(106, crate::sql::cut(121, crate::sql::cut(123, crate::sql::cut(139, crate::sql::cut(141, crate::sql::cut(153, crate::sql::cut(155, crate::sql::cut(170, crate::sql::cut(172, crate::sql::cut(181, crate::sql::cut(183, crate::sql::cut(195, Cuts::Rest)))))))))))))))))))))))))))));
}

/// What [`CLEAR_PENDING`] says.
pub open spec fn clear_pending_reading() -> Picking {
    Picking {
        skip: 0,
        head: "DELETE FROM "@,
        columns: Seq::empty(),
        table: "zeka_run_pending"@,
        conditions: seq![crate::sql::is_bound("run"@, 1)],
        rest: Text::End,
    }
}

proof fn lemma_clear_pending_reads()
    ensures
        crate::sql::spells(CLEAR_PENDING@, 0, clear_pending_reading().text()),
{
    reveal_strlit("DELETE FROM zeka_run_pending WHERE run = $1");
    reveal_strlit("DELETE FROM ");
    reveal_strlit("zeka_run_pending");
    reveal_strlit(" WHERE ");
    reveal_strlit("run");
    reveal_strlit(" = ");
    reveal_strlit("$");
    reveal(crate::sql::Picking::text);
    reveal_with_fuel(crate::sql::where_text, 2);
    reveal_with_fuel(crate::sql::stands, 17);
    reveal_with_fuel(crate::sql::spells_by, 7);
    crate::sql::lemma_spells_by(CLEAR_PENDING@, 0, clear_pending_reading().text(), crate::sql::cut(12, crate::sql::cut(28, crate::sql::cut(35, crate::sql::cut(38, crate::sql::cut(41, crate::sql::cut(43, Cuts::Last)))))));
}

/// What [`CLEAR_FAILED`] says.
pub open spec fn clear_failed_reading() -> Picking {
    Picking {
        skip: 0,
        head: "DELETE FROM "@,
        columns: Seq::empty(),
        table: "zeka_run_failed_module"@,
        conditions: seq![crate::sql::is_bound("run"@, 1)],
        rest: Text::End,
    }
}

proof fn lemma_clear_failed_reads()
    ensures
        crate::sql::spells(CLEAR_FAILED@, 0, clear_failed_reading().text()),
{
    reveal_strlit("DELETE FROM zeka_run_failed_module WHERE run = $1");
    reveal_strlit("DELETE FROM ");
    reveal_strlit("zeka_run_failed_module");
    reveal_strlit(" WHERE ");
    reveal_strlit("run");
    reveal_strlit(" = ");
    reveal_strlit("$");
    reveal(crate::sql::Picking::text);
    reveal_with_fuel(crate::sql::where_text, 2);
    reveal_with_fuel(crate::sql::stands, 23);
    reveal_with_fuel(crate::sql::spells_by, 7);
    crate::sql::lemma_spells_by(CLEAR_FAILED@, 0, clear_failed_reading().text(), crate::sql::cut(12, crate::sql::cut(34, crate::sql::cut(41, crate::sql::cut(44, crate::sql::cut(47, crate::sql::cut(49, Cuts::Last)))))));
}

/// A run lands column by column as it is, and then every child of its own day
/// goes.
pub proof fn law_run_lands_in_its_columns(
    run: RunRow,
    row: Row,
)
    ensures
        upsert_run_reading().is_read(run_row_sent(run)[0]),
        upsert_run_reading().stores(run_row_sent(run)[0].binds) == seq![
            ("run_day"@, Cell::Text(run.run_day@)),
            ("started_at"@, Cell::Int(run.started_at as int)),
            ("finished_at"@, crate::sql::opt_int(run.finished_at)),
            ("status"@, Cell::Text(run.status@)),
            ("duration_ms"@, crate::sql::opt_int(run.duration_ms)),
            ("students_total"@, Cell::Int(run.students_total as int)),
            ("students_ok"@, Cell::Int(run.students_ok as int)),
            ("students_failed"@, Cell::Int(run.students_failed as int)),
            ("students_skipped"@, Cell::Int(run.students_skipped as int)),
            ("rows_written"@, Cell::Int(run.rows_written as int)),
            ("budget_exceeded"@, Cell::Bool(run.budget_exceeded)),
            ("budget_ms"@, Cell::Int(run.budget_ms as int)),
            ("retain_until"@, Cell::Int(run.retain_until as int)),
        ],
        clear_pending_reading().is_read(run_row_sent(run)[1]),
        clear_pending_reading().picks(run_row_sent(run)[1].binds, row) == (row["run"@] == Cell::Text(run.run_day@)),
        clear_failed_reading().is_read(run_row_sent(run)[2]),
        clear_failed_reading().picks(run_row_sent(run)[2].binds, row) == (row["run"@] == Cell::Text(run.run_day@)),
{
    lemma_upsert_run_reads();
    lemma_clear_pending_reads();
    lemma_clear_failed_reads();
    reveal_with_fuel(crate::sql::all_hold, 2);
}

/// What [`INSERT_PENDING`] says.
pub open spec fn insert_pending_reading() -> Storing {
    Storing {
        head: "INSERT INTO "@,
        table: "zeka_run_pending"@,
        columns: seq!["run"@, "student"@, "ord"@],
        values: seq![Term::Bind(1), Term::Bind(2), Term::Bind(3)],
        selected: false,
        conflict: Conflict::Unread,
        rest: Text::End,
    }
}

proof fn lemma_insert_pending_reads()
    ensures
        crate::sql::spells(INSERT_PENDING@, 0, insert_pending_reading().text()),
{
    reveal_strlit("INSERT INTO zeka_run_pending (run, student, ord) VALUES ($1, $2, $3)");
    reveal_strlit("INSERT INTO ");
    reveal_strlit("zeka_run_pending");
    reveal_strlit(" (");
    reveal_strlit("run");
    reveal_strlit(", ");
    reveal_strlit("student");
    reveal_strlit("ord");
    reveal_strlit(") VALUES (");
    reveal_strlit("$");
    reveal_strlit(")");
    reveal(crate::sql::Storing::text);
    reveal_with_fuel(crate::sql::names_text, 4);
    reveal_with_fuel(crate::sql::values_text, 4);
    reveal_with_fuel(crate::sql::stands, 17);
    reveal_with_fuel(crate::sql::spells_by, 16);
    crate::sql::lemma_spells_by(INSERT_PENDING@, 0, insert_pending_reading().text(), crate::sql::cut(12, crate::sql::cut(28, crate::sql::cut(30, crate::sql::cut(33, crate::sql::cut(35, crate::sql::cut(42, crate::sql::cut(44, crate::sql::cut(47, crate::sql::cut(57, crate::sql::cut(59, crate::sql::cut(61, crate::sql::cut(63, crate::sql::cut(65, crate::sql::cut(67, crate::sql::cut(68, Cuts::Last))))))))))))))));
}

/// What [`INSERT_FAILED`] says.
pub open spec fn insert_failed_reading() -> Storing {
    Storing {
        head: "INSERT INTO "@,
        table: "zeka_run_failed_module"@,
        columns: seq!["run"@, "module"@, "ord"@],
        values: seq![Term::Bind(1), Term::Bind(2), Term::Bind(3)],
        selected: false,
        conflict: Conflict::Unread,
        rest: Text::End,
    }
}

proof fn lemma_insert_failed_reads()
    ensures
        crate::sql::spells(INSERT_FAILED@, 0, insert_failed_reading().text()),
{
    reveal_strlit("INSERT INTO zeka_run_failed_module (run, module, ord) VALUES ($1, $2, $3)");
    reveal_strlit("INSERT INTO ");
    reveal_strlit("zeka_run_failed_module");
    reveal_strlit(" (");
    reveal_strlit("run");
    reveal_strlit(", ");
    reveal_strlit("module");
    reveal_strlit("ord");
    reveal_strlit(") VALUES (");
    reveal_strlit("$");
    reveal_strlit(")");
    reveal(crate::sql::Storing::text);
    reveal_with_fuel(crate::sql::names_text, 4);
    reveal_with_fuel(crate::sql::values_text, 4);
    reveal_with_fuel(crate::sql::stands, 23);
    reveal_with_fuel(crate::sql::spells_by, 16);
    crate::sql::lemma_spells_by(INSERT_FAILED@, 0, insert_failed_reading().text(), crate::sql::cut(12, crate::sql::cut(34, crate::sql::cut(36, crate::sql::cut(39, crate::sql::cut(41, crate::sql::cut(47, crate::sql::cut(49, crate::sql::cut(52, crate::sql::cut(62, crate::sql::cut(64, crate::sql::cut(66, crate::sql::cut(68, crate::sql::cut(70, crate::sql::cut(72, crate::sql::cut(73, Cuts::Last))))))))))))))));
}

/// A pending student lands under the run's own day and its place.
pub proof fn law_pending_lands_in_its_columns(
    run: RunRow,
    pending: Seq<Uuid>,
    i: int,
)
    requires
        0 <= i < pending.len() <= i32::MAX,
    ensures
        insert_pending_reading().is_read(pending_sent(run, pending)[i]),
        insert_pending_reading().stores(pending_sent(run, pending)[i].binds) == seq![
            ("run"@, Cell::Text(run.run_day@)),
            ("student"@, Cell::Uuid(pending[i])),
            ("ord"@, Cell::Int(i)),
        ],
{
    lemma_insert_pending_reads();
}

/// A failed module lands under the run's own day and its place.
pub proof fn law_failed_lands_in_its_columns(
    run: RunRow,
    i: int,
)
    requires
        0 <= i < run.failed_modules@.len() <= i16::MAX,
    ensures
        insert_failed_reading().is_read(failed_sent(run)[i]),
        insert_failed_reading().stores(failed_sent(run)[i].binds) == seq![
            ("run"@, Cell::Text(run.run_day@)),
            ("module"@, Cell::Text(run.failed_modules@[i]@)),
            ("ord"@, Cell::Int(i)),
        ],
{
    lemma_insert_failed_reads();
}

} // verus!
