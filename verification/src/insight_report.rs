//! The derived insight tables: what a run resumes from, and the whole-school
//! reads that a report carries, in the rows they were written from.

use vstd::prelude::*;

use crate::error::{AppError, AppErrorView};
use crate::grouping::by_key;
use crate::insight::{AttentionRow, ProfileRow, RecommendationRow, RunRow, SummaryRow};
use crate::key::hyphenated;
use crate::page::{texts, Bits, Param, ParamView, Statement, Uuid};
use crate::rag_message::oldest_first;
use crate::sql::{Cell, Cond, Cuts, Picking, Row, Term, Text};
use crate::text::decimal;

verus! {

/// The students the freshest run left pending.
#[derive(Debug)]
pub struct PendingList {
    pub students: Vec<String>,
}

/// The schools that are active, by slug.
#[derive(Debug)]
pub struct SchoolDirectory {
    pub schools: Vec<String>,
}

/// A school's own identity, as a report prints it.
#[derive(Debug)]
pub struct ReportSchool {
    pub id: String,
    pub slug: String,
    pub name: String,
}

/// The texts of some keys.
pub open spec fn key_texts(ids: Seq<Uuid>) -> Seq<Seq<char>> {
    Seq::new(ids.len(), |i: int| crate::key::hyphenated_text(ids[i].0))
}

fn spell_all(ids: &Vec<Uuid>) -> (spelled: Vec<String>)
    ensures
        crate::text::views(spelled@) == key_texts(ids@),
{
    let mut spelled: Vec<String> = Vec::new();
    let mut i: usize = 0;
    while i < ids.len()
        invariant
            0 <= i <= ids.len(),
            spelled@.len() == i,
            forall|k: int|
                0 <= k < i ==> (#[trigger] spelled@[k])@ == crate::key::hyphenated_text(ids@[k].0),
        decreases ids.len() - i,
    {
        spelled.push(hyphenated(ids[i]));
        i += 1;
    }
    assert(crate::text::views(spelled@) =~= key_texts(ids@));
    spelled
}

pub const LAST_PENDING: &'static str =
    "SELECT p.student FROM zeka_run_pending p JOIN zeka_run r ON r.run_day = p.run WHERE \
     r.run_day = (SELECT run_day FROM zeka_run ORDER BY started_at DESC, run_day DESC LIMIT 1) \
     ORDER BY p.ord LIMIT $1";

/// The read of the students the freshest run left pending, in the order the
/// run recorded them: one more than the `most` that [`pending_list`] takes.
pub fn last_pending(most: usize) -> (statement: Statement)
    requires
        most < i64::MAX,
    ensures
        statement@ == crate::page::sends(LAST_PENDING, seq![ParamView::I64((most + 1) as i64)]),
{
    Statement::new(LAST_PENDING, vec![Param::I64(most as i64 + 1)])
}

/// The refusal of a list past the ceiling.
pub open spec fn too_pending(most: nat) -> Seq<char> {
    "students: the freshest run left more than "@ + crate::text::decimal_text(most)
        + " students pending"@
}

/// What some pending students are answered with where `most` are taken.
pub open spec fn lists_pending(
    list: Result<PendingList, AppError>,
    students: Seq<Uuid>,
    most: usize,
) -> bool {
    if students.len() > most {
        list is Err && list->Err_0@ == AppErrorView::PayloadTooLarge(too_pending(most as nat))
    } else {
        list is Ok && crate::text::views(list->Ok_0.students@) == key_texts(students)
    }
}

/// The list a run resumes from. Past the ceiling it is refused and never
/// clipped: a shortened one would drop students silently.
pub fn pending_list(rows: &Vec<Uuid>, most: usize) -> (list: Result<PendingList, AppError>)
    ensures
        lists_pending(list, rows@, most),
{
    if rows.len() > most {
        let mut text = "students: the freshest run left more than ".to_owned();
        text.append(decimal(most as u128).as_str());
        text.append(" students pending");
        return Err(AppError::PayloadTooLarge(text));
    }
    Ok(PendingList { students: spell_all(rows) })
}

pub const ACTIVE_SCHOOLS: &'static str =
    "SELECT slug FROM school WHERE status = 'active' ORDER BY slug";

/// The read of the slugs of a [`SchoolDirectory`].
pub fn active_schools() -> (statement: Statement)
    ensures
        statement@ == crate::page::sends(ACTIVE_SCHOOLS, Seq::empty()),
{
    Statement::new(ACTIVE_SCHOOLS, Vec::new())
}

pub const SCHOOL_IDENTITY: &'static str =
    "SELECT id, name FROM school WHERE slug = $1";

/// The read of a school's key and name by its slug.
pub fn school_identity(slug: &str) -> (statement: Statement)
    ensures
        statement@ == crate::page::sends(SCHOOL_IDENTITY, seq![ParamView::Text(slug@)]),
{
    Statement::new(SCHOOL_IDENTITY, vec![Param::Text(slug.to_owned())])
}

/// A school's identity from its key and name, where the slug has a row.
pub fn identity(row: Option<(Uuid, String)>, slug: &str) -> (school: Option<ReportSchool>)
    ensures
        school is Some == row is Some,
        school is Some ==> school->0.id@ == crate::key::hyphenated_text((row->0).0.0)
            && school->0.slug@ == slug@ && school->0.name == (row->0).1,
{
    match row {
        Some((id, name)) => Some(
            ReportSchool { id: hyphenated(id), slug: slug.to_owned(), name },
        ),
        None => None,
    }
}

/// A stored summary.
#[derive(Debug)]
pub struct StoredSummary {
    pub student: Uuid,
    pub marks: Option<serde_json::Value>,
    pub attendance: Option<serde_json::Value>,
    pub submission: Option<serde_json::Value>,
    pub study: Option<serde_json::Value>,
    pub confidence: String,
    pub computed_at: i64,
    pub retain_until: i64,
}

/// A stored attention item.
#[derive(Debug)]
pub struct StoredAttention {
    pub student: Uuid,
    pub trigger: String,
    pub course: Option<Uuid>,
    pub fact: String,
    pub window_from: i64,
    pub window_to: i64,
    pub evidence: serde_json::Value,
}

pub const ALL_SUMMARIES: &'static str =
    "SELECT student, marks, attendance, submission, study, confidence, computed_at, \
     retain_until FROM zeka_student_summary ORDER BY student";

pub const ALL_ATTENTION: &'static str =
    "SELECT student, trigger, course, fact, window_from, window_to, evidence FROM \
     zeka_attention_item ORDER BY student, ord";

/// The reads of every summary and of every attention item, the items one
/// query for the whole school; [`summaries`] puts them together.
pub fn all_summaries() -> (both: (Statement, Statement))
    ensures
        both.0@ == crate::page::sends(ALL_SUMMARIES, Seq::empty()),
        both.1@ == crate::page::sends(ALL_ATTENTION, Seq::empty()),
{
    (Statement::new(ALL_SUMMARIES, Vec::new()), Statement::new(ALL_ATTENTION, Vec::new()))
}

/// The text of an optional key.
pub open spec fn opt_key_text(id: Option<Uuid>) -> Option<Seq<char>> {
    match id {
        Some(id) => Some(crate::key::hyphenated_text(id.0)),
        None => None,
    }
}

fn spell_opt(id: Option<Uuid>) -> (text: Option<String>)
    ensures
        crate::page::opt_string_view(text) == opt_key_text(id),
{
    match id {
        Some(id) => Some(hyphenated(id)),
        None => None,
    }
}

/// Whether an item is a stored one, with its course spelled out.
pub open spec fn is_item(item: AttentionRow, stored: StoredAttention) -> bool {
    &&& item.trigger == stored.trigger
    &&& crate::page::opt_string_view(item.course) == opt_key_text(stored.course)
    &&& item.fact == stored.fact
    &&& item.window_from == stored.window_from
    &&& item.window_to == stored.window_to
    &&& item.evidence == stored.evidence
}

fn wire_item(stored: StoredAttention) -> (item: AttentionRow)
    ensures
        is_item(item, stored),
{
    AttentionRow {
        trigger: stored.trigger,
        course: spell_opt(stored.course),
        fact: stored.fact,
        window_from: stored.window_from,
        window_to: stored.window_to,
        evidence: stored.evidence,
    }
}

/// Whether a list of items is a list of stored ones.
pub open spec fn are_items(items: Seq<AttentionRow>, stored: Seq<StoredAttention>) -> bool {
    &&& items.len() == stored.len()
    &&& forall|i: int| 0 <= i < items.len() ==> is_item(#[trigger] items[i], stored[i])
}

fn wire_items(stored: Vec<StoredAttention>) -> (items: Vec<AttentionRow>)
    ensures
        are_items(items@, stored@),
{
    let ghost all = stored@;
    let mut rest = oldest_first(stored);
    let mut items: Vec<AttentionRow> = Vec::new();
    while rest.len() > 0
        invariant
            rest@.len() + items@.len() == all.len(),
            forall|i: int| 0 <= i < rest@.len() ==> #[trigger] rest@[i] == all[all.len() - 1 - i],
            forall|i: int| 0 <= i < items@.len() ==> is_item(#[trigger] items@[i], all[i]),
        decreases rest.len(),
    {
        let ghost before = rest@;
        if let Some(item) = rest.pop() {
            assert(before[before.len() - 1] == all[items@.len() as int]);
            items.push(wire_item(item));
        }
    }
    items
}

/// The items with the keys of their students.
pub open spec fn by_student(items: Seq<StoredAttention>) -> Seq<(u128, StoredAttention)> {
    Seq::new(items.len(), |i: int| (items[i].student.0, items[i]))
}

fn keyed(items: Vec<StoredAttention>) -> (pairs: Vec<(u128, StoredAttention)>)
    ensures
        pairs@ == by_student(items@),
{
    let ghost all = items@;
    let mut rest = oldest_first(items);
    let mut pairs: Vec<(u128, StoredAttention)> = Vec::new();
    while rest.len() > 0
        invariant
            rest@.len() + pairs@.len() == all.len(),
            forall|i: int| 0 <= i < rest@.len() ==> #[trigger] rest@[i] == all[all.len() - 1 - i],
            forall|i: int|
                0 <= i < pairs@.len() ==> #[trigger] pairs@[i] == (all[i].student.0, all[i]),
        decreases rest.len(),
    {
        let ghost before = rest@;
        if let Some(item) = rest.pop() {
            assert(before[before.len() - 1] == all[pairs@.len() as int]);
            let key: u128 = item.student.0;
            pairs.push((key, item));
        }
    }
    assert(pairs@ =~= by_student(all));
    pairs
}

/// Whether a student has no row before the one at `n`: the items of a student
/// go to the first.
pub open spec fn is_first(rows: Seq<StoredSummary>, n: int) -> bool {
    forall|i: int| 0 <= i < n ==> (#[trigger] rows[i]).student != rows[n].student
}

/// The stored items that the row at `n` takes.
pub open spec fn items_for(
    rows: Seq<StoredSummary>,
    items: Seq<StoredAttention>,
    n: int,
) -> Seq<StoredAttention> {
    if is_first(rows, n) {
        crate::grouping::group(by_student(items), rows[n].student.0)
    } else {
        Seq::empty()
    }
}

/// Whether a summary is a stored one with its items.
pub open spec fn is_summary(
    summary: SummaryRow,
    stored: StoredSummary,
    items: Seq<StoredAttention>,
) -> bool {
    &&& summary.student@ == crate::key::hyphenated_text(stored.student.0)
    &&& summary.marks == stored.marks
    &&& summary.attendance == stored.attendance
    &&& summary.submission == stored.submission
    &&& summary.study == stored.study
    &&& summary.confidence == stored.confidence
    &&& summary.computed_at == stored.computed_at
    &&& summary.retain_until == stored.retain_until
    &&& are_items(summary.attention@, items)
}

/// Whether summaries are the stored ones, in order, each with its items.
pub open spec fn are_summaries(
    summaries: Seq<SummaryRow>,
    rows: Seq<StoredSummary>,
    items: Seq<StoredAttention>,
) -> bool {
    &&& summaries.len() == rows.len()
    &&& forall|i: int|
        0 <= i < rows.len() ==> is_summary(
            #[trigger] summaries[i],
            rows[i],
            items_for(rows, items, i),
        )
}

/// The summaries in the order they were read, each with the attention items of
/// its student in theirs.
pub fn summaries(rows: Vec<StoredSummary>, items: Vec<StoredAttention>) -> (summaries: Vec<
    SummaryRow,
>)
    ensures
        are_summaries(summaries@, rows@, items@),
{
    broadcast use vstd::std_specs::hash::group_hash_axioms;

    let ghost all = rows@;
    let ghost pairs = by_student(items@);
    let ghost given = items@;
    let mut attention = by_key(keyed(items));
    let mut rest = oldest_first(rows);
    let mut summaries: Vec<SummaryRow> = Vec::new();
    while rest.len() > 0
        invariant
            pairs == by_student(given),
            rest@.len() + summaries@.len() == all.len(),
            forall|i: int| 0 <= i < rest@.len() ==> #[trigger] rest@[i] == all[all.len() - 1 - i],
            forall|i: int|
                0 <= i < summaries@.len() ==> is_summary(
                    #[trigger] summaries@[i],
                    all[i],
                    items_for(all, given, i),
                ),
            forall|key: u128| #[trigger]
                attention@.contains_key(key) ==> attention@[key]@ == crate::grouping::group(
                    pairs,
                    key,
                ),
            forall|key: u128| #[trigger]
                attention@.contains_key(key) <==> crate::grouping::group(pairs, key).len() > 0
                    && forall|i: int|
                    0 <= i < summaries@.len() ==> (#[trigger] all[i]).student.0 != key,
        decreases rest.len(),
    {
        broadcast use vstd::std_specs::hash::group_hash_axioms;

        let ghost before = rest@;
        let ghost n = summaries@.len() as int;
        let ghost earlier = attention@;
        if let Some(row) = rest.pop() {
            assert(before[before.len() - 1] == all[n]);
            let key: u128 = row.student.0;
            let taken = match attention.remove(&key) {
                Some(taken) => taken,
                None => Vec::new(),
            };
            assert(taken@ =~= items_for(all, given, n)) by {
                assert(is_first(all, n) <==> forall|i: int|
                    0 <= i < n ==> (#[trigger] all[i]).student.0 != key) by {
                    if forall|i: int| 0 <= i < n ==> (#[trigger] all[i]).student.0 != key {
                        assert forall|i: int| 0 <= i < n implies (#[trigger] all[i]).student
                            != all[n].student by {
                            assert(all[i].student.0 != key);
                        }
                    } else {
                        let i = choose|i: int|
                            0 <= i < n && (#[trigger] all[i]).student.0 == key;
                        assert(all[i].student == all[n].student);
                    }
                }
                assert(earlier.contains_key(key) <==> crate::grouping::group(pairs, key).len() > 0
                    && forall|i: int| 0 <= i < n ==> (#[trigger] all[i]).student.0 != key);
            }
            summaries.push(
                SummaryRow {
                    student: hyphenated(row.student),
                    marks: row.marks,
                    attendance: row.attendance,
                    submission: row.submission,
                    study: row.study,
                    confidence: row.confidence,
                    computed_at: row.computed_at,
                    retain_until: row.retain_until,
                    attention: wire_items(taken),
                },
            );
            assert forall|other: u128| #[trigger] attention@.contains_key(other) <==>
                crate::grouping::group(pairs, other).len() > 0 && forall|i: int|
                0 <= i < n + 1 ==> (#[trigger] all[i]).student.0 != other by {
                assert(earlier.contains_key(other) <==> crate::grouping::group(pairs, other).len()
                    > 0 && forall|i: int| 0 <= i < n ==> (#[trigger] all[i]).student.0 != other);
                if other == key {
                    assert(all[n].student.0 == other);
                }
            }
        }
    }
    summaries
}

/// A stored card.
#[derive(Debug)]
pub struct StoredRecommendation {
    pub audience: Uuid,
    pub product: String,
    pub rule_id: String,
    pub rule_version: i64,
    pub scope: Option<String>,
    pub about: Option<Uuid>,
    pub audience_role: String,
    pub course: Option<Uuid>,
    pub evidence: serde_json::Value,
    pub confidence: String,
    pub created_at: i64,
    pub expires_at: i64,
    pub retain_until: i64,
}

pub const ALL_RECOMMENDATIONS: &'static str =
    "SELECT audience, product, rule_id, rule_version, scope, about, audience_role, course, \
     evidence, confidence, created_at, expires_at, retain_until FROM zeka_recommendation ORDER \
     BY audience, created_at, rule_id";

/// The read of every card, whatever its audience; [`recommendation_row`] gives
/// each back.
pub fn all_recommendations() -> (statement: Statement)
    ensures
        statement@ == crate::page::sends(ALL_RECOMMENDATIONS, Seq::empty()),
{
    Statement::new(ALL_RECOMMENDATIONS, Vec::new())
}

/// Whether a card is a stored one: its limitation stands in its evidence, so
/// the field beside it is empty.
pub open spec fn is_card(card: RecommendationRow, stored: StoredRecommendation) -> bool {
    &&& card.audience@ == crate::key::hyphenated_text(stored.audience.0)
    &&& card.product == stored.product
    &&& card.rule_id == stored.rule_id
    &&& card.rule_version == stored.rule_version
    &&& card.scope == stored.scope
    &&& crate::page::opt_string_view(card.about) == opt_key_text(stored.about)
    &&& card.audience_role == stored.audience_role
    &&& crate::page::opt_string_view(card.course) == opt_key_text(stored.course)
    &&& card.evidence == stored.evidence
    &&& card.limitation is None
    &&& card.confidence == stored.confidence
    &&& card.computed_at == stored.created_at
    &&& card.expires_at == stored.expires_at
    &&& card.retain_until == stored.retain_until
}

/// A stored card as it is carried.
pub fn recommendation_row(stored: StoredRecommendation) -> (card: RecommendationRow)
    ensures
        is_card(card, stored),
{
    RecommendationRow {
        audience: hyphenated(stored.audience),
        product: stored.product,
        rule_id: stored.rule_id,
        rule_version: stored.rule_version,
        scope: stored.scope,
        about: spell_opt(stored.about),
        audience_role: stored.audience_role,
        course: spell_opt(stored.course),
        evidence: stored.evidence,
        limitation: None,
        confidence: stored.confidence,
        computed_at: stored.created_at,
        expires_at: stored.expires_at,
        retain_until: stored.retain_until,
    }
}

/// A stored profile.
#[derive(Debug)]
pub struct StoredProfile {
    pub student: Uuid,
    pub dimension: String,
    pub label: String,
    pub n_answers: i64,
    pub n_correct: i64,
    pub accuracy: Bits,
    pub overall_n_answers: i64,
    pub overall_accuracy: Bits,
    pub contrast: Bits,
    pub confidence: String,
    pub computed_at: i64,
    pub retain_until: i64,
}

pub const ALL_PROFILES: &'static str =
    "SELECT student, dimension, label, n_answers, n_correct, accuracy, overall_n_answers, \
     overall_accuracy, contrast, confidence, computed_at, retain_until FROM \
     zeka_student_segment_profile ORDER BY student, dimension, label";

/// The read of every profile, in student order; [`profile_row`] gives each
/// back.
pub fn all_profiles() -> (statement: Statement)
    ensures
        statement@ == crate::page::sends(ALL_PROFILES, Seq::empty()),
{
    Statement::new(ALL_PROFILES, Vec::new())
}

/// Whether a profile is a stored one.
pub open spec fn is_profile(profile: ProfileRow, stored: StoredProfile) -> bool {
    &&& profile.student@ == crate::key::hyphenated_text(stored.student.0)
    &&& profile.dimension == stored.dimension
    &&& profile.label == stored.label
    &&& profile.n_answers == stored.n_answers
    &&& profile.n_correct == stored.n_correct
    &&& profile.accuracy == stored.accuracy
    &&& profile.overall_n_answers == stored.overall_n_answers
    &&& profile.overall_accuracy == stored.overall_accuracy
    &&& profile.contrast == stored.contrast
    &&& profile.confidence == stored.confidence
    &&& profile.computed_at == stored.computed_at
    &&& profile.retain_until == stored.retain_until
}

/// A stored profile as it is carried.
pub fn profile_row(stored: StoredProfile) -> (profile: ProfileRow)
    ensures
        is_profile(profile, stored),
{
    ProfileRow {
        student: hyphenated(stored.student),
        dimension: stored.dimension,
        label: stored.label,
        n_answers: stored.n_answers,
        n_correct: stored.n_correct,
        accuracy: stored.accuracy,
        overall_n_answers: stored.overall_n_answers,
        overall_accuracy: stored.overall_accuracy,
        contrast: stored.contrast,
        confidence: stored.confidence,
        computed_at: stored.computed_at,
        retain_until: stored.retain_until,
    }
}

/// How many runs a report carries: the named day and recent context.
pub const REPORT_RUNS: i64 = 5;

/// A stored run.
#[derive(Debug)]
pub struct StoredRun {
    pub run_day: String,
    pub started_at: i64,
    pub finished_at: Option<i64>,
    pub status: String,
    pub duration_ms: Option<i64>,
    pub students_total: i64,
    pub students_ok: i64,
    pub students_failed: i64,
    pub students_skipped: i64,
    pub rows_written: i64,
    pub budget_exceeded: bool,
    pub budget_ms: i64,
    pub retain_until: i64,
}

/// A student a run left pending.
#[derive(Debug)]
pub struct RunPending {
    pub run: String,
    pub student: Uuid,
}

/// A module that failed in a run.
#[derive(Debug)]
pub struct RunFailed {
    pub run: String,
    pub module: String,
}

pub const RUNS_FOR_REPORT: &'static str =
    "SELECT run_day, started_at, finished_at, status, duration_ms, students_total, students_ok, \
     students_failed, students_skipped, rows_written, budget_exceeded, budget_ms, retain_until \
     FROM zeka_run ORDER BY (run_day = $1) DESC, started_at DESC, run_day DESC LIMIT $2";

/// The read of the runs a report carries: the named day first where it is
/// there, then the newest.
pub fn runs_for_report(run_day: &str) -> (statement: Statement)
    ensures
        statement@ == crate::page::sends(
            RUNS_FOR_REPORT,
            seq![ParamView::Text(run_day@), ParamView::I64(REPORT_RUNS)],
        ),
{
    Statement::new(RUNS_FOR_REPORT, vec![Param::Text(run_day.to_owned()), Param::I64(REPORT_RUNS)])
}

pub const PENDING_OF_RUNS: &'static str =
    "SELECT run, student FROM zeka_run_pending WHERE run = ANY($1) ORDER BY run, ord";

pub const FAILED_OF_RUNS: &'static str =
    "SELECT run, module FROM zeka_run_failed_module WHERE run = ANY($1) ORDER BY run, ord";

/// The reads of the children of some runs; [`runs`] puts them together.
pub fn children_of_runs(days: &Vec<String>) -> (both: (Statement, Statement))
    ensures
        both.0@ == crate::page::sends(
            PENDING_OF_RUNS,
            seq![ParamView::Texts(crate::text::views(days@))],
        ),
        both.1@ == crate::page::sends(
            FAILED_OF_RUNS,
            seq![ParamView::Texts(crate::text::views(days@))],
        ),
{
    (
        Statement::new(PENDING_OF_RUNS, vec![Param::Texts(texts(days))]),
        Statement::new(FAILED_OF_RUNS, vec![Param::Texts(texts(days))]),
    )
}

/// The days of some runs.
pub open spec fn day_texts(rows: Seq<StoredRun>) -> Seq<Seq<char>> {
    Seq::new(rows.len(), |i: int| rows[i].run_day@)
}

/// The days of some runs, in order.
pub fn run_days(rows: &Vec<StoredRun>) -> (days: Vec<String>)
    ensures
        crate::text::views(days@) == day_texts(rows@),
{
    let mut days: Vec<String> = Vec::new();
    let mut i: usize = 0;
    while i < rows.len()
        invariant
            0 <= i <= rows.len(),
            days@.len() == i,
            forall|k: int| 0 <= k < i ==> (#[trigger] days@[k])@ == rows@[k].run_day@,
        decreases rows.len() - i,
    {
        days.push(rows[i].run_day.clone());
        i += 1;
    }
    assert(crate::text::views(days@) =~= day_texts(rows@));
    days
}

/// The students that the run of `day` left pending, spelled out, in order.
pub open spec fn pending_texts(items: Seq<RunPending>, day: Seq<char>) -> Seq<Seq<char>>
    decreases items.len(),
{
    if items.len() == 0 {
        Seq::empty()
    } else {
        let before = pending_texts(items.drop_last(), day);
        if items.last().run@ == day {
            before.push(crate::key::hyphenated_text(items.last().student.0))
        } else {
            before
        }
    }
}

fn pending_of(items: &Vec<RunPending>, day: &str) -> (pending: Vec<String>)
    ensures
        crate::text::views(pending@) == pending_texts(items@, day@),
{
    let mut pending: Vec<String> = Vec::new();
    let mut i: usize = 0;
    assert(items@.take(0) =~= Seq::empty());
    assert(crate::text::views(pending@) =~= Seq::empty());
    while i < items.len()
        invariant
            0 <= i <= items.len(),
            crate::text::views(pending@) == pending_texts(items@.take(i as int), day@),
        decreases items.len() - i,
    {
        let item = &items[i];
        let ghost seen = items@.take(i + 1);
        let ghost before = pending@;
        assert(seen.drop_last() =~= items@.take(i as int));
        assert(seen.last() == *item);
        if crate::error::same_text(item.run.as_str(), day) {
            pending.push(hyphenated(item.student));
            assert(crate::text::views(pending@) =~= crate::text::views(before).push(
                crate::key::hyphenated_text(item.student.0),
            ));
        }
        i += 1;
    }
    assert(items@.take(items.len() as int) =~= items@);
    pending
}

/// The modules that failed in the run of `day`, in order.
pub open spec fn failed_texts(items: Seq<RunFailed>, day: Seq<char>) -> Seq<Seq<char>>
    decreases items.len(),
{
    if items.len() == 0 {
        Seq::empty()
    } else {
        let before = failed_texts(items.drop_last(), day);
        if items.last().run@ == day {
            before.push(items.last().module@)
        } else {
            before
        }
    }
}

fn failed_of(items: &Vec<RunFailed>, day: &str) -> (failed: Vec<String>)
    ensures
        crate::text::views(failed@) == failed_texts(items@, day@),
{
    let mut failed: Vec<String> = Vec::new();
    let mut i: usize = 0;
    assert(items@.take(0) =~= Seq::empty());
    assert(crate::text::views(failed@) =~= Seq::empty());
    while i < items.len()
        invariant
            0 <= i <= items.len(),
            crate::text::views(failed@) == failed_texts(items@.take(i as int), day@),
        decreases items.len() - i,
    {
        let item = &items[i];
        let ghost seen = items@.take(i + 1);
        let ghost before = failed@;
        assert(seen.drop_last() =~= items@.take(i as int));
        assert(seen.last() == *item);
        if crate::error::same_text(item.run.as_str(), day) {
            failed.push(item.module.clone());
            assert(crate::text::views(failed@) =~= crate::text::views(before).push(item.module@));
        }
        i += 1;
    }
    assert(items@.take(items.len() as int) =~= items@);
    failed
}

/// Whether the day at `n` is not among those before it: the children of a day
/// go to its first run.
pub open spec fn first_of_day(days: Seq<Seq<char>>, n: int) -> bool {
    forall|i: int| 0 <= i < n ==> #[trigger] days[i] != days[n]
}

fn is_new_day(days: &Vec<String>, n: usize) -> (new: bool)
    requires
        n < days@.len(),
    ensures
        new == first_of_day(crate::text::views(days@), n as int),
{
    let ghost views = crate::text::views(days@);
    let mut i: usize = 0;
    while i < n
        invariant
            0 <= i <= n < days@.len(),
            views == crate::text::views(days@),
            forall|k: int| 0 <= k < i ==> #[trigger] views[k] != views[n as int],
        decreases n - i,
    {
        if crate::error::same_text(days[i].as_str(), days[n].as_str()) {
            assert(views[i as int] == views[n as int]);
            return false;
        }
        i += 1;
    }
    true
}

/// Whether a run is a stored one with its children.
pub open spec fn is_run(
    run: RunRow,
    stored: StoredRun,
    pending: Seq<Seq<char>>,
    failed: Seq<Seq<char>>,
) -> bool {
    &&& run.run_day == stored.run_day
    &&& run.started_at == stored.started_at
    &&& run.finished_at == stored.finished_at
    &&& run.status == stored.status
    &&& run.duration_ms == stored.duration_ms
    &&& run.students_total == stored.students_total
    &&& run.students_ok == stored.students_ok
    &&& run.students_failed == stored.students_failed
    &&& run.students_skipped == stored.students_skipped
    &&& run.rows_written == stored.rows_written
    &&& run.budget_exceeded == stored.budget_exceeded
    &&& run.budget_ms == stored.budget_ms
    &&& run.retain_until == stored.retain_until
    &&& crate::text::views(run.pending_students@) == pending
    &&& crate::text::views(run.failed_modules@) == failed
}

/// Whether runs are the stored ones, in order, each with its children.
pub open spec fn are_runs(
    runs: Seq<RunRow>,
    rows: Seq<StoredRun>,
    pending: Seq<RunPending>,
    failed: Seq<RunFailed>,
) -> bool {
    &&& runs.len() == rows.len()
    &&& forall|i: int|
        0 <= i < rows.len() ==> is_run(
            #[trigger] runs[i],
            rows[i],
            if first_of_day(day_texts(rows), i) {
                pending_texts(pending, rows[i].run_day@)
            } else {
                Seq::empty()
            },
            if first_of_day(day_texts(rows), i) {
                failed_texts(failed, rows[i].run_day@)
            } else {
                Seq::empty()
            },
        )
}

/// The runs in the order they were read, each with its children in theirs.
pub fn runs(rows: Vec<StoredRun>, pending: &Vec<RunPending>, failed: &Vec<RunFailed>) -> (runs: Vec<
    RunRow,
>)
    ensures
        are_runs(runs@, rows@, pending@, failed@),
{
    let ghost all = rows@;
    let days = run_days(&rows);
    let mut rest = oldest_first(rows);
    let mut runs: Vec<RunRow> = Vec::new();
    while rest.len() > 0
        invariant
            crate::text::views(days@) == day_texts(all),
            rest@.len() + runs@.len() == all.len(),
            forall|i: int| 0 <= i < rest@.len() ==> #[trigger] rest@[i] == all[all.len() - 1 - i],
            forall|i: int|
                0 <= i < runs@.len() ==> is_run(
                    #[trigger] runs@[i],
                    all[i],
                    if first_of_day(day_texts(all), i) {
                        pending_texts(pending@, all[i].run_day@)
                    } else {
                        Seq::empty()
                    },
                    if first_of_day(day_texts(all), i) {
                        failed_texts(failed@, all[i].run_day@)
                    } else {
                        Seq::empty()
                    },
                ),
        decreases rest.len(),
    {
        let ghost before = rest@;
        let n: usize = runs.len();
        assert(days@.len() == all.len()) by {
            assert(crate::text::views(days@).len() == day_texts(all).len());
        }
        if let Some(row) = rest.pop() {
            assert(before[before.len() - 1] == all[n as int]);
            let new = is_new_day(&days, n);
            let pending_students = if new {
                pending_of(pending, row.run_day.as_str())
            } else {
                Vec::new()
            };
            let failed_modules = if new {
                failed_of(failed, row.run_day.as_str())
            } else {
                Vec::new()
            };
            assert(!new ==> crate::text::views(pending_students@) =~= Seq::empty());
            assert(!new ==> crate::text::views(failed_modules@) =~= Seq::empty());
            runs.push(
                RunRow {
                    run_day: row.run_day,
                    started_at: row.started_at,
                    finished_at: row.finished_at,
                    status: row.status,
                    duration_ms: row.duration_ms,
                    students_total: row.students_total,
                    students_ok: row.students_ok,
                    students_failed: row.students_failed,
                    students_skipped: row.students_skipped,
                    rows_written: row.rows_written,
                    budget_exceeded: row.budget_exceeded,
                    budget_ms: row.budget_ms,
                    retain_until: row.retain_until,
                    pending_students,
                    failed_modules,
                },
            );
        }
    }
    runs
}

/// Whether a stored card is what writing `card` stores.
pub open spec fn stores_card(card: RecommendationRow, stored: StoredRecommendation) -> bool {
    &&& crate::key::spelled(card.audience@) == Some(stored.audience)
    &&& stored.product@ == card.product@
    &&& stored.rule_id@ == card.rule_id@
    &&& stored.rule_version == card.rule_version
    &&& crate::page::opt_string_view(stored.scope) == crate::page::opt_string_view(card.scope)
    &&& crate::insight::opt_spelled(card.about) == Some(stored.about)
    &&& stored.audience_role@ == card.audience_role@
    &&& crate::insight::opt_spelled(card.course) == Some(stored.course)
    &&& stored.evidence == crate::insight::merged(
        card.evidence,
        crate::page::opt_string_view(card.limitation),
    )
    &&& stored.confidence@ == card.confidence@
    &&& stored.created_at == card.computed_at
    &&& stored.expires_at == card.expires_at
    &&& stored.retain_until == card.retain_until
}

/// Whether a card that is read back is the one that was written: each field of
/// it, its keys in the hyphenated form, and its limitation inside its evidence
/// and not beside it.
pub open spec fn gives_card_back(read: RecommendationRow, written: RecommendationRow) -> bool {
    &&& crate::key::spelled(written.audience@) is Some
    &&& read.audience@ == crate::key::hyphenated_text(
        (crate::key::spelled(written.audience@)->0).0,
    )
    &&& crate::insight::opt_spelled(written.about) is Some
    &&& crate::page::opt_string_view(read.about) == opt_key_text(
        crate::insight::opt_spelled(written.about)->0,
    )
    &&& crate::insight::opt_spelled(written.course) is Some
    &&& crate::page::opt_string_view(read.course) == opt_key_text(
        crate::insight::opt_spelled(written.course)->0,
    )
    &&& read.product@ == written.product@
    &&& read.rule_id@ == written.rule_id@
    &&& read.rule_version == written.rule_version
    &&& crate::page::opt_string_view(read.scope) == crate::page::opt_string_view(written.scope)
    &&& read.audience_role@ == written.audience_role@
    &&& read.confidence@ == written.confidence@
    &&& read.computed_at == written.computed_at
    &&& read.expires_at == written.expires_at
    &&& read.retain_until == written.retain_until
    &&& read.limitation is None
    &&& read.evidence == crate::insight::merged(
        written.evidence,
        crate::page::opt_string_view(written.limitation),
    )
}

/// A card reads back as it was written: the same fields, and keys that spell
/// the same, with its limitation inside its evidence.
pub proof fn law_card_reads_back(
    card: RecommendationRow,
    stored: StoredRecommendation,
    back: RecommendationRow,
)
    requires
        stores_card(card, stored),
        is_card(back, stored),
    ensures
        gives_card_back(back, card),
        crate::key::spelled(back.audience@) == crate::key::spelled(card.audience@),
        crate::insight::opt_spelled(back.about) == crate::insight::opt_spelled(card.about),
        crate::insight::opt_spelled(back.course) == crate::insight::opt_spelled(card.course),
{
    crate::key::law_key_reads_back(stored.audience.0, stored.audience.0);
    if stored.about is Some {
        crate::key::law_key_reads_back((stored.about->0).0, (stored.about->0).0);
    }
    if stored.course is Some {
        crate::key::law_key_reads_back((stored.course->0).0, (stored.course->0).0);
    }
}

/// What [`SCHOOL_IDENTITY`] says.
pub open spec fn school_identity_reading() -> Picking {
    Picking {
        skip: 0,
        head: "SELECT "@,
        columns: seq!["id"@, "name"@],
        table: "school"@,
        conditions: seq![crate::sql::is_bound("slug"@, 1)],
        rest: Text::End,
    }
}

proof fn lemma_school_identity_reads()
    ensures
        crate::sql::spells(SCHOOL_IDENTITY@, 0, school_identity_reading().text()),
{
    reveal_strlit("SELECT id, name FROM school WHERE slug = $1");
    reveal_strlit("SELECT ");
    reveal_strlit("id");
    reveal_strlit(", ");
    reveal_strlit("name");
    reveal_strlit(" FROM ");
    reveal_strlit("school");
    reveal_strlit(" WHERE ");
    reveal_strlit("slug");
    reveal_strlit(" = ");
    reveal_strlit("$");
    reveal(crate::sql::Picking::text);
    reveal_with_fuel(crate::sql::where_text, 2);
    reveal_with_fuel(crate::sql::names_text, 3);
    reveal_with_fuel(crate::sql::stands, 8);
    reveal_with_fuel(crate::sql::spells_by, 11);
    crate::sql::lemma_spells_by(SCHOOL_IDENTITY@, 0, school_identity_reading().text(), crate::sql::cut(7, crate::sql::cut(9, crate::sql::cut(11, crate::sql::cut(15, crate::sql::cut(21, crate::sql::cut(27, crate::sql::cut(34, crate::sql::cut(38, crate::sql::cut(41, crate::sql::cut(43, Cuts::Last)))))))))));
}

/// [`school_identity`] reads the rows it names and no other.
pub proof fn law_school_identity_reads_its_rows(
    slug: &str,
    sent: Statement,
    row: Row,
)
    requires
        call_ensures(school_identity, (slug,), sent),
    ensures
        school_identity_reading().is_read(sent@),
        school_identity_reading().picks(sent@.binds, row) == (row["slug"@] == Cell::Text(slug@)),
{
    lemma_school_identity_reads();
    reveal_with_fuel(crate::sql::all_hold, 2);
}

/// What [`RUNS_FOR_REPORT`] says.
pub open spec fn runs_for_report_reading() -> Picking {
    Picking {
        skip: 180,
        head: " FROM "@,
        columns: Seq::empty(),
        table: "zeka_run"@,
        conditions: seq![],
        rest: crate::sql::before(" ORDER BY (run_day = "@, crate::sql::before(crate::text::placeholder(1), crate::sql::before(") DESC, started_at DESC, run_day DESC LIMIT "@, crate::sql::before(crate::text::placeholder(2), Text::End)))),
    }
}

proof fn lemma_runs_for_report_reads()
    ensures
        crate::sql::spells(RUNS_FOR_REPORT@, 180, runs_for_report_reading().text()),
{
    reveal_strlit("SELECT run_day, started_at, finished_at, status, duration_ms, students_total, students_ok, students_failed, students_skipped, rows_written, budget_exceeded, budget_ms, retain_until FROM zeka_run ORDER BY (run_day = $1) DESC, started_at DESC, run_day DESC LIMIT $2");
    reveal_strlit(" FROM ");
    reveal_strlit("zeka_run");
    reveal_strlit(" ORDER BY (run_day = ");
    reveal_strlit("$");
    reveal_strlit(") DESC, started_at DESC, run_day DESC LIMIT ");
    reveal(crate::sql::Picking::text);
    reveal_with_fuel(crate::sql::where_text, 1);
    reveal_with_fuel(crate::sql::stands, 45);
    reveal_with_fuel(crate::sql::spells_by, 7);
    crate::sql::lemma_spells_by(RUNS_FOR_REPORT@, 180, runs_for_report_reading().text(), crate::sql::cut(186, crate::sql::cut(194, crate::sql::cut(215, crate::sql::cut(217, crate::sql::cut(261, crate::sql::cut(263, Cuts::Last)))))));
}

/// [`runs_for_report`] reads the rows it names and no other.
pub proof fn law_runs_for_report_reads_its_rows(
    run_day: &str,
    sent: Statement,
    row: Row,
)
    requires
        call_ensures(runs_for_report, (run_day,), sent),
    ensures
        runs_for_report_reading().is_read(sent@),
        runs_for_report_reading().picks(sent@.binds, row) == (true),
{
    lemma_runs_for_report_reads();
    reveal_with_fuel(crate::sql::all_hold, 1);
}

/// What [`PENDING_OF_RUNS`] says.
pub open spec fn pending_of_runs_reading() -> Picking {
    Picking {
        skip: 0,
        head: "SELECT "@,
        columns: seq!["run"@, "student"@],
        table: "zeka_run_pending"@,
        conditions: seq![Cond::Among(Term::Column("run"@), Term::Bind(1))],
        rest: crate::sql::before(" ORDER BY run, ord"@, Text::End),
    }
}

proof fn lemma_pending_of_runs_reads()
    ensures
        crate::sql::spells(PENDING_OF_RUNS@, 0, pending_of_runs_reading().text()),
{
    reveal_strlit("SELECT run, student FROM zeka_run_pending WHERE run = ANY($1) ORDER BY run, ord");
    reveal_strlit("SELECT ");
    reveal_strlit("run");
    reveal_strlit(", ");
    reveal_strlit("student");
    reveal_strlit(" FROM ");
    reveal_strlit("zeka_run_pending");
    reveal_strlit(" WHERE ");
    reveal_strlit(" = ANY(");
    reveal_strlit("$");
    reveal_strlit(")");
    reveal_strlit(" ORDER BY run, ord");
    reveal(crate::sql::Picking::text);
    reveal_with_fuel(crate::sql::where_text, 2);
    reveal_with_fuel(crate::sql::names_text, 3);
    reveal_with_fuel(crate::sql::stands, 19);
    reveal_with_fuel(crate::sql::spells_by, 13);
    crate::sql::lemma_spells_by(PENDING_OF_RUNS@, 0, pending_of_runs_reading().text(), crate::sql::cut(7, crate::sql::cut(10, crate::sql::cut(12, crate::sql::cut(19, crate::sql::cut(25, crate::sql::cut(41, crate::sql::cut(48, crate::sql::cut(51, crate::sql::cut(58, crate::sql::cut(60, crate::sql::cut(61, crate::sql::cut(79, Cuts::Last)))))))))))));
}

/// What [`FAILED_OF_RUNS`] says.
pub open spec fn failed_of_runs_reading() -> Picking {
    Picking {
        skip: 0,
        head: "SELECT "@,
        columns: seq!["run"@, "module"@],
        table: "zeka_run_failed_module"@,
        conditions: seq![Cond::Among(Term::Column("run"@), Term::Bind(1))],
        rest: crate::sql::before(" ORDER BY run, ord"@, Text::End),
    }
}

proof fn lemma_failed_of_runs_reads()
    ensures
        crate::sql::spells(FAILED_OF_RUNS@, 0, failed_of_runs_reading().text()),
{
    reveal_strlit("SELECT run, module FROM zeka_run_failed_module WHERE run = ANY($1) ORDER BY run, ord");
    reveal_strlit("SELECT ");
    reveal_strlit("run");
    reveal_strlit(", ");
    reveal_strlit("module");
    reveal_strlit(" FROM ");
    reveal_strlit("zeka_run_failed_module");
    reveal_strlit(" WHERE ");
    reveal_strlit(" = ANY(");
    reveal_strlit("$");
    reveal_strlit(")");
    reveal_strlit(" ORDER BY run, ord");
    reveal(crate::sql::Picking::text);
    reveal_with_fuel(crate::sql::where_text, 2);
    reveal_with_fuel(crate::sql::names_text, 3);
    reveal_with_fuel(crate::sql::stands, 23);
    reveal_with_fuel(crate::sql::spells_by, 13);
    crate::sql::lemma_spells_by(FAILED_OF_RUNS@, 0, failed_of_runs_reading().text(), crate::sql::cut(7, crate::sql::cut(10, crate::sql::cut(12, crate::sql::cut(18, crate::sql::cut(24, crate::sql::cut(46, crate::sql::cut(53, crate::sql::cut(56, crate::sql::cut(63, crate::sql::cut(65, crate::sql::cut(66, crate::sql::cut(84, Cuts::Last)))))))))))));
}

/// [`children_of_runs`] reads the children of the runs it names and no other.
pub proof fn law_children_of_runs_reads_its_rows(
    days: &Vec<String>,
    both: (Statement, Statement),
    row: Row,
)
    requires
        call_ensures(children_of_runs, (days,), both),
    ensures
        pending_of_runs_reading().is_read(both.0@),
        pending_of_runs_reading().picks(both.0@.binds, row) == ((row["run"@] is Text && crate::text::views(days@).contains(row["run"@]->Text_0))),
        failed_of_runs_reading().is_read(both.1@),
        failed_of_runs_reading().picks(both.1@.binds, row) == ((row["run"@] is Text && crate::text::views(days@).contains(row["run"@]->Text_0))),
{
    lemma_pending_of_runs_reads();
    lemma_failed_of_runs_reads();
    reveal_with_fuel(crate::sql::all_hold, 2);
}

/// The text of [`LAST_PENDING`], taken apart at its placeholders.
pub open spec fn last_pending_text() -> Text {
    crate::sql::before("SELECT p.student FROM zeka_run_pending p JOIN"@, crate::sql::before(" zeka_run r ON r.run_day = p.run WHERE"@, crate::sql::before(" r.run_day = (SELECT run_day FROM zeka_run"@, crate::sql::before(" ORDER BY started_at DESC, run_day DESC LIMIT"@, crate::sql::before(" 1) ORDER BY p.ord LIMIT "@, crate::sql::before(crate::text::placeholder(1), Text::End))))))
}

proof fn lemma_last_pending_reads()
    ensures
        crate::sql::spells(LAST_PENDING@, 0, last_pending_text()),
{
    reveal_strlit("SELECT p.student FROM zeka_run_pending p JOIN zeka_run r ON r.run_day = p.run WHERE r.run_day = (SELECT run_day FROM zeka_run ORDER BY started_at DESC, run_day DESC LIMIT 1) ORDER BY p.ord LIMIT $1");
    reveal_strlit("SELECT p.student FROM zeka_run_pending p JOIN");
    reveal_strlit(" zeka_run r ON r.run_day = p.run WHERE");
    reveal_strlit(" r.run_day = (SELECT run_day FROM zeka_run");
    reveal_strlit(" ORDER BY started_at DESC, run_day DESC LIMIT");
    reveal_strlit(" 1) ORDER BY p.ord LIMIT ");
    reveal_strlit("$");
    reveal_with_fuel(crate::sql::stands, 46);
    reveal_with_fuel(crate::sql::spells_by, 7);
    crate::sql::lemma_spells_by(LAST_PENDING@, 0, last_pending_text(), crate::sql::cut(45, crate::sql::cut(83, crate::sql::cut(125, crate::sql::cut(170, crate::sql::cut(195, crate::sql::cut(197, Cuts::Last)))))));
}

/// [`last_pending`] reads one row more than are taken.
pub proof fn law_last_pending_binds_its_values(
    most: usize,
    sent: Statement,
)
    requires
        call_ensures(last_pending, (most,), sent),
        most < i64::MAX,
    ensures
        crate::sql::spells(sent@.sql, 0, last_pending_text()),
        sent@.binds.len() == 1,
        crate::sql::cell(sent@.binds[0]) == Cell::Int(most + 1),
{
    lemma_last_pending_reads();
}

} // verus!
