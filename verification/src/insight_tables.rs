//! The derived insight tables as the batches leave them, and what a read gives
//! back of a write.

use vstd::prelude::*;

use crate::error::AppError;
use crate::insight::{
    AttentionRow, BatchView, ProfileRow, RecommendationRow, RunRow, SegmentRow, SummaryRow,
    CLEAR_ATTENTION, CLEAR_DIMENSIONS, CLEAR_FAILED, CLEAR_PENDING, INSERT_ATTENTION,
    INSERT_DIMENSION, INSERT_FAILED, INSERT_PENDING, UPSERT_PROFILE, UPSERT_RECOMMENDATION,
    UPSERT_RUN, UPSERT_SEGMENT, UPSERT_SUMMARY,
};
use crate::insight_report::{
    PendingList, RunFailed, RunPending, StoredAttention, StoredProfile, StoredRecommendation,
    StoredRun, StoredSummary,
};
use crate::page::{Bits, ParamView, StatementView, Uuid};

verus! {

/// The columns of a summary beside its student.
pub struct SummaryCells {
    pub marks: Option<serde_json::Value>,
    pub attendance: Option<serde_json::Value>,
    pub submission: Option<serde_json::Value>,
    pub study: Option<serde_json::Value>,
    pub confidence: Seq<char>,
    pub computed_at: i64,
    pub retain_until: i64,
}

/// The columns of an attention item beside its student and its place.
pub struct ItemCells {
    pub trigger: Seq<char>,
    pub course: Option<Uuid>,
    pub fact: Seq<char>,
    pub window_from: i64,
    pub window_to: i64,
    pub evidence: serde_json::Value,
}

/// The summary of each student, and each student's attention items by their
/// place.
#[verifier::ext_equal]
pub struct Summaries {
    pub summaries: Map<Uuid, SummaryCells>,
    pub attention: Map<Uuid, Map<int, ItemCells>>,
}

impl Summaries {
    /// The attention items of a student by their place.
    pub open spec fn items(self, student: Uuid) -> Map<int, ItemCells> {
        if self.attention.contains_key(student) {
            self.attention[student]
        } else {
            Map::empty()
        }
    }
}

/// What one statement of a batch of summaries does to the tables.
pub open spec fn summary_effect(db: Summaries, statement: StatementView) -> Summaries {
    let binds = statement.binds;
    let student = binds[0]->Uuid_0;
    if statement.sql == UPSERT_SUMMARY@ && binds.len() == 8 && binds[7] is I64 {
        Summaries {
            summaries: db.summaries.insert(
                student,
                SummaryCells {
                    marks: binds[1]->OptJson_0,
                    attendance: binds[2]->OptJson_0,
                    submission: binds[3]->OptJson_0,
                    study: binds[4]->OptJson_0,
                    confidence: binds[5]->Text_0,
                    computed_at: binds[6]->I64_0,
                    retain_until: binds[7]->I64_0,
                },
            ),
            ..db
        }
    } else if statement.sql == CLEAR_ATTENTION@ && binds.len() == 1 {
        Summaries { attention: db.attention.insert(student, Map::empty()), ..db }
    } else if statement.sql == INSERT_ATTENTION@ && binds.len() == 8 && binds[7] is I16 {
        Summaries {
            attention: db.attention.insert(
                student,
                db.items(student).insert(
                    binds[7]->I16_0 as int,
                    ItemCells {
                        trigger: binds[1]->Text_0,
                        course: binds[2]->OptUuid_0,
                        fact: binds[3]->Text_0,
                        window_from: binds[4]->I64_0,
                        window_to: binds[5]->I64_0,
                        evidence: binds[6]->Json_0,
                    },
                ),
            ),
            ..db
        }
    } else {
        db
    }
}

/// What some statements, one after the other, do to the tables.
pub open spec fn summaries_stored(db: Summaries, sent: Seq<StatementView>) -> Summaries
    decreases sent.len(),
{
    if sent.len() == 0 {
        db
    } else {
        summary_effect(summaries_stored(db, sent.drop_last()), sent.last())
    }
}

/// What the tables hold after a batch of summaries: all of it, or nothing of a
/// batch that is refused.
pub open spec fn summaries_landed(db: Summaries, batch: BatchView) -> Summaries {
    if batch.refusal is Some {
        db
    } else {
        summaries_stored(db, batch.sent)
    }
}

/// The columns a summary is stored with.
pub open spec fn summary_cells(row: SummaryRow) -> SummaryCells {
    SummaryCells {
        marks: row.marks,
        attendance: row.attendance,
        submission: row.submission,
        study: row.study,
        confidence: row.confidence@,
        computed_at: row.computed_at,
        retain_until: row.retain_until,
    }
}

/// The columns an attention item is stored with.
pub open spec fn item_cells(item: AttentionRow) -> ItemCells {
    ItemCells {
        trigger: item.trigger@,
        course: crate::insight::opt_spelled(item.course)->0,
        fact: item.fact@,
        window_from: item.window_from,
        window_to: item.window_to,
        evidence: item.evidence,
    }
}

/// Attention items by their place in the list.
pub open spec fn placed(items: Seq<AttentionRow>) -> Map<int, ItemCells> {
    Map::new(|ord: int| 0 <= ord < items.len(), |ord: int| item_cells(items[ord]))
}

/// Whether every place of every list has a number of its own: the column holds
/// sixteen bits, and a longer list would wrap.
pub open spec fn places_hold(rows: Seq<SummaryRow>) -> bool {
    forall|i: int| 0 <= i < rows.len() ==> (#[trigger] rows[i]).attention@.len() <= 32768
}

/// Whether no row after the one at `i` is of the same student.
pub open spec fn is_last_of(rows: Seq<SummaryRow>, i: int) -> bool {
    forall|j: int|
        i < j < rows.len() ==> crate::key::spelled((#[trigger] rows[j]).student@)
            != crate::key::spelled(rows[i].student@)
}

proof fn lemma_stored_add(db: Summaries, first: Seq<StatementView>, second: Seq<StatementView>)
    ensures
        summaries_stored(db, first + second) == summaries_stored(
            summaries_stored(db, first),
            second,
        ),
    decreases second.len(),
{
    if second.len() == 0 {
        assert(first + second =~= first);
    } else {
        assert((first + second).drop_last() =~= first + second.drop_last());
        lemma_stored_add(db, first, second.drop_last());
    }
}

proof fn lemma_stored_one(db: Summaries, statement: StatementView)
    ensures
        summaries_stored(db, seq![statement]) == summary_effect(db, statement),
{
    assert(seq![statement].drop_last() =~= Seq::empty());
    assert(summaries_stored(db, seq![statement].drop_last()) == db);
}

/// The items of a student whose list is empty land in their places.
proof fn lemma_items_land(db: Summaries, student: Uuid, items: Seq<AttentionRow>)
    requires
        crate::insight::attention_batch(student, items).refusal is None,
        items.len() <= 32768,
        db.attention.contains_key(student),
        db.attention[student] == Map::<int, ItemCells>::empty(),
    ensures
        summaries_stored(db, crate::insight::attention_batch(student, items).sent) == (Summaries {
            attention: db.attention.insert(student, placed(items)),
            ..db
        }),
    decreases items.len(),
{
    if items.len() == 0 {
        assert(placed(items) =~= Map::empty());
        assert(db.attention.insert(student, placed(items)) =~= db.attention);
    } else {
        let earlier = items.drop_last();
        let item = items.last();
        let course = crate::insight::opt_spelled(item.course)->0;
        let ord = items.len() - 1;
        let statement = crate::insight::attention_sent(student, item, course, ord);
        let before = crate::insight::attention_batch(student, earlier).sent;
        assert(crate::insight::attention_batch(student, earlier).refusal is None);
        assert(crate::insight::attention_batch(student, items).sent =~= before + seq![statement]);
        lemma_items_land(db, student, earlier);
        lemma_stored_add(db, before, seq![statement]);
        let between = summaries_stored(db, before);
        lemma_stored_one(between, statement);
        assert(ord as i16 as int == ord);
        assert(placed(earlier).insert(ord, item_cells(item)) =~= placed(items)) by {
            assert forall|k: int| 0 <= k < earlier.len() implies #[trigger] earlier[k]
                == items[k] by {}
        }
        assert(between.items(student) == placed(earlier));
        assert(db.attention.insert(student, placed(earlier)).insert(student, placed(items))
            =~= db.attention.insert(student, placed(items)));
    }
}

/// A summary lands with its items, whatever its student had before.
proof fn lemma_summary_lands(db: Summaries, row: SummaryRow)
    requires
        crate::insight::summary_batch(row).refusal is None,
        row.attention@.len() <= 32768,
    ensures
        crate::key::spelled(row.student@) is Some,
        ({
            let student = crate::key::spelled(row.student@)->0;
            summaries_stored(db, crate::insight::summary_batch(row).sent) == (Summaries {
                summaries: db.summaries.insert(student, summary_cells(row)),
                attention: db.attention.insert(student, placed(row.attention@)),
            })
        }),
{
    let student = crate::key::spelled(row.student@)->0;
    let items = crate::insight::attention_batch(student, row.attention@);
    let sent = crate::insight::summary_batch(row).sent;
    let upsert = sent[0];
    let clear = sent[1];
    assert(sent =~= seq![upsert] + seq![clear] + items.sent);
    lemma_stored_one(db, upsert);
    let first = summary_effect(db, upsert);
    lemma_stored_add(db, seq![upsert], seq![clear]);
    lemma_stored_one(first, clear);
    let cleared = summary_effect(first, clear);
    lemma_stored_add(db, seq![upsert] + seq![clear], items.sent);
    assert(first.summaries == db.summaries.insert(student, summary_cells(row)));
    assert(cleared.attention == db.attention.insert(student, Map::empty()));
    lemma_items_land(cleared, student, row.attention@);
    assert(cleared.attention.insert(student, placed(row.attention@)) =~= db.attention.insert(
        student,
        placed(row.attention@),
    ));
}

proof fn lemma_batch_splits(rows: Seq<SummaryRow>)
    requires
        rows.len() > 0,
        crate::insight::summaries_batch(rows).refusal is None,
    ensures
        crate::insight::summaries_batch(rows.drop_last()).refusal is None,
        crate::insight::summary_batch(rows.last()).refusal is None,
        crate::insight::summaries_batch(rows).sent == crate::insight::summaries_batch(
            rows.drop_last(),
        ).sent + crate::insight::summary_batch(rows.last()).sent,
{
}

/// A row lands, unless a later one of the batch is of the same student.
proof fn lemma_row_lands(db: Summaries, rows: Seq<SummaryRow>, i: int)
    requires
        crate::insight::summaries_batch(rows).refusal is None,
        places_hold(rows),
        0 <= i < rows.len(),
        is_last_of(rows, i),
    ensures
        crate::key::spelled(rows[i].student@) is Some,
        ({
            let student = crate::key::spelled(rows[i].student@)->0;
            let after = summaries_stored(db, crate::insight::summaries_batch(rows).sent);
            &&& after.summaries.contains_key(student)
            &&& after.summaries[student] == summary_cells(rows[i])
            &&& after.items(student) == placed(rows[i].attention@)
        }),
    decreases rows.len(),
{
    let earlier = rows.drop_last();
    lemma_batch_splits(rows);
    lemma_stored_add(
        db,
        crate::insight::summaries_batch(earlier).sent,
        crate::insight::summary_batch(rows.last()).sent,
    );
    let between = summaries_stored(db, crate::insight::summaries_batch(earlier).sent);
    assert(rows[rows.len() - 1].attention@.len() <= 32768);
    lemma_summary_lands(between, rows.last());
    if i < rows.len() - 1 {
        assert(earlier[i] == rows[i]);
        assert forall|j: int| i < j < earlier.len() implies crate::key::spelled(
            (#[trigger] earlier[j]).student@,
        ) != crate::key::spelled(earlier[i].student@) by {
            assert(rows[j] == earlier[j]);
        }
        assert forall|j: int| 0 <= j < earlier.len() implies (
        #[trigger] earlier[j]).attention@.len() <= 32768 by {
            assert(rows[j] == earlier[j]);
        }
        lemma_row_lands(db, earlier, i);
        assert(crate::key::spelled(rows[rows.len() - 1].student@) != crate::key::spelled(
            rows[i].student@,
        ));
    }
}

/// A batch leaves every student it does not name as they were, and one that is
/// refused leaves everybody.
pub proof fn law_batch_leaves_other_students(db: Summaries, rows: Seq<SummaryRow>, student: Uuid)
    requires
        places_hold(rows),
        forall|i: int|
            0 <= i < rows.len() ==> crate::key::spelled((#[trigger] rows[i]).student@) != Some(
                student,
            ),
    ensures
        ({
            let after = summaries_landed(db, crate::insight::summaries_batch(rows));
            &&& after.summaries.contains_key(student) == db.summaries.contains_key(student)
            &&& after.summaries[student] == db.summaries[student]
            &&& after.items(student) == db.items(student)
        }),
        crate::insight::summaries_batch(rows).refusal is Some ==> summaries_landed(
            db,
            crate::insight::summaries_batch(rows),
        ) == db,
    decreases rows.len(),
{
    if rows.len() > 0 && crate::insight::summaries_batch(rows).refusal is None {
        let earlier = rows.drop_last();
        lemma_batch_splits(rows);
        lemma_stored_add(
            db,
            crate::insight::summaries_batch(earlier).sent,
            crate::insight::summary_batch(rows.last()).sent,
        );
        assert forall|j: int| 0 <= j < earlier.len() implies (
        #[trigger] earlier[j]).attention@.len() <= 32768 && crate::key::spelled(earlier[j].student@) != Some(student) by {
            assert(rows[j] == earlier[j]);
        }
        law_batch_leaves_other_students(db, earlier, student);
        let between = summaries_stored(db, crate::insight::summaries_batch(earlier).sent);
        assert(crate::key::spelled(rows[rows.len() - 1].student@) != Some(student));
        lemma_summary_lands(between, rows.last());
    }
}

/// Whether `ords` are the places of a list, in order.
pub open spec fn in_place_order<T>(places: Map<int, T>, ords: Seq<int>) -> bool {
    &&& forall|i: int, j: int| 0 <= i < j < ords.len() ==> #[trigger] ords[i] < #[trigger] ords[j]
    &&& forall|ord: int| #[trigger] places.contains_key(ord) <==> ords.contains(ord)
}

/// A list without gaps is read in the order of its places.
proof fn lemma_no_gaps<T>(places: Map<int, T>, ords: Seq<int>, n: nat, k: int)
    requires
        in_place_order(places, ords),
        forall|ord: int| #[trigger] places.contains_key(ord) <==> 0 <= ord < n,
        0 <= k <= ords.len(),
    ensures
        forall|i: int| 0 <= i < k ==> #[trigger] ords[i] == i,
        k <= n,
        k == ords.len() ==> k == n,
    decreases k,
{
    if k > 0 {
        lemma_no_gaps(places, ords, n, k - 1);
        let last = ords[k - 1];
        assert(ords.contains(last));
        assert(places.contains_key(last));
        if k > 1 {
            assert(ords[k - 2] < ords[k - 1]);
        }
        assert(last >= k - 1);
        if last > k - 1 {
            assert(places.contains_key(k - 1));
            let m = choose|m: int| 0 <= m < ords.len() && ords[m] == k - 1;
            if m > k - 1 {
                assert(ords[k - 1] < ords[m]);
            }
            assert(false);
        }
    }
    if k == ords.len() && k < n {
        assert(places.contains_key(k));
        let m = choose|m: int| 0 <= m < ords.len() && ords[m] == k;
        assert(ords[m] == m);
    }
}

/// Whether a stored summary is read with these columns.
pub open spec fn reads_cells(stored: StoredSummary, cells: SummaryCells) -> bool {
    &&& stored.marks == cells.marks
    &&& stored.attendance == cells.attendance
    &&& stored.submission == cells.submission
    &&& stored.study == cells.study
    &&& stored.confidence@ == cells.confidence
    &&& stored.computed_at == cells.computed_at
    &&& stored.retain_until == cells.retain_until
}

/// Whether a stored attention item is read with these columns.
pub open spec fn reads_item(stored: StoredAttention, cells: ItemCells) -> bool {
    &&& stored.trigger@ == cells.trigger
    &&& stored.course == cells.course
    &&& stored.fact@ == cells.fact
    &&& stored.window_from == cells.window_from
    &&& stored.window_to == cells.window_to
    &&& stored.evidence == cells.evidence
}

/// Whether items are read from the places `ords`.
pub open spec fn reads_places(
    stored: Seq<StoredAttention>,
    places: Map<int, ItemCells>,
    ords: Seq<int>,
) -> bool {
    &&& in_place_order(places, ords)
    &&& stored.len() == ords.len()
    &&& forall|k: int| 0 <= k < ords.len() ==> reads_item(#[trigger] stored[k], places[ords[k]])
}

/// What the two reads of every summary and of every item reply: the summaries
/// in student order, and the items of each student in the order of their
/// places.
pub open spec fn reads_summaries(
    db: Summaries,
    rows: Seq<StoredSummary>,
    items: Seq<StoredAttention>,
) -> bool {
    &&& forall|i: int, j: int|
        0 <= i < j < rows.len() ==> (#[trigger] rows[i]).student.0 < (#[trigger] rows[j]).student.0
    &&& forall|i: int|
        0 <= i < rows.len() ==> db.summaries.contains_key((#[trigger] rows[i]).student)
            && reads_cells(rows[i], db.summaries[rows[i].student])
    &&& forall|student: Uuid| #[trigger]
        db.summaries.contains_key(student) ==> exists|i: int|
            0 <= i < rows.len() && (#[trigger] rows[i]).student == student
    &&& forall|student: Uuid|
        exists|ords: Seq<int>|
            reads_places(
                #[trigger] crate::grouping::group(
                    crate::insight_report::by_student(items),
                    student.0,
                ),
                db.items(student),
                ords,
            )
}

/// Whether an item that is read back is the one that was written: each field of
/// it, and its course in the hyphenated form.
pub open spec fn gives_item_back(read: AttentionRow, written: AttentionRow) -> bool {
    &&& read.trigger@ == written.trigger@
    &&& crate::page::opt_string_view(read.course) == crate::insight_report::opt_key_text(
        crate::insight::opt_spelled(written.course)->0,
    )
    &&& read.fact@ == written.fact@
    &&& read.window_from == written.window_from
    &&& read.window_to == written.window_to
    &&& read.evidence == written.evidence
}

/// Whether a summary that is read back is the one that was written: each field
/// of it, its student in the hyphenated form, and its attention items in their
/// order.
pub open spec fn gives_back(read: SummaryRow, written: SummaryRow) -> bool {
    &&& crate::key::spelled(written.student@) is Some
    &&& read.student@ == crate::key::hyphenated_text(
        (crate::key::spelled(written.student@)->0).0,
    )
    &&& read.marks == written.marks
    &&& read.attendance == written.attendance
    &&& read.submission == written.submission
    &&& read.study == written.study
    &&& read.confidence@ == written.confidence@
    &&& read.computed_at == written.computed_at
    &&& read.retain_until == written.retain_until
    &&& read.attention@.len() == written.attention@.len()
    &&& forall|k: int|
        0 <= k < read.attention@.len() ==> gives_item_back(
            #[trigger] read.attention@[k],
            written.attention@[k],
        )
}

/// A batch of summaries reads back: whatever the tables held, the summaries
/// read after it hold each row of it exactly once, field for field, with its
/// attention items in their order and nothing of an earlier write among them.
/// Of two rows of one student the later stands. A list of more items than a
/// place can number is left out.
pub proof fn law_summaries_read_back(
    db: Summaries,
    rows: Seq<SummaryRow>,
    stored: Seq<StoredSummary>,
    items: Seq<StoredAttention>,
    read: Seq<SummaryRow>,
    i: int,
) -> (at: int)
    requires
        crate::insight::summaries_batch(rows).refusal is None,
        places_hold(rows),
        reads_summaries(
            summaries_landed(db, crate::insight::summaries_batch(rows)),
            stored,
            items,
        ),
        crate::insight_report::are_summaries(read, stored, items),
        0 <= i < rows.len(),
        is_last_of(rows, i),
    ensures
        0 <= at < read.len(),
        gives_back(read[at], rows[i]),
        forall|other: int|
            0 <= other < read.len() && other != at ==> (#[trigger] read[other]).student@
                != read[at].student@,
{
    let after = summaries_landed(db, crate::insight::summaries_batch(rows));
    lemma_row_lands(db, rows, i);
    let student = crate::key::spelled(rows[i].student@)->0;
    let written = rows[i].attention@;
    let at = choose|at: int| 0 <= at < stored.len() && (#[trigger] stored[at]).student == student;
    assert(crate::insight_report::is_first(stored, at));
    let group = crate::grouping::group(crate::insight_report::by_student(items), student.0);
    let ords = choose|ords: Seq<int>| reads_places(group, after.items(student), ords);
    lemma_no_gaps(after.items(student), ords, written.len(), ords.len() as int);
    assert(crate::insight_report::is_summary(
        read[at],
        stored[at],
        crate::insight_report::items_for(stored, items, at),
    ));
    let given = read[at].attention@;
    assert forall|k: int| 0 <= k < given.len() implies gives_item_back(
        #[trigger] given[k],
        written[k],
    ) by {
        assert(crate::insight_report::is_item(given[k], group[k]));
        assert(reads_item(group[k], after.items(student)[ords[k]]));
    }
    assert forall|other: int| 0 <= other < read.len() && other != at implies (
    #[trigger] read[other]).student@ != read[at].student@ by {
        assert(crate::insight_report::is_summary(
            read[other],
            stored[other],
            crate::insight_report::items_for(stored, items, other),
        ));
        assert(stored[other].student.0 != stored[at].student.0);
        crate::key::law_key_reads_back(stored[other].student.0, stored[at].student.0);
        crate::key::law_key_reads_back(stored[at].student.0, stored[other].student.0);
    }
    at
}

/// The key of a profile: its student, its dimension and its label.
pub struct ProfileKey {
    pub student: Uuid,
    pub dimension: Seq<char>,
    pub label: Seq<char>,
}

/// The columns of a profile beside its key.
pub struct ProfileCells {
    pub n_answers: i64,
    pub n_correct: i64,
    pub accuracy: Bits,
    pub overall_n_answers: i64,
    pub overall_accuracy: Bits,
    pub contrast: Bits,
    pub confidence: Seq<char>,
    pub computed_at: i64,
    pub retain_until: i64,
}

/// What one statement of a batch of profiles does to the table.
pub open spec fn profile_effect(
    db: Map<ProfileKey, ProfileCells>,
    statement: StatementView,
) -> Map<ProfileKey, ProfileCells> {
    let binds = statement.binds;
    if statement.sql == UPSERT_PROFILE@ {
        db.insert(
            ProfileKey {
                student: binds[0]->Uuid_0,
                dimension: binds[1]->Text_0,
                label: binds[2]->Text_0,
            },
            ProfileCells {
                n_answers: binds[3]->I64_0,
                n_correct: binds[4]->I64_0,
                accuracy: binds[5]->Real_0,
                overall_n_answers: binds[6]->I64_0,
                overall_accuracy: binds[7]->Real_0,
                contrast: binds[8]->Real_0,
                confidence: binds[9]->Text_0,
                computed_at: binds[10]->I64_0,
                retain_until: binds[11]->I64_0,
            },
        )
    } else {
        db
    }
}

/// What some statements, one after the other, do to the table.
pub open spec fn profiles_stored(
    db: Map<ProfileKey, ProfileCells>,
    sent: Seq<StatementView>,
) -> Map<ProfileKey, ProfileCells>
    decreases sent.len(),
{
    if sent.len() == 0 {
        db
    } else {
        profile_effect(profiles_stored(db, sent.drop_last()), sent.last())
    }
}

/// What the table holds after a batch of profiles: all of it, or nothing of a
/// batch that is refused.
pub open spec fn profiles_landed(
    db: Map<ProfileKey, ProfileCells>,
    batch: BatchView,
) -> Map<ProfileKey, ProfileCells> {
    if batch.refusal is Some {
        db
    } else {
        profiles_stored(db, batch.sent)
    }
}

/// The key a profile is stored under.
pub open spec fn profile_key(row: ProfileRow) -> ProfileKey {
    ProfileKey {
        student: crate::key::spelled(row.student@)->0,
        dimension: row.dimension@,
        label: row.label@,
    }
}

/// The columns a profile is stored with.
pub open spec fn profile_cells(row: ProfileRow) -> ProfileCells {
    ProfileCells {
        n_answers: row.n_answers,
        n_correct: row.n_correct,
        accuracy: row.accuracy,
        overall_n_answers: row.overall_n_answers,
        overall_accuracy: row.overall_accuracy,
        contrast: row.contrast,
        confidence: row.confidence@,
        computed_at: row.computed_at,
        retain_until: row.retain_until,
    }
}

/// A batch of profiles lands row by row.
proof fn lemma_profiles_land(db: Map<ProfileKey, ProfileCells>, rows: Seq<ProfileRow>)
    requires
        rows.len() > 0,
        crate::insight::profiles_batch(rows).refusal is None,
    ensures
        crate::insight::profiles_batch(rows.drop_last()).refusal is None,
        crate::key::spelled(rows.last().student@) is Some,
        profiles_stored(db, crate::insight::profiles_batch(rows).sent) == profiles_stored(
            db,
            crate::insight::profiles_batch(rows.drop_last()).sent,
        ).insert(profile_key(rows.last()), profile_cells(rows.last())),
{
    let before = crate::insight::profiles_batch(rows.drop_last()).sent;
    let sent = crate::insight::profiles_batch(rows).sent;
    assert(sent.drop_last() =~= before);
}

/// A batch leaves every profile it does not name as it was, and one that is
/// refused leaves them all.
pub proof fn law_batch_leaves_other_profiles(
    db: Map<ProfileKey, ProfileCells>,
    rows: Seq<ProfileRow>,
    key: ProfileKey,
)
    requires
        forall|i: int| 0 <= i < rows.len() ==> profile_key(#[trigger] rows[i]) != key,
    ensures
        ({
            let after = profiles_landed(db, crate::insight::profiles_batch(rows));
            after.contains_key(key) == db.contains_key(key) && after[key] == db[key]
        }),
        crate::insight::profiles_batch(rows).refusal is Some ==> profiles_landed(
            db,
            crate::insight::profiles_batch(rows),
        ) == db,
    decreases rows.len(),
{
    if rows.len() > 0 && crate::insight::profiles_batch(rows).refusal is None {
        let earlier = rows.drop_last();
        lemma_profiles_land(db, rows);
        assert forall|i: int| 0 <= i < earlier.len() implies profile_key(#[trigger] earlier[i])
            != key by {
            assert(earlier[i] == rows[i]);
        }
        law_batch_leaves_other_profiles(db, earlier, key);
        assert(profile_key(rows[rows.len() - 1]) != key);
    }
}

/// Whether a stored profile is read with this key and these columns.
pub open spec fn reads_profile(
    stored: StoredProfile,
    key: ProfileKey,
    cells: ProfileCells,
) -> bool {
    &&& stored.student == key.student
    &&& stored.dimension@ == key.dimension
    &&& stored.label@ == key.label
    &&& stored.n_answers == cells.n_answers
    &&& stored.n_correct == cells.n_correct
    &&& stored.accuracy == cells.accuracy
    &&& stored.overall_n_answers == cells.overall_n_answers
    &&& stored.overall_accuracy == cells.overall_accuracy
    &&& stored.contrast == cells.contrast
    &&& stored.confidence@ == cells.confidence
    &&& stored.computed_at == cells.computed_at
    &&& stored.retain_until == cells.retain_until
}

/// Whether a profile that is read back is the one that was written: each field
/// of it, the rates bit for bit, and its student in the hyphenated form.
pub open spec fn gives_profile_back(read: ProfileRow, written: ProfileRow) -> bool {
    &&& read.student@ == crate::key::hyphenated_text(
        (crate::key::spelled(written.student@)->0).0,
    )
    &&& read.dimension@ == written.dimension@
    &&& read.label@ == written.label@
    &&& read.n_answers == written.n_answers
    &&& read.n_correct == written.n_correct
    &&& read.accuracy == written.accuracy
    &&& read.overall_n_answers == written.overall_n_answers
    &&& read.overall_accuracy == written.overall_accuracy
    &&& read.contrast == written.contrast
    &&& read.confidence@ == written.confidence@
    &&& read.computed_at == written.computed_at
    &&& read.retain_until == written.retain_until
}

/// A batch of profiles reads back: whatever the table held, the row stored
/// under the key of each of them gives it back, field for field. Of two rows of
/// one key the later stands.
pub proof fn law_profiles_read_back(
    db: Map<ProfileKey, ProfileCells>,
    rows: Seq<ProfileRow>,
    i: int,
    stored: StoredProfile,
    read: ProfileRow,
)
    requires
        crate::insight::profiles_batch(rows).refusal is None,
        0 <= i < rows.len(),
        forall|j: int|
            i < j < rows.len() ==> profile_key(#[trigger] rows[j]) != profile_key(rows[i]),
        reads_profile(
            stored,
            profile_key(rows[i]),
            profiles_landed(db, crate::insight::profiles_batch(rows))[profile_key(rows[i])],
        ),
        crate::insight_report::is_profile(read, stored),
    ensures
        profiles_landed(db, crate::insight::profiles_batch(rows)).contains_key(
            profile_key(rows[i]),
        ),
        crate::key::spelled(rows[i].student@) is Some,
        gives_profile_back(read, rows[i]),
    decreases rows.len(),
{
    let earlier = rows.drop_last();
    lemma_profiles_land(db, rows);
    if i < rows.len() - 1 {
        assert(earlier[i] == rows[i]);
        assert forall|j: int| i < j < earlier.len() implies profile_key(#[trigger] earlier[j])
            != profile_key(earlier[i]) by {
            assert(earlier[j] == rows[j]);
        }
        assert(profile_key(rows[rows.len() - 1]) != profile_key(rows[i]));
        law_profiles_read_back(db, earlier, i, stored, read);
    }
}

/// The columns of a run beside its day.
pub struct RunCells {
    pub started_at: i64,
    pub finished_at: Option<i64>,
    pub status: Seq<char>,
    pub duration_ms: Option<i64>,
    pub students_total: i64,
    pub students_ok: i64,
    pub students_failed: i64,
    pub students_skipped: i64,
    pub rows_written: i64,
    pub budget_exceeded: bool,
    pub budget_ms: i64,
    pub retain_until: i64,
}

/// The run of each day, and the students each run left pending and the modules
/// that failed in it, by their place.
#[verifier::ext_equal]
pub struct Runs {
    pub runs: Map<Seq<char>, RunCells>,
    pub pending: Map<Seq<char>, Map<int, Uuid>>,
    pub failed: Map<Seq<char>, Map<int, Seq<char>>>,
}

impl Runs {
    /// The students a run left pending, by their place.
    pub open spec fn left(self, day: Seq<char>) -> Map<int, Uuid> {
        if self.pending.contains_key(day) {
            self.pending[day]
        } else {
            Map::empty()
        }
    }

    /// The modules that failed in a run, by their place.
    pub open spec fn broken(self, day: Seq<char>) -> Map<int, Seq<char>> {
        if self.failed.contains_key(day) {
            self.failed[day]
        } else {
            Map::empty()
        }
    }
}

/// What one statement of a run does to the tables.
pub open spec fn run_effect(db: Runs, statement: StatementView) -> Runs {
    let binds = statement.binds;
    let day = binds[0]->Text_0;
    if statement.sql == UPSERT_RUN@ && binds.len() == 13 {
        Runs {
            runs: db.runs.insert(
                day,
                RunCells {
                    started_at: binds[1]->I64_0,
                    finished_at: binds[2]->OptI64_0,
                    status: binds[3]->Text_0,
                    duration_ms: binds[4]->OptI64_0,
                    students_total: binds[5]->I64_0,
                    students_ok: binds[6]->I64_0,
                    students_failed: binds[7]->I64_0,
                    students_skipped: binds[8]->I64_0,
                    rows_written: binds[9]->I64_0,
                    budget_exceeded: binds[10]->Bool_0,
                    budget_ms: binds[11]->I64_0,
                    retain_until: binds[12]->I64_0,
                },
            ),
            ..db
        }
    } else if statement.sql == CLEAR_PENDING@ && binds.len() == 1 {
        Runs { pending: db.pending.insert(day, Map::empty()), ..db }
    } else if statement.sql == CLEAR_FAILED@ && binds.len() == 1 {
        Runs { failed: db.failed.insert(day, Map::empty()), ..db }
    } else if statement.sql == INSERT_FAILED@ && binds.len() == 3 && binds[2] is I16 {
        Runs {
            failed: db.failed.insert(
                day,
                db.broken(day).insert(binds[2]->I16_0 as int, binds[1]->Text_0),
            ),
            ..db
        }
    } else if statement.sql == INSERT_PENDING@ && binds.len() == 3 && binds[2] is I32 {
        Runs {
            pending: db.pending.insert(
                day,
                db.left(day).insert(binds[2]->I32_0 as int, binds[1]->Uuid_0),
            ),
            ..db
        }
    } else {
        db
    }
}

/// What some statements, one after the other, do to the tables.
pub open spec fn runs_stored(db: Runs, sent: Seq<StatementView>) -> Runs
    decreases sent.len(),
{
    if sent.len() == 0 {
        db
    } else {
        run_effect(runs_stored(db, sent.drop_last()), sent.last())
    }
}

/// What the tables hold after a run is stored.
pub open spec fn run_landed(db: Runs, run: RunRow) -> Runs {
    runs_stored(
        db,
        crate::insight::run_sent(run, crate::insight::keys_of(run.pending_students@)),
    )
}

/// The columns a run is stored with.
pub open spec fn run_cells(run: RunRow) -> RunCells {
    RunCells {
        started_at: run.started_at,
        finished_at: run.finished_at,
        status: run.status@,
        duration_ms: run.duration_ms,
        students_total: run.students_total,
        students_ok: run.students_ok,
        students_failed: run.students_failed,
        students_skipped: run.students_skipped,
        rows_written: run.rows_written,
        budget_exceeded: run.budget_exceeded,
        budget_ms: run.budget_ms,
        retain_until: run.retain_until,
    }
}

/// The members of a list by their place in it.
pub open spec fn queued<T>(members: Seq<T>) -> Map<int, T> {
    Map::new(|ord: int| 0 <= ord < members.len(), |ord: int| members[ord])
}

proof fn lemma_run_add(db: Runs, first: Seq<StatementView>, second: Seq<StatementView>)
    ensures
        runs_stored(db, first + second) == runs_stored(runs_stored(db, first), second),
    decreases second.len(),
{
    if second.len() == 0 {
        assert(first + second =~= first);
    } else {
        assert((first + second).drop_last() =~= first + second.drop_last());
        lemma_run_add(db, first, second.drop_last());
    }
}

proof fn lemma_removals_differ()
    ensures
        CLEAR_PENDING@ != CLEAR_FAILED@,
{
    reveal_strlit("DELETE FROM zeka_run_pending WHERE run = $1");
    reveal_strlit("DELETE FROM zeka_run_failed_module WHERE run = $1");
    assert(CLEAR_PENDING@.len() != CLEAR_FAILED@.len());
}

/// The row of a run lands, and nothing of its day is pending or failed yet.
proof fn lemma_run_row_lands(db: Runs, run: RunRow)
    ensures
        runs_stored(db, crate::insight::run_row_sent(run)) == (Runs {
            runs: db.runs.insert(run.run_day@, run_cells(run)),
            pending: db.pending.insert(run.run_day@, Map::empty()),
            failed: db.failed.insert(run.run_day@, Map::empty()),
        }),
{
    lemma_removals_differ();
    let sent = crate::insight::run_row_sent(run);
    assert(sent.drop_last().drop_last().drop_last() =~= Seq::empty());
    let first = runs_stored(db, sent.drop_last().drop_last());
    assert(runs_stored(db, sent.drop_last().drop_last().drop_last()) == db);
    assert(first == (Runs { runs: db.runs.insert(run.run_day@, run_cells(run)), ..db }));
    let second = runs_stored(db, sent.drop_last());
    assert(second == run_effect(first, sent[1]));
    assert(runs_stored(db, sent) == run_effect(second, sent[2]));
}

/// The students of a run whose list is empty land in their places.
proof fn lemma_pending_lands(db: Runs, run: RunRow, students: Seq<Uuid>, n: int)
    requires
        0 <= n <= students.len() <= 0x8000_0000,
        db.pending.contains_key(run.run_day@),
        db.pending[run.run_day@] == Map::<int, Uuid>::empty(),
    ensures
        runs_stored(db, crate::insight::pending_sent(run, students).take(n)) == (Runs {
            pending: db.pending.insert(run.run_day@, queued(students.take(n))),
            ..db
        }),
    decreases n,
{
    let sent = crate::insight::pending_sent(run, students);
    if n == 0 {
        assert(sent.take(0) =~= Seq::empty());
        assert(queued(students.take(0)) =~= Map::empty());
        assert(db.pending.insert(run.run_day@, queued(students.take(0))) =~= db.pending);
    } else {
        lemma_pending_lands(db, run, students, n - 1);
        assert(sent.take(n).drop_last() =~= sent.take(n - 1));
        assert(sent.take(n).last() == sent[n - 1]);
        let ord = n - 1;
        assert(ord as i32 as int == ord);
        let between = runs_stored(db, sent.take(n - 1));
        assert(between.left(run.run_day@) == queued(students.take(n - 1)));
        assert(queued(students.take(n - 1)).insert(ord, students[ord]) =~= queued(
            students.take(n),
        ));
        assert(between.pending.insert(run.run_day@, queued(students.take(n)))
            =~= db.pending.insert(run.run_day@, queued(students.take(n))));
    }
}

/// The failed modules of a run land in their places and touch neither the runs
/// nor what is pending.
proof fn lemma_failed_lands(db: Runs, run: RunRow, n: int)
    requires
        0 <= n <= run.failed_modules@.len(),
        db.failed.contains_key(run.run_day@),
        db.failed[run.run_day@] == Map::<int, Seq<char>>::empty(),
    ensures
        ({
            let after = runs_stored(db, crate::insight::failed_sent(run).take(n));
            let modules = crate::text::views(run.failed_modules@);
            &&& after.runs == db.runs
            &&& after.pending == db.pending
            &&& n <= 32768 ==> after.failed == db.failed.insert(
                run.run_day@,
                queued(modules.take(n)),
            )
        }),
    decreases n,
{
    let sent = crate::insight::failed_sent(run);
    let modules = crate::text::views(run.failed_modules@);
    if n == 0 {
        assert(sent.take(0) =~= Seq::empty());
        assert(queued(modules.take(0)) =~= Map::empty());
        assert(db.failed.insert(run.run_day@, queued(modules.take(0))) =~= db.failed);
    } else {
        lemma_failed_lands(db, run, n - 1);
        assert(sent.take(n).drop_last() =~= sent.take(n - 1));
        assert(sent.take(n).last() == sent[n - 1]);
        let ord = n - 1;
        let between = runs_stored(db, sent.take(n - 1));
        if n <= 32768 {
            assert(ord as i16 as int == ord);
            assert(between.broken(run.run_day@) == queued(modules.take(n - 1)));
            assert(queued(modules.take(n - 1)).insert(ord, modules[ord]) =~= queued(
                modules.take(n),
            ));
            assert(between.failed.insert(run.run_day@, queued(modules.take(n)))
                =~= db.failed.insert(run.run_day@, queued(modules.take(n))));
        }
    }
}

/// A run replaces what its day held: its row, and the students it left pending
/// and the modules that failed in it in their order, with nothing of an earlier
/// write among them. Every other day stays as it was. A list of more members
/// than a place can number is left out.
pub proof fn law_run_replaces_its_day(db: Runs, run: RunRow)
    requires
        run.pending_students@.len() <= 0x8000_0000,
    ensures
        run_landed(db, run).runs == db.runs.insert(run.run_day@, run_cells(run)),
        run_landed(db, run).pending == db.pending.insert(
            run.run_day@,
            queued(crate::insight::keys_of(run.pending_students@)),
        ),
        run.failed_modules@.len() <= 32768 ==> run_landed(db, run).failed == db.failed.insert(
            run.run_day@,
            queued(crate::text::views(run.failed_modules@)),
        ),
{
    let students = crate::insight::keys_of(run.pending_students@);
    let modules = crate::text::views(run.failed_modules@);
    let row = crate::insight::run_row_sent(run);
    let pending = crate::insight::pending_sent(run, students);
    let failed = crate::insight::failed_sent(run);
    lemma_run_add(db, row + pending, failed);
    lemma_run_add(db, row, pending);
    lemma_run_row_lands(db, run);
    let first = runs_stored(db, row);
    lemma_pending_lands(first, run, students, students.len() as int);
    assert(pending.take(students.len() as int) =~= pending);
    assert(students.take(students.len() as int) =~= students);
    lemma_failed_lands(runs_stored(first, pending), run, failed.len() as int);
    assert(failed.take(failed.len() as int) =~= failed);
    assert(modules.take(failed.len() as int) =~= modules);
    assert(first.pending.insert(run.run_day@, queued(students)) =~= db.pending.insert(
        run.run_day@,
        queued(students),
    ));
    assert(first.failed.insert(run.run_day@, queued(modules)) =~= db.failed.insert(
        run.run_day@,
        queued(modules),
    ));
}

/// Whether two texts are the same up to `k`, and the first is the lesser there.
pub open spec fn lesser_at(first: Seq<char>, second: Seq<char>, k: int) -> bool {
    &&& 0 <= k <= first.len()
    &&& k < second.len()
    &&& forall|i: int| 0 <= i < k ==> #[trigger] first[i] == second[i]
    &&& k == first.len() || first[k] < second[k]
}

/// Whether a text comes before another in the order of their characters.
pub open spec fn comes_before(first: Seq<char>, second: Seq<char>) -> bool {
    exists|k: int| lesser_at(first, second, k)
}

/// Whether a run is the freshest: none started later, and of those that started
/// with it none is of a later day.
pub open spec fn is_freshest(db: Runs, day: Seq<char>) -> bool {
    &&& db.runs.contains_key(day)
    &&& forall|other: Seq<char>| #[trigger]
        db.runs.contains_key(other) && other != day ==> db.runs[other].started_at
            < db.runs[day].started_at || (db.runs[other].started_at == db.runs[day].started_at
            && comes_before(other, day))
}

/// One run at the most is the freshest.
proof fn lemma_one_freshest(db: Runs, first: Seq<char>, second: Seq<char>)
    requires
        is_freshest(db, first),
        is_freshest(db, second),
    ensures
        first == second,
{
    if first != second {
        assert(db.runs.contains_key(first) && db.runs.contains_key(second));
        assert(comes_before(first, second) && comes_before(second, first));
        let a = choose|k: int| lesser_at(first, second, k);
        let b = choose|k: int| lesser_at(second, first, k);
        if a < b {
            assert(second[a] == first[a]);
        } else if b < a {
            assert(first[b] == second[b]);
        }
        assert(false);
    }
}

/// Whether `rows` are the first `limit` students that the run of `day` left
/// pending, in the order of their places.
pub open spec fn reads_queue(
    db: Runs,
    day: Seq<char>,
    ords: Seq<int>,
    limit: int,
    rows: Seq<Uuid>,
) -> bool {
    &&& is_freshest(db, day)
    &&& in_place_order(db.left(day), ords)
    &&& rows.len() == if ords.len() < limit {
        ords.len() as int
    } else {
        limit
    }
    &&& forall|k: int| 0 <= k < rows.len() ==> #[trigger] rows[k] == db.left(day)[ords[k]]
}

/// What the read of the freshest run's pending students replies: nothing where
/// there is no run.
pub open spec fn reads_pending(db: Runs, limit: int, rows: Seq<Uuid>) -> bool {
    if db.runs.dom() == Set::<Seq<char>>::empty() {
        rows.len() == 0
    } else {
        exists|day: Seq<char>, ords: Seq<int>| reads_queue(db, day, ords, limit, rows)
    }
}

/// The pending list reads back: after a run that is the freshest, it is exactly
/// the students that the run left pending, in their order and in the hyphenated
/// form, or it is refused where they are more than it takes; it is never a part
/// of them, and nothing of an earlier write is among them. A list of more
/// students than a place can number is left out.
pub proof fn law_pending_reads_back(
    db: Runs,
    run: RunRow,
    most: usize,
    rows: Seq<Uuid>,
    list: Result<PendingList, AppError>,
)
    requires
        run.pending_students@.len() <= 0x8000_0000,
        is_freshest(run_landed(db, run), run.run_day@),
        reads_pending(run_landed(db, run), most + 1, rows),
        crate::insight_report::lists_pending(list, rows, most),
    ensures
        crate::insight_report::lists_pending(
            list,
            crate::insight::keys_of(run.pending_students@),
            most,
        ),
{
    let after = run_landed(db, run);
    let students = crate::insight::keys_of(run.pending_students@);
    law_run_replaces_its_day(db, run);
    assert(after.runs.dom().contains(run.run_day@));
    let limit = most + 1;
    let (day, ords) = choose|day: Seq<char>, ords: Seq<int>|
        reads_queue(after, day, ords, limit, rows);
    lemma_one_freshest(after, day, run.run_day@);
    lemma_no_gaps(after.left(day), ords, students.len(), ords.len() as int);
    if rows.len() <= most {
        assert(rows =~= students);
    }
}

/// Whether a stored run is read with these columns.
pub open spec fn reads_run(stored: StoredRun, cells: RunCells) -> bool {
    &&& stored.started_at == cells.started_at
    &&& stored.finished_at == cells.finished_at
    &&& stored.status@ == cells.status
    &&& stored.duration_ms == cells.duration_ms
    &&& stored.students_total == cells.students_total
    &&& stored.students_ok == cells.students_ok
    &&& stored.students_failed == cells.students_failed
    &&& stored.students_skipped == cells.students_skipped
    &&& stored.rows_written == cells.rows_written
    &&& stored.budget_exceeded == cells.budget_exceeded
    &&& stored.budget_ms == cells.budget_ms
    &&& stored.retain_until == cells.retain_until
}

/// Whether students are read, spelled out, from the places `ords`.
pub open spec fn reads_students(
    texts: Seq<Seq<char>>,
    places: Map<int, Uuid>,
    ords: Seq<int>,
) -> bool {
    &&& in_place_order(places, ords)
    &&& texts.len() == ords.len()
    &&& forall|k: int|
        0 <= k < ords.len() ==> #[trigger] texts[k] == crate::key::hyphenated_text(
            places[ords[k]].0,
        )
}

/// Whether modules are read from the places `ords`.
pub open spec fn reads_modules(
    texts: Seq<Seq<char>>,
    places: Map<int, Seq<char>>,
    ords: Seq<int>,
) -> bool {
    &&& in_place_order(places, ords)
    &&& texts.len() == ords.len()
    &&& forall|k: int| 0 <= k < ords.len() ==> #[trigger] texts[k] == places[ords[k]]
}

/// What the reads of a report of `day` reply: the run of the day first, where
/// there is one, and the children of the day in the order of their places.
pub open spec fn reads_report(
    db: Runs,
    day: Seq<char>,
    rows: Seq<StoredRun>,
    pending: Seq<RunPending>,
    failed: Seq<RunFailed>,
) -> bool {
    db.runs.contains_key(day) ==> {
        &&& rows.len() > 0
        &&& rows[0].run_day@ == day
        &&& reads_run(rows[0], db.runs[day])
        &&& exists|ords: Seq<int>|
            reads_students(
                crate::insight_report::pending_texts(pending, day),
                db.left(day),
                ords,
            )
        &&& exists|ords: Seq<int>|
            reads_modules(
                crate::insight_report::failed_texts(failed, day),
                db.broken(day),
                ords,
            )
    }
}

/// Whether a run that is read back is the one that was written: each field of
/// it, its pending students in the hyphenated form, and both lists in their
/// order.
pub open spec fn gives_run_back(read: RunRow, written: RunRow) -> bool {
    &&& read.run_day@ == written.run_day@
    &&& read.started_at == written.started_at
    &&& read.finished_at == written.finished_at
    &&& read.status@ == written.status@
    &&& read.duration_ms == written.duration_ms
    &&& read.students_total == written.students_total
    &&& read.students_ok == written.students_ok
    &&& read.students_failed == written.students_failed
    &&& read.students_skipped == written.students_skipped
    &&& read.rows_written == written.rows_written
    &&& read.budget_exceeded == written.budget_exceeded
    &&& read.budget_ms == written.budget_ms
    &&& read.retain_until == written.retain_until
    &&& crate::text::views(read.pending_students@) == crate::insight_report::key_texts(
        crate::insight::keys_of(written.pending_students@),
    )
    &&& crate::text::views(read.failed_modules@) == crate::text::views(written.failed_modules@)
}

/// A run reads back: the report of its day leads with it, field for field, with
/// its pending students and its failed modules in their order and nothing of an
/// earlier write among them. A list of more members than a place can number is
/// left out.
pub proof fn law_run_reads_back(
    db: Runs,
    run: RunRow,
    rows: Seq<StoredRun>,
    pending: Seq<RunPending>,
    failed: Seq<RunFailed>,
    read: Seq<RunRow>,
)
    requires
        run.pending_students@.len() <= 0x8000_0000,
        run.failed_modules@.len() <= 32768,
        reads_report(run_landed(db, run), run.run_day@, rows, pending, failed),
        crate::insight_report::are_runs(read, rows, pending, failed),
    ensures
        read.len() > 0,
        gives_run_back(read[0], run),
{
    let day = run.run_day@;
    let after = run_landed(db, run);
    let students = crate::insight::keys_of(run.pending_students@);
    let modules = crate::text::views(run.failed_modules@);
    law_run_replaces_its_day(db, run);
    assert(after.runs.contains_key(day));
    let days = crate::insight_report::day_texts(rows);
    assert(crate::insight_report::first_of_day(days, 0));
    let left = crate::insight_report::pending_texts(pending, day);
    let broken = crate::insight_report::failed_texts(failed, day);
    let queue = choose|ords: Seq<int>| reads_students(left, after.left(day), ords);
    lemma_no_gaps(after.left(day), queue, students.len(), queue.len() as int);
    assert(left =~= crate::insight_report::key_texts(students));
    let listed = choose|ords: Seq<int>| reads_modules(broken, after.broken(day), ords);
    lemma_no_gaps(after.broken(day), listed, modules.len(), listed.len() as int);
    assert(broken =~= modules);
    assert(crate::insight_report::is_run(read[0], rows[0], left, broken));
}

/// The columns of a question's segment beside the question.
pub struct SegmentCells {
    pub exam: Uuid,
    pub course: Uuid,
    pub subject: Uuid,
    pub bilissel_talep: Seq<char>,
    pub dikkat_tuzagi: Seq<char>,
    pub okuma_yuku: Seq<char>,
    pub adim_sayisi: Seq<char>,
    pub confidence_bilissel_talep: Bits,
    pub confidence_dikkat_tuzagi: Bits,
    pub confidence_okuma_yuku: Bits,
    pub confidence_adim_sayisi: Bits,
    pub confidence: Seq<char>,
    pub trap_choice: Option<Seq<char>>,
    pub rationale: Seq<char>,
    pub model: Seq<char>,
    pub prompt_version: Seq<char>,
    pub variant: Option<Seq<char>>,
    pub computed_at: i64,
    pub retain_until: i64,
}

/// The columns of a dimension beside its question and its place.
pub struct DimensionCells {
    pub dimension: Seq<char>,
    pub role: Seq<char>,
}

/// The segment of each question, and each question's dimensions by their place.
#[verifier::ext_equal]
pub struct Segments {
    pub segments: Map<Uuid, SegmentCells>,
    pub dimensions: Map<Uuid, Map<int, DimensionCells>>,
}

impl Segments {
    /// The dimensions of a question by their place.
    pub open spec fn split(self, question: Uuid) -> Map<int, DimensionCells> {
        if self.dimensions.contains_key(question) {
            self.dimensions[question]
        } else {
            Map::empty()
        }
    }
}

/// What one statement of a batch of segments does to the tables.
pub open spec fn segment_effect(db: Segments, statement: StatementView) -> Segments {
    let binds = statement.binds;
    let question = binds[0]->Uuid_0;
    if statement.sql == UPSERT_SEGMENT@ && binds.len() == 20 {
        Segments {
            segments: db.segments.insert(
                question,
                SegmentCells {
                    exam: binds[1]->Uuid_0,
                    course: binds[2]->Uuid_0,
                    subject: binds[3]->Uuid_0,
                    bilissel_talep: binds[4]->Text_0,
                    dikkat_tuzagi: binds[5]->Text_0,
                    okuma_yuku: binds[6]->Text_0,
                    adim_sayisi: binds[7]->Text_0,
                    confidence_bilissel_talep: binds[8]->Real_0,
                    confidence_dikkat_tuzagi: binds[9]->Real_0,
                    confidence_okuma_yuku: binds[10]->Real_0,
                    confidence_adim_sayisi: binds[11]->Real_0,
                    confidence: binds[12]->Text_0,
                    trap_choice: binds[13]->OptText_0,
                    rationale: binds[14]->Text_0,
                    model: binds[15]->Text_0,
                    prompt_version: binds[16]->Text_0,
                    variant: binds[17]->OptText_0,
                    computed_at: binds[18]->I64_0,
                    retain_until: binds[19]->I64_0,
                },
            ),
            ..db
        }
    } else if statement.sql == CLEAR_DIMENSIONS@ && binds.len() == 1 {
        Segments { dimensions: db.dimensions.insert(question, Map::empty()), ..db }
    } else if statement.sql == INSERT_DIMENSION@ && binds.len() == 4 {
        Segments {
            dimensions: db.dimensions.insert(
                question,
                db.split(question).insert(
                    binds[3]->I16_0 as int,
                    DimensionCells { dimension: binds[1]->Text_0, role: binds[2]->Text_0 },
                ),
            ),
            ..db
        }
    } else {
        db
    }
}

/// What some statements, one after the other, do to the tables.
pub open spec fn segments_stored(db: Segments, sent: Seq<StatementView>) -> Segments
    decreases sent.len(),
{
    if sent.len() == 0 {
        db
    } else {
        segment_effect(segments_stored(db, sent.drop_last()), sent.last())
    }
}

/// What the tables hold after a batch of segments: all of it, or nothing of a
/// batch that is refused.
pub open spec fn segments_landed(db: Segments, batch: BatchView) -> Segments {
    if batch.refusal is Some {
        db
    } else {
        segments_stored(db, batch.sent)
    }
}

/// The columns a segment is stored with.
pub open spec fn segment_cells(row: SegmentRow) -> SegmentCells {
    SegmentCells {
        exam: crate::key::spelled(row.exam@)->0,
        course: crate::key::spelled(row.course@)->0,
        subject: crate::key::spelled(row.subject@)->0,
        bilissel_talep: row.labels.bilissel_talep@,
        dikkat_tuzagi: row.labels.dikkat_tuzagi@,
        okuma_yuku: row.labels.okuma_yuku@,
        adim_sayisi: row.labels.adim_sayisi@,
        confidence_bilissel_talep: row.confidences.bilissel_talep,
        confidence_dikkat_tuzagi: row.confidences.dikkat_tuzagi,
        confidence_okuma_yuku: row.confidences.okuma_yuku,
        confidence_adim_sayisi: row.confidences.adim_sayisi,
        confidence: row.confidence@,
        trap_choice: crate::page::opt_string_view(row.trap_choice),
        rationale: row.rationale@,
        model: row.model@,
        prompt_version: row.prompt_version@,
        variant: crate::page::opt_string_view(row.variant),
        computed_at: row.computed_at,
        retain_until: row.retain_until,
    }
}

/// The dimensions of a segment in the order of their places: the downstream
/// ones, then the experimental ones.
pub open spec fn dimension_cells(row: SegmentRow) -> Seq<DimensionCells> {
    Seq::new(
        row.downstream_dimensions@.len(),
        |i: int|
            DimensionCells { dimension: row.downstream_dimensions@[i]@, role: "downstream"@ },
    ) + Seq::new(
        row.experimental_dimensions@.len(),
        |i: int|
            DimensionCells { dimension: row.experimental_dimensions@[i]@, role: "experimental"@ },
    )
}

proof fn lemma_segments_add(db: Segments, first: Seq<StatementView>, second: Seq<StatementView>)
    ensures
        segments_stored(db, first + second) == segments_stored(segments_stored(db, first), second),
    decreases second.len(),
{
    if second.len() == 0 {
        assert(first + second =~= first);
    } else {
        assert((first + second).drop_last() =~= first + second.drop_last());
        lemma_segments_add(db, first, second.drop_last());
    }
}

/// The dimensions of a question that has none land in their places.
proof fn lemma_dimensions_land(db: Segments, question: Uuid, row: SegmentRow, n: int)
    requires
        crate::insight::places_fit(row),
        0 <= n <= dimension_cells(row).len(),
        db.dimensions.contains_key(question),
        db.dimensions[question] == Map::<int, DimensionCells>::empty(),
    ensures
        segments_stored(
            db,
            crate::insight::dimensions_sent(
                question,
                row.downstream_dimensions@,
                row.experimental_dimensions@,
            ).take(n),
        ) == (Segments {
            dimensions: db.dimensions.insert(question, queued(dimension_cells(row).take(n))),
            ..db
        }),
    decreases n,
{
    let sent = crate::insight::dimensions_sent(
        question,
        row.downstream_dimensions@,
        row.experimental_dimensions@,
    );
    let cells = dimension_cells(row);
    if n == 0 {
        assert(sent.take(0) =~= Seq::empty());
        assert(queued(cells.take(0)) =~= Map::empty());
        assert(db.dimensions.insert(question, queued(cells.take(0))) =~= db.dimensions);
    } else {
        lemma_dimensions_land(db, question, row, n - 1);
        assert(sent.take(n).drop_last() =~= sent.take(n - 1));
        assert(sent.take(n).last() == sent[n - 1]);
        let ord = n - 1;
        assert(ord as i16 as int == ord);
        let between = segments_stored(db, sent.take(n - 1));
        assert(between.split(question) == queued(cells.take(n - 1)));
        assert(queued(cells.take(n - 1)).insert(ord, cells[ord]) =~= queued(cells.take(n)));
        assert(between.dimensions.insert(question, queued(cells.take(n)))
            =~= db.dimensions.insert(question, queued(cells.take(n))));
    }
}

/// A segment lands with its dimensions, whatever its question had before.
proof fn lemma_segment_lands(db: Segments, row: SegmentRow)
    requires
        crate::insight::segment_batch(row).refusal is None,
        crate::insight::places_fit(row),
    ensures
        crate::key::spelled(row.question@) is Some,
        ({
            let question = crate::key::spelled(row.question@)->0;
            segments_stored(db, crate::insight::segment_batch(row).sent) == (Segments {
                segments: db.segments.insert(question, segment_cells(row)),
                dimensions: db.dimensions.insert(question, queued(dimension_cells(row))),
            })
        }),
{
    let question = crate::key::spelled(row.question@)->0;
    let sent = crate::insight::segment_batch(row).sent;
    let dimensions = crate::insight::dimensions_sent(
        question,
        row.downstream_dimensions@,
        row.experimental_dimensions@,
    );
    let cells = dimension_cells(row);
    let head = sent.take(2);
    assert(sent =~= head + dimensions);
    lemma_segments_add(db, head, dimensions);
    assert(head.drop_last().drop_last() =~= Seq::empty());
    assert(segments_stored(db, head.drop_last().drop_last()) == db);
    let first = segments_stored(db, head.drop_last());
    assert(head.drop_last().last() == sent[0]);
    assert(first == (Segments {
        segments: db.segments.insert(question, segment_cells(row)),
        ..db
    }));
    let cleared = segments_stored(db, head);
    assert(head.last() == sent[1]);
    assert(cleared == segment_effect(first, sent[1]));
    assert(cleared.dimensions == db.dimensions.insert(question, Map::empty()));
    lemma_dimensions_land(cleared, question, row, cells.len() as int);
    assert(dimensions.take(cells.len() as int) =~= dimensions);
    assert(cells.take(cells.len() as int) =~= cells);
    assert(cleared.dimensions.insert(question, queued(cells)) =~= db.dimensions.insert(
        question,
        queued(cells),
    ));
}

/// A batch of segments replaces what each of its questions held: the labels and
/// exactly the dimensions of the last row of the question, the downstream ones
/// first, with nothing of an earlier write among them.
pub proof fn law_last_segment_stands(db: Segments, rows: Seq<SegmentRow>, i: int)
    requires
        crate::insight::segments_batch(rows).refusal is None,
        forall|j: int| 0 <= j < rows.len() ==> crate::insight::places_fit(#[trigger] rows[j]),
        0 <= i < rows.len(),
        forall|j: int|
            i < j < rows.len() ==> crate::key::spelled((#[trigger] rows[j]).question@)
                != crate::key::spelled(rows[i].question@),
    ensures
        crate::key::spelled(rows[i].question@) is Some,
        ({
            let question = crate::key::spelled(rows[i].question@)->0;
            let after = segments_landed(db, crate::insight::segments_batch(rows));
            &&& after.segments.contains_key(question)
            &&& after.segments[question] == segment_cells(rows[i])
            &&& after.split(question) == queued(dimension_cells(rows[i]))
        }),
    decreases rows.len(),
{
    let earlier = rows.drop_last();
    let last = rows.last();
    let before = crate::insight::segments_batch(earlier);
    assert(before.refusal is None && crate::insight::segment_batch(last).refusal is None);
    lemma_segments_add(db, before.sent, crate::insight::segment_batch(last).sent);
    assert(crate::insight::places_fit(rows[rows.len() - 1]));
    lemma_segment_lands(segments_stored(db, before.sent), last);
    if i < rows.len() - 1 {
        assert(earlier[i] == rows[i]);
        assert forall|j: int| 0 <= j < earlier.len() implies crate::insight::places_fit(
            #[trigger] earlier[j],
        ) && (i < j ==> crate::key::spelled(earlier[j].question@) != crate::key::spelled(
            earlier[i].question@,
        )) by {
            assert(rows[j] == earlier[j]);
        }
        law_last_segment_stands(db, earlier, i);
        assert(crate::key::spelled(rows[rows.len() - 1].question@) != crate::key::spelled(
            rows[i].question@,
        ));
    }
}

/// A batch of segments leaves every question it does not name as it was, and
/// one that is refused leaves them all.
pub proof fn law_batch_leaves_other_questions(
    db: Segments,
    rows: Seq<SegmentRow>,
    question: Uuid,
)
    requires
        forall|j: int|
            0 <= j < rows.len() ==> crate::insight::places_fit(#[trigger] rows[j])
                && crate::key::spelled(rows[j].question@) != Some(question),
    ensures
        ({
            let after = segments_landed(db, crate::insight::segments_batch(rows));
            &&& after.segments.contains_key(question) == db.segments.contains_key(question)
            &&& after.segments[question] == db.segments[question]
            &&& after.split(question) == db.split(question)
        }),
        crate::insight::segments_batch(rows).refusal is Some ==> segments_landed(
            db,
            crate::insight::segments_batch(rows),
        ) == db,
    decreases rows.len(),
{
    if rows.len() > 0 && crate::insight::segments_batch(rows).refusal is None {
        let earlier = rows.drop_last();
        let last = rows.last();
        let before = crate::insight::segments_batch(earlier);
        assert(before.refusal is None && crate::insight::segment_batch(last).refusal is None);
        lemma_segments_add(db, before.sent, crate::insight::segment_batch(last).sent);
        assert forall|j: int| 0 <= j < earlier.len() implies crate::insight::places_fit(
            #[trigger] earlier[j],
        ) && crate::key::spelled(earlier[j].question@) != Some(question) by {
            assert(rows[j] == earlier[j]);
        }
        law_batch_leaves_other_questions(db, earlier, question);
        assert(crate::insight::places_fit(rows[rows.len() - 1]));
        lemma_segment_lands(segments_stored(db, before.sent), last);
    }
}

/// A stored card: its natural key, and the columns beside it.
pub struct CardRow {
    pub audience: Uuid,
    pub product: Seq<char>,
    pub rule_id: Seq<char>,
    pub about: Option<Uuid>,
    pub scope: Option<Seq<char>>,
    pub rule_version: i64,
    pub audience_role: Seq<char>,
    pub course: Option<Uuid>,
    pub evidence: serde_json::Value,
    pub confidence: Seq<char>,
    pub created_at: i64,
    pub expires_at: i64,
    pub retain_until: i64,
}

/// The cards by their own key.
pub type Cards = Map<Uuid, CardRow>;

/// Whether two values of a column are one key. Whether two missing ones are is
/// the table's own choice, `nulls_equal`.
pub open spec fn one_value<T>(a: Option<T>, b: Option<T>, nulls_equal: bool) -> bool {
    a == b && (nulls_equal || a is Some)
}

/// Whether two cards have one natural key.
pub open spec fn clashes(a: CardRow, b: CardRow, nulls_equal: bool) -> bool {
    &&& a.audience == b.audience
    &&& a.product == b.product
    &&& a.rule_id == b.rule_id
    &&& one_value(a.about, b.about, nulls_equal)
    &&& one_value(a.scope, b.scope, nulls_equal)
}

/// The card that the binds of a write carry.
pub open spec fn bound_card(binds: Seq<ParamView>) -> CardRow {
    CardRow {
        audience: binds[1]->Uuid_0,
        product: binds[2]->Text_0,
        rule_id: binds[3]->Text_0,
        rule_version: binds[4]->I64_0,
        scope: binds[5]->OptText_0,
        about: binds[6]->OptUuid_0,
        audience_role: binds[7]->Text_0,
        course: binds[8]->OptUuid_0,
        evidence: binds[9]->Json_0,
        confidence: binds[10]->Text_0,
        created_at: binds[11]->I64_0,
        expires_at: binds[12]->I64_0,
        retain_until: binds[13]->I64_0,
    }
}

/// What the upsert of a card leaves: it overwrites the card of its natural key
/// and keeps that one's own key, or is stored under `id`.
pub open spec fn put_card(db: Cards, id: Uuid, card: CardRow, nulls_equal: bool) -> Cards {
    if exists|other: Uuid| #[trigger]
        db.contains_key(other) && clashes(db[other], card, nulls_equal) {
        let at = choose|other: Uuid| #[trigger]
            db.contains_key(other) && clashes(db[other], card, nulls_equal);
        db.insert(at, card)
    } else {
        db.insert(id, card)
    }
}

/// What one statement of a batch of cards does to the table.
pub open spec fn card_effect(db: Cards, statement: StatementView, nulls_equal: bool) -> Cards {
    if statement.sql == UPSERT_RECOMMENDATION@ {
        put_card(db, statement.binds[0]->Uuid_0, bound_card(statement.binds), nulls_equal)
    } else {
        db
    }
}

/// What some statements, one after the other, do to the table.
pub open spec fn cards_stored(db: Cards, sent: Seq<StatementView>, nulls_equal: bool) -> Cards
    decreases sent.len(),
{
    if sent.len() == 0 {
        db
    } else {
        card_effect(cards_stored(db, sent.drop_last(), nulls_equal), sent.last(), nulls_equal)
    }
}

/// What the table holds after a batch of cards: all of it, or nothing of a batch
/// that is refused.
pub open spec fn cards_landed(db: Cards, batch: BatchView, nulls_equal: bool) -> Cards {
    if batch.refusal is Some {
        db
    } else {
        cards_stored(db, batch.sent, nulls_equal)
    }
}

/// The card a row is stored as.
pub open spec fn card_row(row: RecommendationRow) -> CardRow {
    CardRow {
        audience: crate::key::spelled(row.audience@)->0,
        product: row.product@,
        rule_id: row.rule_id@,
        about: crate::insight::opt_spelled(row.about)->0,
        scope: crate::page::opt_string_view(row.scope),
        rule_version: row.rule_version,
        audience_role: row.audience_role@,
        course: crate::insight::opt_spelled(row.course)->0,
        evidence: crate::insight::merged(
            row.evidence,
            crate::page::opt_string_view(row.limitation),
        ),
        confidence: row.confidence@,
        created_at: row.computed_at,
        expires_at: row.expires_at,
        retain_until: row.retain_until,
    }
}

/// Whether no two cards have one natural key.
pub open spec fn one_per_key(db: Cards, nulls_equal: bool) -> bool {
    forall|a: Uuid, b: Uuid|
        #![trigger db.contains_key(a), db.contains_key(b)]
        db.contains_key(a) && db.contains_key(b) && a != b ==> !clashes(db[a], db[b], nulls_equal)
}

/// Whether the first `n` of the keys are new, and each is its own.
pub open spec fn are_new(db: Cards, ids: Seq<Uuid>, n: int) -> bool {
    &&& n <= ids.len()
    &&& forall|k: int| 0 <= k < n ==> !db.contains_key(#[trigger] ids[k])
    &&& forall|k: int, m: int| 0 <= k < m < n ==> #[trigger] ids[k] != #[trigger] ids[m]
}

/// A batch of cards lands row by row; a card without evidence sends nothing.
proof fn lemma_card_step(
    db: Cards,
    rows: Seq<RecommendationRow>,
    ids: Seq<Uuid>,
    nulls_equal: bool,
)
    requires
        rows.len() > 0,
        crate::insight::recommendations_batch(rows, ids).refusal is None,
    ensures
        crate::insight::recommendations_batch(rows.drop_last(), ids).refusal is None,
        ({
            let before = cards_stored(
                db,
                crate::insight::recommendations_batch(rows.drop_last(), ids).sent,
                nulls_equal,
            );
            let after = cards_stored(
                db,
                crate::insight::recommendations_batch(rows, ids).sent,
                nulls_equal,
            );
            if crate::insight::has_evidence(rows.last().evidence) {
                &&& crate::key::spelled(rows.last().audience@) is Some
                &&& crate::insight::opt_spelled(rows.last().about) is Some
                &&& crate::insight::opt_spelled(rows.last().course) is Some
                &&& after == put_card(
                    before,
                    ids[rows.len() - 1],
                    card_row(rows.last()),
                    nulls_equal,
                )
            } else {
                after == before
            }
        }),
{
    let before = crate::insight::recommendations_batch(rows.drop_last(), ids);
    let sent = crate::insight::recommendations_batch(rows, ids).sent;
    if crate::insight::has_evidence(rows.last().evidence) {
        let card = crate::insight::recommendation_batch(rows.last(), ids[rows.len() - 1]);
        assert(card.refusal is None);
        assert(sent.drop_last() =~= before.sent);
        assert(sent.last() == card.sent[0]);
        assert(bound_card(sent.last().binds) == card_row(rows.last()));
    } else {
        assert(sent =~= before.sent);
    }
}

/// A batch keeps one card for each natural key, and stores under no key but
/// those it was given.
proof fn lemma_cards_stay_apart(
    db: Cards,
    rows: Seq<RecommendationRow>,
    ids: Seq<Uuid>,
    nulls_equal: bool,
)
    requires
        crate::insight::recommendations_batch(rows, ids).refusal is None,
        one_per_key(db, nulls_equal),
        are_new(db, ids, rows.len() as int),
    ensures
        ({
            let after = cards_stored(
                db,
                crate::insight::recommendations_batch(rows, ids).sent,
                nulls_equal,
            );
            &&& one_per_key(after, nulls_equal)
            &&& forall|id: Uuid| #[trigger]
                after.contains_key(id) ==> db.contains_key(id) || exists|k: int|
                    0 <= k < rows.len() && #[trigger] ids[k] == id
        }),
    decreases rows.len(),
{
    if rows.len() > 0 {
        let earlier = rows.drop_last();
        lemma_card_step(db, rows, ids, nulls_equal);
        lemma_cards_stay_apart(db, earlier, ids, nulls_equal);
        let before = cards_stored(
            db,
            crate::insight::recommendations_batch(earlier, ids).sent,
            nulls_equal,
        );
        let after = cards_stored(
            db,
            crate::insight::recommendations_batch(rows, ids).sent,
            nulls_equal,
        );
        let n = rows.len() - 1;
        assert forall|id: Uuid| #[trigger] after.contains_key(id) implies db.contains_key(id)
            || exists|k: int| 0 <= k < rows.len() && #[trigger] ids[k] == id by {
            if before.contains_key(id) {
                if !db.contains_key(id) {
                    let k = choose|k: int| 0 <= k < earlier.len() && #[trigger] ids[k] == id;
                    assert(0 <= k < rows.len());
                }
            } else {
                assert(ids[n] == id);
            }
        }
        if crate::insight::has_evidence(rows.last().evidence) {
            let card = card_row(rows.last());
            assert forall|a: Uuid, b: Uuid|
                #![trigger after.contains_key(a), after.contains_key(b)]
                after.contains_key(a) && after.contains_key(b) && a != b implies !clashes(
                after[a],
                after[b],
                nulls_equal,
            ) by {
                if before.contains_key(a) && before.contains_key(b) {
                    assert(!clashes(before[a], before[b], nulls_equal));
                }
            }
        }
    }
}

/// A card stays as it is where no row of a batch has its natural key, and a
/// refused batch leaves every card. The key of a new card is new.
pub proof fn law_batch_leaves_other_cards(
    db: Cards,
    rows: Seq<RecommendationRow>,
    ids: Seq<Uuid>,
    nulls_equal: bool,
    id: Uuid,
)
    requires
        are_new(db, ids, rows.len() as int),
        db.contains_key(id),
        forall|j: int|
            0 <= j < rows.len() && crate::insight::has_evidence((#[trigger] rows[j]).evidence)
                ==> !clashes(db[id], card_row(rows[j]), nulls_equal),
    ensures
        ({
            let after = cards_landed(
                db,
                crate::insight::recommendations_batch(rows, ids),
                nulls_equal,
            );
            after.contains_key(id) && after[id] == db[id]
        }),
        crate::insight::recommendations_batch(rows, ids).refusal is Some ==> cards_landed(
            db,
            crate::insight::recommendations_batch(rows, ids),
            nulls_equal,
        ) == db,
    decreases rows.len(),
{
    if rows.len() > 0 && crate::insight::recommendations_batch(rows, ids).refusal is None {
        let earlier = rows.drop_last();
        lemma_card_step(db, rows, ids, nulls_equal);
        assert forall|j: int|
            0 <= j < earlier.len() && crate::insight::has_evidence(
                (#[trigger] earlier[j]).evidence,
            ) implies !clashes(db[id], card_row(earlier[j]), nulls_equal) by {
            assert(rows[j] == earlier[j]);
        }
        law_batch_leaves_other_cards(db, earlier, ids, nulls_equal, id);
        assert(rows[rows.len() - 1] == rows.last());
        assert(ids[rows.len() - 1] != id);
    }
}

/// The card of a row is in the table after its batch, unless a later row that
/// carries evidence has its natural key.
proof fn lemma_card_lands(
    db: Cards,
    rows: Seq<RecommendationRow>,
    ids: Seq<Uuid>,
    nulls_equal: bool,
    i: int,
) -> (at: Uuid)
    requires
        crate::insight::recommendations_batch(rows, ids).refusal is None,
        one_per_key(db, nulls_equal),
        are_new(db, ids, rows.len() as int),
        0 <= i < rows.len(),
        crate::insight::has_evidence(rows[i].evidence),
        forall|j: int|
            i < j < rows.len() && crate::insight::has_evidence((#[trigger] rows[j]).evidence)
                ==> !clashes(card_row(rows[i]), card_row(rows[j]), nulls_equal),
    ensures
        ({
            let after = cards_stored(
                db,
                crate::insight::recommendations_batch(rows, ids).sent,
                nulls_equal,
            );
            after.contains_key(at) && after[at] == card_row(rows[i])
        }),
        crate::key::spelled(rows[i].audience@) is Some,
        crate::insight::opt_spelled(rows[i].about) is Some,
        crate::insight::opt_spelled(rows[i].course) is Some,
    decreases rows.len(),
{
    let earlier = rows.drop_last();
    let n = rows.len() - 1;
    lemma_card_step(db, rows, ids, nulls_equal);
    let before = cards_stored(
        db,
        crate::insight::recommendations_batch(earlier, ids).sent,
        nulls_equal,
    );
    if i < n {
        assert(earlier[i] == rows[i]);
        assert forall|j: int|
            i < j < earlier.len() && crate::insight::has_evidence(
                (#[trigger] earlier[j]).evidence,
            ) implies !clashes(card_row(earlier[i]), card_row(earlier[j]), nulls_equal) by {
            assert(rows[j] == earlier[j]);
        }
        let at = lemma_card_lands(db, earlier, ids, nulls_equal, i);
        lemma_cards_stay_apart(db, earlier, ids, nulls_equal);
        assert(rows[n] == rows.last());
        assert(ids[n] != at) by {
            if !db.contains_key(at) {
                let k = choose|k: int| 0 <= k < earlier.len() && #[trigger] ids[k] == at;
                assert(ids[k] != ids[n]);
            }
        }
        at
    } else {
        let card = card_row(rows[i]);
        if exists|other: Uuid| #[trigger]
            before.contains_key(other) && clashes(before[other], card, nulls_equal) {
            choose|other: Uuid| #[trigger]
                before.contains_key(other) && clashes(before[other], card, nulls_equal)
        } else {
            ids[n]
        }
    }
}

/// Whether a stored card is read from a row of the table.
pub open spec fn reads_card(stored: StoredRecommendation, row: CardRow) -> bool {
    &&& stored.audience == row.audience
    &&& stored.product@ == row.product
    &&& stored.rule_id@ == row.rule_id
    &&& stored.rule_version == row.rule_version
    &&& crate::page::opt_string_view(stored.scope) == row.scope
    &&& stored.about == row.about
    &&& stored.audience_role@ == row.audience_role
    &&& stored.course == row.course
    &&& stored.evidence == row.evidence
    &&& stored.confidence@ == row.confidence
    &&& stored.created_at == row.created_at
    &&& stored.expires_at == row.expires_at
    &&& stored.retain_until == row.retain_until
}

/// What the read of every card replies: each row of the table.
pub open spec fn reads_cards(db: Cards, all: Seq<StoredRecommendation>) -> bool {
    forall|id: Uuid| #[trigger]
        db.contains_key(id) ==> exists|k: int|
            0 <= k < all.len() && reads_card(#[trigger] all[k], db[id])
}

/// A batch of cards reads back: whatever the table held, the cards read after it
/// hold each row of it that carries evidence, field for field, with its
/// limitation inside its evidence; and the table holds one card for each natural
/// key. Of two rows of one natural key the later stands. It holds whether or not
/// the table takes two missing values for one.
pub proof fn law_cards_read_back(
    db: Cards,
    rows: Seq<RecommendationRow>,
    ids: Seq<Uuid>,
    nulls_equal: bool,
    i: int,
    all: Seq<StoredRecommendation>,
    read: Seq<RecommendationRow>,
) -> (at: int)
    requires
        crate::insight::recommendations_batch(rows, ids).refusal is None,
        one_per_key(db, nulls_equal),
        are_new(db, ids, rows.len() as int),
        0 <= i < rows.len(),
        crate::insight::has_evidence(rows[i].evidence),
        forall|j: int|
            i < j < rows.len() && crate::insight::has_evidence((#[trigger] rows[j]).evidence)
                ==> !clashes(card_row(rows[i]), card_row(rows[j]), nulls_equal),
        reads_cards(
            cards_landed(db, crate::insight::recommendations_batch(rows, ids), nulls_equal),
            all,
        ),
        read.len() == all.len(),
        forall|k: int|
            0 <= k < all.len() ==> crate::insight_report::is_card(#[trigger] read[k], all[k]),
    ensures
        0 <= at < read.len(),
        crate::insight_report::stores_card(rows[i], all[at]),
        crate::insight_report::gives_card_back(read[at], rows[i]),
        one_per_key(
            cards_landed(db, crate::insight::recommendations_batch(rows, ids), nulls_equal),
            nulls_equal,
        ),
{
    let after = cards_landed(db, crate::insight::recommendations_batch(rows, ids), nulls_equal);
    let id = lemma_card_lands(db, rows, ids, nulls_equal, i);
    lemma_cards_stay_apart(db, rows, ids, nulls_equal);
    assert(after.contains_key(id));
    let at = choose|k: int| 0 <= k < all.len() && reads_card(#[trigger] all[k], after[id]);
    assert(crate::insight_report::is_card(read[at], all[at]));
    crate::insight_report::law_card_reads_back(rows[i], all[at], read[at]);
    at
}

} // verus!
