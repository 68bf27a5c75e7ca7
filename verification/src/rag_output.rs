//! The `rag_output` table: what a service produced for a course note, with the
//! files it cites. Derived data: it is replaced whenever its input changes,
//! and the links to a file go when the file does.

use std::collections::HashMap;

use vstd::prelude::*;

use crate::error::Gone;
use crate::grouping::by_key;
use crate::id::{CourseId, CourseNoteFileId, CourseNoteId, RagOutputId, Timestamp};
use crate::page::{paged, uuids, Param, ParamView, Statement, StatementView, Uuid};
use crate::sql::{Cell, Cond, Conflict, Cuts, Picking, Row, Storing, Term, Text};
use crate::transaction::{Reply, Step};

verus! {

/// A stored output, without its citations.
#[derive(Debug)]
pub struct RagOutputRow {
    pub id: RagOutputId,
    pub course_note: CourseNoteId,
    pub course: CourseId,
    pub payload: serde_json::Value,
    pub generated_at: Timestamp,
}

/// An output with the files it cites, in the order of their keys.
#[derive(Debug)]
pub struct RagOutput {
    pub id: RagOutputId,
    pub course_note: CourseNoteId,
    pub course: CourseId,
    pub sources: Vec<CourseNoteFileId>,
    pub payload: serde_json::Value,
    pub generated_at: Timestamp,
}

impl RagOutputRow {
    /// The row with its citations.
    pub fn into_rag_output(self, sources: Vec<CourseNoteFileId>) -> (output: RagOutput)
        ensures
            output == (RagOutput {
                id: self.id,
                course_note: self.course_note,
                course: self.course,
                sources,
                payload: self.payload,
                generated_at: self.generated_at,
            }),
    {
        RagOutput {
            id: self.id,
            course_note: self.course_note,
            course: self.course,
            sources,
            payload: self.payload,
            generated_at: self.generated_at,
        }
    }
}

/// A citation: an output and a file it cites.
#[derive(Clone, Copy, PartialEq, Eq, Structural, Debug)]
pub struct SourceLink {
    pub output: RagOutputId,
    pub source: CourseNoteFileId,
}

pub const SOURCES: &'static str =
    "SELECT output, source FROM rag_output_source WHERE output = ANY($1) ORDER BY source";

/// The read of the citations of several outputs, in the order of the files'
/// keys.
pub fn sources_statement(outputs: &Vec<Uuid>) -> (statement: Statement)
    ensures
        statement@ == crate::page::sends(SOURCES, seq![ParamView::Uuids(outputs@)]),
{
    Statement::new(SOURCES, vec![Param::Uuids(uuids(outputs))])
}

/// The citations as pairs of an output's key and a file.
pub open spec fn link_pairs(links: Seq<SourceLink>) -> Seq<(u128, CourseNoteFileId)> {
    Seq::new(links.len(), |i: int| (links[i].output.0.0, links[i].source))
}

/// The files that `output` cites among `links`, in order.
pub open spec fn cited(links: Seq<SourceLink>, output: u128) -> Seq<CourseNoteFileId> {
    crate::grouping::group(link_pairs(links), output)
}

/// The citations of several outputs, grouped by the key of the output: an
/// output without any has no group.
pub fn sources_for_many(links: &Vec<SourceLink>) -> (grouped: HashMap<u128, Vec<CourseNoteFileId>>)
    ensures
        crate::grouping::groups(grouped@, link_pairs(links@)),
{
    let mut pairs: Vec<(u128, CourseNoteFileId)> = Vec::new();
    let mut i: usize = 0;
    while i < links.len()
        invariant
            0 <= i <= links.len(),
            pairs@ == link_pairs(links@.take(i as int)),
        decreases links.len() - i,
    {
        pairs.push((links[i].output.0.0, links[i].source));
        i += 1;
        assert(pairs@ =~= link_pairs(links@.take(i as int)));
    }
    assert(links@.take(links.len() as int) =~= links@);
    by_key(pairs)
}

/// The citations of one output, in the order of the files' keys.
pub fn sources_for(links: &Vec<SourceLink>, output: RagOutputId) -> (sources: Vec<CourseNoteFileId>)
    ensures
        sources@ == cited(links@, output.0.0),
{
    broadcast use vstd::std_specs::hash::group_hash_axioms;

    let mut grouped = sources_for_many(links);
    let ghost groups = grouped@;
    let key: u128 = output.0.0;
    match grouped.remove(&key) {
        Some(sources) => {
            assert(groups.contains_key(key));
            sources
        },
        None => {
            assert(groups.contains_key(key) == (cited(links@, key).len() > 0));
            assert(cited(links@, key) =~= Seq::empty());
            Vec::new()
        },
    }
}

/// The rows of a page with their citations.
pub fn outputs(rows: Vec<RagOutputRow>, links: &Vec<SourceLink>) -> (items: Vec<RagOutput>)
    ensures
        items@.len() == rows@.len(),
        forall|i: int|
            0 <= i < rows@.len() ==> (#[trigger] items@[i]).id == rows@[i].id
                && items@[i].course_note == rows@[i].course_note && items@[i].course
                == rows@[i].course && items@[i].payload == rows@[i].payload
                && items@[i].generated_at == rows@[i].generated_at && items@[i].sources@ == cited(
                links@,
                rows@[i].id.0.0,
            ),
{
    broadcast use vstd::std_specs::hash::group_hash_axioms;

    let grouped = sources_for_many(links);
    let mut rest = rows;
    let mut turned: Vec<RagOutput> = Vec::new();
    while rest.len() > 0
        invariant
            rest@.len() + turned@.len() == rows@.len(),
            forall|i: int| 0 <= i < rest@.len() ==> #[trigger] rest@[i] == rows@[i],
            crate::grouping::groups(grouped@, link_pairs(links@)),
            forall|i: int|
                0 <= i < turned@.len() ==> is_output(
                    #[trigger] turned@[i],
                    rows@[rows@.len() - 1 - i],
                    links@,
                ),
        decreases rest.len(),
    {
        broadcast use vstd::std_specs::hash::group_hash_axioms;

        let ghost before = rest@;
        if let Some(row) = rest.pop() {
            assert(row == before[before.len() - 1]);
            let key: u128 = row.id.0.0;
            let sources = match grouped.get(&key) {
                Some(sources) => copied(sources),
                None => Vec::new(),
            };
            assert(sources@ =~= cited(links@, key)) by {
                assert(grouped@.contains_key(key) == (cited(links@, key).len() > 0));
            }
            turned.push(row.into_rag_output(sources));
        }
    }
    let items = crate::rag_message::oldest_first(turned);
    assert forall|i: int| 0 <= i < rows@.len() implies is_output(
        #[trigger] items@[i],
        rows@[i],
        links@,
    ) by {
        assert(items@[i] == turned@[turned@.len() - 1 - i]);
    }
    items
}

/// Whether an output is a row with its citations.
pub open spec fn is_output(output: RagOutput, row: RagOutputRow, links: Seq<SourceLink>) -> bool {
    &&& output.id == row.id
    &&& output.course_note == row.course_note
    &&& output.course == row.course
    &&& output.payload == row.payload
    &&& output.generated_at == row.generated_at
    &&& output.sources@ == cited(links, row.id.0.0)
}

fn copied(sources: &Vec<CourseNoteFileId>) -> (copy: Vec<CourseNoteFileId>)
    ensures
        copy@ == sources@,
{
    let mut copy: Vec<CourseNoteFileId> = Vec::new();
    let mut i: usize = 0;
    while i < sources.len()
        invariant
            0 <= i <= sources.len(),
            copy@ == sources@.take(i as int),
        decreases sources.len() - i,
    {
        copy.push(sources[i]);
        i += 1;
        assert(copy@ =~= sources@.take(i as int));
    }
    assert(copy@ =~= sources@);
    copy
}

/// Whether files stand in the order of their keys.
pub open spec fn in_key_order(sources: Seq<CourseNoteFileId>) -> bool {
    forall|i: int, j: int|
        0 <= i <= j < sources.len() ==> (#[trigger] sources[i]).0.0 <= (#[trigger] sources[j]).0.0
}

fn insert_in_order(sources: &mut Vec<CourseNoteFileId>, file: CourseNoteFileId)
    requires
        in_key_order(old(sources)@),
    ensures
        in_key_order(final(sources)@),
        final(sources)@.to_multiset() == old(sources)@.to_multiset().insert(file),
{
    let mut at: usize = sources.len();
    while at > 0 && sources[at - 1].0.0 > file.0.0
        invariant
            0 <= at <= sources.len(),
            sources@ == old(sources)@,
            forall|i: int|
                at <= i < sources@.len() ==> (#[trigger] sources@[i]).0.0 > file.0.0,
        decreases at,
    {
        at -= 1;
    }
    let ghost before = sources@;
    sources.insert(at, file);
    proof {
        assert(sources@ =~= before.insert(at as int, file));
        before.to_multiset_ensures();
        vstd::seq_lib::to_multiset_insert(before, at as int, file);
        assert forall|i: int, j: int| 0 <= i <= j < sources@.len() implies (#[trigger]
        sources@[i]).0.0 <= (#[trigger] sources@[j]).0.0 by {
            let a = if i < at {
                i
            } else {
                i - 1
            };
            let b = if j < at {
                j
            } else {
                j - 1
            };
            if i != at && j != at {
                assert(before[a].0.0 <= before[b].0.0);
            } else if i == at && j > at {
                assert(sources@[j] == before[j - 1]);
            } else if j == at && i < at {
                assert(sources@[i] == before[i]);
                assert(before[i].0.0 <= before[at - 1].0.0);
            }
        }
    }
}

/// The cited files in the order of their keys, the one order every read gives
/// back.
pub fn sorted(sources: &Vec<CourseNoteFileId>) -> (ordered: Vec<CourseNoteFileId>)
    ensures
        in_key_order(ordered@),
        ordered@.to_multiset() == sources@.to_multiset(),
{
    let mut ordered: Vec<CourseNoteFileId> = Vec::new();
    let mut i: usize = 0;
    assert(sources@.take(0) =~= ordered@);
    while i < sources.len()
        invariant
            0 <= i <= sources.len(),
            in_key_order(ordered@),
            ordered@.to_multiset() == sources@.take(i as int).to_multiset(),
        decreases sources.len() - i,
    {
        let file = sources[i];
        insert_in_order(&mut ordered, file);
        proof {
            sources@.take(i as int).to_multiset_ensures();
            assert(sources@.take(i + 1) =~= sources@.take(i as int).push(file));
        }
        i += 1;
    }
    assert(sources@.take(sources.len() as int) =~= sources@);
    ordered
}

/// The keys of some files, in order.
pub open spec fn file_keys(sources: Seq<CourseNoteFileId>) -> Seq<Uuid> {
    Seq::new(sources.len(), |i: int| sources[i].0)
}

fn keys(sources: &Vec<CourseNoteFileId>) -> (keys: Vec<Uuid>)
    ensures
        keys@ == file_keys(sources@),
{
    let mut keys: Vec<Uuid> = Vec::new();
    let mut i: usize = 0;
    while i < sources.len()
        invariant
            0 <= i <= sources.len(),
            keys@ == file_keys(sources@.take(i as int)),
        decreases sources.len() - i,
    {
        keys.push(sources[i].0);
        i += 1;
        assert(keys@ =~= file_keys(sources@.take(i as int)));
    }
    assert(sources@.take(sources.len() as int) =~= sources@);
    keys
}

/// The statement a create waits for.
#[derive(Clone, Copy, PartialEq, Eq, Structural, Debug)]
pub enum Create {
    /// Insert the output; its row is part of the answer.
    InsertRow,
    /// Insert its citations.
    InsertLinks,
}

pub const INSERT_OUTPUT: &'static str =
    "INSERT INTO rag_output (id, course_note, course, payload, generated_at) VALUES ($1, $2, \
     $3, $4, $5) RETURNING id, course_note, course, payload, generated_at";

pub const INSERT_LINKS: &'static str =
    "INSERT INTO rag_output_source (output, source) SELECT $1, s FROM unnest($2::uuid[]) AS t(s)";

impl Create {
    /// The statement of this step, for an output with its citations sorted.
    pub open spec fn asks(self, output: RagOutput) -> StatementView {
        match self {
            Create::InsertRow => crate::page::sends(
                INSERT_OUTPUT,
                seq![
                    ParamView::Uuid(output.id.0),
                    ParamView::Uuid(output.course_note.0),
                    ParamView::Uuid(output.course.0),
                    ParamView::Json(output.payload),
                    ParamView::I64(output.generated_at.0),
                ],
            ),
            Create::InsertLinks => crate::page::sends(
                INSERT_LINKS,
                seq![
                    ParamView::Uuid(output.id.0),
                    ParamView::Uuids(file_keys(output.sources@)),
                ],
            ),
        }
    }

    /// The statement of this step, for an output with its citations sorted.
    pub fn statement(self, output: &RagOutput) -> (statement: Statement)
        ensures
            statement@ == self.asks(*output),
    {
        match self {
            Create::InsertRow => Statement::new(
                INSERT_OUTPUT,
                vec![
                    Param::Uuid(output.id.0),
                    Param::Uuid(output.course_note.0),
                    Param::Uuid(output.course.0),
                    Param::Json(output.payload.clone()),
                    Param::I64(output.generated_at.0),
                ],
            ),
            Create::InsertLinks => Statement::new(
                INSERT_LINKS,
                vec![Param::Uuid(output.id.0), Param::Uuids(keys(&output.sources))],
            ),
        }
    }
}

/// The output a create stores: its citations in the order of their keys, so
/// that its answer equals any later read's.
pub fn create_output(
    id: RagOutputId,
    note: CourseNoteId,
    course: CourseId,
    sources: &Vec<CourseNoteFileId>,
    payload: serde_json::Value,
    now: Timestamp,
) -> (output: RagOutput)
    ensures
        output.id == id,
        output.course_note == note,
        output.course == course,
        output.payload == payload,
        output.generated_at == now,
        in_key_order(output.sources@),
        output.sources@.to_multiset() == sources@.to_multiset(),
{
    let row = RagOutputRow { id, course_note: note, course, payload, generated_at: now };
    row.into_rag_output(sorted(sources))
}

/// What a create does once the statement of `at` is answered.
pub open spec fn create_next(at: Create) -> Step<Create, (), ()> {
    match at {
        Create::InsertRow => Step::Ask(Create::InsertLinks),
        Create::InsertLinks => Step::Commit(()),
    }
}

/// Store an output with its citations: the step that follows the answer to
/// `at`. A create starts at [`Create::InsertRow`].
pub fn create(at: Create) -> (step: Step<Create, (), ()>)
    ensures
        step == create_next(at),
{
    match at {
        Create::InsertRow => Step::Ask(Create::InsertLinks),
        Create::InsertLinks => Step::Commit(()),
    }
}

pub const READ: &'static str =
    "SELECT id, course_note, course, payload, generated_at FROM rag_output WHERE id = $1";

/// The read of an output; its citations are read with [`sources_statement`].
pub fn read(id: RagOutputId) -> (statement: Statement)
    ensures
        statement@ == crate::page::sends(READ, seq![ParamView::Uuid(id.0)]),
{
    Statement::new(READ, vec![Param::Uuid(id.0)])
}

pub const LIST_FOR_FROM: &'static str =
    "rag_output WHERE course_note = $1";

pub const LIST_FOR_ORDER: &'static str = "ORDER BY id DESC";

/// The read of a note's outputs, newest first; [`outputs`] attaches the
/// citations.
pub fn list_for(
    note: CourseNoteId,
    limit: Option<i64>,
    offset: i64,
) -> (both: (Statement, Option<Statement>))
    ensures
        crate::page::pages(
            both,
            LIST_FOR_FROM@,
            LIST_FOR_ORDER@,
            seq![ParamView::Uuid(note.0)],
            limit,
            offset,
        ),
{
    let binds: Vec<Param> = vec![Param::Uuid(note.0)];
    assert(crate::page::bound(binds@) =~= seq![ParamView::Uuid(note.0)]);
    paged(LIST_FOR_FROM, LIST_FOR_ORDER, binds, limit, offset)
}

/// The statement a delete waits for.
#[derive(Clone, Copy, PartialEq, Eq, Structural, Debug)]
pub enum Delete {
    /// Read the citations: part of the answer.
    ReadLinks,
    /// Delete the citations.
    WipeLinks,
    /// Delete the output; its row is part of the answer.
    DeleteRow,
}

pub const READ_LINKS: &'static str =
    "SELECT source FROM rag_output_source WHERE output = $1 ORDER BY source";

pub const WIPE_LINKS: &'static str =
    "DELETE FROM rag_output_source WHERE output = $1";

pub const DELETE_OUTPUT: &'static str =
    "DELETE FROM rag_output WHERE id = $1 RETURNING id, course_note, course, payload, generated_at";

impl Delete {
    /// The statement of this step.
    pub open spec fn asks(self, id: RagOutputId) -> StatementView {
        let key = seq![ParamView::Uuid(id.0)];
        match self {
            Delete::ReadLinks => crate::page::sends(READ_LINKS, key),
            Delete::WipeLinks => crate::page::sends(WIPE_LINKS, key),
            Delete::DeleteRow => crate::page::sends(DELETE_OUTPUT, key),
        }
    }

    /// The statement of this step.
    pub fn statement(self, id: RagOutputId) -> (statement: Statement)
        ensures
            statement@ == self.asks(id),
    {
        let key = vec![Param::Uuid(id.0)];
        match self {
            Delete::ReadLinks => Statement::new(READ_LINKS, key),
            Delete::WipeLinks => Statement::new(WIPE_LINKS, key),
            Delete::DeleteRow => Statement::new(DELETE_OUTPUT, key),
        }
    }
}

/// What a delete does once the statement of `at` is answered.
pub open spec fn delete_next(at: Delete, reply: Reply) -> Step<Delete, (), Gone> {
    match at {
        Delete::ReadLinks => Step::Ask(Delete::WipeLinks),
        Delete::WipeLinks => Step::Ask(Delete::DeleteRow),
        Delete::DeleteRow => if reply.has_row() {
            Step::Commit(())
        } else {
            Step::Abort(Gone)
        },
    }
}

/// Delete an output with its citations: the step that follows the answer to
/// `at`. A delete starts at [`Delete::ReadLinks`].
pub fn delete(at: Delete, reply: Reply) -> (step: Step<Delete, (), Gone>)
    ensures
        step == delete_next(at, reply),
{
    match at {
        Delete::ReadLinks => Step::Ask(Delete::WipeLinks),
        Delete::WipeLinks => Step::Ask(Delete::DeleteRow),
        Delete::DeleteRow => if reply.row() {
            Step::Commit(())
        } else {
            Step::Abort(Gone)
        },
    }
}

pub const WIPE_NOTE_LINKS: &'static str =
    "DELETE FROM rag_output_source WHERE output IN (SELECT id FROM rag_output WHERE course_note \
     = $1)";

pub const WIPE_NOTE_OUTPUTS: &'static str =
    "DELETE FROM rag_output WHERE course_note = $1";

/// The deletes of a note's outputs: the citations first, then the rows they
/// belong to.
pub fn delete_for_note(note: CourseNoteId) -> (both: (Statement, Statement))
    ensures
        both.0@ == crate::page::sends(WIPE_NOTE_LINKS, seq![ParamView::Uuid(note.0)]),
        both.1@ == crate::page::sends(WIPE_NOTE_OUTPUTS, seq![ParamView::Uuid(note.0)]),
{
    (
        Statement::new(WIPE_NOTE_LINKS, vec![Param::Uuid(note.0)]),
        Statement::new(WIPE_NOTE_OUTPUTS, vec![Param::Uuid(note.0)]),
    )
}

pub const WIPE_OLDER_LINKS: &'static str =
    "DELETE FROM rag_output_source WHERE output IN (SELECT id FROM rag_output WHERE course_note \
     = $1 AND id < $2)";

pub const WIPE_OLDER_OUTPUTS: &'static str =
    "DELETE FROM rag_output WHERE course_note = $1 AND id < $2";

/// The deletes that follow a create where the new output replaces the note's
/// older ones: the citations first, then the rows they belong to. Keys rise in
/// the order they are minted, so older is below.
pub fn replace_for_note(note: CourseNoteId, created: RagOutputId) -> (both: (Statement, Statement))
    ensures
        both.0@ == crate::page::sends(
            WIPE_OLDER_LINKS,
            seq![ParamView::Uuid(note.0), ParamView::Uuid(created.0)],
        ),
        both.1@ == crate::page::sends(
            WIPE_OLDER_OUTPUTS,
            seq![ParamView::Uuid(note.0), ParamView::Uuid(created.0)],
        ),
{
    (
        Statement::new(WIPE_OLDER_LINKS, vec![Param::Uuid(note.0), Param::Uuid(created.0)]),
        Statement::new(WIPE_OLDER_OUTPUTS, vec![Param::Uuid(note.0), Param::Uuid(created.0)]),
    )
}

pub const DELETE_WITH_SOURCE: &'static str =
    "DELETE FROM rag_output_source WHERE source = $1";

/// The delete of the citations of a file.
pub fn delete_with_source(file: CourseNoteFileId) -> (statement: Statement)
    ensures
        statement@ == crate::page::sends(DELETE_WITH_SOURCE, seq![ParamView::Uuid(file.0)]),
{
    Statement::new(DELETE_WITH_SOURCE, vec![Param::Uuid(file.0)])
}

/// Two listings of the same files in the order of their keys are the same, so
/// a create answers what a later read gives back.
pub proof fn law_one_order(a: Seq<CourseNoteFileId>, b: Seq<CourseNoteFileId>)
    requires
        in_key_order(a),
        in_key_order(b),
        a.to_multiset() == b.to_multiset(),
    ensures
        a == b,
    decreases a.len(),
{
    a.to_multiset_ensures();
    b.to_multiset_ensures();
    assert(a.len() == b.len());
    if a.len() == 0 {
        assert(a =~= b);
    } else {
        let n = a.len() - 1;
        let last = a[n];
        assert(a.contains(a[n]));
        assert(b.contains(b[n]));
        assert(a.to_multiset().count(a[n]) > 0);
        assert(b.to_multiset().count(b[n]) > 0);
        assert(b.contains(a[n]));
        assert(a.contains(b[n]));
        let i = b.index_of(a[n]);
        let j = a.index_of(b[n]);
        assert(b[i].0.0 <= b[n].0.0);
        assert(a[j].0.0 <= a[n].0.0);
        assert(a[n] == b[n]);
        assert(a.drop_last().push(last) =~= a);
        assert(b.drop_last().push(last) =~= b);
        a.drop_last().to_multiset_ensures();
        b.drop_last().to_multiset_ensures();
        assert(a.drop_last().to_multiset() =~= a.to_multiset().remove(last));
        assert(b.drop_last().to_multiset() =~= b.to_multiset().remove(last));
        assert(in_key_order(a.drop_last())) by {
            assert forall|x: int, y: int| 0 <= x <= y < a.drop_last().len() implies (#[trigger]
            a.drop_last()[x]).0.0 <= (#[trigger] a.drop_last()[y]).0.0 by {
                assert(a[x].0.0 <= a[y].0.0);
            }
        }
        assert(in_key_order(b.drop_last())) by {
            assert forall|x: int, y: int| 0 <= x <= y < b.drop_last().len() implies (#[trigger]
            b.drop_last()[x]).0.0 <= (#[trigger] b.drop_last()[y]).0.0 by {
                assert(b[x].0.0 <= b[y].0.0);
            }
        }
        law_one_order(a.drop_last(), b.drop_last());
    }
}

/// One event of the replaces that run on a note: an output stored, or the
/// outputs below one swept.
pub enum Event {
    Store(u128),
    Sweep(u128),
}

/// The outputs of a note after some events.
pub open spec fn after(outputs: Set<u128>, events: Seq<Event>) -> Set<u128>
    decreases events.len(),
{
    if events.len() == 0 {
        outputs
    } else {
        let before = after(outputs, events.drop_last());
        match events.last() {
            Event::Store(id) => before.insert(id),
            Event::Sweep(id) => before.filter(|other: u128| other >= id),
        }
    }
}

/// Whether no event goes above `newest`.
pub open spec fn up_to(events: Seq<Event>, newest: u128) -> bool {
    forall|i: int|
        0 <= i < events.len() ==> (match #[trigger] events[i] {
            Event::Store(id) => id <= newest,
            Event::Sweep(id) => id <= newest,
        })
}

/// Whether every event is a sweep.
pub open spec fn only_sweeps(events: Seq<Event>) -> bool {
    forall|i: int| 0 <= i < events.len() ==> (#[trigger] events[i]) is Sweep
}

/// What was stored up to `newest` is there, and nothing above it.
proof fn lemma_newest_stays(outputs: Set<u128>, events: Seq<Event>, newest: u128)
    requires
        up_to(events, newest),
        forall|id: u128| outputs.contains(id) ==> id <= newest,
    ensures
        forall|id: u128| #[trigger] after(outputs, events).contains(id) ==> id <= newest,
        outputs.contains(newest) || events.contains(Event::Store(newest)) ==> after(
            outputs,
            events,
        ).contains(newest),
    decreases events.len(),
{
    if events.len() > 0 {
        let earlier = events.drop_last();
        assert(up_to(earlier, newest)) by {
            assert forall|i: int| 0 <= i < earlier.len() implies (match #[trigger] earlier[i] {
                Event::Store(id) => id <= newest,
                Event::Sweep(id) => id <= newest,
            }) by {
                assert(earlier[i] == events[i]);
            }
        }
        lemma_newest_stays(outputs, earlier, newest);
        let last = events[events.len() - 1];
        if events.contains(Event::Store(newest)) && last != Event::Store(newest) {
            let i = events.index_of(Event::Store(newest));
            assert(earlier[i] == Event::Store(newest));
        }
    }
}

/// However the replaces of a note interleave, the newest output alone is left
/// once every output was stored before the sweep of the newest ran.
pub proof fn law_newest_alone_is_left(
    outputs: Set<u128>,
    before: Seq<Event>,
    newest: u128,
    later: Seq<Event>,
)
    requires
        forall|id: u128| outputs.contains(id) ==> id <= newest,
        up_to(before, newest),
        before.contains(Event::Store(newest)),
        up_to(later, newest),
        only_sweeps(later),
    ensures
        after(outputs, before.push(Event::Sweep(newest)) + later) == set![newest],
    decreases later.len(),
{
    if later.len() == 0 {
        let swept = before.push(Event::Sweep(newest));
        assert(swept + later =~= swept);
        assert(swept.drop_last() =~= before);
        lemma_newest_stays(outputs, before, newest);
        assert(after(outputs, swept) =~= set![newest]);
    } else {
        let all = before.push(Event::Sweep(newest)) + later;
        let earlier = later.drop_last();
        assert(all.drop_last() =~= before.push(Event::Sweep(newest)) + earlier);
        assert(up_to(earlier, newest) && only_sweeps(earlier)) by {
            assert forall|i: int| 0 <= i < earlier.len() implies (match #[trigger] earlier[i] {
                Event::Store(id) => id <= newest,
                Event::Sweep(id) => id <= newest,
            }) && earlier[i] is Sweep by {
                assert(earlier[i] == later[i]);
            }
        }
        law_newest_alone_is_left(outputs, before, newest, earlier);
        assert(all.last() == later[later.len() - 1]);
        assert(later[later.len() - 1] is Sweep);
        assert(after(outputs, all) =~= set![newest]);
    }
}

/// The outputs, and the citations of each.
#[verifier::ext_equal]
pub struct Outputs {
    pub rows: Map<RagOutputId, CourseNoteId>,
    pub links: Set<(RagOutputId, CourseNoteFileId)>,
}

/// Whether every citation belongs to an output that is there.
pub open spec fn anchored(db: Outputs) -> bool {
    forall|link: (RagOutputId, CourseNoteFileId)| #[trigger]
        db.links.contains(link) ==> db.rows.contains_key(link.0)
}

/// What each statement of a delete does, and what it replies.
pub open spec fn delete_effect(db: Outputs, id: RagOutputId, at: Delete) -> (Outputs, Reply) {
    match at {
        Delete::ReadLinks => (db, Reply::Row),
        Delete::WipeLinks => (
            Outputs {
                links: db.links.filter(|link: (RagOutputId, CourseNoteFileId)| link.0 != id),
                ..db
            },
            Reply::Row,
        ),
        Delete::DeleteRow => (
            Outputs { rows: db.rows.remove(id), ..db },
            if db.rows.contains_key(id) {
                Reply::Row
            } else {
                Reply::Empty
            },
        ),
    }
}

/// A whole delete.
pub open spec fn delete_run(db: Outputs, id: RagOutputId) -> (Outputs, Step<Delete, (), Gone>) {
    crate::transaction::run(
        db,
        Step::Ask(Delete::ReadLinks),
        |at: Delete, reply: Reply| delete_next(at, reply),
        |outputs: Outputs, at: Delete| delete_effect(outputs, id, at),
        3,
    )
}

/// A deleted output takes its citations with it and no other's, and a missing
/// one is not found and takes nothing.
pub proof fn law_delete_takes_its_citations(
    db: Outputs,
    id: RagOutputId,
    link: (RagOutputId, CourseNoteFileId),
)
    requires
        anchored(db),
    ensures
        ({
            let end = delete_run(db, id);
            let left = crate::transaction::stored(db, end);
            &&& end.1 is Commit <==> db.rows.contains_key(id)
            &&& end.1 !is Commit ==> left == db
            &&& !left.rows.contains_key(id)
            &&& left.links.contains(link) <==> db.links.contains(link) && link.0 != id
            &&& anchored(left)
        }),
{
    reveal_with_fuel(crate::transaction::run, 4);
    let left = crate::transaction::stored(db, delete_run(db, id));
    assert forall|other: (RagOutputId, CourseNoteFileId)| #[trigger]
        left.links.contains(other) implies left.rows.contains_key(other.0) by {
        assert(db.links.contains(other));
    }
    assert(db.links.contains(link) ==> db.rows.contains_key(link.0));
}

/// What [`SOURCES`] says.
pub open spec fn sources_reading() -> Picking {
    Picking {
        skip: 0,
        head: "SELECT "@,
        columns: seq!["output"@, "source"@],
        table: "rag_output_source"@,
        conditions: seq![Cond::Among(Term::Column("output"@), Term::Bind(1))],
        rest: crate::sql::before(" ORDER BY source"@, Text::End),
    }
}

proof fn lemma_sources_reads()
    ensures
        crate::sql::spells(SOURCES@, 0, sources_reading().text()),
{
    reveal_strlit("SELECT output, source FROM rag_output_source WHERE output = ANY($1) ORDER BY source");
    reveal_strlit("SELECT ");
    reveal_strlit("output");
    reveal_strlit(", ");
    reveal_strlit("source");
    reveal_strlit(" FROM ");
    reveal_strlit("rag_output_source");
    reveal_strlit(" WHERE ");
    reveal_strlit(" = ANY(");
    reveal_strlit("$");
    reveal_strlit(")");
    reveal_strlit(" ORDER BY source");
    reveal(crate::sql::Picking::text);
    reveal_with_fuel(crate::sql::where_text, 2);
    reveal_with_fuel(crate::sql::names_text, 3);
    reveal_with_fuel(crate::sql::stands, 18);
    reveal_with_fuel(crate::sql::spells_by, 13);
    crate::sql::lemma_spells_by(SOURCES@, 0, sources_reading().text(), crate::sql::cut(7, crate::sql::cut(13, crate::sql::cut(15, crate::sql::cut(21, crate::sql::cut(27, crate::sql::cut(44, crate::sql::cut(51, crate::sql::cut(57, crate::sql::cut(64, crate::sql::cut(66, crate::sql::cut(67, crate::sql::cut(83, Cuts::Last)))))))))))));
}

/// [`sources_statement`] reads the rows it names and no other.
pub proof fn law_sources_statement_reads_its_rows(
    outputs: &Vec<Uuid>,
    sent: Statement,
    row: Row,
)
    requires
        call_ensures(sources_statement, (outputs,), sent),
    ensures
        sources_reading().is_read(sent@),
        sources_reading().picks(sent@.binds, row) == ((row["output"@] is Uuid && outputs@.contains(row["output"@]->Uuid_0))),
{
    lemma_sources_reads();
    reveal_with_fuel(crate::sql::all_hold, 2);
}

/// What [`READ`] says.
pub open spec fn read_reading() -> Picking {
    Picking {
        skip: 0,
        head: "SELECT "@,
        columns: seq!["id"@, "course_note"@, "course"@, "payload"@, "generated_at"@],
        table: "rag_output"@,
        conditions: seq![crate::sql::is_bound("id"@, 1)],
        rest: Text::End,
    }
}

proof fn lemma_read_reads()
    ensures
        crate::sql::spells(READ@, 0, read_reading().text()),
{
    reveal_strlit("SELECT id, course_note, course, payload, generated_at FROM rag_output WHERE id = $1");
    reveal_strlit("SELECT ");
    reveal_strlit("id");
    reveal_strlit(", ");
    reveal_strlit("course_note");
    reveal_strlit("course");
    reveal_strlit("payload");
    reveal_strlit("generated_at");
    reveal_strlit(" FROM ");
    reveal_strlit("rag_output");
    reveal_strlit(" WHERE ");
    reveal_strlit(" = ");
    reveal_strlit("$");
    reveal(crate::sql::Picking::text);
    reveal_with_fuel(crate::sql::where_text, 2);
    reveal_with_fuel(crate::sql::names_text, 6);
    reveal_with_fuel(crate::sql::stands, 13);
    reveal_with_fuel(crate::sql::spells_by, 17);
    crate::sql::lemma_spells_by(READ@, 0, read_reading().text(), crate::sql::cut(7, crate::sql::cut(9, crate::sql::cut(11, crate::sql::cut(22, crate::sql::cut(24, crate::sql::cut(30, crate::sql::cut(32, crate::sql::cut(39, crate::sql::cut(41, crate::sql::cut(53, crate::sql::cut(59, crate::sql::cut(69, crate::sql::cut(76, crate::sql::cut(78, crate::sql::cut(81, crate::sql::cut(83, Cuts::Last)))))))))))))))));
}

/// [`read`] reads the rows it names and no other.
pub proof fn law_read_reads_its_rows(
    id: RagOutputId,
    sent: Statement,
    row: Row,
)
    requires
        call_ensures(read, (id,), sent),
    ensures
        read_reading().is_read(sent@),
        read_reading().picks(sent@.binds, row) == (row["id"@] == Cell::Uuid(id.0)),
{
    lemma_read_reads();
    reveal_with_fuel(crate::sql::all_hold, 2);
}

/// What [`DELETE_WITH_SOURCE`] says.
pub open spec fn delete_with_source_reading() -> Picking {
    Picking {
        skip: 0,
        head: "DELETE FROM "@,
        columns: Seq::empty(),
        table: "rag_output_source"@,
        conditions: seq![crate::sql::is_bound("source"@, 1)],
        rest: Text::End,
    }
}

proof fn lemma_delete_with_source_reads()
    ensures
        crate::sql::spells(DELETE_WITH_SOURCE@, 0, delete_with_source_reading().text()),
{
    reveal_strlit("DELETE FROM rag_output_source WHERE source = $1");
    reveal_strlit("DELETE FROM ");
    reveal_strlit("rag_output_source");
    reveal_strlit(" WHERE ");
    reveal_strlit("source");
    reveal_strlit(" = ");
    reveal_strlit("$");
    reveal(crate::sql::Picking::text);
    reveal_with_fuel(crate::sql::where_text, 2);
    reveal_with_fuel(crate::sql::stands, 18);
    reveal_with_fuel(crate::sql::spells_by, 7);
    crate::sql::lemma_spells_by(DELETE_WITH_SOURCE@, 0, delete_with_source_reading().text(), crate::sql::cut(12, crate::sql::cut(29, crate::sql::cut(36, crate::sql::cut(42, crate::sql::cut(45, crate::sql::cut(47, Cuts::Last)))))));
}

/// [`delete_with_source`] deletes the rows it names and no other.
pub proof fn law_delete_with_source_deletes_its_rows(
    file: CourseNoteFileId,
    sent: Statement,
    row: Row,
)
    requires
        call_ensures(delete_with_source, (file,), sent),
    ensures
        delete_with_source_reading().is_read(sent@),
        delete_with_source_reading().picks(sent@.binds, row) == (row["source"@] == Cell::Uuid(file.0)),
{
    lemma_delete_with_source_reads();
    reveal_with_fuel(crate::sql::all_hold, 2);
}

/// What [`LIST_FOR_FROM`] says.
pub open spec fn list_for_from_reading() -> Picking {
    Picking {
        skip: 0,
        head: ""@,
        columns: Seq::empty(),
        table: "rag_output"@,
        conditions: seq![crate::sql::is_bound("course_note"@, 1)],
        rest: Text::End,
    }
}

proof fn lemma_list_for_from_reads()
    ensures
        crate::sql::spells(LIST_FOR_FROM@, 0, list_for_from_reading().text()),
{
    reveal_strlit("rag_output WHERE course_note = $1");
    reveal_strlit("");
    reveal_strlit("rag_output");
    reveal_strlit(" WHERE ");
    reveal_strlit("course_note");
    reveal_strlit(" = ");
    reveal_strlit("$");
    reveal(crate::sql::Picking::text);
    reveal_with_fuel(crate::sql::where_text, 2);
    reveal_with_fuel(crate::sql::stands, 12);
    reveal_with_fuel(crate::sql::spells_by, 7);
    crate::sql::lemma_spells_by(LIST_FOR_FROM@, 0, list_for_from_reading().text(), crate::sql::cut(0, crate::sql::cut(10, crate::sql::cut(17, crate::sql::cut(28, crate::sql::cut(31, crate::sql::cut(33, Cuts::Last)))))));
}

/// [`list_for`] pages the rows it names and no other.
pub proof fn law_list_for_reads_its_rows(
    note: CourseNoteId,
    limit: Option<i64>,
    offset: i64,
    both: (Statement, Option<Statement>),
    row: Row,
)
    requires
        call_ensures(list_for, (note, limit, offset), both),
    ensures
        crate::sql::spells(
            both.0@.sql,
            0,
            crate::sql::before("SELECT * FROM "@, crate::sql::opened(list_for_from_reading().text())),
        ),
        list_for_from_reading().picks(both.0@.binds, row) == (row["course_note"@] == Cell::Uuid(note.0)),
{
    lemma_list_for_from_reads();
    reveal(crate::sql::Picking::text);
    reveal_with_fuel(crate::sql::where_text, 2);
    reveal_with_fuel(crate::sql::is_open, 7);
    reveal_with_fuel(crate::sql::all_hold, 2);
    crate::page::law_page_reads_its_rows(
        both,
        LIST_FOR_FROM@,
        LIST_FOR_ORDER@,
        seq![ParamView::Uuid(note.0)],
        limit,
        offset,
        list_for_from_reading().text(),
    );
}

/// What [`INSERT_OUTPUT`] says.
pub open spec fn insert_output_reading() -> Storing {
    Storing {
        head: "INSERT INTO "@,
        table: "rag_output"@,
        columns: seq!["id"@, "course_note"@, "course"@, "payload"@, "generated_at"@],
        values: seq![Term::Bind(1), Term::Bind(2), Term::Bind(3), Term::Bind(4), Term::Bind(5)],
        selected: false,
        conflict: Conflict::Unread,
        rest: crate::sql::returning(),
    }
}

proof fn lemma_insert_output_reads()
    ensures
        crate::sql::spells(INSERT_OUTPUT@, 0, insert_output_reading().text()),
{
    reveal_strlit("INSERT INTO rag_output (id, course_note, course, payload, generated_at) VALUES ($1, $2, $3, $4, $5) RETURNING id, course_note, course, payload, generated_at");
    reveal_strlit("INSERT INTO ");
    reveal_strlit("rag_output");
    reveal_strlit(" (");
    reveal_strlit("id");
    reveal_strlit(", ");
    reveal_strlit("course_note");
    reveal_strlit("course");
    reveal_strlit("payload");
    reveal_strlit("generated_at");
    reveal_strlit(") VALUES (");
    reveal_strlit("$");
    reveal_strlit(")");
    reveal_strlit(" RETURNING ");
    reveal(crate::sql::Storing::text);
    reveal_with_fuel(crate::sql::names_text, 6);
    reveal_with_fuel(crate::sql::values_text, 6);
    reveal_with_fuel(crate::sql::stands, 13);
    reveal_with_fuel(crate::sql::spells_by, 25);
    crate::sql::lemma_spells_by(INSERT_OUTPUT@, 0, insert_output_reading().text(), crate::sql::cut(12, crate::sql::cut(22, crate::sql::cut(24, crate::sql::cut(26, crate::sql::cut(28, crate::sql::cut(39, crate::sql::cut(41, crate::sql::cut(47, crate::sql::cut(49, crate::sql::cut(56, crate::sql::cut(58, crate::sql::cut(70, crate::sql::cut(80, crate::sql::cut(82, crate::sql::cut(84, crate::sql::cut(86, crate::sql::cut(88, crate::sql::cut(90, crate::sql::cut(92, crate::sql::cut(94, crate::sql::cut(96, crate::sql::cut(98, crate::sql::cut(99, crate::sql::cut(110, Cuts::Last)))))))))))))))))))))))));
}

/// What [`Create::InsertRow`] stores, column by column, is what it is given.
pub proof fn law_create_insert_row_lands_in_its_columns(
    output: RagOutput,
)
    ensures
        ({
            let sent = Create::InsertRow.asks(output);
            &&& insert_output_reading().is_read(sent)
            &&& insert_output_reading().stores(sent.binds) == seq![
                ("id"@, Cell::Uuid(output.id.0)),
                ("course_note"@, Cell::Uuid(output.course_note.0)),
                ("course"@, Cell::Uuid(output.course.0)),
                ("payload"@, Cell::Json(output.payload)),
                ("generated_at"@, Cell::Int(output.generated_at.0 as int)),
            ]
        }),
{
    lemma_insert_output_reads();
}

/// The text of [`INSERT_LINKS`], taken apart at its placeholders.
pub open spec fn insert_links_text() -> Text {
    crate::sql::before("INSERT INTO rag_output_source (output, source)"@, crate::sql::before(" SELECT "@, crate::sql::before(crate::text::placeholder(1), crate::sql::before(", s FROM unnest("@, crate::sql::before(crate::text::placeholder(2), crate::sql::before("::uuid[]) AS t(s)"@, Text::End))))))
}

proof fn lemma_insert_links_reads()
    ensures
        crate::sql::spells(INSERT_LINKS@, 0, insert_links_text()),
{
    reveal_strlit("INSERT INTO rag_output_source (output, source) SELECT $1, s FROM unnest($2::uuid[]) AS t(s)");
    reveal_strlit("INSERT INTO rag_output_source (output, source)");
    reveal_strlit(" SELECT ");
    reveal_strlit("$");
    reveal_strlit(", s FROM unnest(");
    reveal_strlit("::uuid[]) AS t(s)");
    reveal_with_fuel(crate::sql::stands, 47);
    reveal_with_fuel(crate::sql::spells_by, 7);
    crate::sql::lemma_spells_by(INSERT_LINKS@, 0, insert_links_text(), crate::sql::cut(46, crate::sql::cut(54, crate::sql::cut(56, crate::sql::cut(72, crate::sql::cut(74, crate::sql::cut(91, Cuts::Last)))))));
}

/// [`Create::InsertLinks`] binds each value at its own place in the text.
pub proof fn law_create_insert_links_binds_its_values(
    output: RagOutput,
)
    ensures
        ({
            let sent = Create::InsertLinks.asks(output);
            &&& crate::sql::spells(sent.sql, 0, insert_links_text())
            &&& sent.binds.len() == 2
            &&& crate::sql::cell(sent.binds[0]) == Cell::Uuid(output.id.0)
            &&& crate::sql::cell(sent.binds[1]) == Cell::Uuids(file_keys(output.sources@))
        }),
{
    lemma_insert_links_reads();
}

/// What [`READ_LINKS`] says.
pub open spec fn read_links_reading() -> Picking {
    Picking {
        skip: 0,
        head: "SELECT "@,
        columns: seq!["source"@],
        table: "rag_output_source"@,
        conditions: seq![crate::sql::is_bound("output"@, 1)],
        rest: crate::sql::before(" ORDER BY source"@, Text::End),
    }
}

proof fn lemma_read_links_reads()
    ensures
        crate::sql::spells(READ_LINKS@, 0, read_links_reading().text()),
{
    reveal_strlit("SELECT source FROM rag_output_source WHERE output = $1 ORDER BY source");
    reveal_strlit("SELECT ");
    reveal_strlit("source");
    reveal_strlit(" FROM ");
    reveal_strlit("rag_output_source");
    reveal_strlit(" WHERE ");
    reveal_strlit("output");
    reveal_strlit(" = ");
    reveal_strlit("$");
    reveal_strlit(" ORDER BY source");
    reveal(crate::sql::Picking::text);
    reveal_with_fuel(crate::sql::where_text, 2);
    reveal_with_fuel(crate::sql::names_text, 2);
    reveal_with_fuel(crate::sql::stands, 18);
    reveal_with_fuel(crate::sql::spells_by, 10);
    crate::sql::lemma_spells_by(READ_LINKS@, 0, read_links_reading().text(), crate::sql::cut(7, crate::sql::cut(13, crate::sql::cut(19, crate::sql::cut(36, crate::sql::cut(43, crate::sql::cut(49, crate::sql::cut(52, crate::sql::cut(54, crate::sql::cut(70, Cuts::Last))))))))));
}

/// [`Delete::ReadLinks`] reads the rows it names and no other.
pub proof fn law_delete_read_links_reads_its_rows(
    id: RagOutputId,
    row: Row,
)
    ensures
        ({
            let sent = Delete::ReadLinks.asks(id);
            &&& read_links_reading().is_read(sent)
            &&& read_links_reading().picks(sent.binds, row) == (row["output"@] == Cell::Uuid(id.0))
        }),
{
    lemma_read_links_reads();
    reveal_with_fuel(crate::sql::all_hold, 2);
}

/// What [`WIPE_LINKS`] says.
pub open spec fn wipe_links_reading() -> Picking {
    Picking {
        skip: 0,
        head: "DELETE FROM "@,
        columns: Seq::empty(),
        table: "rag_output_source"@,
        conditions: seq![crate::sql::is_bound("output"@, 1)],
        rest: Text::End,
    }
}

proof fn lemma_wipe_links_reads()
    ensures
        crate::sql::spells(WIPE_LINKS@, 0, wipe_links_reading().text()),
{
    reveal_strlit("DELETE FROM rag_output_source WHERE output = $1");
    reveal_strlit("DELETE FROM ");
    reveal_strlit("rag_output_source");
    reveal_strlit(" WHERE ");
    reveal_strlit("output");
    reveal_strlit(" = ");
    reveal_strlit("$");
    reveal(crate::sql::Picking::text);
    reveal_with_fuel(crate::sql::where_text, 2);
    reveal_with_fuel(crate::sql::stands, 18);
    reveal_with_fuel(crate::sql::spells_by, 7);
    crate::sql::lemma_spells_by(WIPE_LINKS@, 0, wipe_links_reading().text(), crate::sql::cut(12, crate::sql::cut(29, crate::sql::cut(36, crate::sql::cut(42, crate::sql::cut(45, crate::sql::cut(47, Cuts::Last)))))));
}

/// [`Delete::WipeLinks`] deletes the rows it names and no other.
pub proof fn law_delete_wipe_links_deletes_its_rows(
    id: RagOutputId,
    row: Row,
)
    ensures
        ({
            let sent = Delete::WipeLinks.asks(id);
            &&& wipe_links_reading().is_read(sent)
            &&& wipe_links_reading().picks(sent.binds, row) == (row["output"@] == Cell::Uuid(id.0))
        }),
{
    lemma_wipe_links_reads();
    reveal_with_fuel(crate::sql::all_hold, 2);
}

/// What [`DELETE_OUTPUT`] says.
pub open spec fn delete_output_reading() -> Picking {
    Picking {
        skip: 0,
        head: "DELETE FROM "@,
        columns: Seq::empty(),
        table: "rag_output"@,
        conditions: seq![crate::sql::is_bound("id"@, 1)],
        rest: crate::sql::returning(),
    }
}

proof fn lemma_delete_output_reads()
    ensures
        crate::sql::spells(DELETE_OUTPUT@, 0, delete_output_reading().text()),
{
    reveal_strlit("DELETE FROM rag_output WHERE id = $1 RETURNING id, course_note, course, payload, generated_at");
    reveal_strlit("DELETE FROM ");
    reveal_strlit("rag_output");
    reveal_strlit(" WHERE ");
    reveal_strlit("id");
    reveal_strlit(" = ");
    reveal_strlit("$");
    reveal_strlit(" RETURNING ");
    reveal(crate::sql::Picking::text);
    reveal_with_fuel(crate::sql::where_text, 2);
    reveal_with_fuel(crate::sql::stands, 13);
    reveal_with_fuel(crate::sql::spells_by, 8);
    crate::sql::lemma_spells_by(DELETE_OUTPUT@, 0, delete_output_reading().text(), crate::sql::cut(12, crate::sql::cut(22, crate::sql::cut(29, crate::sql::cut(31, crate::sql::cut(34, crate::sql::cut(36, crate::sql::cut(47, Cuts::Last))))))));
}

/// [`Delete::DeleteRow`] deletes the rows it names and no other.
pub proof fn law_delete_delete_row_deletes_its_rows(
    id: RagOutputId,
    row: Row,
)
    ensures
        ({
            let sent = Delete::DeleteRow.asks(id);
            &&& delete_output_reading().is_read(sent)
            &&& delete_output_reading().picks(sent.binds, row) == (row["id"@] == Cell::Uuid(id.0))
        }),
{
    lemma_delete_output_reads();
    reveal_with_fuel(crate::sql::all_hold, 2);
}

/// What [`WIPE_NOTE_LINKS`] says.
pub open spec fn wipe_note_links_reading() -> Picking {
    Picking {
        skip: 0,
        head: "DELETE FROM rag_output_source WHERE output IN (SELECT id FROM "@,
        columns: Seq::empty(),
        table: "rag_output"@,
        conditions: seq![crate::sql::is_bound("course_note"@, 1)],
        rest: crate::sql::before(")"@, Text::End),
    }
}

proof fn lemma_wipe_note_links_reads()
    ensures
        crate::sql::spells(WIPE_NOTE_LINKS@, 0, wipe_note_links_reading().text()),
{
    reveal_strlit("DELETE FROM rag_output_source WHERE output IN (SELECT id FROM rag_output WHERE course_note = $1)");
    reveal_strlit("DELETE FROM rag_output_source WHERE output IN (SELECT id FROM ");
    reveal_strlit("rag_output");
    reveal_strlit(" WHERE ");
    reveal_strlit("course_note");
    reveal_strlit(" = ");
    reveal_strlit("$");
    reveal_strlit(")");
    reveal(crate::sql::Picking::text);
    reveal_with_fuel(crate::sql::where_text, 2);
    reveal_with_fuel(crate::sql::stands, 63);
    reveal_with_fuel(crate::sql::spells_by, 8);
    crate::sql::lemma_spells_by(WIPE_NOTE_LINKS@, 0, wipe_note_links_reading().text(), crate::sql::cut(62, crate::sql::cut(72, crate::sql::cut(79, crate::sql::cut(90, crate::sql::cut(93, crate::sql::cut(95, crate::sql::cut(96, Cuts::Last))))))));
}

/// What [`WIPE_NOTE_OUTPUTS`] says.
pub open spec fn wipe_note_outputs_reading() -> Picking {
    Picking {
        skip: 0,
        head: "DELETE FROM "@,
        columns: Seq::empty(),
        table: "rag_output"@,
        conditions: seq![crate::sql::is_bound("course_note"@, 1)],
        rest: Text::End,
    }
}

proof fn lemma_wipe_note_outputs_reads()
    ensures
        crate::sql::spells(WIPE_NOTE_OUTPUTS@, 0, wipe_note_outputs_reading().text()),
{
    reveal_strlit("DELETE FROM rag_output WHERE course_note = $1");
    reveal_strlit("DELETE FROM ");
    reveal_strlit("rag_output");
    reveal_strlit(" WHERE ");
    reveal_strlit("course_note");
    reveal_strlit(" = ");
    reveal_strlit("$");
    reveal(crate::sql::Picking::text);
    reveal_with_fuel(crate::sql::where_text, 2);
    reveal_with_fuel(crate::sql::stands, 13);
    reveal_with_fuel(crate::sql::spells_by, 7);
    crate::sql::lemma_spells_by(WIPE_NOTE_OUTPUTS@, 0, wipe_note_outputs_reading().text(), crate::sql::cut(12, crate::sql::cut(22, crate::sql::cut(29, crate::sql::cut(40, crate::sql::cut(43, crate::sql::cut(45, Cuts::Last)))))));
}

/// What [`WIPE_OLDER_LINKS`] says.
pub open spec fn wipe_older_links_reading() -> Picking {
    Picking {
        skip: 0,
        head: "DELETE FROM rag_output_source WHERE output IN (SELECT id FROM "@,
        columns: Seq::empty(),
        table: "rag_output"@,
        conditions: seq![crate::sql::is_bound("course_note"@, 1), Cond::Below(crate::sql::column("id"@), crate::sql::bind(2))],
        rest: crate::sql::before(")"@, Text::End),
    }
}

proof fn lemma_wipe_older_links_reads()
    ensures
        crate::sql::spells(WIPE_OLDER_LINKS@, 0, wipe_older_links_reading().text()),
{
    reveal_strlit("DELETE FROM rag_output_source WHERE output IN (SELECT id FROM rag_output WHERE course_note = $1 AND id < $2)");
    reveal_strlit("DELETE FROM rag_output_source WHERE output IN (SELECT id FROM ");
    reveal_strlit("rag_output");
    reveal_strlit(" WHERE ");
    reveal_strlit("course_note");
    reveal_strlit(" = ");
    reveal_strlit("$");
    reveal_strlit(" AND ");
    reveal_strlit("id");
    reveal_strlit(" < ");
    reveal_strlit(")");
    reveal(crate::sql::Picking::text);
    reveal_with_fuel(crate::sql::where_text, 3);
    reveal_with_fuel(crate::sql::stands, 63);
    reveal_with_fuel(crate::sql::spells_by, 12);
    crate::sql::lemma_spells_by(WIPE_OLDER_LINKS@, 0, wipe_older_links_reading().text(), crate::sql::cut(62, crate::sql::cut(72, crate::sql::cut(79, crate::sql::cut(90, crate::sql::cut(93, crate::sql::cut(95, crate::sql::cut(100, crate::sql::cut(102, crate::sql::cut(105, crate::sql::cut(107, crate::sql::cut(108, Cuts::Last))))))))))));
}

/// What [`WIPE_OLDER_OUTPUTS`] says.
pub open spec fn wipe_older_outputs_reading() -> Picking {
    Picking {
        skip: 0,
        head: "DELETE FROM "@,
        columns: Seq::empty(),
        table: "rag_output"@,
        conditions: seq![crate::sql::is_bound("course_note"@, 1), Cond::Below(crate::sql::column("id"@), crate::sql::bind(2))],
        rest: Text::End,
    }
}

proof fn lemma_wipe_older_outputs_reads()
    ensures
        crate::sql::spells(WIPE_OLDER_OUTPUTS@, 0, wipe_older_outputs_reading().text()),
{
    reveal_strlit("DELETE FROM rag_output WHERE course_note = $1 AND id < $2");
    reveal_strlit("DELETE FROM ");
    reveal_strlit("rag_output");
    reveal_strlit(" WHERE ");
    reveal_strlit("course_note");
    reveal_strlit(" = ");
    reveal_strlit("$");
    reveal_strlit(" AND ");
    reveal_strlit("id");
    reveal_strlit(" < ");
    reveal(crate::sql::Picking::text);
    reveal_with_fuel(crate::sql::where_text, 3);
    reveal_with_fuel(crate::sql::stands, 13);
    reveal_with_fuel(crate::sql::spells_by, 11);
    crate::sql::lemma_spells_by(WIPE_OLDER_OUTPUTS@, 0, wipe_older_outputs_reading().text(), crate::sql::cut(12, crate::sql::cut(22, crate::sql::cut(29, crate::sql::cut(40, crate::sql::cut(43, crate::sql::cut(45, crate::sql::cut(50, crate::sql::cut(52, crate::sql::cut(55, crate::sql::cut(57, Cuts::Last)))))))))));
}

/// The outputs of the note go, and before them the citations of those outputs:
/// both statements pick the outputs of the note and no other.
pub proof fn law_delete_for_note_deletes_its_rows(
    note: CourseNoteId,
    both: (Statement, Statement),
    row: Row,
)
    requires
        call_ensures(delete_for_note, (note,), both),
    ensures
        wipe_note_links_reading().is_read(both.0@),
        wipe_note_links_reading().picks(both.0@.binds, row) == (row["course_note"@] == Cell::Uuid(note.0)),
        wipe_note_outputs_reading().is_read(both.1@),
        wipe_note_outputs_reading().picks(both.1@.binds, row) == (row["course_note"@] == Cell::Uuid(note.0)),
{
    lemma_wipe_note_links_reads();
    lemma_wipe_note_outputs_reads();
    reveal_with_fuel(crate::sql::all_hold, 2);
}

/// What an output replaces are the note's outputs below its own key, and before
/// them their citations.
pub proof fn law_replace_for_note_deletes_its_rows(
    note: CourseNoteId,
    created: RagOutputId,
    both: (Statement, Statement),
    row: Row,
)
    requires
        call_ensures(replace_for_note, (note, created), both),
    ensures
        wipe_older_links_reading().is_read(both.0@),
        wipe_older_links_reading().picks(both.0@.binds, row) == (row["course_note"@] == Cell::Uuid(note.0) && (row["id"@] is Uuid && (row["id"@]->Uuid_0).0 < (created.0).0)),
        wipe_older_outputs_reading().is_read(both.1@),
        wipe_older_outputs_reading().picks(both.1@.binds, row) == (row["course_note"@] == Cell::Uuid(note.0) && (row["id"@] is Uuid && (row["id"@]->Uuid_0).0 < (created.0).0)),
{
    lemma_wipe_older_links_reads();
    lemma_wipe_older_outputs_reads();
    reveal_with_fuel(crate::sql::all_hold, 3);
}

} // verus!
