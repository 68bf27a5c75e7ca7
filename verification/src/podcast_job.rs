//! The `podcast_job` table: one row for each submitted episode. Every write is
//! one conditional statement: a report names the state it was judged against
//! and moves nothing once a concurrent write moved the row.

use vstd::prelude::*;

use crate::id::{CourseNoteId, PodcastJobId, Timestamp, UserId};
use crate::page::{
    opt_string, opt_text, paged, uuids, Bits, Param, ParamView, Statement, Uuid,
};
use crate::sql::{Cell, Cond, Conflict, Cuts, Expr, Picking, Row, Storing, Term, Text, Writing};

verus! {

/// Where a job is.
#[derive(Clone, Copy, PartialEq, Eq, Structural, Debug)]
pub enum PodcastJobState {
    Queued,
    Running,
    Done,
    Failed,
    Cancelled,
}

impl PodcastJobState {
    /// The stored name of a state.
    pub open spec fn name(self) -> Seq<char> {
        match self {
            PodcastJobState::Queued => "queued"@,
            PodcastJobState::Running => "running"@,
            PodcastJobState::Done => "done"@,
            PodcastJobState::Failed => "failed"@,
            PodcastJobState::Cancelled => "cancelled"@,
        }
    }

    /// The stored name of a state.
    pub fn as_str(self) -> (name: &'static str)
        ensures
            name@ == self.name(),
    {
        match self {
            PodcastJobState::Queued => "queued",
            PodcastJobState::Running => "running",
            PodcastJobState::Done => "done",
            PodcastJobState::Failed => "failed",
            PodcastJobState::Cancelled => "cancelled",
        }
    }

    /// Whether a job in this state is still under way.
    pub open spec fn live(self) -> bool {
        self == PodcastJobState::Queued || self == PodcastJobState::Running
    }
}

/// A job.
#[derive(Debug)]
pub struct PodcastJob {
    pub id: PodcastJobId,
    pub user_id: UserId,
    pub source_id: String,
    pub format: Option<String>,
    pub state: PodcastJobState,
    pub stage: String,
    pub progress: Bits,
    pub error_code: Option<String>,
    pub audio_key: Option<String>,
    pub audio_name: Option<String>,
    pub audio_type: Option<String>,
    pub audio_bytes: Option<i64>,
    pub duration_secs: Option<Bits>,
    pub eta_secs: Option<i64>,
    pub created_at: Timestamp,
    pub updated_at: Timestamp,
}

pub const INSERT: &'static str =
    "INSERT INTO podcast_job (id, user_id, source_id, format, state, stage, progress, \
     error_code, audio_key, audio_name, audio_type, audio_bytes, duration_secs, eta_secs, \
     created_at, updated_at) VALUES ($1, $2, $3, $4, $5, $6, $7, $8, $9, $10, $11, $12, $13, \
     $14, $15, $15) RETURNING id, user_id, source_id, format, state, stage, progress, \
     error_code, audio_key, audio_name, audio_type, audio_bytes, duration_secs, eta_secs, \
     created_at, updated_at";

/// The insert of a fresh job, whose two stamps are the same.
pub fn insert(job: &PodcastJob) -> (statement: Statement)
    ensures
        statement@ == crate::page::sends(
            INSERT,
            seq![
                ParamView::Uuid(job.id.0),
                ParamView::Uuid(job.user_id.0),
                ParamView::Text(job.source_id@),
                ParamView::OptText(crate::page::opt_string_view(job.format)),
                ParamView::Text(job.state.name()),
                ParamView::Text(job.stage@),
                ParamView::Real(job.progress),
                ParamView::OptText(crate::page::opt_string_view(job.error_code)),
                ParamView::OptText(crate::page::opt_string_view(job.audio_key)),
                ParamView::OptText(crate::page::opt_string_view(job.audio_name)),
                ParamView::OptText(crate::page::opt_string_view(job.audio_type)),
                ParamView::OptI64(job.audio_bytes),
                ParamView::OptReal(job.duration_secs),
                ParamView::OptI64(job.eta_secs),
                ParamView::I64(job.created_at.0),
            ],
        ),
{
    Statement::new(
        INSERT,
        vec![
            Param::Uuid(job.id.0),
            Param::Uuid(job.user_id.0),
            Param::Text(job.source_id.clone()),
            Param::OptText(opt_string(&job.format)),
            Param::Text(job.state.as_str().to_owned()),
            Param::Text(job.stage.clone()),
            Param::Real(job.progress),
            Param::OptText(opt_string(&job.error_code)),
            Param::OptText(opt_string(&job.audio_key)),
            Param::OptText(opt_string(&job.audio_name)),
            Param::OptText(opt_string(&job.audio_type)),
            Param::OptI64(job.audio_bytes),
            Param::OptReal(job.duration_secs),
            Param::OptI64(job.eta_secs),
            Param::I64(job.created_at.0),
        ],
    )
}

pub const READ: &'static str =
    "SELECT id, user_id, source_id, format, state, stage, progress, error_code, audio_key, \
     audio_name, audio_type, audio_bytes, duration_secs, eta_secs, created_at, updated_at FROM \
     podcast_job WHERE id = $1";

/// The read of a job, whoever owns it.
pub fn read(id: PodcastJobId) -> (statement: Statement)
    ensures
        statement@ == crate::page::sends(READ, seq![ParamView::Uuid(id.0)]),
{
    Statement::new(READ, vec![Param::Uuid(id.0)])
}

pub const READ_FOR: &'static str =
    "SELECT id, user_id, source_id, format, state, stage, progress, error_code, audio_key, \
     audio_name, audio_type, audio_bytes, duration_secs, eta_secs, created_at, updated_at FROM \
     podcast_job WHERE id = $1 AND user_id = $2";

/// The read of a job, only for its owner: a foreign key reads as absent.
pub fn read_for(id: PodcastJobId, user: UserId) -> (statement: Statement)
    ensures
        statement@ == crate::page::sends(
            READ_FOR,
            seq![ParamView::Uuid(id.0), ParamView::Uuid(user.0)],
        ),
{
    Statement::new(READ_FOR, vec![Param::Uuid(id.0), Param::Uuid(user.0)])
}

pub const LIST_FOR_USER_FROM: &'static str =
    "podcast_job WHERE user_id = $1";

pub const LIST_FOR_USER_ORDER: &'static str = "ORDER BY created_at DESC, id DESC";

/// The read of a user's jobs, newest first; [`with_source_titles`] gives their
/// titles.
pub fn list_for_user(
    user: UserId,
    limit: Option<i64>,
    offset: i64,
) -> (both: (Statement, Option<Statement>))
    ensures
        crate::page::pages(
            both,
            LIST_FOR_USER_FROM@,
            LIST_FOR_USER_ORDER@,
            seq![ParamView::Uuid(user.0)],
            limit,
            offset,
        ),
{
    let binds: Vec<Param> = vec![Param::Uuid(user.0)];
    assert(crate::page::bound(binds@) =~= seq![ParamView::Uuid(user.0)]);
    paged(LIST_FOR_USER_FROM, LIST_FOR_USER_ORDER, binds, limit, offset)
}

/// A note and its title.
#[derive(Debug)]
pub struct NoteTitle {
    pub id: CourseNoteId,
    pub title: String,
}

pub const SOURCE_TITLES: &'static str =
    "SELECT id, title FROM course_note WHERE id = ANY($1)";

/// The read of the titles of the notes a page of jobs narrates: one statement
/// however many there are, and none for an empty page.
pub fn source_titles(notes: &Vec<Uuid>) -> (statement: Option<Statement>)
    ensures
        notes@.len() == 0 ==> statement is None,
        notes@.len() > 0 ==> statement is Some && statement->0@ == crate::page::sends(
            SOURCE_TITLES,
            seq![ParamView::Uuids(notes@)],
        ),
{
    if notes.len() == 0 {
        None
    } else {
        Some(Statement::new(SOURCE_TITLES, vec![Param::Uuids(uuids(notes))]))
    }
}

/// The title of a note among the rows that were read: the last row of its key.
pub open spec fn title_of(titles: Seq<NoteTitle>, note: CourseNoteId) -> Option<Seq<char>>
    decreases titles.len(),
{
    if titles.len() == 0 {
        None
    } else if titles.last().id == note {
        Some(titles.last().title@)
    } else {
        title_of(titles.drop_last(), note)
    }
}

fn find_title(titles: &Vec<NoteTitle>, note: CourseNoteId) -> (title: Option<String>)
    ensures
        crate::page::opt_string_view(title) == title_of(titles@, note),
{
    let mut i: usize = titles.len();
    assert(titles@.take(titles.len() as int) =~= titles@);
    while i > 0
        invariant
            0 <= i <= titles.len(),
            title_of(titles@, note) == title_of(titles@.take(i as int), note),
        decreases i,
    {
        let row = &titles[i - 1];
        let ghost seen = titles@.take(i as int);
        assert(seen.last() == *row);
        assert(seen.drop_last() =~= titles@.take(i - 1));
        if row.id == note {
            return Some(row.title.clone());
        }
        i -= 1;
    }
    None
}

/// The titles of the notes that the jobs of a page narrate, in the order of
/// the jobs: a note that is gone has none, and its job stays.
pub fn with_source_titles(notes: &Vec<CourseNoteId>, titles: &Vec<NoteTitle>) -> (paired: Vec<
    Option<String>,
>)
    ensures
        paired@.len() == notes@.len(),
        forall|i: int|
            0 <= i < notes@.len() ==> crate::page::opt_string_view(#[trigger] paired@[i])
                == title_of(titles@, notes@[i]),
{
    let mut paired: Vec<Option<String>> = Vec::new();
    let mut i: usize = 0;
    while i < notes.len()
        invariant
            0 <= i <= notes.len(),
            paired@.len() == i,
            forall|k: int|
                0 <= k < i ==> crate::page::opt_string_view(#[trigger] paired@[k]) == title_of(
                    titles@,
                    notes@[k],
                ),
        decreases notes.len() - i,
    {
        paired.push(find_title(titles, notes[i]));
        i += 1;
    }
    paired
}

pub const REPORT: &'static str =
    "UPDATE podcast_job SET state = $3, stage = $4, progress = $5, error_code = $6, format = \
     COALESCE(format, $7::text), updated_at = $8 WHERE id = $1 AND state = $2 RETURNING id, \
     user_id, source_id, format, state, stage, progress, error_code, audio_key, audio_name, \
     audio_type, audio_bytes, duration_secs, eta_secs, created_at, updated_at";

/// The write of a report: it moves the row only while it is in the state `from`
/// the report was judged against, and fills the format once.
pub fn report(
    id: PodcastJobId,
    from: PodcastJobState,
    to: PodcastJobState,
    stage: &str,
    progress: Bits,
    error_code: Option<&str>,
    format: Option<&str>,
    now: Timestamp,
) -> (statement: Statement)
    ensures
        statement@ == crate::page::sends(
            REPORT,
            seq![
                ParamView::Uuid(id.0),
                ParamView::Text(from.name()),
                ParamView::Text(to.name()),
                ParamView::Text(stage@),
                ParamView::Real(progress),
                ParamView::OptText(crate::page::opt_view(error_code)),
                ParamView::OptText(crate::page::opt_view(format)),
                ParamView::I64(now.0),
            ],
        ),
{
    Statement::new(
        REPORT,
        vec![
            Param::Uuid(id.0),
            Param::Text(from.as_str().to_owned()),
            Param::Text(to.as_str().to_owned()),
            Param::Text(stage.to_owned()),
            Param::Real(progress),
            Param::OptText(opt_text(error_code)),
            Param::OptText(opt_text(format)),
            Param::I64(now.0),
        ],
    )
}

pub const SET_CANCELLED: &'static str =
    "UPDATE podcast_job SET state = 'cancelled', stage = '', updated_at = $2 WHERE id = $1 AND \
     state IN ('queued', 'running') RETURNING id, user_id, source_id, format, state, stage, \
     progress, error_code, audio_key, audio_name, audio_type, audio_bytes, duration_secs, \
     eta_secs, created_at, updated_at";

/// The cancel of a job that is still under way.
pub fn set_cancelled(id: PodcastJobId, now: Timestamp) -> (statement: Statement)
    ensures
        statement@ == crate::page::sends(
            SET_CANCELLED,
            seq![ParamView::Uuid(id.0), ParamView::I64(now.0)],
        ),
{
    Statement::new(SET_CANCELLED, vec![Param::Uuid(id.0), Param::I64(now.0)])
}

pub const SET_FAILED: &'static str =
    "UPDATE podcast_job SET state = 'failed', error_code = $2, stage = '', updated_at = $3 \
     WHERE id = $1 AND state IN ('queued', 'running') RETURNING id, user_id, source_id, format, \
     state, stage, progress, error_code, audio_key, audio_name, audio_type, audio_bytes, \
     duration_secs, eta_secs, created_at, updated_at";

/// The failure of a job that is still under way.
pub fn set_failed(id: PodcastJobId, error_code: &str, now: Timestamp) -> (statement: Statement)
    ensures
        statement@ == crate::page::sends(
            SET_FAILED,
            seq![ParamView::Uuid(id.0), ParamView::Text(error_code@), ParamView::I64(now.0)],
        ),
{
    Statement::new(
        SET_FAILED,
        vec![Param::Uuid(id.0), Param::Text(error_code.to_owned()), Param::I64(now.0)],
    )
}

pub const SET_AUDIO: &'static str =
    "UPDATE podcast_job SET audio_key = $2, audio_name = $3, audio_type = $4, audio_bytes = $5, \
     duration_secs = $6, updated_at = $7 WHERE id = $1 RETURNING id, user_id, source_id, \
     format, state, stage, progress, error_code, audio_key, audio_name, audio_type, \
     audio_bytes, duration_secs, eta_secs, created_at, updated_at";

/// The record of the uploaded episode on its job.
pub fn set_audio(
    id: PodcastJobId,
    key: &str,
    name: &str,
    content_type: &str,
    bytes: i64,
    duration_secs: Option<Bits>,
    now: Timestamp,
) -> (statement: Statement)
    ensures
        statement@ == crate::page::sends(
            SET_AUDIO,
            seq![
                ParamView::Uuid(id.0),
                ParamView::Text(key@),
                ParamView::Text(name@),
                ParamView::Text(content_type@),
                ParamView::I64(bytes),
                ParamView::OptReal(duration_secs),
                ParamView::I64(now.0),
            ],
        ),
{
    Statement::new(
        SET_AUDIO,
        vec![
            Param::Uuid(id.0),
            Param::Text(key.to_owned()),
            Param::Text(name.to_owned()),
            Param::Text(content_type.to_owned()),
            Param::I64(bytes),
            Param::OptReal(duration_secs),
            Param::I64(now.0),
        ],
    )
}

pub const SET_ETA: &'static str =
    "UPDATE podcast_job SET eta_secs = $2 WHERE id = $1 RETURNING id, user_id, source_id, \
     format, state, stage, progress, error_code, audio_key, audio_name, audio_type, \
     audio_bytes, duration_secs, eta_secs, created_at, updated_at";

/// The record of the service's estimate on a job.
pub fn set_eta(id: PodcastJobId, eta_secs: i64) -> (statement: Statement)
    ensures
        statement@ == crate::page::sends(
            SET_ETA,
            seq![ParamView::Uuid(id.0), ParamView::I64(eta_secs)],
        ),
{
    Statement::new(SET_ETA, vec![Param::Uuid(id.0), Param::I64(eta_secs)])
}

/// A stored job: what its writes move, and whether its audio is there.
pub struct Job {
    pub state: PodcastJobState,
    pub stage: Seq<char>,
    pub progress: Bits,
    pub error_code: Option<Seq<char>>,
    pub format: Option<Seq<char>>,
    pub audio: bool,
    pub updated_at: i64,
}

/// A report, judged against the state `from`.
pub struct Reported {
    pub from: PodcastJobState,
    pub to: PodcastJobState,
    pub stage: Seq<char>,
    pub progress: Bits,
    pub error_code: Option<Seq<char>>,
    pub format: Option<Seq<char>>,
    pub now: i64,
}

/// What a write does to a job: `Moved` with the row, `Missed` where its
/// condition does not hold, or `Refused` by the table's own check that an
/// episode that is done has its audio.
pub enum Outcome {
    Moved(Job),
    Missed,
    Refused,
}

/// A job as a write leaves it.
pub open spec fn left(job: Job, outcome: Outcome) -> Job {
    match outcome {
        Outcome::Moved(after) => after,
        _ => job,
    }
}

/// What a report does.
pub open spec fn reported(job: Job, report: Reported) -> Outcome {
    if job.state != report.from {
        Outcome::Missed
    } else if report.to == PodcastJobState::Done && !job.audio {
        Outcome::Refused
    } else {
        Outcome::Moved(
            Job {
                state: report.to,
                stage: report.stage,
                progress: report.progress,
                error_code: report.error_code,
                format: if job.format is Some {
                    job.format
                } else {
                    report.format
                },
                updated_at: report.now,
                ..job
            },
        )
    }
}

/// What a cancel does: it keeps how far the job came, and clears its stage.
pub open spec fn cancelled(job: Job, now: i64) -> Outcome {
    if job.state.live() {
        Outcome::Moved(
            Job {
                state: PodcastJobState::Cancelled,
                stage: Seq::empty(),
                updated_at: now,
                ..job
            },
        )
    } else {
        Outcome::Missed
    }
}

/// What a failure does: it records its code, and clears the stage.
pub open spec fn broken(job: Job, error_code: Seq<char>, now: i64) -> Outcome {
    if job.state.live() {
        Outcome::Moved(
            Job {
                state: PodcastJobState::Failed,
                stage: Seq::empty(),
                error_code: Some(error_code),
                updated_at: now,
                ..job
            },
        )
    } else {
        Outcome::Missed
    }
}

/// A report moves a job only out of the state it was judged against, so of a
/// cancel or a failure and a report that race only the first lands; and the
/// format is filled once and never rewritten.
pub proof fn law_report_is_guarded(job: Job, report: Reported, error_code: Seq<char>, now: i64)
    ensures
        reported(job, report) is Moved ==> job.state == report.from,
        job.state != report.from ==> left(job, reported(job, report)) == job,
        job.format is Some ==> left(job, reported(job, report)).format == job.format,
        job.state.live() && report.from.live() ==> reported(
            left(job, cancelled(job, now)),
            report,
        ) is Missed,
        job.state.live() && report.from.live() ==> reported(
            left(job, broken(job, error_code, now)),
            report,
        ) is Missed,
{
}

/// A job that is over stays as it is: neither a cancel nor a failure moves it.
pub proof fn law_over_is_over(job: Job, error_code: Seq<char>, now: i64)
    requires
        !job.state.live(),
    ensures
        cancelled(job, now) is Missed,
        broken(job, error_code, now) is Missed,
        left(job, cancelled(job, now)) == job,
        left(job, broken(job, error_code, now)) == job,
{
}

/// A job that is done has its audio, whatever is reported, cancelled or
/// failed.
pub proof fn law_done_has_audio(job: Job, report: Reported, error_code: Seq<char>, now: i64)
    requires
        job.state == PodcastJobState::Done ==> job.audio,
    ensures
        ({
            let after = left(job, reported(job, report));
            after.state == PodcastJobState::Done ==> after.audio
        }),
        ({
            let after = left(job, cancelled(job, now));
            after.state == PodcastJobState::Done ==> after.audio
        }),
        ({
            let after = left(job, broken(job, error_code, now));
            after.state == PodcastJobState::Done ==> after.audio
        }),
{
}

/// What [`INSERT`] says.
pub open spec fn insert_reading() -> Storing {
    Storing {
        head: "INSERT INTO "@,
        table: "podcast_job"@,
        columns: seq!["id"@, "user_id"@, "source_id"@, "format"@, "state"@, "stage"@, "progress"@, "error_code"@, "audio_key"@, "audio_name"@, "audio_type"@, "audio_bytes"@, "duration_secs"@, "eta_secs"@, "created_at"@, "updated_at"@],
        values: seq![Term::Bind(1), Term::Bind(2), Term::Bind(3), Term::Bind(4), Term::Bind(5), Term::Bind(6), Term::Bind(7), Term::Bind(8), Term::Bind(9), Term::Bind(10), Term::Bind(11), Term::Bind(12), Term::Bind(13), Term::Bind(14), Term::Bind(15), Term::Bind(15)],
        selected: false,
        conflict: Conflict::Unread,
        rest: crate::sql::returning(),
    }
}

#[verifier::rlimit(20)]
proof fn lemma_insert_reads()
    ensures
        crate::sql::spells(INSERT@, 0, insert_reading().text()),
{
    reveal_strlit("INSERT INTO podcast_job (id, user_id, source_id, format, state, stage, progress, error_code, audio_key, audio_name, audio_type, audio_bytes, duration_secs, eta_secs, created_at, updated_at) VALUES ($1, $2, $3, $4, $5, $6, $7, $8, $9, $10, $11, $12, $13, $14, $15, $15) RETURNING id, user_id, source_id, format, state, stage, progress, error_code, audio_key, audio_name, audio_type, audio_bytes, duration_secs, eta_secs, created_at, updated_at");
    reveal_strlit("INSERT INTO ");
    reveal_strlit("podcast_job");
    reveal_strlit(" (");
    reveal_strlit("id");
    reveal_strlit(", ");
    reveal_strlit("user_id");
    reveal_strlit("source_id");
    reveal_strlit("format");
    reveal_strlit("state");
    reveal_strlit("stage");
    reveal_strlit("progress");
    reveal_strlit("error_code");
    reveal_strlit("audio_key");
    reveal_strlit("audio_name");
    reveal_strlit("audio_type");
    reveal_strlit("audio_bytes");
    reveal_strlit("duration_secs");
    reveal_strlit("eta_secs");
    reveal_strlit("created_at");
    reveal_strlit("updated_at");
    reveal_strlit(") VALUES (");
    reveal_strlit("$");
    reveal_strlit(")");
    reveal_strlit(" RETURNING ");
    reveal(crate::sql::Storing::text);
    reveal_with_fuel(crate::sql::names_text, 17);
    reveal_with_fuel(crate::sql::values_text, 17);
    reveal_with_fuel(crate::text::decimal_text, 2);
    reveal_with_fuel(crate::sql::stands, 14);
    reveal_with_fuel(crate::sql::spells_by, 69);
    crate::sql::lemma_spells_by(INSERT@, 0, insert_reading().text(), crate::sql::cut(12, crate::sql::cut(23, crate::sql::cut(25, crate::sql::cut(27, crate::sql::cut(29, crate::sql::cut(36, crate::sql::cut(38, crate::sql::cut(47, crate::sql::cut(49, crate::sql::cut(55, crate::sql::cut(57, crate::sql::cut(62, crate::sql::cut(64, crate::sql::cut(69, crate::sql::cut(71, crate::sql::cut(79, crate::sql::cut(81, crate::sql::cut(91, crate::sql::cut(93, crate::sql::cut(102, crate::sql::cut(104, crate::sql::cut(114, crate::sql::cut(116, crate::sql::cut(126, crate::sql::cut(128, crate::sql::cut(139, crate::sql::cut(141, crate::sql::cut(154, crate::sql::cut(156, crate::sql::cut(164, crate::sql::cut(166, crate::sql::cut(176, crate::sql::cut(178, crate::sql::cut(188, crate::sql::cut(198, crate::sql::cut(200, crate::sql::cut(202, crate::sql::cut(204, crate::sql::cut(206, crate::sql::cut(208, crate::sql::cut(210, crate::sql::cut(212, crate::sql::cut(214, crate::sql::cut(216, crate::sql::cut(218, crate::sql::cut(220, crate::sql::cut(222, crate::sql::cut(224, crate::sql::cut(226, crate::sql::cut(228, crate::sql::cut(230, crate::sql::cut(232, crate::sql::cut(234, crate::sql::cut(237, crate::sql::cut(239, crate::sql::cut(242, crate::sql::cut(244, crate::sql::cut(247, crate::sql::cut(249, crate::sql::cut(252, crate::sql::cut(254, crate::sql::cut(257, crate::sql::cut(259, crate::sql::cut(262, crate::sql::cut(264, crate::sql::cut(267, crate::sql::cut(268, crate::sql::cut(279, Cuts::Last)))))))))))))))))))))))))))))))))))))))))))))))))))))))))))))))))))));
}

/// What [`insert`] stores, column by column, is what it is given.
pub proof fn law_insert_lands_in_its_columns(
    job: &PodcastJob,
    sent: Statement,
)
    requires
        call_ensures(insert, (job,), sent),
    ensures
        insert_reading().is_read(sent@),
        insert_reading().stores(sent@.binds) == seq![
            ("id"@, Cell::Uuid(job.id.0)),
            ("user_id"@, Cell::Uuid(job.user_id.0)),
            ("source_id"@, Cell::Text(job.source_id@)),
            ("format"@, crate::sql::opt_text(crate::page::opt_string_view(job.format))),
            ("state"@, Cell::Text(job.state.name())),
            ("stage"@, Cell::Text(job.stage@)),
            ("progress"@, Cell::Real(job.progress)),
            ("error_code"@, crate::sql::opt_text(crate::page::opt_string_view(job.error_code))),
            ("audio_key"@, crate::sql::opt_text(crate::page::opt_string_view(job.audio_key))),
            ("audio_name"@, crate::sql::opt_text(crate::page::opt_string_view(job.audio_name))),
            ("audio_type"@, crate::sql::opt_text(crate::page::opt_string_view(job.audio_type))),
            ("audio_bytes"@, crate::sql::opt_int(job.audio_bytes)),
            ("duration_secs"@, crate::sql::opt_real(job.duration_secs)),
            ("eta_secs"@, crate::sql::opt_int(job.eta_secs)),
            ("created_at"@, Cell::Int(job.created_at.0 as int)),
            ("updated_at"@, Cell::Int(job.created_at.0 as int)),
        ],
{
    lemma_insert_reads();
}

/// What [`READ`] says.
pub open spec fn read_reading() -> Picking {
    Picking {
        skip: 170,
        head: " FROM "@,
        columns: Seq::empty(),
        table: "podcast_job"@,
        conditions: seq![crate::sql::is_bound("id"@, 1)],
        rest: Text::End,
    }
}

proof fn lemma_read_reads()
    ensures
        crate::sql::spells(READ@, 170, read_reading().text()),
{
    reveal_strlit("SELECT id, user_id, source_id, format, state, stage, progress, error_code, audio_key, audio_name, audio_type, audio_bytes, duration_secs, eta_secs, created_at, updated_at FROM podcast_job WHERE id = $1");
    reveal_strlit(" FROM ");
    reveal_strlit("podcast_job");
    reveal_strlit(" WHERE ");
    reveal_strlit("id");
    reveal_strlit(" = ");
    reveal_strlit("$");
    reveal(crate::sql::Picking::text);
    reveal_with_fuel(crate::sql::where_text, 2);
    reveal_with_fuel(crate::sql::stands, 12);
    reveal_with_fuel(crate::sql::spells_by, 7);
    crate::sql::lemma_spells_by(READ@, 170, read_reading().text(), crate::sql::cut(176, crate::sql::cut(187, crate::sql::cut(194, crate::sql::cut(196, crate::sql::cut(199, crate::sql::cut(201, Cuts::Last)))))));
}

/// [`read`] reads the rows it names and no other.
pub proof fn law_read_reads_its_rows(
    id: PodcastJobId,
    sent: Statement,
    row: Row,
)
    requires
        call_ensures(read, (id,), sent),
    ensures
        read_reading().is_read(sent@),
        read_reading().picks(sent@.binds, row) == (row["id"@] == Cell::Uuid(id.0)),
{
    lemma_read_reads();
    reveal_with_fuel(crate::sql::all_hold, 2);
}

/// What [`READ_FOR`] says.
pub open spec fn read_for_reading() -> Picking {
    Picking {
        skip: 170,
        head: " FROM "@,
        columns: Seq::empty(),
        table: "podcast_job"@,
        conditions: seq![crate::sql::is_bound("id"@, 1), crate::sql::is_bound("user_id"@, 2)],
        rest: Text::End,
    }
}

proof fn lemma_read_for_reads()
    ensures
        crate::sql::spells(READ_FOR@, 170, read_for_reading().text()),
{
    reveal_strlit("SELECT id, user_id, source_id, format, state, stage, progress, error_code, audio_key, audio_name, audio_type, audio_bytes, duration_secs, eta_secs, created_at, updated_at FROM podcast_job WHERE id = $1 AND user_id = $2");
    reveal_strlit(" FROM ");
    reveal_strlit("podcast_job");
    reveal_strlit(" WHERE ");
    reveal_strlit("id");
    reveal_strlit(" = ");
    reveal_strlit("$");
    reveal_strlit(" AND ");
    reveal_strlit("user_id");
    reveal(crate::sql::Picking::text);
    reveal_with_fuel(crate::sql::where_text, 3);
    reveal_with_fuel(crate::sql::stands, 12);
    reveal_with_fuel(crate::sql::spells_by, 11);
    crate::sql::lemma_spells_by(READ_FOR@, 170, read_for_reading().text(), crate::sql::cut(176, crate::sql::cut(187, crate::sql::cut(194, crate::sql::cut(196, crate::sql::cut(199, crate::sql::cut(201, crate::sql::cut(206, crate::sql::cut(213, crate::sql::cut(216, crate::sql::cut(218, Cuts::Last)))))))))));
}

/// [`read_for`] reads the rows it names and no other.
pub proof fn law_read_for_reads_its_rows(
    id: PodcastJobId,
    user: UserId,
    sent: Statement,
    row: Row,
)
    requires
        call_ensures(read_for, (id, user), sent),
    ensures
        read_for_reading().is_read(sent@),
        read_for_reading().picks(sent@.binds, row) == (row["id"@] == Cell::Uuid(id.0) && row["user_id"@] == Cell::Uuid(user.0)),
{
    lemma_read_for_reads();
    reveal_with_fuel(crate::sql::all_hold, 3);
}

/// What [`REPORT`] says.
pub open spec fn report_reading() -> Writing {
    Writing {
        head: "UPDATE "@,
        table: "podcast_job"@,
        sets: seq![("state"@, crate::sql::bind(3)), ("stage"@, crate::sql::bind(4)), ("progress"@, crate::sql::bind(5)), ("error_code"@, crate::sql::bind(6)), ("format"@, Expr::Coalesce(Term::Column("format"@), Term::Cast(7, "text"@))), ("updated_at"@, crate::sql::bind(8))],
        conditions: seq![crate::sql::is_bound("id"@, 1), crate::sql::is_bound("state"@, 2)],
        rest: crate::sql::returning(),
    }
}

proof fn lemma_report_reads()
    ensures
        crate::sql::spells(REPORT@, 0, report_reading().text()),
{
    reveal_strlit("UPDATE podcast_job SET state = $3, stage = $4, progress = $5, error_code = $6, format = COALESCE(format, $7::text), updated_at = $8 WHERE id = $1 AND state = $2 RETURNING id, user_id, source_id, format, state, stage, progress, error_code, audio_key, audio_name, audio_type, audio_bytes, duration_secs, eta_secs, created_at, updated_at");
    reveal_strlit("UPDATE ");
    reveal_strlit("podcast_job");
    reveal_strlit(" SET ");
    reveal_strlit("state");
    reveal_strlit(" = ");
    reveal_strlit("$");
    reveal_strlit(", ");
    reveal_strlit("stage");
    reveal_strlit("progress");
    reveal_strlit("error_code");
    reveal_strlit("format");
    reveal_strlit("COALESCE(");
    reveal_strlit("::");
    reveal_strlit("text");
    reveal_strlit(")");
    reveal_strlit("updated_at");
    reveal_strlit(" WHERE ");
    reveal_strlit("id");
    reveal_strlit(" AND ");
    reveal_strlit(" RETURNING ");
    reveal(crate::sql::Writing::text);
    reveal_with_fuel(crate::sql::set_text, 7);
    reveal_with_fuel(crate::sql::where_text, 3);
    reveal_with_fuel(crate::sql::stands, 12);
    reveal_with_fuel(crate::sql::spells_by, 42);
    crate::sql::lemma_spells_by(REPORT@, 0, report_reading().text(), crate::sql::cut(7, crate::sql::cut(18, crate::sql::cut(23, crate::sql::cut(28, crate::sql::cut(31, crate::sql::cut(33, crate::sql::cut(35, crate::sql::cut(40, crate::sql::cut(43, crate::sql::cut(45, crate::sql::cut(47, crate::sql::cut(55, crate::sql::cut(58, crate::sql::cut(60, crate::sql::cut(62, crate::sql::cut(72, crate::sql::cut(75, crate::sql::cut(77, crate::sql::cut(79, crate::sql::cut(85, crate::sql::cut(88, crate::sql::cut(97, crate::sql::cut(103, crate::sql::cut(105, crate::sql::cut(107, crate::sql::cut(109, crate::sql::cut(113, crate::sql::cut(114, crate::sql::cut(116, crate::sql::cut(126, crate::sql::cut(129, crate::sql::cut(131, crate::sql::cut(138, crate::sql::cut(140, crate::sql::cut(143, crate::sql::cut(145, crate::sql::cut(150, crate::sql::cut(155, crate::sql::cut(158, crate::sql::cut(160, crate::sql::cut(171, Cuts::Last))))))))))))))))))))))))))))))))))))))))));
}

/// [`report`] picks the rows it names and no other, and overwrites each column with
/// its own value.
pub proof fn law_report_writes_its_row(
    id: PodcastJobId,
    from: PodcastJobState,
    to: PodcastJobState,
    stage: &str,
    progress: Bits,
    error_code: Option<&str>,
    format: Option<&str>,
    now: Timestamp,
    sent: Statement,
    row: Row,
)
    requires
        call_ensures(report, (id, from, to, stage, progress, error_code, format, now), sent),
    ensures
        report_reading().is_read(sent@),
        report_reading().picks(sent@.binds, row) == (row["id"@] == Cell::Uuid(id.0) && row["state"@] == Cell::Text(from.name())),
        report_reading().writes(sent@.binds, row) == seq![
            ("state"@, Cell::Text(to.name())),
            ("stage"@, Cell::Text(stage@)),
            ("progress"@, Cell::Real(progress)),
            ("error_code"@, crate::sql::opt_text(crate::page::opt_view(error_code))),
            ("format"@, if row["format"@] is Null { crate::sql::opt_text(crate::page::opt_view(format)) } else { row["format"@] }),
            ("updated_at"@, Cell::Int(now.0 as int)),
        ],
{
    lemma_report_reads();
    reveal_with_fuel(crate::sql::all_hold, 3);
}

/// What [`SET_CANCELLED`] says.
pub open spec fn set_cancelled_reading() -> Writing {
    Writing {
        head: "UPDATE "@,
        table: "podcast_job"@,
        sets: seq![("state"@, crate::sql::word("'cancelled'"@, Cell::Text("cancelled"@))), ("stage"@, crate::sql::word("''"@, Cell::Text(""@))), ("updated_at"@, crate::sql::bind(2))],
        conditions: seq![crate::sql::is_bound("id"@, 1), Cond::OneOf("state"@, Term::Word("'queued'"@, Cell::Text("queued"@)), Term::Word("'running'"@, Cell::Text("running"@)))],
        rest: crate::sql::returning(),
    }
}

proof fn lemma_set_cancelled_reads()
    ensures
        crate::sql::spells(SET_CANCELLED@, 0, set_cancelled_reading().text()),
{
    reveal_strlit("UPDATE podcast_job SET state = 'cancelled', stage = '', updated_at = $2 WHERE id = $1 AND state IN ('queued', 'running') RETURNING id, user_id, source_id, format, state, stage, progress, error_code, audio_key, audio_name, audio_type, audio_bytes, duration_secs, eta_secs, created_at, updated_at");
    reveal_strlit("UPDATE ");
    reveal_strlit("podcast_job");
    reveal_strlit(" SET ");
    reveal_strlit("state");
    reveal_strlit(" = ");
    reveal_strlit("'cancelled'");
    reveal_strlit(", ");
    reveal_strlit("stage");
    reveal_strlit("''");
    reveal_strlit("updated_at");
    reveal_strlit("$");
    reveal_strlit(" WHERE ");
    reveal_strlit("id");
    reveal_strlit(" AND ");
    reveal_strlit(" IN (");
    reveal_strlit("'queued'");
    reveal_strlit("'running'");
    reveal_strlit(")");
    reveal_strlit(" RETURNING ");
    reveal(crate::sql::Writing::text);
    reveal_with_fuel(crate::sql::set_text, 4);
    reveal_with_fuel(crate::sql::where_text, 3);
    reveal_with_fuel(crate::sql::stands, 12);
    reveal_with_fuel(crate::sql::spells_by, 27);
    crate::sql::lemma_spells_by(SET_CANCELLED@, 0, set_cancelled_reading().text(), crate::sql::cut(7, crate::sql::cut(18, crate::sql::cut(23, crate::sql::cut(28, crate::sql::cut(31, crate::sql::cut(42, crate::sql::cut(44, crate::sql::cut(49, crate::sql::cut(52, crate::sql::cut(54, crate::sql::cut(56, crate::sql::cut(66, crate::sql::cut(69, crate::sql::cut(71, crate::sql::cut(78, crate::sql::cut(80, crate::sql::cut(83, crate::sql::cut(85, crate::sql::cut(90, crate::sql::cut(95, crate::sql::cut(100, crate::sql::cut(108, crate::sql::cut(110, crate::sql::cut(119, crate::sql::cut(120, crate::sql::cut(131, Cuts::Last)))))))))))))))))))))))))));
}

/// [`set_cancelled`] picks the rows it names and no other, and overwrites each column with
/// its own value.
pub proof fn law_set_cancelled_writes_its_row(
    id: PodcastJobId,
    now: Timestamp,
    sent: Statement,
    row: Row,
)
    requires
        call_ensures(set_cancelled, (id, now), sent),
    ensures
        set_cancelled_reading().is_read(sent@),
        set_cancelled_reading().picks(sent@.binds, row) == (row["id"@] == Cell::Uuid(id.0) && (row["state"@] == Cell::Text("queued"@) || row["state"@] == Cell::Text("running"@))),
        set_cancelled_reading().writes(sent@.binds, row) == seq![
            ("state"@, Cell::Text("cancelled"@)),
            ("stage"@, Cell::Text(""@)),
            ("updated_at"@, Cell::Int(now.0 as int)),
        ],
{
    lemma_set_cancelled_reads();
    reveal_with_fuel(crate::sql::all_hold, 3);
}

/// What [`SET_FAILED`] says.
pub open spec fn set_failed_reading() -> Writing {
    Writing {
        head: "UPDATE "@,
        table: "podcast_job"@,
        sets: seq![("state"@, crate::sql::word("'failed'"@, Cell::Text("failed"@))), ("error_code"@, crate::sql::bind(2)), ("stage"@, crate::sql::word("''"@, Cell::Text(""@))), ("updated_at"@, crate::sql::bind(3))],
        conditions: seq![crate::sql::is_bound("id"@, 1), Cond::OneOf("state"@, Term::Word("'queued'"@, Cell::Text("queued"@)), Term::Word("'running'"@, Cell::Text("running"@)))],
        rest: crate::sql::returning(),
    }
}

proof fn lemma_set_failed_reads()
    ensures
        crate::sql::spells(SET_FAILED@, 0, set_failed_reading().text()),
{
    reveal_strlit("UPDATE podcast_job SET state = 'failed', error_code = $2, stage = '', updated_at = $3 WHERE id = $1 AND state IN ('queued', 'running') RETURNING id, user_id, source_id, format, state, stage, progress, error_code, audio_key, audio_name, audio_type, audio_bytes, duration_secs, eta_secs, created_at, updated_at");
    reveal_strlit("UPDATE ");
    reveal_strlit("podcast_job");
    reveal_strlit(" SET ");
    reveal_strlit("state");
    reveal_strlit(" = ");
    reveal_strlit("'failed'");
    reveal_strlit(", ");
    reveal_strlit("error_code");
    reveal_strlit("$");
    reveal_strlit("stage");
    reveal_strlit("''");
    reveal_strlit("updated_at");
    reveal_strlit(" WHERE ");
    reveal_strlit("id");
    reveal_strlit(" AND ");
    reveal_strlit(" IN (");
    reveal_strlit("'queued'");
    reveal_strlit("'running'");
    reveal_strlit(")");
    reveal_strlit(" RETURNING ");
    reveal(crate::sql::Writing::text);
    reveal_with_fuel(crate::sql::set_text, 5);
    reveal_with_fuel(crate::sql::where_text, 3);
    reveal_with_fuel(crate::sql::stands, 12);
    reveal_with_fuel(crate::sql::spells_by, 31);
    crate::sql::lemma_spells_by(SET_FAILED@, 0, set_failed_reading().text(), crate::sql::cut(7, crate::sql::cut(18, crate::sql::cut(23, crate::sql::cut(28, crate::sql::cut(31, crate::sql::cut(39, crate::sql::cut(41, crate::sql::cut(51, crate::sql::cut(54, crate::sql::cut(56, crate::sql::cut(58, crate::sql::cut(63, crate::sql::cut(66, crate::sql::cut(68, crate::sql::cut(70, crate::sql::cut(80, crate::sql::cut(83, crate::sql::cut(85, crate::sql::cut(92, crate::sql::cut(94, crate::sql::cut(97, crate::sql::cut(99, crate::sql::cut(104, crate::sql::cut(109, crate::sql::cut(114, crate::sql::cut(122, crate::sql::cut(124, crate::sql::cut(133, crate::sql::cut(134, crate::sql::cut(145, Cuts::Last)))))))))))))))))))))))))))))));
}

/// [`set_failed`] picks the rows it names and no other, and overwrites each column with
/// its own value.
pub proof fn law_set_failed_writes_its_row(
    id: PodcastJobId,
    error_code: &str,
    now: Timestamp,
    sent: Statement,
    row: Row,
)
    requires
        call_ensures(set_failed, (id, error_code, now), sent),
    ensures
        set_failed_reading().is_read(sent@),
        set_failed_reading().picks(sent@.binds, row) == (row["id"@] == Cell::Uuid(id.0) && (row["state"@] == Cell::Text("queued"@) || row["state"@] == Cell::Text("running"@))),
        set_failed_reading().writes(sent@.binds, row) == seq![
            ("state"@, Cell::Text("failed"@)),
            ("error_code"@, Cell::Text(error_code@)),
            ("stage"@, Cell::Text(""@)),
            ("updated_at"@, Cell::Int(now.0 as int)),
        ],
{
    lemma_set_failed_reads();
    reveal_with_fuel(crate::sql::all_hold, 3);
}

/// What [`SET_AUDIO`] says.
pub open spec fn set_audio_reading() -> Writing {
    Writing {
        head: "UPDATE "@,
        table: "podcast_job"@,
        sets: seq![("audio_key"@, crate::sql::bind(2)), ("audio_name"@, crate::sql::bind(3)), ("audio_type"@, crate::sql::bind(4)), ("audio_bytes"@, crate::sql::bind(5)), ("duration_secs"@, crate::sql::bind(6)), ("updated_at"@, crate::sql::bind(7))],
        conditions: seq![crate::sql::is_bound("id"@, 1)],
        rest: crate::sql::returning(),
    }
}

proof fn lemma_set_audio_reads()
    ensures
        crate::sql::spells(SET_AUDIO@, 0, set_audio_reading().text()),
{
    reveal_strlit("UPDATE podcast_job SET audio_key = $2, audio_name = $3, audio_type = $4, audio_bytes = $5, duration_secs = $6, updated_at = $7 WHERE id = $1 RETURNING id, user_id, source_id, format, state, stage, progress, error_code, audio_key, audio_name, audio_type, audio_bytes, duration_secs, eta_secs, created_at, updated_at");
    reveal_strlit("UPDATE ");
    reveal_strlit("podcast_job");
    reveal_strlit(" SET ");
    reveal_strlit("audio_key");
    reveal_strlit(" = ");
    reveal_strlit("$");
    reveal_strlit(", ");
    reveal_strlit("audio_name");
    reveal_strlit("audio_type");
    reveal_strlit("audio_bytes");
    reveal_strlit("duration_secs");
    reveal_strlit("updated_at");
    reveal_strlit(" WHERE ");
    reveal_strlit("id");
    reveal_strlit(" RETURNING ");
    reveal(crate::sql::Writing::text);
    reveal_with_fuel(crate::sql::set_text, 7);
    reveal_with_fuel(crate::sql::where_text, 2);
    reveal_with_fuel(crate::sql::stands, 14);
    reveal_with_fuel(crate::sql::spells_by, 32);
    crate::sql::lemma_spells_by(SET_AUDIO@, 0, set_audio_reading().text(), crate::sql::cut(7, crate::sql::cut(18, crate::sql::cut(23, crate::sql::cut(32, crate::sql::cut(35, crate::sql::cut(37, crate::sql::cut(39, crate::sql::cut(49, crate::sql::cut(52, crate::sql::cut(54, crate::sql::cut(56, crate::sql::cut(66, crate::sql::cut(69, crate::sql::cut(71, crate::sql::cut(73, crate::sql::cut(84, crate::sql::cut(87, crate::sql::cut(89, crate::sql::cut(91, crate::sql::cut(104, crate::sql::cut(107, crate::sql::cut(109, crate::sql::cut(111, crate::sql::cut(121, crate::sql::cut(124, crate::sql::cut(126, crate::sql::cut(133, crate::sql::cut(135, crate::sql::cut(138, crate::sql::cut(140, crate::sql::cut(151, Cuts::Last))))))))))))))))))))))))))))))));
}

/// [`set_audio`] picks the rows it names and no other, and overwrites each column with
/// its own value.
pub proof fn law_set_audio_writes_its_row(
    id: PodcastJobId,
    key: &str,
    name: &str,
    content_type: &str,
    bytes: i64,
    duration_secs: Option<Bits>,
    now: Timestamp,
    sent: Statement,
    row: Row,
)
    requires
        call_ensures(set_audio, (id, key, name, content_type, bytes, duration_secs, now), sent),
    ensures
        set_audio_reading().is_read(sent@),
        set_audio_reading().picks(sent@.binds, row) == (row["id"@] == Cell::Uuid(id.0)),
        set_audio_reading().writes(sent@.binds, row) == seq![
            ("audio_key"@, Cell::Text(key@)),
            ("audio_name"@, Cell::Text(name@)),
            ("audio_type"@, Cell::Text(content_type@)),
            ("audio_bytes"@, Cell::Int(bytes as int)),
            ("duration_secs"@, crate::sql::opt_real(duration_secs)),
            ("updated_at"@, Cell::Int(now.0 as int)),
        ],
{
    lemma_set_audio_reads();
    reveal_with_fuel(crate::sql::all_hold, 2);
}

/// What [`SET_ETA`] says.
pub open spec fn set_eta_reading() -> Writing {
    Writing {
        head: "UPDATE "@,
        table: "podcast_job"@,
        sets: seq![("eta_secs"@, crate::sql::bind(2))],
        conditions: seq![crate::sql::is_bound("id"@, 1)],
        rest: crate::sql::returning(),
    }
}

proof fn lemma_set_eta_reads()
    ensures
        crate::sql::spells(SET_ETA@, 0, set_eta_reading().text()),
{
    reveal_strlit("UPDATE podcast_job SET eta_secs = $2 WHERE id = $1 RETURNING id, user_id, source_id, format, state, stage, progress, error_code, audio_key, audio_name, audio_type, audio_bytes, duration_secs, eta_secs, created_at, updated_at");
    reveal_strlit("UPDATE ");
    reveal_strlit("podcast_job");
    reveal_strlit(" SET ");
    reveal_strlit("eta_secs");
    reveal_strlit(" = ");
    reveal_strlit("$");
    reveal_strlit(" WHERE ");
    reveal_strlit("id");
    reveal_strlit(" RETURNING ");
    reveal(crate::sql::Writing::text);
    reveal_with_fuel(crate::sql::set_text, 2);
    reveal_with_fuel(crate::sql::where_text, 2);
    reveal_with_fuel(crate::sql::stands, 12);
    reveal_with_fuel(crate::sql::spells_by, 12);
    crate::sql::lemma_spells_by(SET_ETA@, 0, set_eta_reading().text(), crate::sql::cut(7, crate::sql::cut(18, crate::sql::cut(23, crate::sql::cut(31, crate::sql::cut(34, crate::sql::cut(36, crate::sql::cut(43, crate::sql::cut(45, crate::sql::cut(48, crate::sql::cut(50, crate::sql::cut(61, Cuts::Last))))))))))));
}

/// [`set_eta`] picks the rows it names and no other, and overwrites each column with
/// its own value.
pub proof fn law_set_eta_writes_its_row(
    id: PodcastJobId,
    eta_secs: i64,
    sent: Statement,
    row: Row,
)
    requires
        call_ensures(set_eta, (id, eta_secs), sent),
    ensures
        set_eta_reading().is_read(sent@),
        set_eta_reading().picks(sent@.binds, row) == (row["id"@] == Cell::Uuid(id.0)),
        set_eta_reading().writes(sent@.binds, row) == seq![
            ("eta_secs"@, Cell::Int(eta_secs as int)),
        ],
{
    lemma_set_eta_reads();
    reveal_with_fuel(crate::sql::all_hold, 2);
}

/// What [`LIST_FOR_USER_FROM`] says.
pub open spec fn list_for_user_from_reading() -> Picking {
    Picking {
        skip: 0,
        head: ""@,
        columns: Seq::empty(),
        table: "podcast_job"@,
        conditions: seq![crate::sql::is_bound("user_id"@, 1)],
        rest: Text::End,
    }
}

proof fn lemma_list_for_user_from_reads()
    ensures
        crate::sql::spells(LIST_FOR_USER_FROM@, 0, list_for_user_from_reading().text()),
{
    reveal_strlit("podcast_job WHERE user_id = $1");
    reveal_strlit("");
    reveal_strlit("podcast_job");
    reveal_strlit(" WHERE ");
    reveal_strlit("user_id");
    reveal_strlit(" = ");
    reveal_strlit("$");
    reveal(crate::sql::Picking::text);
    reveal_with_fuel(crate::sql::where_text, 2);
    reveal_with_fuel(crate::sql::stands, 12);
    reveal_with_fuel(crate::sql::spells_by, 7);
    crate::sql::lemma_spells_by(LIST_FOR_USER_FROM@, 0, list_for_user_from_reading().text(), crate::sql::cut(0, crate::sql::cut(11, crate::sql::cut(18, crate::sql::cut(25, crate::sql::cut(28, crate::sql::cut(30, Cuts::Last)))))));
}

/// [`list_for_user`] pages the rows it names and no other.
pub proof fn law_list_for_user_reads_its_rows(
    user: UserId,
    limit: Option<i64>,
    offset: i64,
    both: (Statement, Option<Statement>),
    row: Row,
)
    requires
        call_ensures(list_for_user, (user, limit, offset), both),
    ensures
        crate::sql::spells(
            both.0@.sql,
            0,
            crate::sql::before("SELECT * FROM "@, crate::sql::opened(list_for_user_from_reading().text())),
        ),
        list_for_user_from_reading().picks(both.0@.binds, row) == (row["user_id"@] == Cell::Uuid(user.0)),
{
    lemma_list_for_user_from_reads();
    reveal(crate::sql::Picking::text);
    reveal_with_fuel(crate::sql::where_text, 2);
    reveal_with_fuel(crate::sql::is_open, 7);
    reveal_with_fuel(crate::sql::all_hold, 2);
    crate::page::law_page_reads_its_rows(
        both,
        LIST_FOR_USER_FROM@,
        LIST_FOR_USER_ORDER@,
        seq![ParamView::Uuid(user.0)],
        limit,
        offset,
        list_for_user_from_reading().text(),
    );
}

/// What [`SOURCE_TITLES`] says.
pub open spec fn source_titles_reading() -> Picking {
    Picking {
        skip: 0,
        head: "SELECT "@,
        columns: seq!["id"@, "title"@],
        table: "course_note"@,
        conditions: seq![Cond::Among(Term::Column("id"@), Term::Bind(1))],
        rest: Text::End,
    }
}

proof fn lemma_source_titles_reads()
    ensures
        crate::sql::spells(SOURCE_TITLES@, 0, source_titles_reading().text()),
{
    reveal_strlit("SELECT id, title FROM course_note WHERE id = ANY($1)");
    reveal_strlit("SELECT ");
    reveal_strlit("id");
    reveal_strlit(", ");
    reveal_strlit("title");
    reveal_strlit(" FROM ");
    reveal_strlit("course_note");
    reveal_strlit(" WHERE ");
    reveal_strlit(" = ANY(");
    reveal_strlit("$");
    reveal_strlit(")");
    reveal(crate::sql::Picking::text);
    reveal_with_fuel(crate::sql::where_text, 2);
    reveal_with_fuel(crate::sql::names_text, 3);
    reveal_with_fuel(crate::sql::stands, 12);
    reveal_with_fuel(crate::sql::spells_by, 12);
    crate::sql::lemma_spells_by(SOURCE_TITLES@, 0, source_titles_reading().text(), crate::sql::cut(7, crate::sql::cut(9, crate::sql::cut(11, crate::sql::cut(16, crate::sql::cut(22, crate::sql::cut(33, crate::sql::cut(40, crate::sql::cut(42, crate::sql::cut(49, crate::sql::cut(51, crate::sql::cut(52, Cuts::Last))))))))))));
}

/// [`source_titles`] reads the rows it names and no other.
pub proof fn law_source_titles_reads_its_rows(
    notes: &Vec<Uuid>,
    sent: Option<Statement>,
    row: Row,
)
    requires
        call_ensures(source_titles, (notes,), sent),
        sent is Some,
    ensures
        source_titles_reading().is_read(sent->0@),
        source_titles_reading().picks(sent->0@.binds, row) == ((row["id"@] is Uuid && notes@.contains(row["id"@]->Uuid_0))),
{
    lemma_source_titles_reads();
    reveal_with_fuel(crate::sql::all_hold, 2);
}

} // verus!
