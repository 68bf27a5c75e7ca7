//! The `rag_message` table: the turns of a thread, both sides stored. A
//! question is born complete; an answer is reserved before it is asked for and
//! settled once, with a text and a reply or with an error code. Every turn is
//! written through its thread's own row.

use vstd::prelude::*;

use crate::id::{millis, RagMessageId, RagThreadId, Timestamp, UserId};
use crate::json::opt_json;
use crate::page::{opt_string, paged, Param, ParamView, Statement};
use crate::sql::{Cell, Cond, Conflict, Cuts, Expr, Picking, Row, Storing, Term, Text, Writing};

verus! {

/// Whose turn it is.
#[derive(Clone, Copy, PartialEq, Eq, Structural, Debug)]
pub enum RagMessageRole {
    User,
    Assistant,
}

impl RagMessageRole {
    /// The stored name of a role.
    pub open spec fn name(self) -> Seq<char> {
        match self {
            RagMessageRole::User => "user"@,
            RagMessageRole::Assistant => "assistant"@,
        }
    }

    /// The stored name of a role.
    pub fn as_str(self) -> (name: &'static str)
        ensures
            name@ == self.name(),
    {
        match self {
            RagMessageRole::User => "user",
            RagMessageRole::Assistant => "assistant",
        }
    }
}

/// Whether a turn is settled.
#[derive(Clone, Copy, PartialEq, Eq, Structural, Debug)]
pub enum RagMessageStatus {
    Pending,
    Complete,
    Failed,
}

impl RagMessageStatus {
    /// The stored name of a status.
    pub open spec fn name(self) -> Seq<char> {
        match self {
            RagMessageStatus::Pending => "pending"@,
            RagMessageStatus::Complete => "complete"@,
            RagMessageStatus::Failed => "failed"@,
        }
    }

    /// The stored name of a status.
    pub fn as_str(self) -> (name: &'static str)
        ensures
            name@ == self.name(),
    {
        match self {
            RagMessageStatus::Pending => "pending",
            RagMessageStatus::Complete => "complete",
            RagMessageStatus::Failed => "failed",
        }
    }
}

/// A turn.
#[derive(Debug)]
pub struct RagMessage {
    pub id: RagMessageId,
    pub thread: RagThreadId,
    pub user_id: UserId,
    pub role: RagMessageRole,
    pub content: String,
    pub status: RagMessageStatus,
    pub reply: Option<serde_json::Value>,
    pub error_code: Option<String>,
    pub created_at: Timestamp,
    pub completed_at: Option<Timestamp>,
}

pub const INSERT: &'static str =
    "WITH touch AS ( UPDATE rag_thread SET updated_at = GREATEST($2, updated_at + 1) WHERE id = \
     $1 RETURNING 1) INSERT INTO rag_message (id, thread, user_id, role, content, status, \
     reply, error_code, created_at, completed_at) SELECT $3, $1, $4, $5, $6, $7, $8, $9, $10, \
     $11 WHERE EXISTS (SELECT 1 FROM touch) RETURNING id, thread, user_id, role, content, \
     status, reply, error_code, created_at, completed_at";

impl RagMessage {
    /// What the insert of this turn at `now` sends.
    pub open spec fn inserts(self, now: Timestamp) -> Seq<ParamView> {
        seq![
            ParamView::Uuid(self.thread.0),
            ParamView::I64(now.0),
            ParamView::Uuid(self.id.0),
            ParamView::Uuid(self.user_id.0),
            ParamView::Text(self.role.name()),
            ParamView::Text(self.content@),
            ParamView::Text(self.status.name()),
            ParamView::OptJson(self.reply),
            ParamView::OptText(crate::page::opt_string_view(self.error_code)),
            ParamView::I64(self.created_at.0),
            ParamView::OptI64(crate::id::opt_millis(self.completed_at)),
        ]
    }
}

/// The insert of a turn through its thread: the thread's activity stamp and
/// the turn are one statement, so no turn is written under a thread that is
/// gone. `NotFound` where nothing comes back.
pub fn insert(message: &RagMessage, now: Timestamp) -> (statement: Statement)
    ensures
        statement@ == crate::page::sends(INSERT, message.inserts(now)),
{
    Statement::new(
        INSERT,
        vec![
            Param::Uuid(message.thread.0),
            Param::I64(now.0),
            Param::Uuid(message.id.0),
            Param::Uuid(message.user_id.0),
            Param::Text(message.role.as_str().to_owned()),
            Param::Text(message.content.clone()),
            Param::Text(message.status.as_str().to_owned()),
            Param::OptJson(opt_json(&message.reply)),
            Param::OptText(opt_string(&message.error_code)),
            Param::I64(message.created_at.0),
            Param::OptI64(millis(message.completed_at)),
        ],
    )
}

/// The user's question at `created_at`: complete, for nothing is awaited.
/// `now` stamps the thread.
pub fn append_user(
    id: RagMessageId,
    thread: RagThreadId,
    user: UserId,
    content: String,
    created_at: Timestamp,
    now: Timestamp,
) -> (statement: Statement)
    ensures
        statement@ == crate::page::sends(
            INSERT,
            seq![
                ParamView::Uuid(thread.0),
                ParamView::I64(now.0),
                ParamView::Uuid(id.0),
                ParamView::Uuid(user.0),
                ParamView::Text("user"@),
                ParamView::Text(content@),
                ParamView::Text("complete"@),
                ParamView::OptJson(None),
                ParamView::OptText(None),
                ParamView::I64(created_at.0),
                ParamView::OptI64(Some(created_at.0)),
            ],
        ),
{
    let message = RagMessage {
        id,
        thread,
        user_id: user,
        role: RagMessageRole::User,
        content,
        status: RagMessageStatus::Complete,
        reply: None,
        error_code: None,
        created_at,
        completed_at: Some(created_at),
    };
    insert(&message, now)
}

/// The assistant's answer, reserved empty and pending before it is asked for.
/// `now` stamps the thread.
pub fn append_pending_assistant(
    id: RagMessageId,
    thread: RagThreadId,
    user: UserId,
    created_at: Timestamp,
    now: Timestamp,
) -> (statement: Statement)
    ensures
        statement@ == crate::page::sends(
            INSERT,
            seq![
                ParamView::Uuid(thread.0),
                ParamView::I64(now.0),
                ParamView::Uuid(id.0),
                ParamView::Uuid(user.0),
                ParamView::Text("assistant"@),
                ParamView::Text(Seq::empty()),
                ParamView::Text("pending"@),
                ParamView::OptJson(None),
                ParamView::OptText(None),
                ParamView::I64(created_at.0),
                ParamView::OptI64(None),
            ],
        ),
{
    let message = RagMessage {
        id,
        thread,
        user_id: user,
        role: RagMessageRole::Assistant,
        content: String::new(),
        status: RagMessageStatus::Pending,
        reply: None,
        error_code: None,
        created_at,
        completed_at: None,
    };
    insert(&message, now)
}

pub const LIST_FOR_THREAD_FROM: &'static str =
    "rag_message WHERE thread = $1";

pub const LIST_FOR_THREAD_ORDER: &'static str = "ORDER BY created_at ASC, id ASC";

/// The read of a thread, oldest first; [`all_projected`] gives its rows as they
/// are shown.
pub fn list_for_thread(
    thread: RagThreadId,
    limit: Option<i64>,
    offset: i64,
) -> (both: (Statement, Option<Statement>))
    ensures
        crate::page::pages(
            both,
            LIST_FOR_THREAD_FROM@,
            LIST_FOR_THREAD_ORDER@,
            seq![ParamView::Uuid(thread.0)],
            limit,
            offset,
        ),
{
    let binds: Vec<Param> = vec![Param::Uuid(thread.0)];
    assert(crate::page::bound(binds@) =~= seq![ParamView::Uuid(thread.0)]);
    paged(LIST_FOR_THREAD_FROM, LIST_FOR_THREAD_ORDER, binds, limit, offset)
}

pub const LIST_TAIL: &'static str =
    "SELECT id, thread, user_id, role, content, status, reply, error_code, created_at, \
     completed_at FROM rag_message WHERE thread = $1 ORDER BY created_at DESC, id DESC LIMIT $2";

/// The read of the last `limit` turns, newest first: the limit keeps the recent
/// end, and [`oldest_first`] turns them round.
pub fn list_tail(thread: RagThreadId, limit: usize) -> (statement: Statement)
    ensures
        statement@ == crate::page::sends(
            LIST_TAIL,
            seq![ParamView::Uuid(thread.0), ParamView::I64(limit as i64)],
        ),
{
    let most: i64 = #[verifier::truncate]
    (limit as i64);
    Statement::new(LIST_TAIL, vec![Param::Uuid(thread.0), Param::I64(most)])
}

pub const LIST_SETTLED_TAIL: &'static str =
    "SELECT id, thread, user_id, role, content, status, reply, error_code, created_at, \
     completed_at FROM rag_message WHERE thread = $1 AND status = 'complete' AND content <> '' \
     ORDER BY created_at DESC, id DESC LIMIT $2";

/// The read of the last `limit` settled turns that carry text, newest first.
/// The filter is the statement's, so a run of failed answers does not shorten
/// what comes back; [`oldest_first`] turns them round.
pub fn list_settled_tail(thread: RagThreadId, limit: usize) -> (statement: Statement)
    ensures
        statement@ == crate::page::sends(
            LIST_SETTLED_TAIL,
            seq![ParamView::Uuid(thread.0), ParamView::I64(limit as i64)],
        ),
{
    let most: i64 = #[verifier::truncate]
    (limit as i64);
    Statement::new(LIST_SETTLED_TAIL, vec![Param::Uuid(thread.0), Param::I64(most)])
}

/// The rows of a tail in reading order.
pub fn oldest_first<T>(rows: Vec<T>) -> (turned: Vec<T>)
    ensures
        turned@ == rows@.reverse(),
{
    let mut rest = rows;
    let mut turned: Vec<T> = Vec::new();
    while rest.len() > 0
        invariant
            rest@.len() + turned@.len() == rows@.len(),
            forall|i: int| 0 <= i < rest@.len() ==> #[trigger] rest@[i] == rows@[i],
            forall|i: int|
                0 <= i < turned@.len() ==> #[trigger] turned@[i] == rows@[rows@.len() - 1 - i],
        decreases rest.len(),
    {
        let ghost before = rest@;
        let row = rest.pop();
        if let Some(row) = row {
            assert(row == before[before.len() - 1]);
            turned.push(row);
        }
    }
    assert(turned@ =~= rows@.reverse());
    turned
}

pub const READ_TURN: &'static str =
    "SELECT id, thread, user_id, role, content, status, reply, error_code, created_at, \
     completed_at FROM rag_message WHERE id = $1";

/// The read of the question an answer belongs to, by its key and never by the
/// order of writes.
pub fn prompt_of(id: RagMessageId) -> (statement: Statement)
    ensures
        statement@ == crate::page::sends(READ_TURN, seq![ParamView::Uuid(id.0)]),
{
    Statement::new(READ_TURN, vec![Param::Uuid(id.0)])
}

/// The read of one turn, of which [`owned`] decides.
pub fn read_for(id: RagMessageId) -> (statement: Statement)
    ensures
        statement@ == crate::page::sends(READ_TURN, seq![ParamView::Uuid(id.0)]),
{
    prompt_of(id)
}

/// Whether `shown` is what a reader is shown of a stored turn. `project` is what
/// the caller makes of an answer that is still awaited; a settled turn is shown
/// as it is stored.
pub open spec fn shows<P: Fn(RagMessage) -> RagMessage>(
    project: P,
    stored: RagMessage,
    shown: RagMessage,
) -> bool {
    if stored.status == RagMessageStatus::Pending {
        call_ensures(project, (stored,), shown)
    } else {
        shown == stored
    }
}

/// Whether `project` takes every answer that is still awaited.
pub open spec fn takes_pending<P: Fn(RagMessage) -> RagMessage>(project: P) -> bool {
    forall|message: RagMessage|
        message.status == RagMessageStatus::Pending ==> #[trigger] call_requires(
            project,
            (message,),
        )
}

/// A turn as a reader is shown it.
pub fn projected<P: Fn(RagMessage) -> RagMessage>(message: RagMessage, project: &P) -> (shown:
    RagMessage)
    requires
        takes_pending(*project),
    ensures
        shows(*project, message, shown),
{
    match message.status {
        RagMessageStatus::Pending => project(message),
        _ => message,
    }
}

/// The turns of [`list_for_thread`] as a reader is shown them, in their order.
pub fn all_projected<P: Fn(RagMessage) -> RagMessage>(rows: Vec<RagMessage>, project: &P) -> (shown:
    Vec<RagMessage>)
    requires
        takes_pending(*project),
    ensures
        shown@.len() == rows@.len(),
        forall|i: int|
            0 <= i < rows@.len() ==> shows(*project, rows@[i], #[trigger] shown@[i]),
{
    let ghost all = rows@;
    let mut rest = oldest_first(rows);
    let mut shown: Vec<RagMessage> = Vec::new();
    while rest.len() > 0
        invariant
            takes_pending(*project),
            rest@.len() + shown@.len() == all.len(),
            forall|i: int| 0 <= i < rest@.len() ==> #[trigger] rest@[i] == all[all.len() - 1 - i],
            forall|i: int| 0 <= i < shown@.len() ==> shows(*project, all[i], #[trigger] shown@[i]),
        decreases rest.len(),
    {
        let ghost before = rest@;
        if let Some(row) = rest.pop() {
            assert(before[before.len() - 1] == all[shown@.len() as int]);
            shown.push(projected(row, project));
        }
    }
    shown
}

/// The turn as it is shown, only to its owner.
pub fn owned<P: Fn(RagMessage) -> RagMessage>(
    message: Option<RagMessage>,
    user: UserId,
    project: &P,
) -> (visible: Option<RagMessage>)
    requires
        takes_pending(*project),
    ensures
        visible is Some == (message is Some && message->0.user_id == user),
        visible is Some ==> shows(*project, message->0, visible->0),
{
    match message {
        Some(message) => if message.user_id == user {
            Some(projected(message, project))
        } else {
            None
        },
        None => None,
    }
}

pub const SETTLE: &'static str =
    "UPDATE rag_message SET content = $2, status = $3, reply = $4, error_code = $5, \
     completed_at = $6 WHERE id = $1 AND status = 'pending' RETURNING id, thread, user_id, \
     role, content, status, reply, error_code, created_at, completed_at";

/// The first `most` characters of a code.
pub open spec fn clipped(code: Seq<char>, most: nat) -> Seq<char> {
    if code.len() <= most {
        code
    } else {
        code.take(most as int)
    }
}

fn clip(code: &str, most: usize) -> (short: &str)
    ensures
        short@ == clipped(code@, most as nat),
{
    if code.unicode_len() <= most {
        code
    } else {
        let short = code.substring_char(0, most);
        assert(short@ =~= code@.take(most as int));
        short
    }
}

/// What settling a pending answer sends: complete with its text and reply, or
/// failed with a code of at most `most` characters. A row that is no longer
/// pending takes no second answer: `NotFound` where nothing comes back.
pub fn settle(
    id: RagMessageId,
    text: Option<&str>,
    reply: Option<serde_json::Value>,
    error_code: Option<&str>,
    most: usize,
    now: Timestamp,
) -> (statement: Statement)
    ensures
        statement@ == crate::page::sends(
            SETTLE,
            seq![
                ParamView::Uuid(id.0),
                ParamView::Text(
                    match text {
                        Some(text) => text@,
                        None => Seq::empty(),
                    },
                ),
                ParamView::Text(
                    if text is Some {
                        "complete"@
                    } else {
                        "failed"@
                    },
                ),
                ParamView::OptJson(reply),
                ParamView::OptText(
                    match error_code {
                        Some(code) => Some(clipped(code@, most as nat)),
                        None => None,
                    },
                ),
                ParamView::I64(now.0),
            ],
        ),
{
    let status = if text.is_some() {
        RagMessageStatus::Complete
    } else {
        RagMessageStatus::Failed
    };
    let content = match text {
        Some(text) => text.to_owned(),
        None => String::new(),
    };
    let code = match error_code {
        Some(code) => Some(clip(code, most).to_owned()),
        None => None,
    };
    Statement::new(
        SETTLE,
        vec![
            Param::Uuid(id.0),
            Param::Text(content),
            Param::Text(status.as_str().to_owned()),
            Param::OptJson(reply),
            Param::OptText(code),
            Param::I64(now.0),
        ],
    )
}

/// The landing of an answer: its text and the service's reply.
pub fn complete(
    id: RagMessageId,
    text: &str,
    reply: serde_json::Value,
    now: Timestamp,
) -> (statement: Statement)
    ensures
        statement@ == crate::page::sends(
            SETTLE,
            seq![
                ParamView::Uuid(id.0),
                ParamView::Text(text@),
                ParamView::Text("complete"@),
                ParamView::OptJson(Some(reply)),
                ParamView::OptText(None),
                ParamView::I64(now.0),
            ],
        ),
{
    settle(id, Some(text), Some(reply), None, 0, now)
}

/// The failure of an answer, with a code and without a reply.
pub fn fail(id: RagMessageId, error_code: &str, most: usize, now: Timestamp) -> (statement:
    Statement)
    ensures
        statement@ == crate::page::sends(
            SETTLE,
            seq![
                ParamView::Uuid(id.0),
                ParamView::Text(Seq::empty()),
                ParamView::Text("failed"@),
                ParamView::OptJson(None),
                ParamView::OptText(Some(clipped(error_code@, most as nat))),
                ParamView::I64(now.0),
            ],
        ),
{
    settle(id, None, None, Some(error_code), most, now)
}

/// A stored turn, as far as the laws read it.
pub struct Turn {
    pub thread: RagThreadId,
    pub status: RagMessageStatus,
    pub content: Seq<char>,
    pub reply: Option<serde_json::Value>,
    pub error_code: Option<Seq<char>>,
}

/// The threads with their activity stamps, and the turns.
#[verifier::ext_equal]
pub struct Chat {
    pub threads: Map<RagThreadId, int>,
    pub turns: Map<RagMessageId, Turn>,
}

/// What an insert leaves, and whether it wrote.
pub open spec fn inserted(db: Chat, id: RagMessageId, turn: Turn, now: int) -> (Chat, bool) {
    if db.threads.contains_key(turn.thread) {
        let stamp = db.threads[turn.thread];
        let next = if now > stamp + 1 {
            now
        } else {
            stamp + 1
        };
        (
            Chat {
                threads: db.threads.insert(turn.thread, next),
                turns: db.turns.insert(id, turn),
            },
            true,
        )
    } else {
        (db, false)
    }
}

/// Whether every turn is under a thread that is there.
pub open spec fn rooted(db: Chat) -> bool {
    forall|id: RagMessageId| #[trigger]
        db.turns.contains_key(id) ==> db.threads.contains_key(db.turns[id].thread)
}

/// A turn lands with its thread's stamp, which strictly rises, and under a
/// thread that is gone nothing is written, so no turn outlives its thread.
pub proof fn law_turn_rides_its_thread(db: Chat, id: RagMessageId, turn: Turn, now: int)
    requires
        rooted(db),
    ensures
        rooted(inserted(db, id, turn, now).0),
        inserted(db, id, turn, now).1 <==> db.threads.contains_key(turn.thread),
        inserted(db, id, turn, now).1 ==> inserted(db, id, turn, now).0.threads[turn.thread]
            > db.threads[turn.thread] && inserted(db, id, turn, now).0.threads[turn.thread] >= now,
        !inserted(db, id, turn, now).1 ==> inserted(db, id, turn, now).0 == db,
{
    let after = inserted(db, id, turn, now).0;
    assert forall|other: RagMessageId| #[trigger] after.turns.contains_key(other) implies
        after.threads.contains_key(after.turns[other].thread) by {
        if other != id {
            assert(db.turns.contains_key(other));
        }
    }
}

/// What settling leaves, and whether it wrote.
pub open spec fn settled(
    db: Chat,
    id: RagMessageId,
    text: Option<Seq<char>>,
    reply: Option<serde_json::Value>,
    error_code: Option<Seq<char>>,
) -> (Chat, bool) {
    if db.turns.contains_key(id) && db.turns[id].status == RagMessageStatus::Pending {
        let turn = Turn {
            thread: db.turns[id].thread,
            status: if text is Some {
                RagMessageStatus::Complete
            } else {
                RagMessageStatus::Failed
            },
            content: match text {
                Some(text) => text,
                None => Seq::empty(),
            },
            reply,
            error_code,
        };
        (Chat { turns: db.turns.insert(id, turn), ..db }, true)
    } else {
        (db, false)
    }
}

/// A settled answer takes no second one: whichever of two settlements lands
/// first stands, whether it is an answer, a failure or a sweep.
pub proof fn law_settled_once(
    db: Chat,
    id: RagMessageId,
    first: (Option<Seq<char>>, Option<serde_json::Value>, Option<Seq<char>>),
    second: (Option<Seq<char>>, Option<serde_json::Value>, Option<Seq<char>>),
)
    ensures
        ({
            let once = settled(db, id, first.0, first.1, first.2).0;
            let twice = settled(once, id, second.0, second.1, second.2);
            twice.0 == once && !twice.1
        }),
{
}

/// The order of a thread, `created_at` and then `id`: whether `a` is read
/// before `b`.
pub open spec fn reads_before(a: (Timestamp, RagMessageId), b: (Timestamp, RagMessageId)) -> bool {
    a.0.0 < b.0.0 || (a.0.0 == b.0.0 && a.1.0.0 < b.1.0.0)
}

/// Whether turns stand in the order of their thread.
pub open spec fn in_thread_order(turns: Seq<(Timestamp, RagMessageId)>) -> bool {
    forall|i: int, j: int|
        0 <= i < j < turns.len() ==> reads_before(#[trigger] turns[i], #[trigger] turns[j])
}

/// The two rows of a turn never sort inverted: an answer that is reserved
/// after its question, under a later key, is read after it even where both
/// land in one millisecond.
pub proof fn law_answer_reads_after_its_question(
    question: (Timestamp, RagMessageId),
    answer: (Timestamp, RagMessageId),
)
    requires
        question.0.0 <= answer.0.0,
        question.1.0.0 < answer.1.0.0,
    ensures
        reads_before(question, answer),
        !reads_before(answer, question),
{
}

/// A tail that is read newest first and turned round stands in the order of
/// its thread, so both reads of a thread agree.
pub proof fn law_tail_turns_into_thread_order(tail: Seq<(Timestamp, RagMessageId)>)
    requires
        forall|i: int, j: int|
            0 <= i < j < tail.len() ==> reads_before(#[trigger] tail[j], #[trigger] tail[i]),
    ensures
        in_thread_order(tail.reverse()),
{
    let turned = tail.reverse();
    assert forall|i: int, j: int| 0 <= i < j < turned.len() implies reads_before(
        #[trigger] turned[i],
        #[trigger] turned[j],
    ) by {
        assert(turned[i] == tail[tail.len() - 1 - i]);
        assert(turned[j] == tail[tail.len() - 1 - j]);
    }
}

/// The row that [`INSERT`] inserts where its first part wrote.
pub open spec fn insert_row() -> Storing {
    Storing {
        head: "INSERT INTO "@,
        table: "rag_message"@,
        columns: seq!["id"@, "thread"@, "user_id"@, "role"@, "content"@, "status"@, "reply"@, "error_code"@, "created_at"@, "completed_at"@],
        values: seq![Term::Bind(3), Term::Bind(1), Term::Bind(4), Term::Bind(5), Term::Bind(6), Term::Bind(7), Term::Bind(8), Term::Bind(9), Term::Bind(10), Term::Bind(11)],
        selected: true,
        conflict: Conflict::Unread,
        rest: crate::sql::before(" WHERE EXISTS (SELECT 1 FROM touch)"@, crate::sql::returning()),
    }
}

/// What [`INSERT`] says.
pub open spec fn insert_reading() -> Writing {
    Writing {
        head: "WITH touch AS ( UPDATE "@,
        table: "rag_thread"@,
        sets: seq![("updated_at"@, Expr::Later(Term::Bind(2), Term::Column("updated_at"@)))],
        conditions: seq![crate::sql::is_bound("id"@, 1)],
        rest: crate::sql::before(" RETURNING 1) "@, insert_row().text()),
    }
}

#[verifier::rlimit(20)]
proof fn lemma_insert_reads()
    ensures
        crate::sql::spells(INSERT@, 0, insert_reading().text()),
{
    reveal_strlit("WITH touch AS ( UPDATE rag_thread SET updated_at = GREATEST($2, updated_at + 1) WHERE id = $1 RETURNING 1) INSERT INTO rag_message (id, thread, user_id, role, content, status, reply, error_code, created_at, completed_at) SELECT $3, $1, $4, $5, $6, $7, $8, $9, $10, $11 WHERE EXISTS (SELECT 1 FROM touch) RETURNING id, thread, user_id, role, content, status, reply, error_code, created_at, completed_at");
    reveal_strlit("WITH touch AS ( UPDATE ");
    reveal_strlit("rag_thread");
    reveal_strlit(" SET ");
    reveal_strlit("updated_at");
    reveal_strlit(" = ");
    reveal_strlit("GREATEST(");
    reveal_strlit("$");
    reveal_strlit(", ");
    reveal_strlit(" + 1)");
    reveal_strlit(" WHERE ");
    reveal_strlit("id");
    reveal_strlit(" RETURNING 1) ");
    reveal_strlit("INSERT INTO ");
    reveal_strlit("rag_message");
    reveal_strlit(" (");
    reveal_strlit("thread");
    reveal_strlit("user_id");
    reveal_strlit("role");
    reveal_strlit("content");
    reveal_strlit("status");
    reveal_strlit("reply");
    reveal_strlit("error_code");
    reveal_strlit("created_at");
    reveal_strlit("completed_at");
    reveal_strlit(") SELECT ");
    reveal_strlit(" WHERE EXISTS (SELECT 1 FROM touch)");
    reveal_strlit(" RETURNING ");
    reveal(crate::sql::Writing::text);
    reveal(crate::sql::Storing::text);
    reveal_with_fuel(crate::sql::set_text, 2);
    reveal_with_fuel(crate::sql::where_text, 2);
    reveal_with_fuel(crate::sql::names_text, 11);
    reveal_with_fuel(crate::sql::values_text, 11);
    reveal_with_fuel(crate::text::decimal_text, 2);
    reveal_with_fuel(crate::sql::stands, 36);
    reveal_with_fuel(crate::sql::spells_by, 60);
    crate::sql::lemma_spells_by(INSERT@, 0, insert_reading().text(), crate::sql::cut(23, crate::sql::cut(33, crate::sql::cut(38, crate::sql::cut(48, crate::sql::cut(51, crate::sql::cut(60, crate::sql::cut(62, crate::sql::cut(64, crate::sql::cut(74, crate::sql::cut(79, crate::sql::cut(86, crate::sql::cut(88, crate::sql::cut(91, crate::sql::cut(93, crate::sql::cut(107, crate::sql::cut(119, crate::sql::cut(130, crate::sql::cut(132, crate::sql::cut(134, crate::sql::cut(136, crate::sql::cut(142, crate::sql::cut(144, crate::sql::cut(151, crate::sql::cut(153, crate::sql::cut(157, crate::sql::cut(159, crate::sql::cut(166, crate::sql::cut(168, crate::sql::cut(174, crate::sql::cut(176, crate::sql::cut(181, crate::sql::cut(183, crate::sql::cut(193, crate::sql::cut(195, crate::sql::cut(205, crate::sql::cut(207, crate::sql::cut(219, crate::sql::cut(228, crate::sql::cut(230, crate::sql::cut(232, crate::sql::cut(234, crate::sql::cut(236, crate::sql::cut(238, crate::sql::cut(240, crate::sql::cut(242, crate::sql::cut(244, crate::sql::cut(246, crate::sql::cut(248, crate::sql::cut(250, crate::sql::cut(252, crate::sql::cut(254, crate::sql::cut(256, crate::sql::cut(258, crate::sql::cut(260, crate::sql::cut(263, crate::sql::cut(265, crate::sql::cut(268, crate::sql::cut(303, crate::sql::cut(314, Cuts::Last))))))))))))))))))))))))))))))))))))))))))))))))))))))))))));
}

/// [`insert`] writes the row it names where its condition holds, and then stores the
/// new row, each value in its own column.
pub proof fn law_insert_lands_in_its_columns(
    message: &RagMessage,
    now: Timestamp,
    sent: Statement,
    row: Row,
)
    requires
        call_ensures(insert, (message, now), sent),
    ensures
        insert_reading().is_read(sent@),
        insert_reading().picks(sent@.binds, row) == (row["id"@] == Cell::Uuid(message.thread.0)),
        insert_reading().writes(sent@.binds, row) == seq![
            ("updated_at"@, if now.0 as int >= row["updated_at"@].number() + 1 { Cell::Int(now.0 as int) } else { Cell::Int(row["updated_at"@].number() + 1) }),
        ],
        insert_row().stores(sent@.binds) == seq![
            ("id"@, Cell::Uuid(message.id.0)),
            ("thread"@, Cell::Uuid(message.thread.0)),
            ("user_id"@, Cell::Uuid(message.user_id.0)),
            ("role"@, Cell::Text(message.role.name())),
            ("content"@, Cell::Text(message.content@)),
            ("status"@, Cell::Text(message.status.name())),
            ("reply"@, crate::sql::opt_json(message.reply)),
            ("error_code"@, crate::sql::opt_text(crate::page::opt_string_view(message.error_code))),
            ("created_at"@, Cell::Int(message.created_at.0 as int)),
            ("completed_at"@, crate::sql::opt_int(crate::id::opt_millis(message.completed_at))),
        ],
{
    lemma_insert_reads();
    reveal_with_fuel(crate::sql::all_hold, 2);
}

/// [`append_user`] writes the row it names where its condition holds, and then stores the
/// new row, each value in its own column.
pub proof fn law_append_user_lands_in_its_columns(
    id: RagMessageId,
    thread: RagThreadId,
    user: UserId,
    content: String,
    created_at: Timestamp,
    now: Timestamp,
    sent: Statement,
    row: Row,
)
    requires
        call_ensures(append_user, (id, thread, user, content, created_at, now), sent),
    ensures
        insert_reading().is_read(sent@),
        insert_reading().picks(sent@.binds, row) == (row["id"@] == Cell::Uuid(thread.0)),
        insert_reading().writes(sent@.binds, row) == seq![
            ("updated_at"@, if now.0 as int >= row["updated_at"@].number() + 1 { Cell::Int(now.0 as int) } else { Cell::Int(row["updated_at"@].number() + 1) }),
        ],
        insert_row().stores(sent@.binds) == seq![
            ("id"@, Cell::Uuid(id.0)),
            ("thread"@, Cell::Uuid(thread.0)),
            ("user_id"@, Cell::Uuid(user.0)),
            ("role"@, Cell::Text("user"@)),
            ("content"@, Cell::Text(content@)),
            ("status"@, Cell::Text("complete"@)),
            ("reply"@, crate::sql::opt_json(None)),
            ("error_code"@, crate::sql::opt_text(None)),
            ("created_at"@, Cell::Int(created_at.0 as int)),
            ("completed_at"@, crate::sql::opt_int(Some(created_at.0))),
        ],
{
    lemma_insert_reads();
    reveal_with_fuel(crate::sql::all_hold, 2);
}

/// [`append_pending_assistant`] writes the row it names where its condition holds, and then stores the
/// new row, each value in its own column.
pub proof fn law_append_pending_assistant_lands_in_its_columns(
    id: RagMessageId,
    thread: RagThreadId,
    user: UserId,
    created_at: Timestamp,
    now: Timestamp,
    sent: Statement,
    row: Row,
)
    requires
        call_ensures(append_pending_assistant, (id, thread, user, created_at, now), sent),
    ensures
        insert_reading().is_read(sent@),
        insert_reading().picks(sent@.binds, row) == (row["id"@] == Cell::Uuid(thread.0)),
        insert_reading().writes(sent@.binds, row) == seq![
            ("updated_at"@, if now.0 as int >= row["updated_at"@].number() + 1 { Cell::Int(now.0 as int) } else { Cell::Int(row["updated_at"@].number() + 1) }),
        ],
        insert_row().stores(sent@.binds) == seq![
            ("id"@, Cell::Uuid(id.0)),
            ("thread"@, Cell::Uuid(thread.0)),
            ("user_id"@, Cell::Uuid(user.0)),
            ("role"@, Cell::Text("assistant"@)),
            ("content"@, Cell::Text(Seq::empty())),
            ("status"@, Cell::Text("pending"@)),
            ("reply"@, crate::sql::opt_json(None)),
            ("error_code"@, crate::sql::opt_text(None)),
            ("created_at"@, Cell::Int(created_at.0 as int)),
            ("completed_at"@, crate::sql::opt_int(None)),
        ],
{
    lemma_insert_reads();
    reveal_with_fuel(crate::sql::all_hold, 2);
}

/// What [`LIST_TAIL`] says.
pub open spec fn list_tail_reading() -> Picking {
    Picking {
        skip: 94,
        head: " FROM "@,
        columns: Seq::empty(),
        table: "rag_message"@,
        conditions: seq![crate::sql::is_bound("thread"@, 1)],
        rest: crate::sql::before(" ORDER BY created_at DESC, id DESC LIMIT "@, crate::sql::before(crate::text::placeholder(2), Text::End)),
    }
}

proof fn lemma_list_tail_reads()
    ensures
        crate::sql::spells(LIST_TAIL@, 94, list_tail_reading().text()),
{
    reveal_strlit("SELECT id, thread, user_id, role, content, status, reply, error_code, created_at, completed_at FROM rag_message WHERE thread = $1 ORDER BY created_at DESC, id DESC LIMIT $2");
    reveal_strlit(" FROM ");
    reveal_strlit("rag_message");
    reveal_strlit(" WHERE ");
    reveal_strlit("thread");
    reveal_strlit(" = ");
    reveal_strlit("$");
    reveal_strlit(" ORDER BY created_at DESC, id DESC LIMIT ");
    reveal(crate::sql::Picking::text);
    reveal_with_fuel(crate::sql::where_text, 2);
    reveal_with_fuel(crate::sql::stands, 42);
    reveal_with_fuel(crate::sql::spells_by, 9);
    crate::sql::lemma_spells_by(LIST_TAIL@, 94, list_tail_reading().text(), crate::sql::cut(100, crate::sql::cut(111, crate::sql::cut(118, crate::sql::cut(124, crate::sql::cut(127, crate::sql::cut(129, crate::sql::cut(170, crate::sql::cut(172, Cuts::Last)))))))));
}

/// [`list_tail`] reads the rows it names and no other.
pub proof fn law_list_tail_reads_its_rows(
    thread: RagThreadId,
    limit: usize,
    sent: Statement,
    row: Row,
)
    requires
        call_ensures(list_tail, (thread, limit), sent),
    ensures
        list_tail_reading().is_read(sent@),
        list_tail_reading().picks(sent@.binds, row) == (row["thread"@] == Cell::Uuid(thread.0)),
{
    lemma_list_tail_reads();
    reveal_with_fuel(crate::sql::all_hold, 2);
}

/// What [`LIST_SETTLED_TAIL`] says.
pub open spec fn list_settled_tail_reading() -> Picking {
    Picking {
        skip: 94,
        head: " FROM "@,
        columns: Seq::empty(),
        table: "rag_message"@,
        conditions: seq![crate::sql::is_bound("thread"@, 1), Cond::Equal(crate::sql::column("status"@), crate::sql::word("'complete'"@, Cell::Text("complete"@))), Cond::Unlike(crate::sql::column("content"@), crate::sql::word("''"@, Cell::Text(""@)))],
        rest: crate::sql::before(" ORDER BY created_at DESC, id DESC LIMIT "@, crate::sql::before(crate::text::placeholder(2), Text::End)),
    }
}

proof fn lemma_list_settled_tail_reads()
    ensures
        crate::sql::spells(LIST_SETTLED_TAIL@, 94, list_settled_tail_reading().text()),
{
    reveal_strlit("SELECT id, thread, user_id, role, content, status, reply, error_code, created_at, completed_at FROM rag_message WHERE thread = $1 AND status = 'complete' AND content <> '' ORDER BY created_at DESC, id DESC LIMIT $2");
    reveal_strlit(" FROM ");
    reveal_strlit("rag_message");
    reveal_strlit(" WHERE ");
    reveal_strlit("thread");
    reveal_strlit(" = ");
    reveal_strlit("$");
    reveal_strlit(" AND ");
    reveal_strlit("status");
    reveal_strlit("'complete'");
    reveal_strlit("content");
    reveal_strlit(" <> ");
    reveal_strlit("''");
    reveal_strlit(" ORDER BY created_at DESC, id DESC LIMIT ");
    reveal(crate::sql::Picking::text);
    reveal_with_fuel(crate::sql::where_text, 4);
    reveal_with_fuel(crate::sql::stands, 42);
    reveal_with_fuel(crate::sql::spells_by, 17);
    crate::sql::lemma_spells_by(LIST_SETTLED_TAIL@, 94, list_settled_tail_reading().text(), crate::sql::cut(100, crate::sql::cut(111, crate::sql::cut(118, crate::sql::cut(124, crate::sql::cut(127, crate::sql::cut(129, crate::sql::cut(134, crate::sql::cut(140, crate::sql::cut(143, crate::sql::cut(153, crate::sql::cut(158, crate::sql::cut(165, crate::sql::cut(169, crate::sql::cut(171, crate::sql::cut(212, crate::sql::cut(214, Cuts::Last)))))))))))))))));
}

/// [`list_settled_tail`] reads the rows it names and no other.
pub proof fn law_list_settled_tail_reads_its_rows(
    thread: RagThreadId,
    limit: usize,
    sent: Statement,
    row: Row,
)
    requires
        call_ensures(list_settled_tail, (thread, limit), sent),
    ensures
        list_settled_tail_reading().is_read(sent@),
        list_settled_tail_reading().picks(sent@.binds, row) == (row["thread"@] == Cell::Uuid(thread.0) && row["status"@] == Cell::Text("complete"@) && (row["content"@] !is Null && row["content"@] != Cell::Text(""@))),
{
    lemma_list_settled_tail_reads();
    reveal_with_fuel(crate::sql::all_hold, 4);
}

/// What [`READ_TURN`] says.
pub open spec fn read_turn_reading() -> Picking {
    Picking {
        skip: 94,
        head: " FROM "@,
        columns: Seq::empty(),
        table: "rag_message"@,
        conditions: seq![crate::sql::is_bound("id"@, 1)],
        rest: Text::End,
    }
}

proof fn lemma_read_turn_reads()
    ensures
        crate::sql::spells(READ_TURN@, 94, read_turn_reading().text()),
{
    reveal_strlit("SELECT id, thread, user_id, role, content, status, reply, error_code, created_at, completed_at FROM rag_message WHERE id = $1");
    reveal_strlit(" FROM ");
    reveal_strlit("rag_message");
    reveal_strlit(" WHERE ");
    reveal_strlit("id");
    reveal_strlit(" = ");
    reveal_strlit("$");
    reveal(crate::sql::Picking::text);
    reveal_with_fuel(crate::sql::where_text, 2);
    reveal_with_fuel(crate::sql::stands, 12);
    reveal_with_fuel(crate::sql::spells_by, 7);
    crate::sql::lemma_spells_by(READ_TURN@, 94, read_turn_reading().text(), crate::sql::cut(100, crate::sql::cut(111, crate::sql::cut(118, crate::sql::cut(120, crate::sql::cut(123, crate::sql::cut(125, Cuts::Last)))))));
}

/// [`prompt_of`] reads the rows it names and no other.
pub proof fn law_prompt_of_reads_its_rows(
    id: RagMessageId,
    sent: Statement,
    row: Row,
)
    requires
        call_ensures(prompt_of, (id,), sent),
    ensures
        read_turn_reading().is_read(sent@),
        read_turn_reading().picks(sent@.binds, row) == (row["id"@] == Cell::Uuid(id.0)),
{
    lemma_read_turn_reads();
    reveal_with_fuel(crate::sql::all_hold, 2);
}

/// [`read_for`] reads the rows it names and no other.
pub proof fn law_read_for_reads_its_rows(
    id: RagMessageId,
    sent: Statement,
    row: Row,
)
    requires
        call_ensures(read_for, (id,), sent),
    ensures
        read_turn_reading().is_read(sent@),
        read_turn_reading().picks(sent@.binds, row) == (row["id"@] == Cell::Uuid(id.0)),
{
    lemma_read_turn_reads();
    reveal_with_fuel(crate::sql::all_hold, 2);
}

/// What [`SETTLE`] says.
pub open spec fn settle_reading() -> Writing {
    Writing {
        head: "UPDATE "@,
        table: "rag_message"@,
        sets: seq![("content"@, crate::sql::bind(2)), ("status"@, crate::sql::bind(3)), ("reply"@, crate::sql::bind(4)), ("error_code"@, crate::sql::bind(5)), ("completed_at"@, crate::sql::bind(6))],
        conditions: seq![crate::sql::is_bound("id"@, 1), Cond::Equal(crate::sql::column("status"@), crate::sql::word("'pending'"@, Cell::Text("pending"@)))],
        rest: crate::sql::returning(),
    }
}

proof fn lemma_settle_reads()
    ensures
        crate::sql::spells(SETTLE@, 0, settle_reading().text()),
{
    reveal_strlit("UPDATE rag_message SET content = $2, status = $3, reply = $4, error_code = $5, completed_at = $6 WHERE id = $1 AND status = 'pending' RETURNING id, thread, user_id, role, content, status, reply, error_code, created_at, completed_at");
    reveal_strlit("UPDATE ");
    reveal_strlit("rag_message");
    reveal_strlit(" SET ");
    reveal_strlit("content");
    reveal_strlit(" = ");
    reveal_strlit("$");
    reveal_strlit(", ");
    reveal_strlit("status");
    reveal_strlit("reply");
    reveal_strlit("error_code");
    reveal_strlit("completed_at");
    reveal_strlit(" WHERE ");
    reveal_strlit("id");
    reveal_strlit(" AND ");
    reveal_strlit("'pending'");
    reveal_strlit(" RETURNING ");
    reveal(crate::sql::Writing::text);
    reveal_with_fuel(crate::sql::set_text, 6);
    reveal_with_fuel(crate::sql::where_text, 3);
    reveal_with_fuel(crate::sql::stands, 13);
    reveal_with_fuel(crate::sql::spells_by, 32);
    crate::sql::lemma_spells_by(SETTLE@, 0, settle_reading().text(), crate::sql::cut(7, crate::sql::cut(18, crate::sql::cut(23, crate::sql::cut(30, crate::sql::cut(33, crate::sql::cut(35, crate::sql::cut(37, crate::sql::cut(43, crate::sql::cut(46, crate::sql::cut(48, crate::sql::cut(50, crate::sql::cut(55, crate::sql::cut(58, crate::sql::cut(60, crate::sql::cut(62, crate::sql::cut(72, crate::sql::cut(75, crate::sql::cut(77, crate::sql::cut(79, crate::sql::cut(91, crate::sql::cut(94, crate::sql::cut(96, crate::sql::cut(103, crate::sql::cut(105, crate::sql::cut(108, crate::sql::cut(110, crate::sql::cut(115, crate::sql::cut(121, crate::sql::cut(124, crate::sql::cut(133, crate::sql::cut(144, Cuts::Last))))))))))))))))))))))))))))))));
}

/// [`settle`] picks the rows it names and no other, and overwrites each column with
/// its own value.
pub proof fn law_settle_writes_its_row(
    id: RagMessageId,
    text: Option<&str>,
    reply: Option<serde_json::Value>,
    error_code: Option<&str>,
    most: usize,
    now: Timestamp,
    sent: Statement,
    row: Row,
)
    requires
        call_ensures(settle, (id, text, reply, error_code, most, now), sent),
    ensures
        settle_reading().is_read(sent@),
        settle_reading().picks(sent@.binds, row) == (row["id"@] == Cell::Uuid(id.0) && row["status"@] == Cell::Text("pending"@)),
        settle_reading().writes(sent@.binds, row) == seq![
            ("content"@, Cell::Text(match text { Some(text) => text@, None => Seq::empty(), })),
            ("status"@, Cell::Text(if text is Some { "complete"@ } else { "failed"@ })),
            ("reply"@, crate::sql::opt_json(reply)),
            ("error_code"@, crate::sql::opt_text(match error_code { Some(code) => Some(clipped(code@, most as nat)), None => None, })),
            ("completed_at"@, Cell::Int(now.0 as int)),
        ],
{
    lemma_settle_reads();
    reveal_with_fuel(crate::sql::all_hold, 3);
}

/// [`complete`] picks the rows it names and no other, and overwrites each column with
/// its own value.
pub proof fn law_complete_writes_its_row(
    id: RagMessageId,
    text: &str,
    reply: serde_json::Value,
    now: Timestamp,
    sent: Statement,
    row: Row,
)
    requires
        call_ensures(complete, (id, text, reply, now), sent),
    ensures
        settle_reading().is_read(sent@),
        settle_reading().picks(sent@.binds, row) == (row["id"@] == Cell::Uuid(id.0) && row["status"@] == Cell::Text("pending"@)),
        settle_reading().writes(sent@.binds, row) == seq![
            ("content"@, Cell::Text(text@)),
            ("status"@, Cell::Text("complete"@)),
            ("reply"@, crate::sql::opt_json(Some(reply))),
            ("error_code"@, crate::sql::opt_text(None)),
            ("completed_at"@, Cell::Int(now.0 as int)),
        ],
{
    lemma_settle_reads();
    reveal_with_fuel(crate::sql::all_hold, 3);
}

/// [`fail`] picks the rows it names and no other, and overwrites each column with
/// its own value.
pub proof fn law_fail_writes_its_row(
    id: RagMessageId,
    error_code: &str,
    most: usize,
    now: Timestamp,
    sent: Statement,
    row: Row,
)
    requires
        call_ensures(fail, (id, error_code, most, now), sent),
    ensures
        settle_reading().is_read(sent@),
        settle_reading().picks(sent@.binds, row) == (row["id"@] == Cell::Uuid(id.0) && row["status"@] == Cell::Text("pending"@)),
        settle_reading().writes(sent@.binds, row) == seq![
            ("content"@, Cell::Text(Seq::empty())),
            ("status"@, Cell::Text("failed"@)),
            ("reply"@, crate::sql::opt_json(None)),
            ("error_code"@, crate::sql::opt_text(Some(clipped(error_code@, most as nat)))),
            ("completed_at"@, Cell::Int(now.0 as int)),
        ],
{
    lemma_settle_reads();
    reveal_with_fuel(crate::sql::all_hold, 3);
}

/// What [`LIST_FOR_THREAD_FROM`] says.
pub open spec fn list_for_thread_from_reading() -> Picking {
    Picking {
        skip: 0,
        head: ""@,
        columns: Seq::empty(),
        table: "rag_message"@,
        conditions: seq![crate::sql::is_bound("thread"@, 1)],
        rest: Text::End,
    }
}

proof fn lemma_list_for_thread_from_reads()
    ensures
        crate::sql::spells(LIST_FOR_THREAD_FROM@, 0, list_for_thread_from_reading().text()),
{
    reveal_strlit("rag_message WHERE thread = $1");
    reveal_strlit("");
    reveal_strlit("rag_message");
    reveal_strlit(" WHERE ");
    reveal_strlit("thread");
    reveal_strlit(" = ");
    reveal_strlit("$");
    reveal(crate::sql::Picking::text);
    reveal_with_fuel(crate::sql::where_text, 2);
    reveal_with_fuel(crate::sql::stands, 12);
    reveal_with_fuel(crate::sql::spells_by, 7);
    crate::sql::lemma_spells_by(LIST_FOR_THREAD_FROM@, 0, list_for_thread_from_reading().text(), crate::sql::cut(0, crate::sql::cut(11, crate::sql::cut(18, crate::sql::cut(24, crate::sql::cut(27, crate::sql::cut(29, Cuts::Last)))))));
}

/// [`list_for_thread`] pages the rows it names and no other.
pub proof fn law_list_for_thread_reads_its_rows(
    thread: RagThreadId,
    limit: Option<i64>,
    offset: i64,
    both: (Statement, Option<Statement>),
    row: Row,
)
    requires
        call_ensures(list_for_thread, (thread, limit, offset), both),
    ensures
        crate::sql::spells(
            both.0@.sql,
            0,
            crate::sql::before("SELECT * FROM "@, crate::sql::opened(list_for_thread_from_reading().text())),
        ),
        list_for_thread_from_reading().picks(both.0@.binds, row) == (row["thread"@] == Cell::Uuid(thread.0)),
{
    lemma_list_for_thread_from_reads();
    reveal(crate::sql::Picking::text);
    reveal_with_fuel(crate::sql::where_text, 2);
    reveal_with_fuel(crate::sql::is_open, 7);
    reveal_with_fuel(crate::sql::all_hold, 2);
    crate::page::law_page_reads_its_rows(
        both,
        LIST_FOR_THREAD_FROM@,
        LIST_FOR_THREAD_ORDER@,
        seq![ParamView::Uuid(thread.0)],
        limit,
        offset,
        list_for_thread_from_reading().text(),
    );
}

} // verus!
