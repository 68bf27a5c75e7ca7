//! The `pool_question` table: the ask, the listings, the guarded approval
//! that moves the publish counters with it, the image writes of a pending
//! question, and the delete that takes its solutions along.

use vstd::prelude::*;

use crate::error::same_text;
use crate::id::{PoolQuestionId, SolutionId, Timestamp, UserId};
use crate::page::{Param, ParamView, Statement, StatementView};
use crate::sql::{Cell, Cond, Conflict, Cuts, Expr, Picking, Row, Storing, Term, Text, Writing};
use crate::transaction::{Reply, Step};

verus! {

/// The status of a question nobody approved yet.
pub const STATUS_PENDING: &'static str = "pending";

/// The status of a question in the pool.
pub const STATUS_APPROVED: &'static str = "approved";

/// A question asked into the pool.
#[derive(Debug)]
pub struct PoolQuestion {
    pub id: PoolQuestionId,
    pub asker: UserId,
    pub title: String,
    pub body: String,
    pub status: String,
    pub asked_at: Timestamp,
    pub approved_by: Option<UserId>,
}

/// A solution offered to a question.
#[derive(Debug)]
pub struct Solution {
    pub id: SolutionId,
    pub question: PoolQuestionId,
    pub author: UserId,
    pub body: String,
    pub offered_at: Timestamp,
}

pub const INSERT: &'static str =
    "INSERT INTO pool_question (id, asker, title, body, status, asked_at) VALUES ($1, $2, $3, \
     $4, $5, $6) RETURNING id, asker, title, body, status, asked_at, approved_by";

/// The insert of a question.
pub fn insert(question: &PoolQuestion) -> (statement: Statement)
    ensures
        statement@ == crate::page::sends(
            INSERT,
            seq![
                ParamView::Uuid(question.id.0),
                ParamView::Uuid(question.asker.0),
                ParamView::Text(question.title@),
                ParamView::Text(question.body@),
                ParamView::Text(question.status@),
                ParamView::I64(question.asked_at.0),
            ],
        ),
{
    Statement::new(
        INSERT,
        vec![
            Param::Uuid(question.id.0),
            Param::Uuid(question.asker.0),
            Param::Text(question.title.clone()),
            Param::Text(question.body.clone()),
            Param::Text(question.status.clone()),
            Param::I64(question.asked_at.0),
        ],
    )
}

pub const READ: &'static str =
    "SELECT id, asker, title, body, status, asked_at, approved_by FROM pool_question WHERE id = $1";

/// The read of a question.
pub fn read(id: PoolQuestionId) -> (statement: Statement)
    ensures
        statement@ == crate::page::sends(READ, seq![ParamView::Uuid(id.0)]),
{
    Statement::new(READ, vec![Param::Uuid(id.0)])
}

pub const LIST_ALL: &'static str =
    "SELECT id, asker, title, body, status, asked_at, approved_by FROM pool_question ORDER BY \
     asked_at DESC, id DESC";

/// The read of every question, newest first.
pub fn list_all() -> (statement: Statement)
    ensures
        statement@ == crate::page::sends(LIST_ALL, Seq::empty()),
{
    Statement::new(LIST_ALL, Vec::new())
}

pub const LIST_VISIBLE_TO: &'static str =
    "SELECT id, asker, title, body, status, asked_at, approved_by FROM pool_question WHERE \
     status = $1 OR asker = $2 ORDER BY asked_at DESC, id DESC";

/// The read of the pool as a user sees it: every approved question and the
/// user's own, newest first.
pub fn list_visible_to(user: UserId) -> (statement: Statement)
    ensures
        statement@ == crate::page::sends(
            LIST_VISIBLE_TO,
            seq![ParamView::Text(STATUS_APPROVED@), ParamView::Uuid(user.0)],
        ),
{
    Statement::new(
        LIST_VISIBLE_TO,
        vec![Param::Text(STATUS_APPROVED.to_owned()), Param::Uuid(user.0)],
    )
}

/// The statement an approval waits for.
#[derive(Clone, Copy, PartialEq, Eq, Structural, Debug)]
pub enum Approve {
    /// Publish the question while it is pending: a [`Reply::Key`] with its
    /// asker; its row is the answer.
    Publish,
    /// Credit the approver.
    CreditApprover { asker: UserId },
    /// Credit the asker.
    CreditAsker { asker: UserId },
}

pub const PUBLISH: &'static str =
    "UPDATE pool_question SET status = $2, approved_by = $3 WHERE id = $1 AND status = $4 \
     RETURNING id, asker, title, body, status, asked_at, approved_by";

pub const CREDIT_APPROVER: &'static str =
    "UPDATE app_user SET pool_approved_total = pool_approved_total + 1 WHERE id = $1";

pub const CREDIT_ASKER: &'static str =
    "UPDATE app_user SET pool_published_total = pool_published_total + 1 WHERE id = $1";

impl Approve {
    /// The statement of this step.
    pub open spec fn asks(self, id: PoolQuestionId, approver: UserId) -> StatementView {
        match self {
            Approve::Publish => crate::page::sends(
                PUBLISH,
                seq![
                    ParamView::Uuid(id.0),
                    ParamView::Text(STATUS_APPROVED@),
                    ParamView::Uuid(approver.0),
                    ParamView::Text(STATUS_PENDING@),
                ],
            ),
            Approve::CreditApprover { .. } => crate::page::sends(
                CREDIT_APPROVER,
                seq![ParamView::Uuid(approver.0)],
            ),
            Approve::CreditAsker { asker } => crate::page::sends(
                CREDIT_ASKER,
                seq![ParamView::Uuid(asker.0)],
            ),
        }
    }

    /// The statement of this step.
    pub fn statement(self, id: PoolQuestionId, approver: UserId) -> (statement: Statement)
        ensures
            statement@ == self.asks(id, approver),
    {
        match self {
            Approve::Publish => Statement::new(
                PUBLISH,
                vec![
                    Param::Uuid(id.0),
                    Param::Text(STATUS_APPROVED.to_owned()),
                    Param::Uuid(approver.0),
                    Param::Text(STATUS_PENDING.to_owned()),
                ],
            ),
            Approve::CreditApprover { .. } => Statement::new(
                CREDIT_APPROVER,
                vec![Param::Uuid(approver.0)],
            ),
            Approve::CreditAsker { asker } => Statement::new(
                CREDIT_ASKER,
                vec![Param::Uuid(asker.0)],
            ),
        }
    }
}

/// What an approval does once the statement of `at` is answered.
pub open spec fn approve_next(at: Approve, reply: Reply, approver: UserId) -> Step<
    Approve,
    bool,
    (),
> {
    match at {
        Approve::Publish => match reply.key() {
            Some(asker) => if UserId(asker) == approver {
                Step::Commit(true)
            } else {
                Step::Ask(Approve::CreditApprover { asker: UserId(asker) })
            },
            None => Step::Commit(false),
        },
        Approve::CreditApprover { asker } => Step::Ask(Approve::CreditAsker { asker }),
        Approve::CreditAsker { .. } => Step::Commit(true),
    }
}

/// Approve a question: the step that follows the answer to `at`. An approval
/// starts at [`Approve::Publish`] and answers whether the question was
/// pending. Approving one's own question moves neither counter.
pub fn approve(at: Approve, reply: Reply, approver: UserId) -> (step: Step<Approve, bool, ()>)
    ensures
        step == approve_next(at, reply, approver),
{
    match at {
        Approve::Publish => match reply.uuid() {
            Some(asker) => if UserId(asker) == approver {
                Step::Commit(true)
            } else {
                Step::Ask(Approve::CreditApprover { asker: UserId(asker) })
            },
            None => Step::Commit(false),
        },
        Approve::CreditApprover { asker } => Step::Ask(Approve::CreditAsker { asker }),
        Approve::CreditAsker { .. } => Step::Commit(true),
    }
}

/// What a statement of an image write answered.
#[derive(Debug)]
pub enum PhotoReply {
    /// No row came back.
    Empty,
    /// The status of the locked question.
    Status(String),
    /// The name of a blob.
    File(String),
}

/// Whether a reply is that of a pending question.
pub open spec fn is_pending(reply: PhotoReply) -> bool {
    match reply {
        PhotoReply::Status(status) => status@ == STATUS_PENDING@,
        _ => false,
    }
}

fn pending(reply: &PhotoReply) -> (yes: bool)
    ensures
        yes == is_pending(*reply),
{
    match reply {
        PhotoReply::Status(status) => same_text(status.as_str(), STATUS_PENDING),
        _ => false,
    }
}

/// The blob a reply names.
pub open spec fn named(reply: PhotoReply) -> Option<String> {
    match reply {
        PhotoReply::File(file) => Some(file),
        _ => None,
    }
}

fn name_in(reply: PhotoReply) -> (file: Option<String>)
    ensures
        file == named(reply),
{
    match reply {
        PhotoReply::File(file) => Some(file),
        _ => None,
    }
}

/// The statement an image write waits for.
#[derive(Clone, Debug)]
pub enum SetImage {
    /// Lock the question and read its status.
    Lock,
    /// Read the name of the blob the question has.
    ReadReplaced,
    /// Write the question's image.
    Store { replaced: Option<String> },
}

pub const LOCK_QUESTION: &'static str =
    "SELECT status FROM pool_question WHERE id = $1 FOR UPDATE";

pub const REPLACED_FILE: &'static str =
    "SELECT file FROM pool_question_image WHERE question = $1";

pub const STORE_IMAGE: &'static str =
    "INSERT INTO pool_question_image (question, file, content_type, size) VALUES ($1, $2, $3, \
     $4) ON CONFLICT (question) DO UPDATE SET file = EXCLUDED.file, content_type = \
     EXCLUDED.content_type, size = EXCLUDED.size";

pub const DETACH_IMAGE: &'static str =
    "DELETE FROM pool_question_image WHERE question = $1 RETURNING file";

impl SetImage {
    /// The statement of this step.
    pub open spec fn asks(
        self,
        id: PoolQuestionId,
        file: &str,
        content_type: &str,
        size: i64,
    ) -> StatementView {
        match self {
            SetImage::Lock => crate::page::sends(LOCK_QUESTION, seq![ParamView::Uuid(id.0)]),
            SetImage::ReadReplaced => crate::page::sends(
                REPLACED_FILE,
                seq![ParamView::Uuid(id.0)],
            ),
            SetImage::Store { .. } => crate::page::sends(
                STORE_IMAGE,
                seq![
                    ParamView::Uuid(id.0),
                    ParamView::Text(file@),
                    ParamView::Text(content_type@),
                    ParamView::I64(size),
                ],
            ),
        }
    }

    /// The statement of this step.
    pub fn statement(
        &self,
        id: PoolQuestionId,
        file: &str,
        content_type: &str,
        size: i64,
    ) -> (statement: Statement)
        ensures
            statement@ == self.asks(id, file, content_type, size),
    {
        match self {
            SetImage::Lock => Statement::new(LOCK_QUESTION, vec![Param::Uuid(id.0)]),
            SetImage::ReadReplaced => Statement::new(REPLACED_FILE, vec![Param::Uuid(id.0)]),
            SetImage::Store { .. } => Statement::new(
                STORE_IMAGE,
                vec![
                    Param::Uuid(id.0),
                    Param::Text(file.to_owned()),
                    Param::Text(content_type.to_owned()),
                    Param::I64(size),
                ],
            ),
        }
    }
}

/// What an image write does once the statement of `at` is answered.
pub open spec fn set_image_next(at: SetImage, reply: PhotoReply) -> Step<
    SetImage,
    Option<Option<String>>,
    (),
> {
    match at {
        SetImage::Lock => if is_pending(reply) {
            Step::Ask(SetImage::ReadReplaced)
        } else {
            Step::Commit(None)
        },
        SetImage::ReadReplaced => Step::Ask(SetImage::Store { replaced: named(reply) }),
        SetImage::Store { replaced } => Step::Commit(Some(replaced)),
    }
}

/// Point a pending question at a new image: the step that follows the answer
/// to `at`. A write starts at [`SetImage::Lock`]. It answers the name of the
/// blob it displaced, if there was one, or `None` where the question is gone
/// or no longer pending.
pub fn set_image(at: SetImage, reply: PhotoReply) -> (step: Step<
    SetImage,
    Option<Option<String>>,
    (),
>)
    ensures
        step == set_image_next(at, reply),
{
    match at {
        SetImage::Lock => if pending(&reply) {
            Step::Ask(SetImage::ReadReplaced)
        } else {
            Step::Commit(None)
        },
        SetImage::ReadReplaced => Step::Ask(SetImage::Store { replaced: name_in(reply) }),
        SetImage::Store { replaced } => Step::Commit(Some(replaced)),
    }
}

/// The statement an image removal waits for.
#[derive(Clone, Copy, PartialEq, Eq, Structural, Debug)]
pub enum ClearImage {
    /// Lock the question and read its status.
    Lock,
    /// Delete the question's image and read the name of its blob.
    Detach,
}

impl ClearImage {
    /// The statement of this step.
    pub open spec fn asks(self, id: PoolQuestionId) -> StatementView {
        match self {
            ClearImage::Lock => crate::page::sends(LOCK_QUESTION, seq![ParamView::Uuid(id.0)]),
            ClearImage::Detach => crate::page::sends(DETACH_IMAGE, seq![ParamView::Uuid(id.0)]),
        }
    }

    /// The statement of this step.
    pub fn statement(self, id: PoolQuestionId) -> (statement: Statement)
        ensures
            statement@ == self.asks(id),
    {
        match self {
            ClearImage::Lock => Statement::new(LOCK_QUESTION, vec![Param::Uuid(id.0)]),
            ClearImage::Detach => Statement::new(DETACH_IMAGE, vec![Param::Uuid(id.0)]),
        }
    }
}

/// What an image removal does once the statement of `at` is answered.
pub open spec fn clear_image_next(at: ClearImage, reply: PhotoReply) -> Step<
    ClearImage,
    Option<Option<String>>,
    (),
> {
    match at {
        ClearImage::Lock => if is_pending(reply) {
            Step::Ask(ClearImage::Detach)
        } else {
            Step::Commit(None)
        },
        ClearImage::Detach => Step::Commit(Some(named(reply))),
    }
}

/// Take the image off a pending question: the step that follows the answer to
/// `at`. A removal starts at [`ClearImage::Lock`]. It answers the name of the
/// detached blob, if there was one, or `None` where the question is gone or
/// no longer pending.
pub fn clear_image(at: ClearImage, reply: PhotoReply) -> (step: Step<
    ClearImage,
    Option<Option<String>>,
    (),
>)
    ensures
        step == clear_image_next(at, reply),
{
    match at {
        ClearImage::Lock => if pending(&reply) {
            Step::Ask(ClearImage::Detach)
        } else {
            Step::Commit(None)
        },
        ClearImage::Detach => Step::Commit(Some(name_in(reply))),
    }
}

/// What a delete took: the question, its solutions, and the blobs that both
/// named, to be taken off disk.
#[derive(Debug)]
pub struct Deleted {
    pub question: PoolQuestion,
    pub solutions: Vec<Solution>,
    pub image_files: Vec<String>,
}

/// The statement a delete waits for: the images before the rows that name
/// them, and the children before the question.
#[derive(Clone, Copy, PartialEq, Eq, Structural, Debug)]
pub enum Delete {
    WipeSolutionImages,
    WipeSolutions,
    WipeImage,
    DeleteRow,
}

pub const WIPE_SOLUTION_IMAGES: &'static str =
    "DELETE FROM solution_image si USING solution s WHERE si.solution = s.id AND s.question = \
     $1 RETURNING si.file";

pub const WIPE_SOLUTIONS: &'static str =
    "DELETE FROM solution WHERE question = $1 RETURNING id, question, author, body, offered_at";

pub const DELETE_QUESTION: &'static str =
    "DELETE FROM pool_question WHERE id = $1 RETURNING id, asker, title, body, status, \
     asked_at, approved_by";

impl Delete {
    /// The statement of this step.
    pub open spec fn asks(self, id: PoolQuestionId) -> StatementView {
        let key = seq![ParamView::Uuid(id.0)];
        match self {
            Delete::WipeSolutionImages => crate::page::sends(WIPE_SOLUTION_IMAGES, key),
            Delete::WipeSolutions => crate::page::sends(WIPE_SOLUTIONS, key),
            Delete::WipeImage => crate::page::sends(DETACH_IMAGE, key),
            Delete::DeleteRow => crate::page::sends(DELETE_QUESTION, key),
        }
    }

    /// The statement of this step.
    pub fn statement(self, id: PoolQuestionId) -> (statement: Statement)
        ensures
            statement@ == self.asks(id),
    {
        let key = vec![Param::Uuid(id.0)];
        match self {
            Delete::WipeSolutionImages => Statement::new(WIPE_SOLUTION_IMAGES, key),
            Delete::WipeSolutions => Statement::new(WIPE_SOLUTIONS, key),
            Delete::WipeImage => Statement::new(DETACH_IMAGE, key),
            Delete::DeleteRow => Statement::new(DELETE_QUESTION, key),
        }
    }
}

/// What a delete does once the statement of `at` is answered.
pub open spec fn delete_next(at: Delete, reply: Reply) -> Step<Delete, bool, ()> {
    match at {
        Delete::WipeSolutionImages => Step::Ask(Delete::WipeSolutions),
        Delete::WipeSolutions => Step::Ask(Delete::WipeImage),
        Delete::WipeImage => Step::Ask(Delete::DeleteRow),
        Delete::DeleteRow => Step::Commit(reply.has_row()),
    }
}

/// Delete a question with its solutions: the step that follows the answer to
/// `at`. A delete starts at [`Delete::WipeSolutionImages`] and answers whether
/// the question was there; [`deleted`] puts together what it took.
pub fn delete(at: Delete, reply: Reply) -> (step: Step<Delete, bool, ()>)
    ensures
        step == delete_next(at, reply),
{
    match at {
        Delete::WipeSolutionImages => Step::Ask(Delete::WipeSolutions),
        Delete::WipeSolutions => Step::Ask(Delete::WipeImage),
        Delete::WipeImage => Step::Ask(Delete::DeleteRow),
        Delete::DeleteRow => Step::Commit(reply.row()),
    }
}

/// What a delete took, from the rows its statements removed: the blobs of the
/// solutions first, then that of the question.
pub fn deleted(
    question: Option<PoolQuestion>,
    solutions: Vec<Solution>,
    solution_files: Vec<String>,
    question_file: Option<String>,
) -> (taken: Option<Deleted>)
    ensures
        taken is Some == question is Some,
        match taken {
            Some(taken) => taken.question == question->0 && taken.solutions == solutions
                && taken.image_files@ == (match question_file {
                Some(file) => solution_files@.push(file),
                None => solution_files@,
            }),
            None => true,
        },
{
    match question {
        Some(question) => {
            let mut image_files = solution_files;
            if let Some(file) = question_file {
                image_files.push(file);
            }
            Some(Deleted { question, solutions, image_files })
        },
        None => None,
    }
}

/// A stored question.
pub struct Asked {
    pub asker: UserId,
    pub title: Seq<char>,
    pub body: Seq<char>,
    pub status: Seq<char>,
    pub asked_at: i64,
    pub approved_by: Option<UserId>,
}

/// The row an approval leaves.
pub open spec fn published(row: Asked, approver: UserId) -> Asked {
    Asked { status: STATUS_APPROVED@, approved_by: Some(approver), ..row }
}

/// The questions, the two credit counters of every user, and the images and
/// solutions that hang off the questions.
#[verifier::ext_equal]
pub struct Pool {
    pub questions: Map<PoolQuestionId, Asked>,
    pub approved_total: Map<UserId, int>,
    pub published_total: Map<UserId, int>,
    pub images: Map<PoolQuestionId, String>,
    pub solutions: Map<SolutionId, PoolQuestionId>,
    pub solution_images: Map<SolutionId, Seq<char>>,
}

impl Pool {
    /// Whether a question is there and waits for approval.
    pub open spec fn waits(self, id: PoolQuestionId) -> bool {
        self.questions.contains_key(id) && self.questions[id].status == STATUS_PENDING@
    }
}

/// A counter with one more, where the user is there.
pub open spec fn bumped(totals: Map<UserId, int>, user: UserId) -> Map<UserId, int> {
    if totals.contains_key(user) {
        totals.insert(user, totals[user] + 1)
    } else {
        totals
    }
}

/// What each statement of an approval does, and what it replies.
pub open spec fn approve_effect(
    db: Pool,
    id: PoolQuestionId,
    approver: UserId,
    at: Approve,
) -> (Pool, Reply) {
    match at {
        Approve::Publish => if db.waits(id) {
            (
                Pool {
                    questions: db.questions.insert(
                        id,
                        published(db.questions[id], approver),
                    ),
                    ..db
                },
                Reply::Key(db.questions[id].asker.0),
            )
        } else {
            (db, Reply::Empty)
        },
        Approve::CreditApprover { .. } => (
            Pool { approved_total: bumped(db.approved_total, approver), ..db },
            Reply::Row,
        ),
        Approve::CreditAsker { asker } => (
            Pool { published_total: bumped(db.published_total, asker), ..db },
            Reply::Row,
        ),
    }
}

/// A whole approval.
pub open spec fn approve_run(db: Pool, id: PoolQuestionId, approver: UserId) -> (
    Pool,
    Step<Approve, bool, ()>,
) {
    crate::transaction::run(
        db,
        Step::Ask(Approve::Publish),
        |at: Approve, reply: Reply| approve_next(at, reply, approver),
        |pool: Pool, at: Approve| approve_effect(pool, id, approver, at),
        3,
    )
}

/// What an approval leaves.
pub open spec fn approved(db: Pool, id: PoolQuestionId, approver: UserId) -> Pool {
    crate::transaction::stored(db, approve_run(db, id, approver))
}

proof fn lemma_statuses_differ()
    ensures
        STATUS_PENDING@ != STATUS_APPROVED@,
{
    reveal_strlit("pending");
    reveal_strlit("approved");
    assert(STATUS_PENDING@.len() != STATUS_APPROVED@.len());
}

/// Approval is one way and happens once: a pending question is published and
/// stamped, an approved or missing one is left alone. One person's question
/// approved by another moves the approver's and the asker's counter by one
/// each; approving one's own moves neither.
pub proof fn law_approval_is_once(db: Pool, id: PoolQuestionId, approver: UserId)
    ensures
        ({
            let after = approved(db, id, approver);
            &&& approve_run(db, id, approver).1 == Step::<Approve, bool, ()>::Commit(db.waits(id))
            &&& !db.waits(id) ==> after == db
            &&& db.waits(id) ==> {
                let asker = db.questions[id].asker;
                &&& after.questions == db.questions.insert(
                    id,
                    published(db.questions[id], approver),
                )
                &&& asker != approver ==> after.approved_total == bumped(
                    db.approved_total,
                    approver,
                ) && after.published_total == bumped(db.published_total, asker)
                &&& asker == approver ==> after.approved_total == db.approved_total
                    && after.published_total == db.published_total
            }
            &&& !after.waits(id)
        }),
{
    reveal_with_fuel(crate::transaction::run, 4);
    lemma_statuses_differ();
}

/// A second approval, by whomever, changes nothing.
pub proof fn law_second_approval_changes_nothing(
    db: Pool,
    id: PoolQuestionId,
    first: UserId,
    second: UserId,
)
    ensures
        approved(approved(db, id, first), id, second) == approved(db, id, first),
        approve_run(approved(db, id, first), id, second).1 == Step::<Approve, bool, ()>::Commit(
            false,
        ),
{
    law_approval_is_once(db, id, first);
    law_approval_is_once(approved(db, id, first), id, second);
}

/// Whether a user sees a question in the pool.
pub open spec fn visible(db: Pool, id: PoolQuestionId, user: UserId) -> bool {
    db.questions.contains_key(id) && (db.questions[id].status == STATUS_APPROVED@
        || db.questions[id].asker == user)
}

/// Others' pending questions are hidden, one's own are not, and approval
/// shows a question to everybody.
pub proof fn law_approval_makes_visible(
    db: Pool,
    id: PoolQuestionId,
    approver: UserId,
    user: UserId,
)
    ensures
        db.waits(id) ==> (visible(db, id, user) <==> db.questions[id].asker == user),
        db.waits(id) || visible(db, id, user) ==> visible(
            approved(db, id, approver),
            id,
            user,
        ),
{
    lemma_statuses_differ();
    law_approval_is_once(db, id, approver);
}

/// What the locking read of a question replies: its status.
pub open spec fn status_reply(db: Pool, id: PoolQuestionId, reply: PhotoReply) -> bool {
    match reply {
        PhotoReply::Empty => !db.questions.contains_key(id),
        PhotoReply::Status(status) => db.questions.contains_key(id) && status@
            == db.questions[id].status,
        PhotoReply::File(_) => false,
    }
}

/// What the image of a question reads as.
pub open spec fn image_reply(db: Pool, id: PoolQuestionId) -> PhotoReply {
    if db.images.contains_key(id) {
        PhotoReply::File(db.images[id])
    } else {
        PhotoReply::Empty
    }
}

/// What each statement of an image write does, and what it replies, given the
/// reply of the locking read.
pub open spec fn set_image_effect(
    db: Pool,
    id: PoolQuestionId,
    file: String,
    locked: PhotoReply,
    at: SetImage,
) -> (Pool, PhotoReply) {
    match at {
        SetImage::Lock => (db, locked),
        SetImage::ReadReplaced => (db, image_reply(db, id)),
        SetImage::Store { .. } => (
            Pool { images: db.images.insert(id, file), ..db },
            PhotoReply::Empty,
        ),
    }
}

/// A whole image write.
pub open spec fn set_image_run(
    db: Pool,
    id: PoolQuestionId,
    file: String,
    locked: PhotoReply,
) -> (Pool, Step<SetImage, Option<Option<String>>, ()>) {
    crate::transaction::run(
        db,
        Step::Ask(SetImage::Lock),
        |at: SetImage, reply: PhotoReply| set_image_next(at, reply),
        |pool: Pool, at: SetImage| set_image_effect(pool, id, file, locked, at),
        3,
    )
}

/// An image lands only on a pending question, replaces the one that was
/// there, and names the blob it displaced; an approved or missing question
/// keeps what it has.
pub proof fn law_image_lands_only_while_pending(
    db: Pool,
    id: PoolQuestionId,
    file: String,
    locked: PhotoReply,
)
    requires
        status_reply(db, id, locked),
    ensures
        ({
            let end = set_image_run(db, id, file, locked);
            let after = crate::transaction::stored(db, end);
            &&& !db.waits(id) ==> after == db && end.1 == Step::<
                SetImage,
                Option<Option<String>>,
                (),
            >::Commit(None)
            &&& db.waits(id) ==> after.images == db.images.insert(id, file) && end.1 == Step::<
                SetImage,
                Option<Option<String>>,
                (),
            >::Commit(
                Some(
                    if db.images.contains_key(id) {
                        Some(db.images[id])
                    } else {
                        None
                    },
                ),
            )
        }),
{
    reveal_with_fuel(crate::transaction::run, 4);
}

/// What each statement of an image removal does, and what it replies, given
/// the reply of the locking read.
pub open spec fn clear_image_effect(
    db: Pool,
    id: PoolQuestionId,
    locked: PhotoReply,
    at: ClearImage,
) -> (Pool, PhotoReply) {
    match at {
        ClearImage::Lock => (db, locked),
        ClearImage::Detach => (Pool { images: db.images.remove(id), ..db }, image_reply(db, id)),
    }
}

/// A whole image removal.
pub open spec fn clear_image_run(db: Pool, id: PoolQuestionId, locked: PhotoReply) -> (
    Pool,
    Step<ClearImage, Option<Option<String>>, ()>,
) {
    crate::transaction::run(
        db,
        Step::Ask(ClearImage::Lock),
        |at: ClearImage, reply: PhotoReply| clear_image_next(at, reply),
        |pool: Pool, at: ClearImage| clear_image_effect(pool, id, locked, at),
        2,
    )
}

/// An image comes off only while the question is pending, and its blob is
/// named; an approved or missing question keeps what it has.
pub proof fn law_image_comes_off_only_while_pending(
    db: Pool,
    id: PoolQuestionId,
    locked: PhotoReply,
)
    requires
        status_reply(db, id, locked),
    ensures
        ({
            let end = clear_image_run(db, id, locked);
            let after = crate::transaction::stored(db, end);
            &&& !db.waits(id) ==> after == db && end.1 == Step::<
                ClearImage,
                Option<Option<String>>,
                (),
            >::Commit(None)
            &&& db.waits(id) ==> after.images == db.images.remove(id) && end.1 == Step::<
                ClearImage,
                Option<Option<String>>,
                (),
            >::Commit(
                Some(
                    if db.images.contains_key(id) {
                        Some(db.images[id])
                    } else {
                        None
                    },
                ),
            )
        }),
{
    reveal_with_fuel(crate::transaction::run, 3);
}

/// The solutions offered to a question.
pub open spec fn offered(db: Pool, id: PoolQuestionId) -> Set<SolutionId> {
    db.solutions.dom().filter(|solution: SolutionId| db.solutions[solution] == id)
}

/// What each statement of a delete does, and what it replies.
pub open spec fn delete_effect(db: Pool, id: PoolQuestionId, at: Delete) -> (Pool, Reply) {
    match at {
        Delete::WipeSolutionImages => (
            Pool { solution_images: db.solution_images.remove_keys(offered(db, id)), ..db },
            Reply::Row,
        ),
        Delete::WipeSolutions => (
            Pool { solutions: db.solutions.remove_keys(offered(db, id)), ..db },
            Reply::Row,
        ),
        Delete::WipeImage => (Pool { images: db.images.remove(id), ..db }, Reply::Row),
        Delete::DeleteRow => (
            Pool { questions: db.questions.remove(id), ..db },
            if db.questions.contains_key(id) {
                Reply::Row
            } else {
                Reply::Empty
            },
        ),
    }
}

/// A whole delete.
pub open spec fn delete_run(db: Pool, id: PoolQuestionId) -> (Pool, Step<Delete, bool, ()>) {
    crate::transaction::run(
        db,
        Step::Ask(Delete::WipeSolutionImages),
        |at: Delete, reply: Reply| delete_next(at, reply),
        |pool: Pool, at: Delete| delete_effect(pool, id, at),
        4,
    )
}

/// No solution outlives its question and no image outlives its row: a delete
/// takes the question, its image, its solutions and their images, and nothing
/// of any other question.
pub proof fn law_delete_takes_the_whole_question(
    db: Pool,
    id: PoolQuestionId,
    solution: SolutionId,
)
    ensures
        ({
            let end = delete_run(db, id);
            let after = crate::transaction::stored(db, end);
            &&& end.1 == Step::<Delete, bool, ()>::Commit(db.questions.contains_key(id))
            &&& after.questions == db.questions.remove(id)
            &&& after.images == db.images.remove(id)
            &&& after.solutions.contains_key(solution) <==> db.solutions.contains_key(solution)
                && db.solutions[solution] != id
            &&& after.solution_images.contains_key(solution) <==> db.solution_images.contains_key(
                solution,
            ) && !(db.solutions.contains_key(solution) && db.solutions[solution] == id)
            &&& after.approved_total == db.approved_total && after.published_total
                == db.published_total
        }),
{
    reveal_with_fuel(crate::transaction::run, 5);
}

/// What [`INSERT`] says.
pub open spec fn insert_reading() -> Storing {
    Storing {
        head: "INSERT INTO "@,
        table: "pool_question"@,
        columns: seq!["id"@, "asker"@, "title"@, "body"@, "status"@, "asked_at"@],
        values: seq![Term::Bind(1), Term::Bind(2), Term::Bind(3), Term::Bind(4), Term::Bind(5), Term::Bind(6)],
        selected: false,
        conflict: Conflict::Unread,
        rest: crate::sql::returning(),
    }
}

proof fn lemma_insert_reads()
    ensures
        crate::sql::spells(INSERT@, 0, insert_reading().text()),
{
    reveal_strlit("INSERT INTO pool_question (id, asker, title, body, status, asked_at) VALUES ($1, $2, $3, $4, $5, $6) RETURNING id, asker, title, body, status, asked_at, approved_by");
    reveal_strlit("INSERT INTO ");
    reveal_strlit("pool_question");
    reveal_strlit(" (");
    reveal_strlit("id");
    reveal_strlit(", ");
    reveal_strlit("asker");
    reveal_strlit("title");
    reveal_strlit("body");
    reveal_strlit("status");
    reveal_strlit("asked_at");
    reveal_strlit(") VALUES (");
    reveal_strlit("$");
    reveal_strlit(")");
    reveal_strlit(" RETURNING ");
    reveal(crate::sql::Storing::text);
    reveal_with_fuel(crate::sql::names_text, 7);
    reveal_with_fuel(crate::sql::values_text, 7);
    reveal_with_fuel(crate::sql::stands, 14);
    reveal_with_fuel(crate::sql::spells_by, 29);
    crate::sql::lemma_spells_by(INSERT@, 0, insert_reading().text(), crate::sql::cut(12, crate::sql::cut(25, crate::sql::cut(27, crate::sql::cut(29, crate::sql::cut(31, crate::sql::cut(36, crate::sql::cut(38, crate::sql::cut(43, crate::sql::cut(45, crate::sql::cut(49, crate::sql::cut(51, crate::sql::cut(57, crate::sql::cut(59, crate::sql::cut(67, crate::sql::cut(77, crate::sql::cut(79, crate::sql::cut(81, crate::sql::cut(83, crate::sql::cut(85, crate::sql::cut(87, crate::sql::cut(89, crate::sql::cut(91, crate::sql::cut(93, crate::sql::cut(95, crate::sql::cut(97, crate::sql::cut(99, crate::sql::cut(100, crate::sql::cut(111, Cuts::Last)))))))))))))))))))))))))))));
}

/// What [`insert`] stores, column by column, is what it is given.
pub proof fn law_insert_lands_in_its_columns(
    question: &PoolQuestion,
    sent: Statement,
)
    requires
        call_ensures(insert, (question,), sent),
    ensures
        insert_reading().is_read(sent@),
        insert_reading().stores(sent@.binds) == seq![
            ("id"@, Cell::Uuid(question.id.0)),
            ("asker"@, Cell::Uuid(question.asker.0)),
            ("title"@, Cell::Text(question.title@)),
            ("body"@, Cell::Text(question.body@)),
            ("status"@, Cell::Text(question.status@)),
            ("asked_at"@, Cell::Int(question.asked_at.0 as int)),
        ],
{
    lemma_insert_reads();
}

/// What [`READ`] says.
pub open spec fn read_reading() -> Picking {
    Picking {
        skip: 60,
        head: " FROM "@,
        columns: Seq::empty(),
        table: "pool_question"@,
        conditions: seq![crate::sql::is_bound("id"@, 1)],
        rest: Text::End,
    }
}

proof fn lemma_read_reads()
    ensures
        crate::sql::spells(READ@, 60, read_reading().text()),
{
    reveal_strlit("SELECT id, asker, title, body, status, asked_at, approved_by FROM pool_question WHERE id = $1");
    reveal_strlit(" FROM ");
    reveal_strlit("pool_question");
    reveal_strlit(" WHERE ");
    reveal_strlit("id");
    reveal_strlit(" = ");
    reveal_strlit("$");
    reveal(crate::sql::Picking::text);
    reveal_with_fuel(crate::sql::where_text, 2);
    reveal_with_fuel(crate::sql::stands, 14);
    reveal_with_fuel(crate::sql::spells_by, 7);
    crate::sql::lemma_spells_by(READ@, 60, read_reading().text(), crate::sql::cut(66, crate::sql::cut(79, crate::sql::cut(86, crate::sql::cut(88, crate::sql::cut(91, crate::sql::cut(93, Cuts::Last)))))));
}

/// [`read`] reads the rows it names and no other.
pub proof fn law_read_reads_its_rows(
    id: PoolQuestionId,
    sent: Statement,
    row: Row,
)
    requires
        call_ensures(read, (id,), sent),
    ensures
        read_reading().is_read(sent@),
        read_reading().picks(sent@.binds, row) == (row["id"@] == Cell::Uuid(id.0)),
{
    lemma_read_reads();
    reveal_with_fuel(crate::sql::all_hold, 2);
}

/// The text of [`LIST_VISIBLE_TO`], taken apart at its placeholders.
pub open spec fn list_visible_to_text() -> Text {
    crate::sql::before("SELECT id, asker, title, body, status,"@, crate::sql::before(" asked_at, approved_by FROM pool_question WHERE"@, crate::sql::before(" status = "@, crate::sql::before(crate::text::placeholder(1), crate::sql::before(" OR asker = "@, crate::sql::before(crate::text::placeholder(2), crate::sql::before(" ORDER BY asked_at DESC, id DESC"@, Text::End)))))))
}

proof fn lemma_list_visible_to_reads()
    ensures
        crate::sql::spells(LIST_VISIBLE_TO@, 0, list_visible_to_text()),
{
    reveal_strlit("SELECT id, asker, title, body, status, asked_at, approved_by FROM pool_question WHERE status = $1 OR asker = $2 ORDER BY asked_at DESC, id DESC");
    reveal_strlit("SELECT id, asker, title, body, status,");
    reveal_strlit(" asked_at, approved_by FROM pool_question WHERE");
    reveal_strlit(" status = ");
    reveal_strlit("$");
    reveal_strlit(" OR asker = ");
    reveal_strlit(" ORDER BY asked_at DESC, id DESC");
    reveal_with_fuel(crate::sql::stands, 48);
    reveal_with_fuel(crate::sql::spells_by, 8);
    crate::sql::lemma_spells_by(LIST_VISIBLE_TO@, 0, list_visible_to_text(), crate::sql::cut(38, crate::sql::cut(85, crate::sql::cut(95, crate::sql::cut(97, crate::sql::cut(109, crate::sql::cut(111, crate::sql::cut(143, Cuts::Last))))))));
}

/// [`list_visible_to`] binds each value at its own place in the text.
pub proof fn law_list_visible_to_binds_its_values(
    user: UserId,
    sent: Statement,
)
    requires
        call_ensures(list_visible_to, (user,), sent),
    ensures
        crate::sql::spells(sent@.sql, 0, list_visible_to_text()),
        sent@.binds.len() == 2,
        crate::sql::cell(sent@.binds[0]) == Cell::Text(STATUS_APPROVED@),
        crate::sql::cell(sent@.binds[1]) == Cell::Uuid(user.0),
{
    lemma_list_visible_to_reads();
}

/// What [`PUBLISH`] says.
pub open spec fn publish_reading() -> Writing {
    Writing {
        head: "UPDATE "@,
        table: "pool_question"@,
        sets: seq![("status"@, crate::sql::bind(2)), ("approved_by"@, crate::sql::bind(3))],
        conditions: seq![crate::sql::is_bound("id"@, 1), crate::sql::is_bound("status"@, 4)],
        rest: crate::sql::returning(),
    }
}

proof fn lemma_publish_reads()
    ensures
        crate::sql::spells(PUBLISH@, 0, publish_reading().text()),
{
    reveal_strlit("UPDATE pool_question SET status = $2, approved_by = $3 WHERE id = $1 AND status = $4 RETURNING id, asker, title, body, status, asked_at, approved_by");
    reveal_strlit("UPDATE ");
    reveal_strlit("pool_question");
    reveal_strlit(" SET ");
    reveal_strlit("status");
    reveal_strlit(" = ");
    reveal_strlit("$");
    reveal_strlit(", ");
    reveal_strlit("approved_by");
    reveal_strlit(" WHERE ");
    reveal_strlit("id");
    reveal_strlit(" AND ");
    reveal_strlit(" RETURNING ");
    reveal(crate::sql::Writing::text);
    reveal_with_fuel(crate::sql::set_text, 3);
    reveal_with_fuel(crate::sql::where_text, 3);
    reveal_with_fuel(crate::sql::stands, 14);
    reveal_with_fuel(crate::sql::spells_by, 20);
    crate::sql::lemma_spells_by(PUBLISH@, 0, publish_reading().text(), crate::sql::cut(7, crate::sql::cut(20, crate::sql::cut(25, crate::sql::cut(31, crate::sql::cut(34, crate::sql::cut(36, crate::sql::cut(38, crate::sql::cut(49, crate::sql::cut(52, crate::sql::cut(54, crate::sql::cut(61, crate::sql::cut(63, crate::sql::cut(66, crate::sql::cut(68, crate::sql::cut(73, crate::sql::cut(79, crate::sql::cut(82, crate::sql::cut(84, crate::sql::cut(95, Cuts::Last))))))))))))))))))));
}

/// [`Approve::Publish`] picks the rows it names and no other, and overwrites each column with
/// its own value.
pub proof fn law_approve_publish_writes_its_row(
    id: PoolQuestionId,
    approver: UserId,
    row: Row,
)
    ensures
        ({
            let sent = Approve::Publish.asks(id, approver);
            &&& publish_reading().is_read(sent)
            &&& publish_reading().picks(sent.binds, row) == (row["id"@] == Cell::Uuid(id.0) && row["status"@] == Cell::Text(STATUS_PENDING@))
            &&& publish_reading().writes(sent.binds, row) == seq![
                ("status"@, Cell::Text(STATUS_APPROVED@)),
                ("approved_by"@, Cell::Uuid(approver.0)),
            ]
        }),
{
    lemma_publish_reads();
    reveal_with_fuel(crate::sql::all_hold, 3);
}

/// What [`CREDIT_APPROVER`] says.
pub open spec fn credit_approver_reading() -> Writing {
    Writing {
        head: "UPDATE "@,
        table: "app_user"@,
        sets: seq![("pool_approved_total"@, Expr::Plus(Term::Column("pool_approved_total"@), Term::Word("1"@, Cell::Int(1))))],
        conditions: seq![crate::sql::is_bound("id"@, 1)],
        rest: Text::End,
    }
}

proof fn lemma_credit_approver_reads()
    ensures
        crate::sql::spells(CREDIT_APPROVER@, 0, credit_approver_reading().text()),
{
    reveal_strlit("UPDATE app_user SET pool_approved_total = pool_approved_total + 1 WHERE id = $1");
    reveal_strlit("UPDATE ");
    reveal_strlit("app_user");
    reveal_strlit(" SET ");
    reveal_strlit("pool_approved_total");
    reveal_strlit(" = ");
    reveal_strlit(" + ");
    reveal_strlit("1");
    reveal_strlit(" WHERE ");
    reveal_strlit("id");
    reveal_strlit("$");
    reveal(crate::sql::Writing::text);
    reveal_with_fuel(crate::sql::set_text, 2);
    reveal_with_fuel(crate::sql::where_text, 2);
    reveal_with_fuel(crate::sql::stands, 20);
    reveal_with_fuel(crate::sql::spells_by, 13);
    crate::sql::lemma_spells_by(CREDIT_APPROVER@, 0, credit_approver_reading().text(), crate::sql::cut(7, crate::sql::cut(15, crate::sql::cut(20, crate::sql::cut(39, crate::sql::cut(42, crate::sql::cut(61, crate::sql::cut(64, crate::sql::cut(65, crate::sql::cut(72, crate::sql::cut(74, crate::sql::cut(77, crate::sql::cut(79, Cuts::Last)))))))))))));
}

/// [`Approve::CreditApprover`] picks the rows it names and no other, and overwrites each column with
/// its own value.
pub proof fn law_approve_credit_approver_writes_its_row(
    id: PoolQuestionId,
    approver: UserId,
    asker: UserId,
    row: Row,
)
    ensures
        ({
            let sent = (Approve::CreditApprover { asker }).asks(id, approver);
            &&& credit_approver_reading().is_read(sent)
            &&& credit_approver_reading().picks(sent.binds, row) == (row["id"@] == Cell::Uuid(approver.0))
            &&& credit_approver_reading().writes(sent.binds, row) == seq![
                ("pool_approved_total"@, Cell::Int(row["pool_approved_total"@].number() + 1)),
            ]
        }),
{
    lemma_credit_approver_reads();
    reveal_with_fuel(crate::sql::all_hold, 2);
}

/// What [`CREDIT_ASKER`] says.
pub open spec fn credit_asker_reading() -> Writing {
    Writing {
        head: "UPDATE "@,
        table: "app_user"@,
        sets: seq![("pool_published_total"@, Expr::Plus(Term::Column("pool_published_total"@), Term::Word("1"@, Cell::Int(1))))],
        conditions: seq![crate::sql::is_bound("id"@, 1)],
        rest: Text::End,
    }
}

proof fn lemma_credit_asker_reads()
    ensures
        crate::sql::spells(CREDIT_ASKER@, 0, credit_asker_reading().text()),
{
    reveal_strlit("UPDATE app_user SET pool_published_total = pool_published_total + 1 WHERE id = $1");
    reveal_strlit("UPDATE ");
    reveal_strlit("app_user");
    reveal_strlit(" SET ");
    reveal_strlit("pool_published_total");
    reveal_strlit(" = ");
    reveal_strlit(" + ");
    reveal_strlit("1");
    reveal_strlit(" WHERE ");
    reveal_strlit("id");
    reveal_strlit("$");
    reveal(crate::sql::Writing::text);
    reveal_with_fuel(crate::sql::set_text, 2);
    reveal_with_fuel(crate::sql::where_text, 2);
    reveal_with_fuel(crate::sql::stands, 21);
    reveal_with_fuel(crate::sql::spells_by, 13);
    crate::sql::lemma_spells_by(CREDIT_ASKER@, 0, credit_asker_reading().text(), crate::sql::cut(7, crate::sql::cut(15, crate::sql::cut(20, crate::sql::cut(40, crate::sql::cut(43, crate::sql::cut(63, crate::sql::cut(66, crate::sql::cut(67, crate::sql::cut(74, crate::sql::cut(76, crate::sql::cut(79, crate::sql::cut(81, Cuts::Last)))))))))))));
}

/// [`Approve::CreditAsker`] picks the rows it names and no other, and overwrites each column with
/// its own value.
pub proof fn law_approve_credit_asker_writes_its_row(
    id: PoolQuestionId,
    approver: UserId,
    asker: UserId,
    row: Row,
)
    ensures
        ({
            let sent = (Approve::CreditAsker { asker }).asks(id, approver);
            &&& credit_asker_reading().is_read(sent)
            &&& credit_asker_reading().picks(sent.binds, row) == (row["id"@] == Cell::Uuid(asker.0))
            &&& credit_asker_reading().writes(sent.binds, row) == seq![
                ("pool_published_total"@, Cell::Int(row["pool_published_total"@].number() + 1)),
            ]
        }),
{
    lemma_credit_asker_reads();
    reveal_with_fuel(crate::sql::all_hold, 2);
}

/// What [`LOCK_QUESTION`] says.
pub open spec fn lock_question_reading() -> Picking {
    Picking {
        skip: 0,
        head: "SELECT "@,
        columns: seq!["status"@],
        table: "pool_question"@,
        conditions: seq![crate::sql::is_bound("id"@, 1)],
        rest: crate::sql::before(" FOR UPDATE"@, Text::End),
    }
}

proof fn lemma_lock_question_reads()
    ensures
        crate::sql::spells(LOCK_QUESTION@, 0, lock_question_reading().text()),
{
    reveal_strlit("SELECT status FROM pool_question WHERE id = $1 FOR UPDATE");
    reveal_strlit("SELECT ");
    reveal_strlit("status");
    reveal_strlit(" FROM ");
    reveal_strlit("pool_question");
    reveal_strlit(" WHERE ");
    reveal_strlit("id");
    reveal_strlit(" = ");
    reveal_strlit("$");
    reveal_strlit(" FOR UPDATE");
    reveal(crate::sql::Picking::text);
    reveal_with_fuel(crate::sql::where_text, 2);
    reveal_with_fuel(crate::sql::names_text, 2);
    reveal_with_fuel(crate::sql::stands, 14);
    reveal_with_fuel(crate::sql::spells_by, 10);
    crate::sql::lemma_spells_by(LOCK_QUESTION@, 0, lock_question_reading().text(), crate::sql::cut(7, crate::sql::cut(13, crate::sql::cut(19, crate::sql::cut(32, crate::sql::cut(39, crate::sql::cut(41, crate::sql::cut(44, crate::sql::cut(46, crate::sql::cut(57, Cuts::Last))))))))));
}

/// [`SetImage::Lock`] reads the rows it names and no other.
pub proof fn law_set_image_lock_reads_its_rows(
    id: PoolQuestionId,
    file: &str,
    content_type: &str,
    size: i64,
    row: Row,
)
    ensures
        ({
            let sent = SetImage::Lock.asks(id, file, content_type, size);
            &&& lock_question_reading().is_read(sent)
            &&& lock_question_reading().picks(sent.binds, row) == (row["id"@] == Cell::Uuid(id.0))
        }),
{
    lemma_lock_question_reads();
    reveal_with_fuel(crate::sql::all_hold, 2);
}

/// What [`REPLACED_FILE`] says.
pub open spec fn replaced_file_reading() -> Picking {
    Picking {
        skip: 0,
        head: "SELECT "@,
        columns: seq!["file"@],
        table: "pool_question_image"@,
        conditions: seq![crate::sql::is_bound("question"@, 1)],
        rest: Text::End,
    }
}

proof fn lemma_replaced_file_reads()
    ensures
        crate::sql::spells(REPLACED_FILE@, 0, replaced_file_reading().text()),
{
    reveal_strlit("SELECT file FROM pool_question_image WHERE question = $1");
    reveal_strlit("SELECT ");
    reveal_strlit("file");
    reveal_strlit(" FROM ");
    reveal_strlit("pool_question_image");
    reveal_strlit(" WHERE ");
    reveal_strlit("question");
    reveal_strlit(" = ");
    reveal_strlit("$");
    reveal(crate::sql::Picking::text);
    reveal_with_fuel(crate::sql::where_text, 2);
    reveal_with_fuel(crate::sql::names_text, 2);
    reveal_with_fuel(crate::sql::stands, 20);
    reveal_with_fuel(crate::sql::spells_by, 9);
    crate::sql::lemma_spells_by(REPLACED_FILE@, 0, replaced_file_reading().text(), crate::sql::cut(7, crate::sql::cut(11, crate::sql::cut(17, crate::sql::cut(36, crate::sql::cut(43, crate::sql::cut(51, crate::sql::cut(54, crate::sql::cut(56, Cuts::Last)))))))));
}

/// [`SetImage::ReadReplaced`] reads the rows it names and no other.
pub proof fn law_set_image_read_replaced_reads_its_rows(
    id: PoolQuestionId,
    file: &str,
    content_type: &str,
    size: i64,
    row: Row,
)
    ensures
        ({
            let sent = SetImage::ReadReplaced.asks(id, file, content_type, size);
            &&& replaced_file_reading().is_read(sent)
            &&& replaced_file_reading().picks(sent.binds, row) == (row["question"@] == Cell::Uuid(id.0))
        }),
{
    lemma_replaced_file_reads();
    reveal_with_fuel(crate::sql::all_hold, 2);
}

/// What [`STORE_IMAGE`] says.
pub open spec fn store_image_reading() -> Storing {
    Storing {
        head: "INSERT INTO "@,
        table: "pool_question_image"@,
        columns: seq!["question"@, "file"@, "content_type"@, "size"@],
        values: seq![Term::Bind(1), Term::Bind(2), Term::Bind(3), Term::Bind(4)],
        selected: false,
        conflict: Conflict::Takes(seq!["question"@], seq!["file"@, "content_type"@, "size"@]),
        rest: Text::End,
    }
}

proof fn lemma_store_image_reads()
    ensures
        crate::sql::spells(STORE_IMAGE@, 0, store_image_reading().text()),
{
    reveal_strlit("INSERT INTO pool_question_image (question, file, content_type, size) VALUES ($1, $2, $3, $4) ON CONFLICT (question) DO UPDATE SET file = EXCLUDED.file, content_type = EXCLUDED.content_type, size = EXCLUDED.size");
    reveal_strlit("INSERT INTO ");
    reveal_strlit("pool_question_image");
    reveal_strlit(" (");
    reveal_strlit("question");
    reveal_strlit(", ");
    reveal_strlit("file");
    reveal_strlit("content_type");
    reveal_strlit("size");
    reveal_strlit(") VALUES (");
    reveal_strlit("$");
    reveal_strlit(")");
    reveal_strlit(" ON CONFLICT (");
    reveal_strlit(") DO UPDATE");
    reveal_strlit(" SET ");
    reveal_strlit(" = EXCLUDED.");
    reveal(crate::sql::Storing::text);
    reveal_with_fuel(crate::sql::names_text, 5);
    reveal_with_fuel(crate::sql::values_text, 5);
    reveal_with_fuel(crate::sql::excluded_text, 4);
    reveal_with_fuel(crate::sql::stands, 20);
    reveal_with_fuel(crate::sql::spells_by, 35);
    crate::sql::lemma_spells_by(STORE_IMAGE@, 0, store_image_reading().text(), crate::sql::cut(12, crate::sql::cut(31, crate::sql::cut(33, crate::sql::cut(41, crate::sql::cut(43, crate::sql::cut(47, crate::sql::cut(49, crate::sql::cut(61, crate::sql::cut(63, crate::sql::cut(67, crate::sql::cut(77, crate::sql::cut(79, crate::sql::cut(81, crate::sql::cut(83, crate::sql::cut(85, crate::sql::cut(87, crate::sql::cut(89, crate::sql::cut(91, crate::sql::cut(92, crate::sql::cut(106, crate::sql::cut(114, crate::sql::cut(125, crate::sql::cut(130, crate::sql::cut(134, crate::sql::cut(146, crate::sql::cut(150, crate::sql::cut(152, crate::sql::cut(164, crate::sql::cut(176, crate::sql::cut(188, crate::sql::cut(190, crate::sql::cut(194, crate::sql::cut(206, crate::sql::cut(210, Cuts::Last)))))))))))))))))))))))))))))))))));
}

/// What [`SetImage::Store`] stores, column by column, is what it is given.
pub proof fn law_set_image_store_lands_in_its_columns(
    id: PoolQuestionId,
    file: &str,
    content_type: &str,
    size: i64,
    replaced: Option<String>,
)
    ensures
        ({
            let sent = (SetImage::Store { replaced }).asks(id, file, content_type, size);
            &&& store_image_reading().is_read(sent)
            &&& store_image_reading().stores(sent.binds) == seq![
                ("question"@, Cell::Uuid(id.0)),
                ("file"@, Cell::Text(file@)),
                ("content_type"@, Cell::Text(content_type@)),
                ("size"@, Cell::Int(size as int)),
            ]
            &&& store_image_reading().conflict == Conflict::Takes(seq!["question"@], seq!["file"@, "content_type"@, "size"@])
        }),
{
    lemma_store_image_reads();
}

/// [`ClearImage::Lock`] reads the rows it names and no other.
pub proof fn law_clear_image_lock_reads_its_rows(
    id: PoolQuestionId,
    row: Row,
)
    ensures
        ({
            let sent = ClearImage::Lock.asks(id);
            &&& lock_question_reading().is_read(sent)
            &&& lock_question_reading().picks(sent.binds, row) == (row["id"@] == Cell::Uuid(id.0))
        }),
{
    lemma_lock_question_reads();
    reveal_with_fuel(crate::sql::all_hold, 2);
}

/// What [`DETACH_IMAGE`] says.
pub open spec fn detach_image_reading() -> Picking {
    Picking {
        skip: 0,
        head: "DELETE FROM "@,
        columns: Seq::empty(),
        table: "pool_question_image"@,
        conditions: seq![crate::sql::is_bound("question"@, 1)],
        rest: crate::sql::returning(),
    }
}

proof fn lemma_detach_image_reads()
    ensures
        crate::sql::spells(DETACH_IMAGE@, 0, detach_image_reading().text()),
{
    reveal_strlit("DELETE FROM pool_question_image WHERE question = $1 RETURNING file");
    reveal_strlit("DELETE FROM ");
    reveal_strlit("pool_question_image");
    reveal_strlit(" WHERE ");
    reveal_strlit("question");
    reveal_strlit(" = ");
    reveal_strlit("$");
    reveal_strlit(" RETURNING ");
    reveal(crate::sql::Picking::text);
    reveal_with_fuel(crate::sql::where_text, 2);
    reveal_with_fuel(crate::sql::stands, 20);
    reveal_with_fuel(crate::sql::spells_by, 8);
    crate::sql::lemma_spells_by(DETACH_IMAGE@, 0, detach_image_reading().text(), crate::sql::cut(12, crate::sql::cut(31, crate::sql::cut(38, crate::sql::cut(46, crate::sql::cut(49, crate::sql::cut(51, crate::sql::cut(62, Cuts::Last))))))));
}

/// [`ClearImage::Detach`] deletes the rows it names and no other.
pub proof fn law_clear_image_detach_deletes_its_rows(
    id: PoolQuestionId,
    row: Row,
)
    ensures
        ({
            let sent = ClearImage::Detach.asks(id);
            &&& detach_image_reading().is_read(sent)
            &&& detach_image_reading().picks(sent.binds, row) == (row["question"@] == Cell::Uuid(id.0))
        }),
{
    lemma_detach_image_reads();
    reveal_with_fuel(crate::sql::all_hold, 2);
}

/// What [`WIPE_SOLUTION_IMAGES`] says.
pub open spec fn wipe_solution_images_reading() -> Picking {
    Picking {
        skip: 0,
        head: "DELETE FROM "@,
        columns: Seq::empty(),
        table: "solution_image si USING solution s"@,
        conditions: seq![Cond::Equal(crate::sql::column("si.solution"@), crate::sql::column("s.id"@)), crate::sql::is_bound("s.question"@, 1)],
        rest: crate::sql::returning(),
    }
}

proof fn lemma_wipe_solution_images_reads()
    ensures
        crate::sql::spells(WIPE_SOLUTION_IMAGES@, 0, wipe_solution_images_reading().text()),
{
    reveal_strlit("DELETE FROM solution_image si USING solution s WHERE si.solution = s.id AND s.question = $1 RETURNING si.file");
    reveal_strlit("DELETE FROM ");
    reveal_strlit("solution_image si USING solution s");
    reveal_strlit(" WHERE ");
    reveal_strlit("si.solution");
    reveal_strlit(" = ");
    reveal_strlit("s.id");
    reveal_strlit(" AND ");
    reveal_strlit("s.question");
    reveal_strlit("$");
    reveal_strlit(" RETURNING ");
    reveal(crate::sql::Picking::text);
    reveal_with_fuel(crate::sql::where_text, 3);
    reveal_with_fuel(crate::sql::stands, 35);
    reveal_with_fuel(crate::sql::spells_by, 12);
    crate::sql::lemma_spells_by(WIPE_SOLUTION_IMAGES@, 0, wipe_solution_images_reading().text(), crate::sql::cut(12, crate::sql::cut(46, crate::sql::cut(53, crate::sql::cut(64, crate::sql::cut(67, crate::sql::cut(71, crate::sql::cut(76, crate::sql::cut(86, crate::sql::cut(89, crate::sql::cut(91, crate::sql::cut(102, Cuts::Last))))))))))));
}

/// [`Delete::WipeSolutionImages`] deletes the rows it names and no other.
pub proof fn law_delete_wipe_solution_images_deletes_its_rows(
    id: PoolQuestionId,
    row: Row,
)
    ensures
        ({
            let sent = Delete::WipeSolutionImages.asks(id);
            &&& wipe_solution_images_reading().is_read(sent)
            &&& wipe_solution_images_reading().picks(sent.binds, row) == ((row["si.solution"@] !is Null && row["si.solution"@] == row["s.id"@]) && row["s.question"@] == Cell::Uuid(id.0))
        }),
{
    lemma_wipe_solution_images_reads();
    reveal_with_fuel(crate::sql::all_hold, 3);
}

/// What [`WIPE_SOLUTIONS`] says.
pub open spec fn wipe_solutions_reading() -> Picking {
    Picking {
        skip: 0,
        head: "DELETE FROM "@,
        columns: Seq::empty(),
        table: "solution"@,
        conditions: seq![crate::sql::is_bound("question"@, 1)],
        rest: crate::sql::returning(),
    }
}

proof fn lemma_wipe_solutions_reads()
    ensures
        crate::sql::spells(WIPE_SOLUTIONS@, 0, wipe_solutions_reading().text()),
{
    reveal_strlit("DELETE FROM solution WHERE question = $1 RETURNING id, question, author, body, offered_at");
    reveal_strlit("DELETE FROM ");
    reveal_strlit("solution");
    reveal_strlit(" WHERE ");
    reveal_strlit("question");
    reveal_strlit(" = ");
    reveal_strlit("$");
    reveal_strlit(" RETURNING ");
    reveal(crate::sql::Picking::text);
    reveal_with_fuel(crate::sql::where_text, 2);
    reveal_with_fuel(crate::sql::stands, 13);
    reveal_with_fuel(crate::sql::spells_by, 8);
    crate::sql::lemma_spells_by(WIPE_SOLUTIONS@, 0, wipe_solutions_reading().text(), crate::sql::cut(12, crate::sql::cut(20, crate::sql::cut(27, crate::sql::cut(35, crate::sql::cut(38, crate::sql::cut(40, crate::sql::cut(51, Cuts::Last))))))));
}

/// [`Delete::WipeSolutions`] deletes the rows it names and no other.
pub proof fn law_delete_wipe_solutions_deletes_its_rows(
    id: PoolQuestionId,
    row: Row,
)
    ensures
        ({
            let sent = Delete::WipeSolutions.asks(id);
            &&& wipe_solutions_reading().is_read(sent)
            &&& wipe_solutions_reading().picks(sent.binds, row) == (row["question"@] == Cell::Uuid(id.0))
        }),
{
    lemma_wipe_solutions_reads();
    reveal_with_fuel(crate::sql::all_hold, 2);
}

/// [`Delete::WipeImage`] deletes the rows it names and no other.
pub proof fn law_delete_wipe_image_deletes_its_rows(
    id: PoolQuestionId,
    row: Row,
)
    ensures
        ({
            let sent = Delete::WipeImage.asks(id);
            &&& detach_image_reading().is_read(sent)
            &&& detach_image_reading().picks(sent.binds, row) == (row["question"@] == Cell::Uuid(id.0))
        }),
{
    lemma_detach_image_reads();
    reveal_with_fuel(crate::sql::all_hold, 2);
}

/// What [`DELETE_QUESTION`] says.
pub open spec fn delete_question_reading() -> Picking {
    Picking {
        skip: 0,
        head: "DELETE FROM "@,
        columns: Seq::empty(),
        table: "pool_question"@,
        conditions: seq![crate::sql::is_bound("id"@, 1)],
        rest: crate::sql::returning(),
    }
}

proof fn lemma_delete_question_reads()
    ensures
        crate::sql::spells(DELETE_QUESTION@, 0, delete_question_reading().text()),
{
    reveal_strlit("DELETE FROM pool_question WHERE id = $1 RETURNING id, asker, title, body, status, asked_at, approved_by");
    reveal_strlit("DELETE FROM ");
    reveal_strlit("pool_question");
    reveal_strlit(" WHERE ");
    reveal_strlit("id");
    reveal_strlit(" = ");
    reveal_strlit("$");
    reveal_strlit(" RETURNING ");
    reveal(crate::sql::Picking::text);
    reveal_with_fuel(crate::sql::where_text, 2);
    reveal_with_fuel(crate::sql::stands, 14);
    reveal_with_fuel(crate::sql::spells_by, 8);
    crate::sql::lemma_spells_by(DELETE_QUESTION@, 0, delete_question_reading().text(), crate::sql::cut(12, crate::sql::cut(25, crate::sql::cut(32, crate::sql::cut(34, crate::sql::cut(37, crate::sql::cut(39, crate::sql::cut(50, Cuts::Last))))))));
}

/// [`Delete::DeleteRow`] deletes the rows it names and no other.
pub proof fn law_delete_delete_row_deletes_its_rows(
    id: PoolQuestionId,
    row: Row,
)
    ensures
        ({
            let sent = Delete::DeleteRow.asks(id);
            &&& delete_question_reading().is_read(sent)
            &&& delete_question_reading().picks(sent.binds, row) == (row["id"@] == Cell::Uuid(id.0))
        }),
{
    lemma_delete_question_reads();
    reveal_with_fuel(crate::sql::all_hold, 2);
}

} // verus!
