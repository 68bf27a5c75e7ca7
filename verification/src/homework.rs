//! The `homework` table: row reads and listings, the subject-counter claim
//! that pins a homework to a live subject row, the reference-counting update,
//! whose audience-narrowing guard is one transaction with the write, and the
//! cascading delete.

use vstd::prelude::*;

use crate::error::{AppError, AppErrorView, DbError, Gone, ValidationError, ValidationErrorView};
use crate::id::{
    CourseId, HomeworkFileId, HomeworkId, HomeworkResultId, HomeworkSubmissionId, SubjectId,
    Timestamp, UserId,
};
use crate::key::hyphenated;
use crate::page::{opt_string, Param, ParamView, Statement, StatementView, Uuid};
use crate::reference::References;
use crate::sql::{Cell, Cond, Conflict, Cuts, Expr, Picking, Row, Storing, Term, Text, Writing};
use crate::text::{decimal, join};
use crate::transaction::{Reply, Step};

verus! {

/// A homework; `assigned` is the students it is for, or none for the whole
/// course.
#[derive(Debug)]
pub struct Homework {
    pub id: HomeworkId,
    pub course: CourseId,
    pub subject: SubjectId,
    pub title: String,
    pub description: Option<String>,
    pub due_at: Timestamp,
    pub assigned: Option<Vec<UserId>>,
    pub created_by: UserId,
    pub created_at: Timestamp,
}

/// The answer to a link to a subject that is not there, on create and on
/// re-tag alike.
pub fn subject_gone() -> (error: AppError)
    ensures
        error@ == subject_gone_view(),
{
    AppError::Validation(
        ValidationError::Invalid { field: "subject_id", reason: "subject does not exist" },
    )
}

/// The answer to a link to a subject that is not there.
pub open spec fn subject_gone_view() -> AppErrorView {
    AppErrorView::Validation(
        ValidationErrorView::Invalid {
            field: "subject_id"@,
            reason: "subject does not exist"@,
        },
    )
}

/// The answer to a re-tag off a subject that had changed since it was read.
pub const STALE_MOVE: &'static str =
    "the link this update moves changed since it was read; re-read and retry";

/// The keys behind a list of users.
pub open spec fn user_keys(users: Seq<UserId>) -> Seq<Uuid> {
    Seq::new(users.len(), |i: int| users[i].0)
}

/// The keys of an audience: none named is the whole course, stored empty.
pub open spec fn audience_keys(assigned: Option<Vec<UserId>>) -> Seq<Uuid> {
    match assigned {
        Some(users) => user_keys(users@),
        None => Seq::empty(),
    }
}

/// The keys behind a list of users.
pub fn keys_of(users: &Vec<UserId>) -> (keys: Vec<Uuid>)
    ensures
        keys@ == user_keys(users@),
{
    let mut keys: Vec<Uuid> = Vec::new();
    let mut i: usize = 0;
    while i < users.len()
        invariant
            0 <= i <= users.len(),
            keys.len() == i,
            forall|k: int| 0 <= k < i ==> #[trigger] keys@[k] == users@[k].0,
        decreases users.len() - i,
    {
        keys.push(users[i].0);
        i += 1;
    }
    assert(keys@ =~= user_keys(users@));
    keys
}

fn audience(assigned: &Option<Vec<UserId>>) -> (keys: Vec<Uuid>)
    ensures
        keys@ == audience_keys(*assigned),
{
    match assigned {
        Some(users) => keys_of(users),
        None => Vec::new(),
    }
}

pub const CREATE: &'static str =
    "WITH seat AS ( UPDATE subject SET homework_count = homework_count + 1 WHERE id = $1 \
     RETURNING 1 ) INSERT INTO homework (id, course, subject, title, description, due_at, \
     assigned, created_by, created_at) SELECT $2, $3, $1, $4, $5, $6, $7, $8, $9 WHERE EXISTS \
     (SELECT 1 FROM seat) RETURNING id, course, subject, title, description, due_at, CASE WHEN \
     cardinality(assigned) = 0 THEN NULL ELSE assigned END AS assigned, created_by, created_at";

/// The row's values as the creating statement binds them.
pub open spec fn create_binds(homework: Homework) -> Seq<ParamView> {
    seq![
        ParamView::Uuid(homework.subject.0),
        ParamView::Uuid(homework.id.0),
        ParamView::Uuid(homework.course.0),
        ParamView::Text(homework.title@),
        ParamView::OptText(crate::page::opt_string_view(homework.description)),
        ParamView::I64(homework.due_at.0),
        ParamView::Uuids(audience_keys(homework.assigned)),
        ParamView::Uuid(homework.created_by.0),
        ParamView::I64(homework.created_at.0),
    ]
}

/// The insert of a homework, which takes the subject's reference in the same
/// statement and writes nothing where the subject is gone.
pub fn create(homework: &Homework) -> (statement: Statement)
    ensures
        statement@ == crate::page::sends(CREATE, create_binds(*homework)),
{
    Statement::new(
        CREATE,
        vec![
            Param::Uuid(homework.subject.0),
            Param::Uuid(homework.id.0),
            Param::Uuid(homework.course.0),
            Param::Text(homework.title.clone()),
            Param::OptText(opt_string(&homework.description)),
            Param::I64(homework.due_at.0),
            Param::Uuids(audience(&homework.assigned)),
            Param::Uuid(homework.created_by.0),
            Param::I64(homework.created_at.0),
        ],
    )
}

/// What a create answers: the row, or that the subject is gone where nothing
/// was written. A key that was already taken is a fault of ours.
pub fn created<T>(outcome: Result<Option<T>, DbError>) -> (answer: Result<T, AppError>)
    ensures
        match outcome {
            Ok(Some(row)) => answer == Ok::<T, AppError>(row),
            Ok(None) => answer is Err && answer->Err_0@ == subject_gone_view(),
            Err(error) => answer is Err && answer->Err_0@ == (if error.is_unique() {
                AppErrorView::Internal("failed to create homework"@)
            } else {
                AppErrorView::Db(error)
            }),
        },
{
    match outcome {
        Ok(Some(row)) => Ok(row),
        Ok(None) => Err(subject_gone()),
        Err(error) => if crate::error::is_unique_violation(&error) {
            Err(AppError::Internal("failed to create homework".to_owned()))
        } else {
            Err(AppError::Db(error))
        },
    }
}

pub const READ: &'static str =
    "SELECT id, course, subject, title, description, due_at, CASE WHEN cardinality(assigned) = \
     0 THEN NULL ELSE assigned END AS assigned, created_by, created_at FROM homework WHERE id = \
     $1";

/// The read of one homework.
pub fn read(id: HomeworkId) -> (statement: Statement)
    ensures
        statement@ == crate::page::sends(READ, seq![ParamView::Uuid(id.0)]),
{
    Statement::new(READ, vec![Param::Uuid(id.0)])
}

pub const LIST_FOR_COURSE: &'static str =
    "SELECT id, course, subject, title, description, due_at, CASE WHEN cardinality(assigned) = \
     0 THEN NULL ELSE assigned END AS assigned, created_by, created_at FROM homework WHERE \
     course = $1 ORDER BY id DESC";

/// The read of a course's homework, newest first.
pub fn list_for_course(course: CourseId) -> (statement: Statement)
    ensures
        statement@ == crate::page::sends(LIST_FOR_COURSE, seq![ParamView::Uuid(course.0)]),
{
    Statement::new(LIST_FOR_COURSE, vec![Param::Uuid(course.0)])
}

pub const LIST_ALL: &'static str =
    "SELECT id, course, subject, title, description, due_at, CASE WHEN cardinality(assigned) = \
     0 THEN NULL ELSE assigned END AS assigned, created_by, created_at FROM homework ORDER BY \
     id DESC";

/// The read of every homework, newest first.
pub fn list_all() -> (statement: Statement)
    ensures
        statement@ == crate::page::sends(LIST_ALL, Seq::empty()),
{
    Statement::new(LIST_ALL, Vec::new())
}

pub const LIST_FOR_COURSES: &'static str =
    "SELECT id, course, subject, title, description, due_at, CASE WHEN cardinality(assigned) = \
     0 THEN NULL ELSE assigned END AS assigned, created_by, created_at FROM homework WHERE \
     course = ANY($1) ORDER BY id DESC";

/// The keys behind a list of courses.
pub open spec fn course_keys(courses: Seq<CourseId>) -> Seq<Uuid> {
    Seq::new(courses.len(), |i: int| courses[i].0)
}

/// The read of the homework of every named course, newest first; no course is
/// no read, and an empty list.
pub fn list_for_courses(courses: &Vec<CourseId>) -> (statement: Option<Statement>)
    ensures
        statement is Some == (courses.len() > 0),
        statement is Some ==> statement->0@ == crate::page::sends(
            LIST_FOR_COURSES,
            seq![ParamView::Uuids(course_keys(courses@))],
        ),
{
    if courses.len() == 0 {
        return None;
    }
    let mut keys: Vec<Uuid> = Vec::new();
    let mut i: usize = 0;
    while i < courses.len()
        invariant
            0 <= i <= courses.len(),
            keys.len() == i,
            forall|k: int| 0 <= k < i ==> #[trigger] keys@[k] == courses@[k].0,
        decreases courses.len() - i,
    {
        keys.push(courses[i].0);
        i += 1;
    }
    assert(keys@ =~= course_keys(courses@));
    Some(Statement::new(LIST_FOR_COURSES, vec![Param::Uuids(keys)]))
}

pub const LIST_FOR_USER_IN_COURSE: &'static str =
    "SELECT id, course, subject, title, description, due_at, CASE WHEN cardinality(assigned) = \
     0 THEN NULL ELSE assigned END AS assigned, created_by, created_at FROM homework WHERE \
     course = $1 AND (cardinality(assigned) = 0 OR $2 = ANY(assigned)) ORDER BY id DESC";

/// The read of the homework of a course that a student is meant to see: the
/// whole course's, and any subset that names them.
pub fn list_for_user_in_course(course: CourseId, user: UserId) -> (statement: Statement)
    ensures
        statement@ == crate::page::sends(
            LIST_FOR_USER_IN_COURSE,
            seq![ParamView::Uuid(course.0), ParamView::Uuid(user.0)],
        ),
{
    Statement::new(LIST_FOR_USER_IN_COURSE, vec![Param::Uuid(course.0), Param::Uuid(user.0)])
}

/// The fields an update carries: an absent one is not written. `description`
/// carries `None` to clear it, and `assigned` carries `None` to widen back to
/// the whole course.
pub struct HomeworkPatch {
    pub subject: Option<SubjectId>,
    pub title: Option<String>,
    pub description: Option<Option<String>>,
    pub due_at: Option<Timestamp>,
    pub assigned: Option<Option<Vec<UserId>>>,
}

/// The statement an update waits for. `stored` is the subject read under the
/// row's lock.
#[derive(Clone, Copy, PartialEq, Eq, Structural, Debug)]
pub enum Update {
    /// Take the homework row: a [`Reply::Key`] with its subject.
    Lock,
    /// Read who has handed work in.
    ReadSubmitted { stored: SubjectId },
    /// Read who has been graded: a [`Reply::Flag`], up where
    /// [`ensure_no_orphans`] refuses on both lists.
    ReadGraded { stored: SubjectId },
    /// Give the stored subject's reference back.
    Release { stored: SubjectId },
    /// Take a reference on the new subject.
    Claim { stored: SubjectId },
    /// Write the merged row; its row is the answer.
    Write,
}

/// Why an update is refused.
#[derive(Clone, Copy, PartialEq, Eq, Structural, Debug)]
pub enum UpdateRefusal {
    Gone,
    /// The narrowing would orphan work; [`ensure_no_orphans`] has the answer.
    Orphans,
    SubjectGone,
    Stale,
}

/// What the steps of an update read of the request: the subject it carries,
/// the subject its snapshot showed, and whether it narrows the audience to a
/// named subset.
#[derive(Clone, Copy, PartialEq, Eq, Structural, Debug)]
pub struct Retag {
    pub subject: Option<SubjectId>,
    pub snapshot: SubjectId,
    pub narrows: bool,
}

impl Retag {
    /// The subject the homework moves to: the one carried, where the snapshot
    /// showed another.
    pub open spec fn target(self) -> Option<SubjectId> {
        match self.subject {
            Some(next) if next != self.snapshot => Some(next),
            _ => None,
        }
    }

    /// A request that carries the subject is refused where the locked row no
    /// longer has the one its snapshot showed, even where it re-states it.
    pub open spec fn write_step(self, stored: SubjectId) -> Step<Update, (), UpdateRefusal> {
        if self.subject is Some && stored != self.snapshot {
            Step::Abort(UpdateRefusal::Stale)
        } else {
            Step::Ask(Update::Write)
        }
    }

    /// After the audience check: a move releases and claims first.
    pub open spec fn move_step(self, stored: SubjectId) -> Step<Update, (), UpdateRefusal> {
        if self.target() is Some {
            Step::Ask(Update::Release { stored })
        } else {
            self.write_step(stored)
        }
    }

    fn is_move(&self) -> (yes: bool)
        ensures
            yes == self.target() is Some,
    {
        match self.subject {
            Some(next) => next != self.snapshot,
            None => false,
        }
    }

    fn to_write(&self, stored: SubjectId) -> (step: Step<Update, (), UpdateRefusal>)
        ensures
            step == self.write_step(stored),
    {
        if self.subject.is_some() && stored != self.snapshot {
            Step::Abort(UpdateRefusal::Stale)
        } else {
            Step::Ask(Update::Write)
        }
    }

    fn to_move(&self, stored: SubjectId) -> (step: Step<Update, (), UpdateRefusal>)
        ensures
            step == self.move_step(stored),
    {
        if self.is_move() {
            Step::Ask(Update::Release { stored })
        } else {
            self.to_write(stored)
        }
    }
}

/// What an update does once the statement of `at` is answered.
pub open spec fn update_next(at: Update, retag: Retag, reply: Reply) -> Step<
    Update,
    (),
    UpdateRefusal,
> {
    match at {
        Update::Lock => match reply.key() {
            Some(key) => if retag.narrows {
                Step::Ask(Update::ReadSubmitted { stored: SubjectId(key) })
            } else {
                retag.move_step(SubjectId(key))
            },
            None => Step::Abort(UpdateRefusal::Gone),
        },
        Update::ReadSubmitted { stored } => Step::Ask(Update::ReadGraded { stored }),
        Update::ReadGraded { stored } => if reply.is_up() {
            Step::Abort(UpdateRefusal::Orphans)
        } else {
            retag.move_step(stored)
        },
        Update::Release { stored } => Step::Ask(Update::Claim { stored }),
        Update::Claim { stored } => if reply.has_row() {
            retag.write_step(stored)
        } else {
            Step::Abort(UpdateRefusal::SubjectGone)
        },
        Update::Write => if reply.has_row() {
            Step::Commit(())
        } else {
            Step::Abort(UpdateRefusal::Gone)
        },
    }
}

/// Re-tag, re-title, re-describe, re-schedule or re-scope a homework: the
/// step that follows the answer to `at`. An update starts at
/// [`Update::Lock`], which serializes it with submissions and grades.
pub fn update(at: Update, retag: Retag, reply: Reply) -> (step: Step<Update, (), UpdateRefusal>)
    ensures
        step == update_next(at, retag, reply),
{
    match at {
        Update::Lock => match reply.uuid() {
            Some(key) => if retag.narrows {
                Step::Ask(Update::ReadSubmitted { stored: SubjectId(key) })
            } else {
                retag.to_move(SubjectId(key))
            },
            None => Step::Abort(UpdateRefusal::Gone),
        },
        Update::ReadSubmitted { stored } => Step::Ask(Update::ReadGraded { stored }),
        Update::ReadGraded { stored } => if reply.flag() {
            Step::Abort(UpdateRefusal::Orphans)
        } else {
            retag.to_move(stored)
        },
        Update::Release { stored } => Step::Ask(Update::Claim { stored }),
        Update::Claim { stored } => if reply.row() {
            retag.to_write(stored)
        } else {
            Step::Abort(UpdateRefusal::SubjectGone)
        },
        Update::Write => if reply.row() {
            Step::Commit(())
        } else {
            Step::Abort(UpdateRefusal::Gone)
        },
    }
}

impl HomeworkPatch {
    /// What the steps of an update read of this patch.
    pub open spec fn reads(self, snapshot: SubjectId) -> Retag {
        Retag {
            subject: self.subject,
            snapshot,
            narrows: self.assigned is Some && self.assigned->0 is Some,
        }
    }

    /// What the steps of an update read of this patch.
    pub fn retag(&self, snapshot: SubjectId) -> (retag: Retag)
        ensures
            retag == self.reads(snapshot),
    {
        let narrows = match &self.assigned {
            Some(Some(_)) => true,
            _ => false,
        };
        Retag { subject: self.subject, snapshot, narrows }
    }

    /// The values of the merged row: what the patch carried, and for what it
    /// did not carry the value read under the lock.
    pub open spec fn merged(self, current: Homework) -> Seq<ParamView> {
        seq![
            ParamView::Uuid(current.id.0),
            ParamView::Uuid(
                match self.subject {
                    Some(subject) => subject.0,
                    None => current.subject.0,
                },
            ),
            ParamView::Text(
                match self.title {
                    Some(title) => title@,
                    None => current.title@,
                },
            ),
            ParamView::OptText(
                match self.description {
                    Some(description) => crate::page::opt_string_view(description),
                    None => crate::page::opt_string_view(current.description),
                },
            ),
            ParamView::I64(
                match self.due_at {
                    Some(due_at) => due_at.0,
                    None => current.due_at.0,
                },
            ),
            ParamView::Uuids(
                match self.assigned {
                    Some(assigned) => audience_keys(assigned),
                    None => audience_keys(current.assigned),
                },
            ),
        ]
    }

    /// The write of the merged row.
    pub fn write_statement(&self, current: &Homework) -> (statement: Statement)
        ensures
            statement@ == crate::page::sends(WRITE_MERGED, self.merged(*current)),
    {
        let subject = match self.subject {
            Some(subject) => subject,
            None => current.subject,
        };
        let title = match &self.title {
            Some(title) => title.clone(),
            None => current.title.clone(),
        };
        let description = match &self.description {
            Some(description) => opt_string(description),
            None => opt_string(&current.description),
        };
        let due_at = match self.due_at {
            Some(due_at) => due_at,
            None => current.due_at,
        };
        let assigned = match &self.assigned {
            Some(assigned) => audience(assigned),
            None => audience(&current.assigned),
        };
        Statement::new(
            WRITE_MERGED,
            vec![
                Param::Uuid(current.id.0),
                Param::Uuid(subject.0),
                Param::Text(title),
                Param::OptText(description),
                Param::I64(due_at.0),
                Param::Uuids(assigned),
            ],
        )
    }

    /// The statement of a step of an update whose snapshot showed the subject
    /// `snapshot`. `current` is the row read under the lock, which
    /// [`Update::Write`] is asked with; [`Update::Claim`] is asked only of a
    /// patch that moves the homework.
    pub open spec fn asks(
        self,
        at: Update,
        id: HomeworkId,
        snapshot: SubjectId,
        current: Option<Homework>,
    ) -> StatementView {
        let key = seq![ParamView::Uuid(id.0)];
        match at {
            Update::Lock => crate::page::sends(LOCK_HOMEWORK, key),
            Update::ReadSubmitted { .. } => crate::page::sends(SUBMITTED_USERS, key),
            Update::ReadGraded { .. } => crate::page::sends(GRADED_USERS, key),
            Update::Release { stored } => crate::page::sends(
                RELEASE_SUBJECT,
                seq![ParamView::Uuid(stored.0)],
            ),
            Update::Claim { .. } => crate::page::sends(
                CLAIM_SUBJECT,
                seq![ParamView::Uuid((self.reads(snapshot).target()->0).0)],
            ),
            Update::Write => crate::page::sends(WRITE_MERGED, self.merged(current->0)),
        }
    }

    /// The statement of a step: none for the write of a row that was not read,
    /// nor for the claim of a patch that moves nothing.
    pub fn statement(
        &self,
        at: Update,
        id: HomeworkId,
        snapshot: SubjectId,
        current: &Option<Homework>,
    ) -> (statement: Option<Statement>)
        ensures
            statement is Some == ((at is Write ==> current is Some) && (at is Claim
                ==> self.reads(snapshot).target() is Some)),
            statement is Some ==> statement->0@ == self.asks(at, id, snapshot, *current),
    {
        match at {
            Update::Lock => Some(lock_statement(id)),
            Update::ReadSubmitted { .. } => Some(submitted_statement(id)),
            Update::ReadGraded { .. } => Some(graded_statement(id)),
            Update::Release { stored } => Some(release_statement(stored)),
            Update::Claim { .. } => match self.subject {
                Some(next) => if next != snapshot {
                    Some(claim_statement(next))
                } else {
                    None
                },
                None => None,
            },
            Update::Write => match current {
                Some(current) => Some(self.write_statement(current)),
                None => None,
            },
        }
    }
}

pub const WRITE_MERGED: &'static str =
    "UPDATE homework SET subject = $2, title = $3, description = $4, due_at = $5, assigned = $6 \
     WHERE id = $1 RETURNING id, course, subject, title, description, due_at, CASE WHEN \
     cardinality(assigned) = 0 THEN NULL ELSE assigned END AS assigned, created_by, created_at";

pub const LOCK_HOMEWORK: &'static str =
    "SELECT id, course, subject, title, description, due_at, CASE WHEN cardinality(assigned) = \
     0 THEN NULL ELSE assigned END AS assigned, created_by, created_at FROM homework WHERE id = \
     $1 FOR UPDATE";

/// The read that takes the homework row.
pub fn lock_statement(id: HomeworkId) -> (statement: Statement)
    ensures
        statement@ == crate::page::sends(LOCK_HOMEWORK, seq![ParamView::Uuid(id.0)]),
{
    Statement::new(LOCK_HOMEWORK, vec![Param::Uuid(id.0)])
}

pub const SUBMITTED_USERS: &'static str =
    "SELECT app_user AS \"user\" FROM homework_submission WHERE homework = $1";

/// The read of who has handed work in.
pub fn submitted_statement(id: HomeworkId) -> (statement: Statement)
    ensures
        statement@ == crate::page::sends(SUBMITTED_USERS, seq![ParamView::Uuid(id.0)]),
{
    Statement::new(SUBMITTED_USERS, vec![Param::Uuid(id.0)])
}

pub const GRADED_USERS: &'static str =
    "SELECT app_user AS \"user\" FROM homework_result WHERE homework = $1";

/// The read of who has been graded.
pub fn graded_statement(id: HomeworkId) -> (statement: Statement)
    ensures
        statement@ == crate::page::sends(GRADED_USERS, seq![ParamView::Uuid(id.0)]),
{
    Statement::new(GRADED_USERS, vec![Param::Uuid(id.0)])
}

pub const RELEASE_SUBJECT: &'static str =
    "UPDATE subject SET homework_count = GREATEST(homework_count - 1, 0) WHERE id = $1";

/// One reference on a subject given back.
pub fn release_statement(subject: SubjectId) -> (statement: Statement)
    ensures
        statement@ == crate::page::sends(RELEASE_SUBJECT, seq![ParamView::Uuid(subject.0)]),
{
    Statement::new(RELEASE_SUBJECT, vec![Param::Uuid(subject.0)])
}

pub const CLAIM_SUBJECT: &'static str =
    "UPDATE subject SET homework_count = homework_count + 1 WHERE id = $1 RETURNING 1 AS seat";

/// One reference on a subject taken; nothing comes back where the subject is
/// gone.
pub fn claim_statement(subject: SubjectId) -> (statement: Statement)
    ensures
        statement@ == crate::page::sends(CLAIM_SUBJECT, seq![ParamView::Uuid(subject.0)]),
{
    Statement::new(CLAIM_SUBJECT, vec![Param::Uuid(subject.0)])
}

/// Those of `users` outside `subset`, each once, in the order they first occur.
pub open spec fn orphans(users: Seq<UserId>, subset: Seq<UserId>) -> Seq<UserId>
    decreases users.len(),
{
    if users.len() == 0 {
        Seq::empty()
    } else {
        let before = orphans(users.drop_last(), subset);
        if subset.contains(users.last()) || before.contains(users.last()) {
            before
        } else {
            before.push(users.last())
        }
    }
}

/// The key of each user as text.
pub open spec fn key_texts(users: Seq<UserId>) -> Seq<Seq<char>> {
    Seq::new(users.len(), |i: int| crate::key::hyphenated_text(users[i].0.0))
}

/// The answer that names the students whose work a narrowing would orphan.
pub open spec fn orphan_answer(blocked: Seq<UserId>) -> Seq<char> {
    "narrowing the assigned list would orphan existing work by "@ + crate::text::decimal_text(
        blocked.len(),
    ) + " student(s): "@ + crate::text::joined(key_texts(blocked), ", "@)
}

fn contains_user(users: &Vec<UserId>, user: UserId) -> (yes: bool)
    ensures
        yes == users@.contains(user),
{
    let mut i: usize = 0;
    while i < users.len()
        invariant
            0 <= i <= users.len(),
            forall|k: int| 0 <= k < i ==> #[trigger] users@[k] != user,
        decreases users.len() - i,
    {
        if users[i] == user {
            assert(users@[i as int] == user);
            return true;
        }
        i += 1;
    }
    false
}

fn collect_orphans(blocked: Vec<UserId>, users: &Vec<UserId>, subset: &Vec<UserId>, Ghost(seen): Ghost<
    Seq<UserId>,
>) -> (all: Vec<UserId>)
    requires
        blocked@ == orphans(seen, subset@),
    ensures
        all@ == orphans(seen + users@, subset@),
{
    let mut all = blocked;
    let mut i: usize = 0;
    assert(seen + users@.take(0) =~= seen);
    while i < users.len()
        invariant
            0 <= i <= users.len(),
            all@ == orphans(seen + users@.take(i as int), subset@),
        decreases users.len() - i,
    {
        let user = users[i];
        let ghost next = seen + users@.take(i + 1);
        assert(next.drop_last() =~= seen + users@.take(i as int));
        assert(next.last() == user);
        if !contains_user(subset, user) && !contains_user(&all, user) {
            all.push(user);
        }
        i += 1;
    }
    assert(users@.take(users.len() as int) =~= users@);
    all
}

/// Refuse an update that would narrow the audience so that a student who
/// already submitted or was graded falls outside it. The whole course (no
/// subset) orphans nobody. The answer names the students, those who submitted
/// first.
pub fn ensure_no_orphans(
    new_assigned: &Option<Vec<UserId>>,
    submitted: &Vec<UserId>,
    graded: &Vec<UserId>,
) -> (answer: Result<(), AppError>)
    ensures
        match new_assigned {
            None => answer is Ok,
            Some(subset) => {
                let blocked = orphans(submitted@ + graded@, subset@);
                if blocked.len() == 0 {
                    answer is Ok
                } else {
                    answer is Err && answer->Err_0@ == AppErrorView::ConflictOwned(
                        orphan_answer(blocked),
                    )
                }
            },
        },
{
    let subset = match new_assigned {
        Some(subset) => subset,
        None => {
            return Ok(());
        },
    };
    let none: Vec<UserId> = Vec::new();
    let first = collect_orphans(none, submitted, subset, Ghost(Seq::empty()));
    assert(Seq::<UserId>::empty() + submitted@ =~= submitted@);
    let blocked = collect_orphans(first, graded, subset, Ghost(submitted@));
    if blocked.len() == 0 {
        return Ok(());
    }
    let mut keys: Vec<String> = Vec::new();
    let mut i: usize = 0;
    while i < blocked.len()
        invariant
            0 <= i <= blocked.len(),
            keys.len() == i,
            forall|k: int|
                0 <= k < i ==> (#[trigger] keys@[k])@ == crate::key::hyphenated_text(
                    blocked@[k].0.0,
                ),
        decreases blocked.len() - i,
    {
        keys.push(hyphenated(blocked[i].0));
        i += 1;
    }
    assert(crate::text::views(keys@) =~= key_texts(blocked@));
    let count = decimal(blocked.len() as u128);
    let named = join(&keys, ", ");
    let mut text = "narrowing the assigned list would orphan existing work by ".to_owned();
    text.append(count.as_str());
    text.append(" student(s): ");
    text.append(named.as_str());
    Err(AppError::ConflictOwned(text))
}

impl UpdateRefusal {
    /// What a refused update answers, where the refusal is not about orphans.
    pub open spec fn answers(self) -> AppErrorView {
        match self {
            UpdateRefusal::Gone => AppErrorView::NotFound,
            UpdateRefusal::SubjectGone => subject_gone_view(),
            _ => AppErrorView::Conflict(STALE_MOVE@),
        }
    }

    /// What a refused update answers. A refusal about orphans is answered by
    /// [`ensure_no_orphans`].
    pub fn error(self) -> (error: AppError)
        requires
            self != UpdateRefusal::Orphans,
        ensures
            error@ == self.answers(),
    {
        match self {
            UpdateRefusal::Gone => AppError::NotFound,
            UpdateRefusal::SubjectGone => subject_gone(),
            _ => AppError::Conflict(STALE_MOVE),
        }
    }
}

/// The statement a delete waits for.
#[derive(Clone, Copy, PartialEq, Eq, Structural, Debug)]
pub enum Delete {
    /// Collect the names of the stored files, to unlink afterwards.
    ReadFiles,
    WipeFiles,
    WipeResults,
    WipeSubmissions,
    /// Delete the row: a [`Reply::Key`] with its subject; the row is the
    /// answer.
    DeleteRow,
    /// Give the subject's reference back.
    Release { subject: SubjectId },
}

pub const FILE_KEYS: &'static str =
    "SELECT file FROM homework_file WHERE submission IN (SELECT id FROM homework_submission \
     WHERE homework = $1)";
pub const WIPE_FILES: &'static str =
    "DELETE FROM homework_file WHERE submission IN (SELECT id FROM homework_submission WHERE \
     homework = $1)";
pub const WIPE_RESULTS: &'static str =
    "DELETE FROM homework_result WHERE homework = $1";
pub const WIPE_SUBMISSIONS: &'static str =
    "DELETE FROM homework_submission WHERE homework = $1";
pub const DELETE_HOMEWORK: &'static str =
    "DELETE FROM homework WHERE id = $1 RETURNING id, course, subject, title, description, \
     due_at, CASE WHEN cardinality(assigned) = 0 THEN NULL ELSE assigned END AS assigned, \
     created_by, created_at";

impl Delete {
    /// The statement of this step.
    pub open spec fn asks(self, id: HomeworkId) -> StatementView {
        let key = seq![ParamView::Uuid(id.0)];
        match self {
            Delete::ReadFiles => crate::page::sends(FILE_KEYS, key),
            Delete::WipeFiles => crate::page::sends(WIPE_FILES, key),
            Delete::WipeResults => crate::page::sends(WIPE_RESULTS, key),
            Delete::WipeSubmissions => crate::page::sends(WIPE_SUBMISSIONS, key),
            Delete::DeleteRow => crate::page::sends(DELETE_HOMEWORK, key),
            Delete::Release { subject } => crate::page::sends(
                RELEASE_SUBJECT,
                seq![ParamView::Uuid(subject.0)],
            ),
        }
    }

    /// The statement of this step.
    pub fn statement(self, id: HomeworkId) -> (statement: Statement)
        ensures
            statement@ == self.asks(id),
    {
        let key = vec![Param::Uuid(id.0)];
        match self {
            Delete::ReadFiles => Statement::new(FILE_KEYS, key),
            Delete::WipeFiles => Statement::new(WIPE_FILES, key),
            Delete::WipeResults => Statement::new(WIPE_RESULTS, key),
            Delete::WipeSubmissions => Statement::new(WIPE_SUBMISSIONS, key),
            Delete::DeleteRow => Statement::new(DELETE_HOMEWORK, key),
            Delete::Release { subject } => release_statement(subject),
        }
    }
}

/// What a delete does once the statement of `at` is answered. The only
/// refusal is that the row is gone.
pub open spec fn delete_next(at: Delete, reply: Reply) -> Step<Delete, (), Gone> {
    match at {
        Delete::ReadFiles => Step::Ask(Delete::WipeFiles),
        Delete::WipeFiles => Step::Ask(Delete::WipeResults),
        Delete::WipeResults => Step::Ask(Delete::WipeSubmissions),
        Delete::WipeSubmissions => Step::Ask(Delete::DeleteRow),
        Delete::DeleteRow => match reply.key() {
            Some(key) => Step::Ask(Delete::Release { subject: SubjectId(key) }),
            None => Step::Abort(Gone),
        },
        Delete::Release { .. } => Step::Commit(()),
    }
}

/// Delete a homework with its submissions, their files and its results: the
/// step that follows the answer to `at`. A delete starts at
/// [`Delete::ReadFiles`], answers the deleted row with the names of the
/// stored files, and `NotFound` where the row is gone.
pub fn delete(at: Delete, reply: Reply) -> (step: Step<Delete, (), Gone>)
    ensures
        step == delete_next(at, reply),
{
    match at {
        Delete::ReadFiles => Step::Ask(Delete::WipeFiles),
        Delete::WipeFiles => Step::Ask(Delete::WipeResults),
        Delete::WipeResults => Step::Ask(Delete::WipeSubmissions),
        Delete::WipeSubmissions => Step::Ask(Delete::DeleteRow),
        Delete::DeleteRow => match reply.uuid() {
            Some(key) => Step::Ask(Delete::Release { subject: SubjectId(key) }),
            None => Step::Abort(Gone),
        },
        Delete::Release { .. } => Step::Commit(()),
    }
}

/// The subject each homework is tagged with, and each subject's
/// `homework_count`.
pub type Tags = References<HomeworkId, SubjectId>;

/// What each statement of an update does to the tags, and what it replies.
/// `blocked` is whether the narrowing would orphan work.
pub open spec fn update_effect(
    db: Tags,
    id: HomeworkId,
    retag: Retag,
    blocked: bool,
    at: Update,
) -> (Tags, Reply) {
    match at {
        Update::Lock => (
            db,
            if db.links.contains_key(id) {
                Reply::Key(db.links[id].0)
            } else {
                Reply::Empty
            },
        ),
        Update::ReadSubmitted { .. } => (db, Reply::Row),
        Update::ReadGraded { .. } => (db, Reply::Flag(blocked)),
        Update::Release { stored } => (db.released(stored), Reply::Row),
        Update::Claim { .. } => match retag.subject {
            Some(next) if db.counts.contains_key(next) => (db.claimed(next), Reply::Row),
            _ => (db, Reply::Empty),
        },
        Update::Write => if db.links.contains_key(id) {
            (
                match retag.subject {
                    Some(next) => db.linked(id, next),
                    None => db,
                },
                Reply::Row,
            )
        } else {
            (db, Reply::Empty)
        },
    }
}

/// A whole update against the tags.
pub open spec fn update_run(db: Tags, id: HomeworkId, retag: Retag, blocked: bool) -> (
    Tags,
    Step<Update, (), UpdateRefusal>,
) {
    crate::transaction::run(
        db,
        Step::Ask(Update::Lock),
        |at: Update, reply: Reply| update_next(at, retag, reply),
        |tags: Tags, at: Update| update_effect(tags, id, retag, blocked, at),
        6,
    )
}

/// What the tags hold after an update, committed or rolled back.
pub open spec fn updated(db: Tags, id: HomeworkId, retag: Retag, blocked: bool) -> Tags {
    crate::transaction::stored(db, update_run(db, id, retag, blocked))
}

/// The refusal an update meets, if any.
pub open spec fn update_refusal(
    db: Tags,
    id: HomeworkId,
    retag: Retag,
    blocked: bool,
) -> Option<UpdateRefusal> {
    if !db.links.contains_key(id) {
        Some(UpdateRefusal::Gone)
    } else if retag.narrows && blocked {
        Some(UpdateRefusal::Orphans)
    } else if retag.target() is Some && !db.counts.contains_key(retag.target()->0) {
        Some(UpdateRefusal::SubjectGone)
    } else if retag.subject is Some && db.links[id] != retag.snapshot {
        Some(UpdateRefusal::Stale)
    } else {
        None
    }
}

/// An update lands exactly when the row is there, its narrowing orphans
/// nobody, its subject is there and, where it carries the subject, the row
/// still has the one the snapshot showed. A stale mover and a stale re-stater
/// are refused; a genuine re-statement lands. A refused update leaves every
/// tag and counter as it was.
pub proof fn law_update_answers(db: Tags, id: HomeworkId, retag: Retag, blocked: bool)
    ensures
        update_run(db, id, retag, blocked).1 == crate::transaction::ends::<
            Update,
            (),
            UpdateRefusal,
        >((), update_refusal(db, id, retag, blocked)),
        update_refusal(db, id, retag, blocked) is Some ==> updated(db, id, retag, blocked) == db,
{
    reveal_with_fuel(crate::transaction::run, 7);
}

/// An update keeps every subject's count equal to the homework tagged with
/// it, and a landed one leaves the tag it carried.
pub proof fn law_update_keeps_counts(db: Tags, id: HomeworkId, retag: Retag, blocked: bool)
    requires
        db.counted(),
    ensures
        updated(db, id, retag, blocked).counted(),
        update_refusal(db, id, retag, blocked) is None && retag.subject is Some ==> updated(
            db,
            id,
            retag,
            blocked,
        ).links[id] == retag.subject->0,
        update_refusal(db, id, retag, blocked) is None && retag.target() is None ==> updated(
            db,
            id,
            retag,
            blocked,
        ) == db,
{
    law_update_answers(db, id, retag, blocked);
    if update_refusal(db, id, retag, blocked) is None {
        reveal_with_fuel(crate::transaction::run, 7);
        if retag.target() is Some {
            crate::reference::lemma_relink_counted(db, id, retag.target()->0);
        } else if retag.subject is Some {
            assert(db.linked(id, retag.subject->0) =~= db);
        }
    }
}

/// What a create leaves: the row and its reference together, or neither
/// where the subject is gone.
pub open spec fn after_create(db: Tags, id: HomeworkId, subject: SubjectId) -> Tags {
    if db.counts.contains_key(subject) {
        db.claimed(subject).linked(id, subject)
    } else {
        db
    }
}

/// A create keeps the counts.
pub proof fn law_create_keeps_counts(db: Tags, id: HomeworkId, subject: SubjectId)
    requires
        db.counted(),
        !db.links.contains_key(id),
    ensures
        after_create(db, id, subject).counted(),
{
    crate::reference::lemma_link_counted(db, id, subject);
}

/// What each statement of a delete does to the tags, and what it replies.
pub open spec fn delete_effect(db: Tags, id: HomeworkId, at: Delete) -> (Tags, Reply) {
    match at {
        Delete::DeleteRow => if db.links.contains_key(id) {
            (db.unlinked(id), Reply::Key(db.links[id].0))
        } else {
            (db, Reply::Empty)
        },
        Delete::Release { subject } => (db.released(subject), Reply::Row),
        _ => (db, Reply::Row),
    }
}

/// A whole delete against the tags.
pub open spec fn delete_run(db: Tags, id: HomeworkId) -> (Tags, Step<Delete, (), Gone>) {
    crate::transaction::run(
        db,
        Step::Ask(Delete::ReadFiles),
        |at: Delete, reply: Reply| delete_next(at, reply),
        |tags: Tags, at: Delete| delete_effect(tags, id, at),
        6,
    )
}

/// A delete lands exactly when the row is there, keeps the counts, and with
/// it a create followed by its delete leaves the tags as they were.
pub proof fn law_delete_keeps_counts(db: Tags, id: HomeworkId)
    requires
        db.counted(),
    ensures
        delete_run(db, id).1 is Commit <==> db.links.contains_key(id),
        crate::transaction::stored(db, delete_run(db, id)).counted(),
        !crate::transaction::stored(db, delete_run(db, id)).links.contains_key(id),
{
    reveal_with_fuel(crate::transaction::run, 7);
    if db.links.contains_key(id) {
        crate::reference::lemma_unlink_counted(db, id);
    }
}

/// Creating a homework and deleting it again leaves the tags as they were.
pub proof fn law_create_then_delete(db: Tags, id: HomeworkId, subject: SubjectId)
    requires
        db.counted(),
        !db.links.contains_key(id),
        db.counts.contains_key(subject),
    ensures
        ({
            let between = after_create(db, id, subject);
            crate::transaction::stored(between, delete_run(between, id)) == db
        }),
{
    reveal_with_fuel(crate::transaction::run, 7);
    let between = after_create(db, id, subject);
    let after = crate::transaction::stored(between, delete_run(between, id));
    assert(db.counts[subject] == crate::tally::tally(
        db.links,
        crate::reference::points_at(subject),
    ));
    assert(after.links =~= db.links);
    assert(after.counts =~= db.counts);
}

/// A stored file of a submission.
pub struct HandedFile {
    pub submission: HomeworkSubmissionId,
    pub file: Seq<char>,
}

/// The homework with the subject of each, and everything that hangs off them.
#[verifier::ext_equal]
pub struct Work {
    pub homework: Map<HomeworkId, SubjectId>,
    pub submissions: Map<HomeworkSubmissionId, HomeworkId>,
    pub files: Map<HomeworkFileId, HandedFile>,
    pub results: Map<HomeworkResultId, HomeworkId>,
}

impl Work {
    /// Whether a file hangs off a submission to a homework.
    pub open spec fn handed_to(self, file: HomeworkFileId, id: HomeworkId) -> bool {
        let submission = self.files[file].submission;
        self.files.contains_key(file) && self.submissions.contains_key(submission)
            && self.submissions[submission] == id
    }

    /// The names that [`Delete::ReadFiles`] collects.
    pub open spec fn file_names(self, id: HomeworkId) -> Set<Seq<char>> {
        Set::new(
            |name: Seq<char>|
                exists|file: HomeworkFileId| #[trigger]
                    self.handed_to(file, id) && self.files[file].file == name,
        )
    }
}

/// What each statement of a delete does to the homework and what hangs off it,
/// and what it replies.
pub open spec fn cascade_effect(db: Work, id: HomeworkId, at: Delete) -> (Work, Reply) {
    match at {
        Delete::ReadFiles => (db, Reply::Row),
        Delete::WipeFiles => (
            Work {
                files: db.files.remove_keys(
                    db.files.dom().filter(|file: HomeworkFileId| db.handed_to(file, id)),
                ),
                ..db
            },
            Reply::Row,
        ),
        Delete::WipeResults => (
            Work {
                results: db.results.remove_keys(
                    db.results.dom().filter(|result: HomeworkResultId| db.results[result] == id),
                ),
                ..db
            },
            Reply::Row,
        ),
        Delete::WipeSubmissions => (
            Work {
                submissions: db.submissions.remove_keys(
                    db.submissions.dom().filter(
                        |submission: HomeworkSubmissionId| db.submissions[submission] == id,
                    ),
                ),
                ..db
            },
            Reply::Row,
        ),
        Delete::DeleteRow => if db.homework.contains_key(id) {
            (Work { homework: db.homework.remove(id), ..db }, Reply::Key(db.homework[id].0))
        } else {
            (db, Reply::Empty)
        },
        Delete::Release { .. } => (db, Reply::Row),
    }
}

/// A whole delete against the homework and what hangs off it.
pub open spec fn cascade_run(db: Work, id: HomeworkId) -> (Work, Step<Delete, (), Gone>) {
    crate::transaction::run(
        db,
        Step::Ask(Delete::ReadFiles),
        |at: Delete, reply: Reply| delete_next(at, reply),
        |work: Work, at: Delete| cascade_effect(work, id, at),
        6,
    )
}

/// No submission, file or result outlives its homework: a delete takes them all
/// together and nothing of any other homework, and one that finds the homework
/// gone takes nothing. The names it collects are those of exactly the files it
/// takes.
pub proof fn law_delete_takes_the_work(
    db: Work,
    id: HomeworkId,
    submission: HomeworkSubmissionId,
    file: HomeworkFileId,
    result: HomeworkResultId,
)
    ensures
        ({
            let end = cascade_run(db, id);
            let after = crate::transaction::stored(db, end);
            if db.homework.contains_key(id) {
                &&& end.1 is Commit
                &&& after.homework == db.homework.remove(id)
                &&& after.submissions.contains_key(submission) <==> db.submissions.contains_key(
                    submission,
                ) && db.submissions[submission] != id
                &&& after.submissions.contains_key(submission) ==> after.submissions[submission]
                    == db.submissions[submission]
                &&& after.files.contains_key(file) <==> db.files.contains_key(file)
                    && !db.handed_to(file, id)
                &&& after.files.contains_key(file) ==> after.files[file] == db.files[file]
                &&& db.files.contains_key(file) && !after.files.contains_key(file)
                    ==> db.file_names(id).contains(db.files[file].file)
                &&& after.results.contains_key(result) <==> db.results.contains_key(result)
                    && db.results[result] != id
                &&& after.results.contains_key(result) ==> after.results[result]
                    == db.results[result]
            } else {
                end.1 == Step::<Delete, (), Gone>::Abort(Gone) && after == db
            }
        }),
{
    reveal_with_fuel(crate::transaction::run, 7);
    if db.handed_to(file, id) {
        assert(db.file_names(id).contains(db.files[file].file));
    }
}

/// The row that [`CREATE`] inserts where its first part wrote.
pub open spec fn create_row() -> Storing {
    Storing {
        head: "INSERT INTO "@,
        table: "homework"@,
        columns: seq!["id"@, "course"@, "subject"@, "title"@, "description"@, "due_at"@, "assigned"@, "created_by"@, "created_at"@],
        values: seq![Term::Bind(2), Term::Bind(3), Term::Bind(1), Term::Bind(4), Term::Bind(5), Term::Bind(6), Term::Bind(7), Term::Bind(8), Term::Bind(9)],
        selected: true,
        conflict: Conflict::Unread,
        rest: crate::sql::before(" WHERE EXISTS (SELECT 1 FROM seat)"@, crate::sql::returning()),
    }
}

/// What [`CREATE`] says.
pub open spec fn create_reading() -> Writing {
    Writing {
        head: "WITH seat AS ( UPDATE "@,
        table: "subject"@,
        sets: seq![("homework_count"@, Expr::Plus(Term::Column("homework_count"@), Term::Word("1"@, Cell::Int(1))))],
        conditions: seq![crate::sql::is_bound("id"@, 1)],
        rest: crate::sql::before(" RETURNING 1 ) "@, create_row().text()),
    }
}

#[verifier::rlimit(20)]
proof fn lemma_create_reads()
    ensures
        crate::sql::spells(CREATE@, 0, create_reading().text()),
{
    reveal_strlit("WITH seat AS ( UPDATE subject SET homework_count = homework_count + 1 WHERE id = $1 RETURNING 1 ) INSERT INTO homework (id, course, subject, title, description, due_at, assigned, created_by, created_at) SELECT $2, $3, $1, $4, $5, $6, $7, $8, $9 WHERE EXISTS (SELECT 1 FROM seat) RETURNING id, course, subject, title, description, due_at, CASE WHEN cardinality(assigned) = 0 THEN NULL ELSE assigned END AS assigned, created_by, created_at");
    reveal_strlit("WITH seat AS ( UPDATE ");
    reveal_strlit("subject");
    reveal_strlit(" SET ");
    reveal_strlit("homework_count");
    reveal_strlit(" = ");
    reveal_strlit(" + ");
    reveal_strlit("1");
    reveal_strlit(" WHERE ");
    reveal_strlit("id");
    reveal_strlit("$");
    reveal_strlit(" RETURNING 1 ) ");
    reveal_strlit("INSERT INTO ");
    reveal_strlit("homework");
    reveal_strlit(" (");
    reveal_strlit(", ");
    reveal_strlit("course");
    reveal_strlit("title");
    reveal_strlit("description");
    reveal_strlit("due_at");
    reveal_strlit("assigned");
    reveal_strlit("created_by");
    reveal_strlit("created_at");
    reveal_strlit(") SELECT ");
    reveal_strlit(" WHERE EXISTS (SELECT 1 FROM seat)");
    reveal_strlit(" RETURNING ");
    reveal(crate::sql::Writing::text);
    reveal(crate::sql::Storing::text);
    reveal_with_fuel(crate::sql::set_text, 2);
    reveal_with_fuel(crate::sql::where_text, 2);
    reveal_with_fuel(crate::sql::names_text, 10);
    reveal_with_fuel(crate::sql::values_text, 10);
    reveal_with_fuel(crate::sql::stands, 35);
    reveal_with_fuel(crate::sql::spells_by, 54);
    crate::sql::lemma_spells_by(CREATE@, 0, create_reading().text(), crate::sql::cut(22, crate::sql::cut(29, crate::sql::cut(34, crate::sql::cut(48, crate::sql::cut(51, crate::sql::cut(65, crate::sql::cut(68, crate::sql::cut(69, crate::sql::cut(76, crate::sql::cut(78, crate::sql::cut(81, crate::sql::cut(83, crate::sql::cut(98, crate::sql::cut(110, crate::sql::cut(118, crate::sql::cut(120, crate::sql::cut(122, crate::sql::cut(124, crate::sql::cut(130, crate::sql::cut(132, crate::sql::cut(139, crate::sql::cut(141, crate::sql::cut(146, crate::sql::cut(148, crate::sql::cut(159, crate::sql::cut(161, crate::sql::cut(167, crate::sql::cut(169, crate::sql::cut(177, crate::sql::cut(179, crate::sql::cut(189, crate::sql::cut(191, crate::sql::cut(201, crate::sql::cut(210, crate::sql::cut(212, crate::sql::cut(214, crate::sql::cut(216, crate::sql::cut(218, crate::sql::cut(220, crate::sql::cut(222, crate::sql::cut(224, crate::sql::cut(226, crate::sql::cut(228, crate::sql::cut(230, crate::sql::cut(232, crate::sql::cut(234, crate::sql::cut(236, crate::sql::cut(238, crate::sql::cut(240, crate::sql::cut(242, crate::sql::cut(244, crate::sql::cut(278, crate::sql::cut(289, Cuts::Last))))))))))))))))))))))))))))))))))))))))))))))))))))));
}

/// [`create`] writes the row it names where its condition holds, and then stores the
/// new row, each value in its own column.
pub proof fn law_create_lands_in_its_columns(
    homework: &Homework,
    sent: Statement,
    row: Row,
)
    requires
        call_ensures(create, (homework,), sent),
    ensures
        create_reading().is_read(sent@),
        create_reading().picks(sent@.binds, row) == (row["id"@] == Cell::Uuid((*homework).subject.0)),
        create_reading().writes(sent@.binds, row) == seq![
            ("homework_count"@, Cell::Int(row["homework_count"@].number() + 1)),
        ],
        create_row().stores(sent@.binds) == seq![
            ("id"@, Cell::Uuid((*homework).id.0)),
            ("course"@, Cell::Uuid((*homework).course.0)),
            ("subject"@, Cell::Uuid((*homework).subject.0)),
            ("title"@, Cell::Text((*homework).title@)),
            ("description"@, crate::sql::opt_text(crate::page::opt_string_view((*homework).description))),
            ("due_at"@, Cell::Int((*homework).due_at.0 as int)),
            ("assigned"@, Cell::Uuids(audience_keys((*homework).assigned))),
            ("created_by"@, Cell::Uuid((*homework).created_by.0)),
            ("created_at"@, Cell::Int((*homework).created_at.0 as int)),
        ],
{
    lemma_create_reads();
    reveal_with_fuel(crate::sql::all_hold, 2);
}

/// What [`READ`] says.
pub open spec fn read_reading() -> Picking {
    Picking {
        skip: 155,
        head: " FROM "@,
        columns: Seq::empty(),
        table: "homework"@,
        conditions: seq![crate::sql::is_bound("id"@, 1)],
        rest: Text::End,
    }
}

proof fn lemma_read_reads()
    ensures
        crate::sql::spells(READ@, 155, read_reading().text()),
{
    reveal_strlit("SELECT id, course, subject, title, description, due_at, CASE WHEN cardinality(assigned) = 0 THEN NULL ELSE assigned END AS assigned, created_by, created_at FROM homework WHERE id = $1");
    reveal_strlit(" FROM ");
    reveal_strlit("homework");
    reveal_strlit(" WHERE ");
    reveal_strlit("id");
    reveal_strlit(" = ");
    reveal_strlit("$");
    reveal(crate::sql::Picking::text);
    reveal_with_fuel(crate::sql::where_text, 2);
    reveal_with_fuel(crate::sql::stands, 9);
    reveal_with_fuel(crate::sql::spells_by, 7);
    crate::sql::lemma_spells_by(READ@, 155, read_reading().text(), crate::sql::cut(161, crate::sql::cut(169, crate::sql::cut(176, crate::sql::cut(178, crate::sql::cut(181, crate::sql::cut(183, Cuts::Last)))))));
}

/// [`read`] reads the rows it names and no other.
pub proof fn law_read_reads_its_rows(
    id: HomeworkId,
    sent: Statement,
    row: Row,
)
    requires
        call_ensures(read, (id,), sent),
    ensures
        read_reading().is_read(sent@),
        read_reading().picks(sent@.binds, row) == (row["id"@] == Cell::Uuid(id.0)),
{
    lemma_read_reads();
    reveal_with_fuel(crate::sql::all_hold, 2);
}

/// What [`LIST_FOR_COURSE`] says.
pub open spec fn list_for_course_reading() -> Picking {
    Picking {
        skip: 155,
        head: " FROM "@,
        columns: Seq::empty(),
        table: "homework"@,
        conditions: seq![crate::sql::is_bound("course"@, 1)],
        rest: crate::sql::before(" ORDER BY id DESC"@, Text::End),
    }
}

proof fn lemma_list_for_course_reads()
    ensures
        crate::sql::spells(LIST_FOR_COURSE@, 155, list_for_course_reading().text()),
{
    reveal_strlit("SELECT id, course, subject, title, description, due_at, CASE WHEN cardinality(assigned) = 0 THEN NULL ELSE assigned END AS assigned, created_by, created_at FROM homework WHERE course = $1 ORDER BY id DESC");
    reveal_strlit(" FROM ");
    reveal_strlit("homework");
    reveal_strlit(" WHERE ");
    reveal_strlit("course");
    reveal_strlit(" = ");
    reveal_strlit("$");
    reveal_strlit(" ORDER BY id DESC");
    reveal(crate::sql::Picking::text);
    reveal_with_fuel(crate::sql::where_text, 2);
    reveal_with_fuel(crate::sql::stands, 18);
    reveal_with_fuel(crate::sql::spells_by, 8);
    crate::sql::lemma_spells_by(LIST_FOR_COURSE@, 155, list_for_course_reading().text(), crate::sql::cut(161, crate::sql::cut(169, crate::sql::cut(176, crate::sql::cut(182, crate::sql::cut(185, crate::sql::cut(187, crate::sql::cut(204, Cuts::Last))))))));
}

/// [`list_for_course`] reads the rows it names and no other.
pub proof fn law_list_for_course_reads_its_rows(
    course: CourseId,
    sent: Statement,
    row: Row,
)
    requires
        call_ensures(list_for_course, (course,), sent),
    ensures
        list_for_course_reading().is_read(sent@),
        list_for_course_reading().picks(sent@.binds, row) == (row["course"@] == Cell::Uuid(course.0)),
{
    lemma_list_for_course_reads();
    reveal_with_fuel(crate::sql::all_hold, 2);
}

/// What [`LIST_FOR_USER_IN_COURSE`] says.
pub open spec fn list_for_user_in_course_reading() -> Picking {
    Picking {
        skip: 155,
        head: " FROM "@,
        columns: Seq::empty(),
        table: "homework"@,
        conditions: seq![crate::sql::is_bound("course"@, 1), Cond::OpenTo("assigned"@, Term::Bind(2))],
        rest: crate::sql::before(" ORDER BY id DESC"@, Text::End),
    }
}

proof fn lemma_list_for_user_in_course_reads()
    ensures
        crate::sql::spells(LIST_FOR_USER_IN_COURSE@, 155, list_for_user_in_course_reading().text()),
{
    reveal_strlit("SELECT id, course, subject, title, description, due_at, CASE WHEN cardinality(assigned) = 0 THEN NULL ELSE assigned END AS assigned, created_by, created_at FROM homework WHERE course = $1 AND (cardinality(assigned) = 0 OR $2 = ANY(assigned)) ORDER BY id DESC");
    reveal_strlit(" FROM ");
    reveal_strlit("homework");
    reveal_strlit(" WHERE ");
    reveal_strlit("course");
    reveal_strlit(" = ");
    reveal_strlit("$");
    reveal_strlit(" AND ");
    reveal_strlit("(cardinality(");
    reveal_strlit("assigned");
    reveal_strlit(") = 0 OR ");
    reveal_strlit(" = ANY(");
    reveal_strlit("))");
    reveal_strlit(" ORDER BY id DESC");
    reveal(crate::sql::Picking::text);
    reveal_with_fuel(crate::sql::where_text, 3);
    reveal_with_fuel(crate::sql::stands, 18);
    reveal_with_fuel(crate::sql::spells_by, 16);
    crate::sql::lemma_spells_by(LIST_FOR_USER_IN_COURSE@, 155, list_for_user_in_course_reading().text(), crate::sql::cut(161, crate::sql::cut(169, crate::sql::cut(176, crate::sql::cut(182, crate::sql::cut(185, crate::sql::cut(187, crate::sql::cut(192, crate::sql::cut(205, crate::sql::cut(213, crate::sql::cut(222, crate::sql::cut(224, crate::sql::cut(231, crate::sql::cut(239, crate::sql::cut(241, crate::sql::cut(258, Cuts::Last))))))))))))))));
}

/// [`list_for_user_in_course`] reads the rows it names and no other.
pub proof fn law_list_for_user_in_course_reads_its_rows(
    course: CourseId,
    user: UserId,
    sent: Statement,
    row: Row,
)
    requires
        call_ensures(list_for_user_in_course, (course, user), sent),
    ensures
        list_for_user_in_course_reading().is_read(sent@),
        list_for_user_in_course_reading().picks(sent@.binds, row) == (row["course"@] == Cell::Uuid(course.0) && (row["assigned"@] is Uuids && (row["assigned"@]->Uuids_0.len() == 0 || row["assigned"@]->Uuids_0.contains(user.0)))),
{
    lemma_list_for_user_in_course_reads();
    reveal_with_fuel(crate::sql::all_hold, 3);
}

/// What [`LOCK_HOMEWORK`] says.
pub open spec fn lock_homework_reading() -> Picking {
    Picking {
        skip: 155,
        head: " FROM "@,
        columns: Seq::empty(),
        table: "homework"@,
        conditions: seq![crate::sql::is_bound("id"@, 1)],
        rest: crate::sql::before(" FOR UPDATE"@, Text::End),
    }
}

proof fn lemma_lock_homework_reads()
    ensures
        crate::sql::spells(LOCK_HOMEWORK@, 155, lock_homework_reading().text()),
{
    reveal_strlit("SELECT id, course, subject, title, description, due_at, CASE WHEN cardinality(assigned) = 0 THEN NULL ELSE assigned END AS assigned, created_by, created_at FROM homework WHERE id = $1 FOR UPDATE");
    reveal_strlit(" FROM ");
    reveal_strlit("homework");
    reveal_strlit(" WHERE ");
    reveal_strlit("id");
    reveal_strlit(" = ");
    reveal_strlit("$");
    reveal_strlit(" FOR UPDATE");
    reveal(crate::sql::Picking::text);
    reveal_with_fuel(crate::sql::where_text, 2);
    reveal_with_fuel(crate::sql::stands, 12);
    reveal_with_fuel(crate::sql::spells_by, 8);
    crate::sql::lemma_spells_by(LOCK_HOMEWORK@, 155, lock_homework_reading().text(), crate::sql::cut(161, crate::sql::cut(169, crate::sql::cut(176, crate::sql::cut(178, crate::sql::cut(181, crate::sql::cut(183, crate::sql::cut(194, Cuts::Last))))))));
}

/// [`lock_statement`] reads the rows it names and no other.
pub proof fn law_lock_statement_reads_its_rows(
    id: HomeworkId,
    sent: Statement,
    row: Row,
)
    requires
        call_ensures(lock_statement, (id,), sent),
    ensures
        lock_homework_reading().is_read(sent@),
        lock_homework_reading().picks(sent@.binds, row) == (row["id"@] == Cell::Uuid(id.0)),
{
    lemma_lock_homework_reads();
    reveal_with_fuel(crate::sql::all_hold, 2);
}

/// What [`SUBMITTED_USERS`] says.
pub open spec fn submitted_users_reading() -> Picking {
    Picking {
        skip: 0,
        head: "SELECT "@,
        columns: seq!["app_user AS \"user\""@],
        table: "homework_submission"@,
        conditions: seq![crate::sql::is_bound("homework"@, 1)],
        rest: Text::End,
    }
}

proof fn lemma_submitted_users_reads()
    ensures
        crate::sql::spells(SUBMITTED_USERS@, 0, submitted_users_reading().text()),
{
    reveal_strlit("SELECT app_user AS \"user\" FROM homework_submission WHERE homework = $1");
    reveal_strlit("SELECT ");
    reveal_strlit("app_user AS \"user\"");
    reveal_strlit(" FROM ");
    reveal_strlit("homework_submission");
    reveal_strlit(" WHERE ");
    reveal_strlit("homework");
    reveal_strlit(" = ");
    reveal_strlit("$");
    reveal(crate::sql::Picking::text);
    reveal_with_fuel(crate::sql::where_text, 2);
    reveal_with_fuel(crate::sql::names_text, 2);
    reveal_with_fuel(crate::sql::stands, 20);
    reveal_with_fuel(crate::sql::spells_by, 9);
    crate::sql::lemma_spells_by(SUBMITTED_USERS@, 0, submitted_users_reading().text(), crate::sql::cut(7, crate::sql::cut(25, crate::sql::cut(31, crate::sql::cut(50, crate::sql::cut(57, crate::sql::cut(65, crate::sql::cut(68, crate::sql::cut(70, Cuts::Last)))))))));
}

/// [`submitted_statement`] reads the rows it names and no other.
pub proof fn law_submitted_statement_reads_its_rows(
    id: HomeworkId,
    sent: Statement,
    row: Row,
)
    requires
        call_ensures(submitted_statement, (id,), sent),
    ensures
        submitted_users_reading().is_read(sent@),
        submitted_users_reading().picks(sent@.binds, row) == (row["homework"@] == Cell::Uuid(id.0)),
{
    lemma_submitted_users_reads();
    reveal_with_fuel(crate::sql::all_hold, 2);
}

/// What [`GRADED_USERS`] says.
pub open spec fn graded_users_reading() -> Picking {
    Picking {
        skip: 0,
        head: "SELECT "@,
        columns: seq!["app_user AS \"user\""@],
        table: "homework_result"@,
        conditions: seq![crate::sql::is_bound("homework"@, 1)],
        rest: Text::End,
    }
}

proof fn lemma_graded_users_reads()
    ensures
        crate::sql::spells(GRADED_USERS@, 0, graded_users_reading().text()),
{
    reveal_strlit("SELECT app_user AS \"user\" FROM homework_result WHERE homework = $1");
    reveal_strlit("SELECT ");
    reveal_strlit("app_user AS \"user\"");
    reveal_strlit(" FROM ");
    reveal_strlit("homework_result");
    reveal_strlit(" WHERE ");
    reveal_strlit("homework");
    reveal_strlit(" = ");
    reveal_strlit("$");
    reveal(crate::sql::Picking::text);
    reveal_with_fuel(crate::sql::where_text, 2);
    reveal_with_fuel(crate::sql::names_text, 2);
    reveal_with_fuel(crate::sql::stands, 19);
    reveal_with_fuel(crate::sql::spells_by, 9);
    crate::sql::lemma_spells_by(GRADED_USERS@, 0, graded_users_reading().text(), crate::sql::cut(7, crate::sql::cut(25, crate::sql::cut(31, crate::sql::cut(46, crate::sql::cut(53, crate::sql::cut(61, crate::sql::cut(64, crate::sql::cut(66, Cuts::Last)))))))));
}

/// [`graded_statement`] reads the rows it names and no other.
pub proof fn law_graded_statement_reads_its_rows(
    id: HomeworkId,
    sent: Statement,
    row: Row,
)
    requires
        call_ensures(graded_statement, (id,), sent),
    ensures
        graded_users_reading().is_read(sent@),
        graded_users_reading().picks(sent@.binds, row) == (row["homework"@] == Cell::Uuid(id.0)),
{
    lemma_graded_users_reads();
    reveal_with_fuel(crate::sql::all_hold, 2);
}

/// What [`RELEASE_SUBJECT`] says.
pub open spec fn release_subject_reading() -> Writing {
    Writing {
        head: "UPDATE "@,
        table: "subject"@,
        sets: seq![("homework_count"@, Expr::Floored(Term::Column("homework_count"@), Term::Word("1"@, Cell::Int(1))))],
        conditions: seq![crate::sql::is_bound("id"@, 1)],
        rest: Text::End,
    }
}

proof fn lemma_release_subject_reads()
    ensures
        crate::sql::spells(RELEASE_SUBJECT@, 0, release_subject_reading().text()),
{
    reveal_strlit("UPDATE subject SET homework_count = GREATEST(homework_count - 1, 0) WHERE id = $1");
    reveal_strlit("UPDATE ");
    reveal_strlit("subject");
    reveal_strlit(" SET ");
    reveal_strlit("homework_count");
    reveal_strlit(" = ");
    reveal_strlit("GREATEST(");
    reveal_strlit(" - ");
    reveal_strlit("1");
    reveal_strlit(", 0)");
    reveal_strlit(" WHERE ");
    reveal_strlit("id");
    reveal_strlit("$");
    reveal(crate::sql::Writing::text);
    reveal_with_fuel(crate::sql::set_text, 2);
    reveal_with_fuel(crate::sql::where_text, 2);
    reveal_with_fuel(crate::sql::stands, 15);
    reveal_with_fuel(crate::sql::spells_by, 15);
    crate::sql::lemma_spells_by(RELEASE_SUBJECT@, 0, release_subject_reading().text(), crate::sql::cut(7, crate::sql::cut(14, crate::sql::cut(19, crate::sql::cut(33, crate::sql::cut(36, crate::sql::cut(45, crate::sql::cut(59, crate::sql::cut(62, crate::sql::cut(63, crate::sql::cut(67, crate::sql::cut(74, crate::sql::cut(76, crate::sql::cut(79, crate::sql::cut(81, Cuts::Last)))))))))))))));
}

/// [`release_statement`] picks the rows it names and no other, and overwrites each column with
/// its own value.
pub proof fn law_release_statement_writes_its_row(
    subject: SubjectId,
    sent: Statement,
    row: Row,
)
    requires
        call_ensures(release_statement, (subject,), sent),
    ensures
        release_subject_reading().is_read(sent@),
        release_subject_reading().picks(sent@.binds, row) == (row["id"@] == Cell::Uuid(subject.0)),
        release_subject_reading().writes(sent@.binds, row) == seq![
            ("homework_count"@, Cell::Int(crate::tally::floored(row["homework_count"@].number() - 1))),
        ],
{
    lemma_release_subject_reads();
    reveal_with_fuel(crate::sql::all_hold, 2);
}

/// What [`CLAIM_SUBJECT`] says.
pub open spec fn claim_subject_reading() -> Writing {
    Writing {
        head: "UPDATE "@,
        table: "subject"@,
        sets: seq![("homework_count"@, Expr::Plus(Term::Column("homework_count"@), Term::Word("1"@, Cell::Int(1))))],
        conditions: seq![crate::sql::is_bound("id"@, 1)],
        rest: crate::sql::returning(),
    }
}

proof fn lemma_claim_subject_reads()
    ensures
        crate::sql::spells(CLAIM_SUBJECT@, 0, claim_subject_reading().text()),
{
    reveal_strlit("UPDATE subject SET homework_count = homework_count + 1 WHERE id = $1 RETURNING 1 AS seat");
    reveal_strlit("UPDATE ");
    reveal_strlit("subject");
    reveal_strlit(" SET ");
    reveal_strlit("homework_count");
    reveal_strlit(" = ");
    reveal_strlit(" + ");
    reveal_strlit("1");
    reveal_strlit(" WHERE ");
    reveal_strlit("id");
    reveal_strlit("$");
    reveal_strlit(" RETURNING ");
    reveal(crate::sql::Writing::text);
    reveal_with_fuel(crate::sql::set_text, 2);
    reveal_with_fuel(crate::sql::where_text, 2);
    reveal_with_fuel(crate::sql::stands, 15);
    reveal_with_fuel(crate::sql::spells_by, 14);
    crate::sql::lemma_spells_by(CLAIM_SUBJECT@, 0, claim_subject_reading().text(), crate::sql::cut(7, crate::sql::cut(14, crate::sql::cut(19, crate::sql::cut(33, crate::sql::cut(36, crate::sql::cut(50, crate::sql::cut(53, crate::sql::cut(54, crate::sql::cut(61, crate::sql::cut(63, crate::sql::cut(66, crate::sql::cut(68, crate::sql::cut(79, Cuts::Last))))))))))))));
}

/// [`claim_statement`] picks the rows it names and no other, and overwrites each column with
/// its own value.
pub proof fn law_claim_statement_writes_its_row(
    subject: SubjectId,
    sent: Statement,
    row: Row,
)
    requires
        call_ensures(claim_statement, (subject,), sent),
    ensures
        claim_subject_reading().is_read(sent@),
        claim_subject_reading().picks(sent@.binds, row) == (row["id"@] == Cell::Uuid(subject.0)),
        claim_subject_reading().writes(sent@.binds, row) == seq![
            ("homework_count"@, Cell::Int(row["homework_count"@].number() + 1)),
        ],
{
    lemma_claim_subject_reads();
    reveal_with_fuel(crate::sql::all_hold, 2);
}

/// [`Update::Lock`] reads the rows it names and no other.
pub proof fn law_update_lock_reads_its_rows(
    request: HomeworkPatch,
    id: HomeworkId,
    snapshot: SubjectId,
    current: Option<Homework>,
    row: Row,
)
    ensures
        ({
            let sent = request.asks(Update::Lock, id, snapshot, current);
            &&& lock_homework_reading().is_read(sent)
            &&& lock_homework_reading().picks(sent.binds, row) == (row["id"@] == Cell::Uuid(id.0))
        }),
{
    lemma_lock_homework_reads();
    reveal_with_fuel(crate::sql::all_hold, 2);
}

/// [`Update::ReadSubmitted`] reads the rows it names and no other.
pub proof fn law_update_read_submitted_reads_its_rows(
    request: HomeworkPatch,
    id: HomeworkId,
    snapshot: SubjectId,
    current: Option<Homework>,
    stored: SubjectId,
    row: Row,
)
    ensures
        ({
            let sent = request.asks(Update::ReadSubmitted { stored }, id, snapshot, current);
            &&& submitted_users_reading().is_read(sent)
            &&& submitted_users_reading().picks(sent.binds, row) == (row["homework"@] == Cell::Uuid(id.0))
        }),
{
    lemma_submitted_users_reads();
    reveal_with_fuel(crate::sql::all_hold, 2);
}

/// [`Update::ReadGraded`] reads the rows it names and no other.
pub proof fn law_update_read_graded_reads_its_rows(
    request: HomeworkPatch,
    id: HomeworkId,
    snapshot: SubjectId,
    current: Option<Homework>,
    stored: SubjectId,
    row: Row,
)
    ensures
        ({
            let sent = request.asks(Update::ReadGraded { stored }, id, snapshot, current);
            &&& graded_users_reading().is_read(sent)
            &&& graded_users_reading().picks(sent.binds, row) == (row["homework"@] == Cell::Uuid(id.0))
        }),
{
    lemma_graded_users_reads();
    reveal_with_fuel(crate::sql::all_hold, 2);
}

/// [`Update::Release`] picks the rows it names and no other, and overwrites each column with
/// its own value.
pub proof fn law_update_release_writes_its_row(
    request: HomeworkPatch,
    id: HomeworkId,
    snapshot: SubjectId,
    current: Option<Homework>,
    stored: SubjectId,
    row: Row,
)
    ensures
        ({
            let sent = request.asks(Update::Release { stored }, id, snapshot, current);
            &&& release_subject_reading().is_read(sent)
            &&& release_subject_reading().picks(sent.binds, row) == (row["id"@] == Cell::Uuid(stored.0))
            &&& release_subject_reading().writes(sent.binds, row) == seq![
                ("homework_count"@, Cell::Int(crate::tally::floored(row["homework_count"@].number() - 1))),
            ]
        }),
{
    lemma_release_subject_reads();
    reveal_with_fuel(crate::sql::all_hold, 2);
}

/// [`Update::Claim`] picks the rows it names and no other, and overwrites each column with
/// its own value.
pub proof fn law_update_claim_writes_its_row(
    request: HomeworkPatch,
    id: HomeworkId,
    snapshot: SubjectId,
    current: Option<Homework>,
    stored: SubjectId,
    row: Row,
)
    ensures
        ({
            let sent = request.asks(Update::Claim { stored }, id, snapshot, current);
            &&& claim_subject_reading().is_read(sent)
            &&& claim_subject_reading().picks(sent.binds, row) == (row["id"@] == Cell::Uuid((request.reads(snapshot).target()->0).0))
            &&& claim_subject_reading().writes(sent.binds, row) == seq![
                ("homework_count"@, Cell::Int(row["homework_count"@].number() + 1)),
            ]
        }),
{
    lemma_claim_subject_reads();
    reveal_with_fuel(crate::sql::all_hold, 2);
}

/// What [`WRITE_MERGED`] says.
pub open spec fn write_merged_reading() -> Writing {
    Writing {
        head: "UPDATE "@,
        table: "homework"@,
        sets: seq![("subject"@, crate::sql::bind(2)), ("title"@, crate::sql::bind(3)), ("description"@, crate::sql::bind(4)), ("due_at"@, crate::sql::bind(5)), ("assigned"@, crate::sql::bind(6))],
        conditions: seq![crate::sql::is_bound("id"@, 1)],
        rest: crate::sql::returning(),
    }
}

proof fn lemma_write_merged_reads()
    ensures
        crate::sql::spells(WRITE_MERGED@, 0, write_merged_reading().text()),
{
    reveal_strlit("UPDATE homework SET subject = $2, title = $3, description = $4, due_at = $5, assigned = $6 WHERE id = $1 RETURNING id, course, subject, title, description, due_at, CASE WHEN cardinality(assigned) = 0 THEN NULL ELSE assigned END AS assigned, created_by, created_at");
    reveal_strlit("UPDATE ");
    reveal_strlit("homework");
    reveal_strlit(" SET ");
    reveal_strlit("subject");
    reveal_strlit(" = ");
    reveal_strlit("$");
    reveal_strlit(", ");
    reveal_strlit("title");
    reveal_strlit("description");
    reveal_strlit("due_at");
    reveal_strlit("assigned");
    reveal_strlit(" WHERE ");
    reveal_strlit("id");
    reveal_strlit(" RETURNING ");
    reveal(crate::sql::Writing::text);
    reveal_with_fuel(crate::sql::set_text, 6);
    reveal_with_fuel(crate::sql::where_text, 2);
    reveal_with_fuel(crate::sql::stands, 12);
    reveal_with_fuel(crate::sql::spells_by, 28);
    crate::sql::lemma_spells_by(WRITE_MERGED@, 0, write_merged_reading().text(), crate::sql::cut(7, crate::sql::cut(15, crate::sql::cut(20, crate::sql::cut(27, crate::sql::cut(30, crate::sql::cut(32, crate::sql::cut(34, crate::sql::cut(39, crate::sql::cut(42, crate::sql::cut(44, crate::sql::cut(46, crate::sql::cut(57, crate::sql::cut(60, crate::sql::cut(62, crate::sql::cut(64, crate::sql::cut(70, crate::sql::cut(73, crate::sql::cut(75, crate::sql::cut(77, crate::sql::cut(85, crate::sql::cut(88, crate::sql::cut(90, crate::sql::cut(97, crate::sql::cut(99, crate::sql::cut(102, crate::sql::cut(104, crate::sql::cut(115, Cuts::Last))))))))))))))))))))))))))));
}

/// [`Update::Write`] picks the rows it names and no other, and overwrites each column with
/// its own value.
pub proof fn law_update_write_writes_its_row(
    request: HomeworkPatch,
    id: HomeworkId,
    snapshot: SubjectId,
    current: Option<Homework>,
    row: Row,
)
    ensures
        ({
            let sent = request.asks(Update::Write, id, snapshot, current);
            &&& write_merged_reading().is_read(sent)
            &&& write_merged_reading().picks(sent.binds, row) == (row["id"@] == Cell::Uuid((current->0).id.0))
            &&& write_merged_reading().writes(sent.binds, row) == seq![
                ("subject"@, Cell::Uuid(match request.subject { Some(subject) => subject.0, None => (current->0).subject.0, })),
                ("title"@, Cell::Text(match request.title { Some(title) => title@, None => (current->0).title@, })),
                ("description"@, crate::sql::opt_text(match request.description { Some(description) => crate::page::opt_string_view(description), None => crate::page::opt_string_view((current->0).description), })),
                ("due_at"@, Cell::Int(match request.due_at { Some(due_at) => due_at.0, None => (current->0).due_at.0, } as int)),
                ("assigned"@, Cell::Uuids(match request.assigned { Some(assigned) => audience_keys(assigned), None => audience_keys((current->0).assigned), })),
            ]
        }),
{
    lemma_write_merged_reads();
    reveal_with_fuel(crate::sql::all_hold, 2);
}

/// The text of [`FILE_KEYS`], taken apart at its placeholders.
pub open spec fn file_keys_text() -> Text {
    crate::sql::before("SELECT file FROM homework_file WHERE submission"@, crate::sql::before(" IN (SELECT id FROM homework_submission WHERE"@, crate::sql::before(" homework = "@, crate::sql::before(crate::text::placeholder(1), crate::sql::before(")"@, Text::End)))))
}

proof fn lemma_file_keys_reads()
    ensures
        crate::sql::spells(FILE_KEYS@, 0, file_keys_text()),
{
    reveal_strlit("SELECT file FROM homework_file WHERE submission IN (SELECT id FROM homework_submission WHERE homework = $1)");
    reveal_strlit("SELECT file FROM homework_file WHERE submission");
    reveal_strlit(" IN (SELECT id FROM homework_submission WHERE");
    reveal_strlit(" homework = ");
    reveal_strlit("$");
    reveal_strlit(")");
    reveal_with_fuel(crate::sql::stands, 48);
    reveal_with_fuel(crate::sql::spells_by, 6);
    crate::sql::lemma_spells_by(FILE_KEYS@, 0, file_keys_text(), crate::sql::cut(47, crate::sql::cut(92, crate::sql::cut(104, crate::sql::cut(106, crate::sql::cut(107, Cuts::Last))))));
}

/// [`Delete::ReadFiles`] binds each value at its own place in the text.
pub proof fn law_delete_read_files_binds_its_values(
    id: HomeworkId,
)
    ensures
        ({
            let sent = Delete::ReadFiles.asks(id);
            &&& crate::sql::spells(sent.sql, 0, file_keys_text())
            &&& sent.binds.len() == 1
            &&& crate::sql::cell(sent.binds[0]) == Cell::Uuid(id.0)
        }),
{
    lemma_file_keys_reads();
}

/// What [`WIPE_FILES`] says.
pub open spec fn wipe_files_reading() -> Picking {
    Picking {
        skip: 0,
        head: "DELETE FROM homework_file WHERE submission IN (SELECT id FROM "@,
        columns: Seq::empty(),
        table: "homework_submission"@,
        conditions: seq![crate::sql::is_bound("homework"@, 1)],
        rest: crate::sql::before(")"@, Text::End),
    }
}

proof fn lemma_wipe_files_reads()
    ensures
        crate::sql::spells(WIPE_FILES@, 0, wipe_files_reading().text()),
{
    reveal_strlit("DELETE FROM homework_file WHERE submission IN (SELECT id FROM homework_submission WHERE homework = $1)");
    reveal_strlit("DELETE FROM homework_file WHERE submission IN (SELECT id FROM ");
    reveal_strlit("homework_submission");
    reveal_strlit(" WHERE ");
    reveal_strlit("homework");
    reveal_strlit(" = ");
    reveal_strlit("$");
    reveal_strlit(")");
    reveal(crate::sql::Picking::text);
    reveal_with_fuel(crate::sql::where_text, 2);
    reveal_with_fuel(crate::sql::stands, 63);
    reveal_with_fuel(crate::sql::spells_by, 8);
    crate::sql::lemma_spells_by(WIPE_FILES@, 0, wipe_files_reading().text(), crate::sql::cut(62, crate::sql::cut(81, crate::sql::cut(88, crate::sql::cut(96, crate::sql::cut(99, crate::sql::cut(101, crate::sql::cut(102, Cuts::Last))))))));
}

/// [`Delete::WipeFiles`] deletes the rows it names and no other.
pub proof fn law_delete_wipe_files_deletes_its_rows(
    id: HomeworkId,
    row: Row,
)
    ensures
        ({
            let sent = Delete::WipeFiles.asks(id);
            &&& wipe_files_reading().is_read(sent)
            &&& wipe_files_reading().picks(sent.binds, row) == (row["homework"@] == Cell::Uuid(id.0))
        }),
{
    lemma_wipe_files_reads();
    reveal_with_fuel(crate::sql::all_hold, 2);
}

/// What [`WIPE_RESULTS`] says.
pub open spec fn wipe_results_reading() -> Picking {
    Picking {
        skip: 0,
        head: "DELETE FROM "@,
        columns: Seq::empty(),
        table: "homework_result"@,
        conditions: seq![crate::sql::is_bound("homework"@, 1)],
        rest: Text::End,
    }
}

proof fn lemma_wipe_results_reads()
    ensures
        crate::sql::spells(WIPE_RESULTS@, 0, wipe_results_reading().text()),
{
    reveal_strlit("DELETE FROM homework_result WHERE homework = $1");
    reveal_strlit("DELETE FROM ");
    reveal_strlit("homework_result");
    reveal_strlit(" WHERE ");
    reveal_strlit("homework");
    reveal_strlit(" = ");
    reveal_strlit("$");
    reveal(crate::sql::Picking::text);
    reveal_with_fuel(crate::sql::where_text, 2);
    reveal_with_fuel(crate::sql::stands, 16);
    reveal_with_fuel(crate::sql::spells_by, 7);
    crate::sql::lemma_spells_by(WIPE_RESULTS@, 0, wipe_results_reading().text(), crate::sql::cut(12, crate::sql::cut(27, crate::sql::cut(34, crate::sql::cut(42, crate::sql::cut(45, crate::sql::cut(47, Cuts::Last)))))));
}

/// [`Delete::WipeResults`] deletes the rows it names and no other.
pub proof fn law_delete_wipe_results_deletes_its_rows(
    id: HomeworkId,
    row: Row,
)
    ensures
        ({
            let sent = Delete::WipeResults.asks(id);
            &&& wipe_results_reading().is_read(sent)
            &&& wipe_results_reading().picks(sent.binds, row) == (row["homework"@] == Cell::Uuid(id.0))
        }),
{
    lemma_wipe_results_reads();
    reveal_with_fuel(crate::sql::all_hold, 2);
}

/// What [`WIPE_SUBMISSIONS`] says.
pub open spec fn wipe_submissions_reading() -> Picking {
    Picking {
        skip: 0,
        head: "DELETE FROM "@,
        columns: Seq::empty(),
        table: "homework_submission"@,
        conditions: seq![crate::sql::is_bound("homework"@, 1)],
        rest: Text::End,
    }
}

proof fn lemma_wipe_submissions_reads()
    ensures
        crate::sql::spells(WIPE_SUBMISSIONS@, 0, wipe_submissions_reading().text()),
{
    reveal_strlit("DELETE FROM homework_submission WHERE homework = $1");
    reveal_strlit("DELETE FROM ");
    reveal_strlit("homework_submission");
    reveal_strlit(" WHERE ");
    reveal_strlit("homework");
    reveal_strlit(" = ");
    reveal_strlit("$");
    reveal(crate::sql::Picking::text);
    reveal_with_fuel(crate::sql::where_text, 2);
    reveal_with_fuel(crate::sql::stands, 20);
    reveal_with_fuel(crate::sql::spells_by, 7);
    crate::sql::lemma_spells_by(WIPE_SUBMISSIONS@, 0, wipe_submissions_reading().text(), crate::sql::cut(12, crate::sql::cut(31, crate::sql::cut(38, crate::sql::cut(46, crate::sql::cut(49, crate::sql::cut(51, Cuts::Last)))))));
}

/// [`Delete::WipeSubmissions`] deletes the rows it names and no other.
pub proof fn law_delete_wipe_submissions_deletes_its_rows(
    id: HomeworkId,
    row: Row,
)
    ensures
        ({
            let sent = Delete::WipeSubmissions.asks(id);
            &&& wipe_submissions_reading().is_read(sent)
            &&& wipe_submissions_reading().picks(sent.binds, row) == (row["homework"@] == Cell::Uuid(id.0))
        }),
{
    lemma_wipe_submissions_reads();
    reveal_with_fuel(crate::sql::all_hold, 2);
}

/// What [`DELETE_HOMEWORK`] says.
pub open spec fn delete_homework_reading() -> Picking {
    Picking {
        skip: 0,
        head: "DELETE FROM "@,
        columns: Seq::empty(),
        table: "homework"@,
        conditions: seq![crate::sql::is_bound("id"@, 1)],
        rest: crate::sql::returning(),
    }
}

proof fn lemma_delete_homework_reads()
    ensures
        crate::sql::spells(DELETE_HOMEWORK@, 0, delete_homework_reading().text()),
{
    reveal_strlit("DELETE FROM homework WHERE id = $1 RETURNING id, course, subject, title, description, due_at, CASE WHEN cardinality(assigned) = 0 THEN NULL ELSE assigned END AS assigned, created_by, created_at");
    reveal_strlit("DELETE FROM ");
    reveal_strlit("homework");
    reveal_strlit(" WHERE ");
    reveal_strlit("id");
    reveal_strlit(" = ");
    reveal_strlit("$");
    reveal_strlit(" RETURNING ");
    reveal(crate::sql::Picking::text);
    reveal_with_fuel(crate::sql::where_text, 2);
    reveal_with_fuel(crate::sql::stands, 13);
    reveal_with_fuel(crate::sql::spells_by, 8);
    crate::sql::lemma_spells_by(DELETE_HOMEWORK@, 0, delete_homework_reading().text(), crate::sql::cut(12, crate::sql::cut(20, crate::sql::cut(27, crate::sql::cut(29, crate::sql::cut(32, crate::sql::cut(34, crate::sql::cut(45, Cuts::Last))))))));
}

/// [`Delete::DeleteRow`] deletes the rows it names and no other.
pub proof fn law_delete_delete_row_deletes_its_rows(
    id: HomeworkId,
    row: Row,
)
    ensures
        ({
            let sent = Delete::DeleteRow.asks(id);
            &&& delete_homework_reading().is_read(sent)
            &&& delete_homework_reading().picks(sent.binds, row) == (row["id"@] == Cell::Uuid(id.0))
        }),
{
    lemma_delete_homework_reads();
    reveal_with_fuel(crate::sql::all_hold, 2);
}

/// [`Delete::Release`] picks the rows it names and no other, and overwrites each column with
/// its own value.
pub proof fn law_delete_release_writes_its_row(
    id: HomeworkId,
    subject: SubjectId,
    row: Row,
)
    ensures
        ({
            let sent = (Delete::Release { subject }).asks(id);
            &&& release_subject_reading().is_read(sent)
            &&& release_subject_reading().picks(sent.binds, row) == (row["id"@] == Cell::Uuid(subject.0))
            &&& release_subject_reading().writes(sent.binds, row) == seq![
                ("homework_count"@, Cell::Int(crate::tally::floored(row["homework_count"@].number() - 1))),
            ]
        }),
{
    lemma_release_subject_reads();
    reveal_with_fuel(crate::sql::all_hold, 2);
}

/// What [`LIST_FOR_COURSES`] says.
pub open spec fn list_for_courses_reading() -> Picking {
    Picking {
        skip: 155,
        head: " FROM "@,
        columns: Seq::empty(),
        table: "homework"@,
        conditions: seq![Cond::Among(Term::Column("course"@), Term::Bind(1))],
        rest: crate::sql::before(" ORDER BY id DESC"@, Text::End),
    }
}

proof fn lemma_list_for_courses_reads()
    ensures
        crate::sql::spells(LIST_FOR_COURSES@, 155, list_for_courses_reading().text()),
{
    reveal_strlit("SELECT id, course, subject, title, description, due_at, CASE WHEN cardinality(assigned) = 0 THEN NULL ELSE assigned END AS assigned, created_by, created_at FROM homework WHERE course = ANY($1) ORDER BY id DESC");
    reveal_strlit(" FROM ");
    reveal_strlit("homework");
    reveal_strlit(" WHERE ");
    reveal_strlit("course");
    reveal_strlit(" = ANY(");
    reveal_strlit("$");
    reveal_strlit(")");
    reveal_strlit(" ORDER BY id DESC");
    reveal(crate::sql::Picking::text);
    reveal_with_fuel(crate::sql::where_text, 2);
    reveal_with_fuel(crate::sql::stands, 18);
    reveal_with_fuel(crate::sql::spells_by, 9);
    crate::sql::lemma_spells_by(LIST_FOR_COURSES@, 155, list_for_courses_reading().text(), crate::sql::cut(161, crate::sql::cut(169, crate::sql::cut(176, crate::sql::cut(182, crate::sql::cut(189, crate::sql::cut(191, crate::sql::cut(192, crate::sql::cut(209, Cuts::Last)))))))));
}

/// [`list_for_courses`] reads the rows it names and no other.
pub proof fn law_list_for_courses_reads_its_rows(
    courses: &Vec<CourseId>,
    sent: Option<Statement>,
    row: Row,
)
    requires
        call_ensures(list_for_courses, (courses,), sent),
        sent is Some,
    ensures
        list_for_courses_reading().is_read(sent->0@),
        list_for_courses_reading().picks(sent->0@.binds, row) == ((row["course"@] is Uuid && course_keys(courses@).contains(row["course"@]->Uuid_0))),
{
    lemma_list_for_courses_reads();
    reveal_with_fuel(crate::sql::all_hold, 2);
}

} // verus!
