//! The keys of the stored rows.

use vstd::prelude::*;

use crate::page::Uuid;

verus! {

/// The key of a user.
#[derive(Clone, Copy, PartialEq, Eq, Structural, Debug)]
pub struct UserId(pub Uuid);

/// The key of an exam.
#[derive(Clone, Copy, PartialEq, Eq, Structural, Debug)]
pub struct ExamId(pub Uuid);

/// The key of a course.
#[derive(Clone, Copy, PartialEq, Eq, Structural, Debug)]
pub struct CourseId(pub Uuid);

/// The key of a homework.
#[derive(Clone, Copy, PartialEq, Eq, Structural, Debug)]
pub struct HomeworkId(pub Uuid);

/// The key of a subject.
#[derive(Clone, Copy, PartialEq, Eq, Structural, Debug)]
pub struct SubjectId(pub Uuid);

/// The key of a homework submission.
#[derive(Clone, Copy, PartialEq, Eq, Structural, Debug)]
pub struct HomeworkSubmissionId(pub Uuid);

/// The key of a pool question.
#[derive(Clone, Copy, PartialEq, Eq, Structural, Debug)]
pub struct PoolQuestionId(pub Uuid);

/// The key of an exam question.
#[derive(Clone, Copy, PartialEq, Eq, Structural, Debug)]
pub struct ExamQuestionId(pub Uuid);

/// The key of a course a class takes.
#[derive(Clone, Copy, PartialEq, Eq, Structural, Debug)]
pub struct ClassCourseId(pub Uuid);

/// The key of a podcast job.
#[derive(Clone, Copy, PartialEq, Eq, Structural, Debug)]
pub struct PodcastJobId(pub Uuid);

/// The key of a bank question.
#[derive(Clone, Copy, PartialEq, Eq, Structural, Debug)]
pub struct BankQuestionId(pub Uuid);

/// The key of a chat thread.
#[derive(Clone, Copy, PartialEq, Eq, Structural, Debug)]
pub struct RagThreadId(pub Uuid);

/// The key of a chat message.
#[derive(Clone, Copy, PartialEq, Eq, Structural, Debug)]
pub struct RagMessageId(pub Uuid);

/// The key of a course note.
#[derive(Clone, Copy, PartialEq, Eq, Structural, Debug)]
pub struct CourseNoteId(pub Uuid);

/// The key of a note.
#[derive(Clone, Copy, PartialEq, Eq, Structural, Debug)]
pub struct NoteId(pub Uuid);

/// The key of a generated output.
#[derive(Clone, Copy, PartialEq, Eq, Structural, Debug)]
pub struct RagOutputId(pub Uuid);

/// The key of a person.
#[derive(Clone, Copy, PartialEq, Eq, Structural, Debug)]
pub struct PersonId(pub Uuid);

/// The key of a message.
#[derive(Clone, Copy, PartialEq, Eq, Structural, Debug)]
pub struct MessageId(pub Uuid);

/// The key of a fee plan.
#[derive(Clone, Copy, PartialEq, Eq, Structural, Debug)]
pub struct FeePlanId(pub Uuid);

/// The key of a holiday.
#[derive(Clone, Copy, PartialEq, Eq, Structural, Debug)]
pub struct HolidayId(pub Uuid);

/// The key of a course offering.
#[derive(Clone, Copy, PartialEq, Eq, Structural, Debug)]
pub struct CourseOfferingId(pub Uuid);

/// The key of a dish of a menu.
#[derive(Clone, Copy, PartialEq, Eq, Structural, Debug)]
pub struct MenuDishId(pub Uuid);

/// The key of a homework file.
#[derive(Clone, Copy, PartialEq, Eq, Structural, Debug)]
pub struct HomeworkFileId(pub Uuid);

/// The key of a pomodoro session.
#[derive(Clone, Copy, PartialEq, Eq, Structural, Debug)]
pub struct PomodoroSessionId(pub Uuid);

/// The key of a note file.
#[derive(Clone, Copy, PartialEq, Eq, Structural, Debug)]
pub struct NoteFileId(pub Uuid);

/// The key of a homework result.
#[derive(Clone, Copy, PartialEq, Eq, Structural, Debug)]
pub struct HomeworkResultId(pub Uuid);

/// The key of an event.
#[derive(Clone, Copy, PartialEq, Eq, Structural, Debug)]
pub struct EventId(pub Uuid);

/// The key of a class.
#[derive(Clone, Copy, PartialEq, Eq, Structural, Debug)]
pub struct ClassGroupId(pub Uuid);

/// The key of a pool solution.
#[derive(Clone, Copy, PartialEq, Eq, Structural, Debug)]
pub struct SolutionId(pub Uuid);

/// The key of a login session.
#[derive(Clone, Copy, PartialEq, Eq, Structural, Debug)]
pub struct SessionId(pub Uuid);

/// The key of a school.
#[derive(Clone, Copy, PartialEq, Eq, Structural, Debug)]
pub struct SchoolId(pub Uuid);

/// The key of a file of a course note.
#[derive(Clone, Copy, PartialEq, Eq, Structural, Debug)]
pub struct CourseNoteFileId(pub Uuid);

/// The key of a term.
#[derive(Clone, Copy, PartialEq, Eq, Structural, Debug)]
pub struct TermId(pub Uuid);

/// A moment, in milliseconds since the epoch.
#[derive(Clone, Copy, PartialEq, Eq, Structural, Debug)]
pub struct Timestamp(pub i64);

/// The milliseconds of a moment, where there is one.
pub open spec fn opt_millis(at: Option<Timestamp>) -> Option<i64> {
    match at {
        Some(at) => Some(at.0),
        None => None,
    }
}

/// The milliseconds of a moment, where there is one.
pub fn millis(at: Option<Timestamp>) -> (millis: Option<i64>)
    ensures
        millis == opt_millis(at),
{
    match at {
        Some(at) => Some(at.0),
        None => None,
    }
}

} // verus!
