//! The errors an operation answers with.

use vstd::prelude::*;

verus! {

/// A failure the database reported: the SQLSTATE and the constraint's name,
/// where it gave them, and its message.
#[derive(Debug)]
pub struct DbError {
    pub code: Option<String>,
    pub constraint: Option<String>,
    pub message: String,
}

/// A refused request field.
#[derive(Debug)]
pub enum ValidationError {
    /// The field must not be empty.
    Empty(&'static str),
    /// The field's value is refused for `reason`.
    Invalid { field: &'static str, reason: &'static str },
}

/// What an operation answers instead of its result.
#[derive(Debug)]
pub enum AppError {
    NotFound,
    /// The stored state refuses the request.
    Conflict(&'static str),
    /// The same, with a message assembled for the request.
    ConflictOwned(String),
    Validation(ValidationError),
    PayloadTooLarge(String),
    Internal(String),
    Db(DbError),
}

/// What a [`ValidationError`] says.
#[verifier::ext_equal]
pub enum ValidationErrorView {
    Empty(Seq<char>),
    Invalid { field: Seq<char>, reason: Seq<char> },
}

/// What an [`AppError`] says.
#[verifier::ext_equal]
pub enum AppErrorView {
    NotFound,
    Conflict(Seq<char>),
    ConflictOwned(Seq<char>),
    Validation(ValidationErrorView),
    PayloadTooLarge(Seq<char>),
    Internal(Seq<char>),
    Db(DbError),
}

impl View for ValidationError {
    type V = ValidationErrorView;

    open spec fn view(&self) -> ValidationErrorView {
        match self {
            ValidationError::Empty(field) => ValidationErrorView::Empty(field@),
            ValidationError::Invalid { field, reason } => ValidationErrorView::Invalid {
                field: field@,
                reason: reason@,
            },
        }
    }
}

impl View for AppError {
    type V = AppErrorView;

    open spec fn view(&self) -> AppErrorView {
        match self {
            AppError::NotFound => AppErrorView::NotFound,
            AppError::Conflict(text) => AppErrorView::Conflict(text@),
            AppError::ConflictOwned(text) => AppErrorView::ConflictOwned(text@),
            AppError::Validation(invalid) => AppErrorView::Validation(invalid@),
            AppError::PayloadTooLarge(text) => AppErrorView::PayloadTooLarge(text@),
            AppError::Internal(text) => AppErrorView::Internal(text@),
            AppError::Db(source) => AppErrorView::Db(*source),
        }
    }
}

/// SQLSTATE `unique_violation`.
pub const UNIQUE_VIOLATION: &'static str = "23505";

/// SQLSTATE `foreign_key_violation`.
pub const FOREIGN_KEY_VIOLATION: &'static str = "23503";

impl DbError {
    /// Whether the SQLSTATE is `code`.
    pub open spec fn has_code(self, code: Seq<char>) -> bool {
        self.code is Some && self.code->0@ == code
    }

    /// Whether this is a violation of the unique constraint `name`.
    pub open spec fn violates_unique(self, name: Seq<char>) -> bool {
        &&& self.has_code(UNIQUE_VIOLATION@)
        &&& self.constraint is Some
        &&& self.constraint->0@ == name
    }

    /// Whether this is a violation of any unique constraint.
    pub open spec fn is_unique(self) -> bool {
        self.has_code(UNIQUE_VIOLATION@)
    }

    /// Whether this is a foreign key violation.
    pub open spec fn violates_foreign_key(self) -> bool {
        self.has_code(FOREIGN_KEY_VIOLATION@)
    }
}

/// Whether two texts are the same.
pub fn same_text(a: &str, b: &str) -> (same: bool)
    ensures
        same == (a@ == b@),
{
    a.to_owned() == b.to_owned()
}

fn has_code(error: &DbError, code: &str) -> (yes: bool)
    ensures
        yes == error.has_code(code@),
{
    match &error.code {
        Some(given) => same_text(given.as_str(), code),
        None => false,
    }
}

/// Whether the database refused a row for the unique constraint `name`.
pub fn unique_violation(error: &DbError, name: &str) -> (yes: bool)
    ensures
        yes == error.violates_unique(name@),
{
    if !has_code(error, UNIQUE_VIOLATION) {
        return false;
    }
    match &error.constraint {
        Some(given) => same_text(given.as_str(), name),
        None => false,
    }
}

/// Whether the database refused a row for any unique constraint.
pub fn is_unique_violation(error: &DbError) -> (yes: bool)
    ensures
        yes == error.is_unique(),
{
    has_code(error, UNIQUE_VIOLATION)
}

/// Whether the database refused a row for a reference to a missing one.
pub fn foreign_key_violation(error: &DbError) -> (yes: bool)
    ensures
        yes == error.violates_foreign_key(),
{
    has_code(error, FOREIGN_KEY_VIOLATION)
}

/// The refusal of a row that is not there.
#[derive(Clone, Copy, PartialEq, Eq, Structural, Debug)]
pub struct Gone;

impl Gone {
    /// What it answers.
    pub fn error(self) -> (error: AppError)
        ensures
            error@ == AppErrorView::NotFound,
    {
        AppError::NotFound
    }
}

/// Whether a statement touched any row.
pub fn any_affected(rows: u64) -> (any: bool)
    ensures
        any == (rows > 0),
{
    rows > 0
}

/// The row, or `NotFound` where there is none.
pub fn found<T>(row: Option<T>) -> (answer: Result<T, AppError>)
    ensures
        row is Some ==> answer == Ok::<T, AppError>(row->0),
        row is None ==> answer is Err && answer->Err_0@ == AppErrorView::NotFound,
{
    match row {
        Some(row) => Ok(row),
        None => Err(AppError::NotFound),
    }
}

} // verus!
