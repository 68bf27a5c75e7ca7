//! A place claimed under a cap: made, refused because there is none left, or
//! refused because it was already taken.

use vstd::prelude::*;

use crate::error::{unique_violation, AppError, AppErrorView, DbError};

verus! {

/// What a claim comes to.
#[derive(Debug)]
pub enum Claimed<T> {
    Made(T),
    Full,
    Duplicate,
}

/// Why a claim is not made.
#[derive(Clone, Copy, PartialEq, Eq, Structural, Debug)]
pub enum ClaimRefusal {
    Full,
    Duplicate,
}

impl ClaimRefusal {
    /// The claim this refusal answers.
    pub fn claimed<T>(self) -> (claimed: Claimed<T>)
        ensures
            match self {
                ClaimRefusal::Full => claimed is Full,
                ClaimRefusal::Duplicate => claimed is Duplicate,
            },
    {
        match self {
            ClaimRefusal::Full => Claimed::Full,
            ClaimRefusal::Duplicate => Claimed::Duplicate,
        }
    }
}

/// What a capped insert comes to: a row is a place made, no row is no place
/// left, and a violation of `pair` is a place the other writer took first.
/// The verdict is read off the error before the row: a duplicate is no full
/// house.
pub fn verdict<T>(outcome: Result<Option<T>, DbError>, pair: &str) -> (claimed: Result<
    Claimed<T>,
    AppError,
>)
    ensures
        match outcome {
            Ok(Some(row)) => claimed == Ok::<Claimed<T>, AppError>(Claimed::Made(row)),
            Ok(None) => claimed == Ok::<Claimed<T>, AppError>(Claimed::Full),
            Err(error) => if error.violates_unique(pair@) {
                claimed == Ok::<Claimed<T>, AppError>(Claimed::Duplicate)
            } else {
                claimed is Err && claimed->Err_0@ == AppErrorView::Db(error)
            },
        },
{
    match outcome {
        Ok(Some(row)) => Ok(Claimed::Made(row)),
        Ok(None) => Ok(Claimed::Full),
        Err(error) => if unique_violation(&error, pair) {
            Ok(Claimed::Duplicate)
        } else {
            Err(AppError::Db(error))
        },
    }
}

} // verus!
