//! Modifying text in the line buffer: status translation.
//!
//! Inserting and copying report how much text was handled, so success is
//! a positive status; killing text reports the usual zero-on-success
//! convention.

use crate::error::ErrorKind;
use crate::error::ReadlineError;
use vstd::prelude::*;

verus! {

/// Translate a text-modification status: zero is success, anything else
/// a failure carrying the given account.
pub fn genresult(res: i32, message: &str) -> (r: Result<i32, ReadlineError>)
    ensures
        r is Ok <==> res == 0,
        r matches Ok(v) ==> v == 0,
        r matches Err(e) ==> e.kind == ErrorKind::BindingFailed && e.detail@ == message@,
{
    if res == 0 {
        Ok(res)
    } else {
        Err(ReadlineError::new(ErrorKind::BindingFailed, message))
    }
}

/// Translate the insertion status: the native call reports the number of
/// characters inserted, so only a positive status is success.
pub fn insert_text_outcome(res: i32) -> (r: Result<i32, ReadlineError>)
    ensures
        r is Ok <==> res > 0,
        r matches Ok(v) ==> v == res,
        r matches Err(e) ==> e.kind == ErrorKind::BindingFailed,
{
    if res > 0 {
        Ok(res)
    } else {
        Err(ReadlineError::new(ErrorKind::BindingFailed, "unable to insert text"))
    }
}

/// Translate the deletion status: the native call reports the number of
/// characters deleted, so only a positive status is success.
pub fn delete_text_outcome(res: i32) -> (r: Result<i32, ReadlineError>)
    ensures
        r is Ok <==> res > 0,
        r matches Ok(v) ==> v == res,
        r matches Err(e) ==> e.kind == ErrorKind::BindingFailed,
{
    if res > 0 {
        Ok(res)
    } else {
        Err(ReadlineError::new(ErrorKind::BindingFailed, "unable to delete text"))
    }
}

} // verus!
