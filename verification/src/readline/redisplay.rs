//! Redisplay calls: status translation.
//!
//! Most redisplay calls report zero on success; showing a character and
//! expanding a prompt report a count, so only a positive status is
//! success there.

use crate::error::ErrorKind;
use crate::error::ReadlineError;
use vstd::prelude::*;

verus! {

/// Translate a redisplay status: zero is success, anything else a
/// failure carrying the given account.
pub fn genresult(res: i32, message: &str) -> (r: Result<i32, ReadlineError>)
    ensures
        r is Ok <==> res == 0,
        r matches Ok(v) ==> v == 0,
        r matches Err(e) ==> e.kind == ErrorKind::BindingFailed && e.detail@ == message@,
{
    if res == 0 {
        Ok(res)
    } else {
        Err(ReadlineError::new(ErrorKind::BindingFailed, message))
    }
}

/// Translate the character-display status: only a positive count of
/// characters shown is success.
pub fn show_char_outcome(res: i32) -> (r: Result<i32, ReadlineError>)
    ensures
        r is Ok <==> res > 0,
        r matches Ok(v) ==> v == res,
        r matches Err(e) ==> e.kind == ErrorKind::BindingFailed,
{
    if res > 0 {
        Ok(res)
    } else {
        Err(ReadlineError::new(ErrorKind::BindingFailed, "unable to show character"))
    }
}

/// Translate the prompt-expansion status: only a positive expanded
/// length is success.
pub fn expand_prompt_outcome(res: i32) -> (r: Result<i32, ReadlineError>)
    ensures
        r is Ok <==> res > 0,
        r matches Ok(v) ==> v == res,
        r matches Err(e) ==> e.kind == ErrorKind::BindingFailed,
{
    if res > 0 {
        Ok(res)
    } else {
        Err(ReadlineError::new(ErrorKind::BindingFailed, "unable to expand prompt"))
    }
}

} // verus!
