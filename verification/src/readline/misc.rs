//! Miscellaneous calls: status translation.

use crate::error::ErrorKind;
use crate::error::ReadlineError;
use vstd::prelude::*;

verus! {

/// Translate the parenthesis-blink-timeout status: the native call
/// reports the previous timeout, never negative on success.
pub fn set_paren_blink_timeout_outcome(res: i32) -> (r: Result<i32, ReadlineError>)
    ensures
        r is Ok <==> res >= 0,
        r matches Ok(v) ==> v == res,
        r matches Err(e) ==> e.kind == ErrorKind::InvalidArgument,
{
    if res >= 0 {
        Ok(res)
    } else {
        Err(ReadlineError::new(ErrorKind::InvalidArgument, "unable to set paren blink timeout"))
    }
}

} // verus!
