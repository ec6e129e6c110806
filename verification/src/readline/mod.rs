//! The line-editing half of the binding: outcome translation for each
//! native entry point.
//!
//! Reading a line blocks on the terminal and stays outside this crate;
//! what the native call hands back — a buffer, or a null pointer meaning
//! end of input — is translated here, exactly.

use crate::error::ReadlineError;
use crate::foreign::from_foreign_owned;
use crate::foreign::lossy_of;
use crate::foreign::take_until_nul;
use vstd::prelude::*;

pub mod binding;
pub mod charin;
pub mod funmap;
pub mod misc;
pub mod modtext;
pub mod redisplay;
pub mod undo;
pub mod util;
pub mod vars;

verus! {

/// The translation of the native line-read call's outcome.  A null
/// return is the end-of-input signal, not a failure: it becomes `None`.
/// Anything else is a native-owned buffer, consumed and decoded.
pub fn readline_outcome(line: Option<Vec<u8>>) -> (r: Result<Option<String>, ReadlineError>)
    ensures
        line is None ==> (r matches Ok(o) && o is None),
        line matches Some(b) ==> (r matches Ok(o) && o matches Some(s) && s@ == lossy_of(
            take_until_nul(b@),
        )),
{
    match line {
        None => Ok(None),
        Some(b) => {
            match from_foreign_owned(Some(b), "") {
                Ok(s) => Ok(Some(s)),
                Err(e) => Err(e),
            }
        },
    }
}

} // verus!
