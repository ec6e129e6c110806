//! Outcome translation for the history-file calls.
//!
//! Reading, writing, appending and truncating the history file are native
//! calls on paths; they stay outside this crate.  What each of them hands
//! back is a status code, zero on success and otherwise accompanied by
//! the thread's error code: that translation is here, and it is the same
//! for all of them.

use crate::error::ErrorKind;
use crate::error::HistoryError;
use crate::history::listmgmt::dec_repr;
use crate::history::listmgmt::dec_string;
use vstd::prelude::*;
use vstd::string::StringExecFns;

verus! {

/// Translate a history-file call's status: zero is success, anything
/// else an I/O failure carrying the reported error code and its text.
pub fn gen_result(res: i32, err_code: i32, err_text: &str) -> (r: Result<i32, HistoryError>)
    ensures
        r is Ok <==> res == 0,
        r matches Ok(v) ==> v == 0,
        r matches Err(e) ==> e.kind == ErrorKind::IoError && e.detail@ == "native status "@
            + dec_repr(err_code as int) + ": "@ + err_text@,
{
    if res == 0 {
        Ok(res)
    } else {
        let mut detail = String::from_str("native status ");
        let code = dec_string(err_code as i64);
        detail.append(code.as_str());
        detail.append(": ");
        detail.append(err_text);
        Err(HistoryError::new(ErrorKind::IoError, detail.as_str()))
    }
}

} // verus!
