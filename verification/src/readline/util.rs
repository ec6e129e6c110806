//! Utility calls: state save and restore, and the layout of a match
//! list before it is displayed.

use crate::error::ErrorKind;
use crate::error::ReadlineError;
use vstd::prelude::*;
use vstd::utf8::encode_utf8;

verus! {

/// The byte length of a string, capped the way the running program sees
/// it.
pub open spec fn str_byte_len(s: String) -> int {
    (encode_utf8(s@).len() as usize) as int
}

/// The largest byte length among the strings, zero for an empty list.
pub open spec fn max_str_len(s: Seq<String>) -> int
    decreases s.len(),
{
    if s.len() == 0 {
        0
    } else {
        vstd::math::max(max_str_len(s.drop_last()), str_byte_len(s.last()))
    }
}

/// Translate the state-save status: zero is success.
pub fn save_state_outcome(res: i32) -> (r: Result<i32, ReadlineError>)
    ensures
        r is Ok <==> res == 0,
        r matches Ok(v) ==> v == 0,
        r matches Err(e) ==> e.kind == ErrorKind::BindingFailed,
{
    if res == 0 {
        Ok(res)
    } else {
        Err(ReadlineError::new(ErrorKind::BindingFailed, "unable to save the state"))
    }
}

/// Translate the state-restore status: zero is success.
pub fn restore_state_outcome(res: i32) -> (r: Result<i32, ReadlineError>)
    ensures
        r is Ok <==> res == 0,
        r matches Ok(v) ==> v == 0,
        r matches Err(e) ==> e.kind == ErrorKind::BindingFailed,
{
    if res == 0 {
        Ok(res)
    } else {
        Err(ReadlineError::new(ErrorKind::BindingFailed, "unable to restore the state"))
    }
}

/// The two numbers the native match-list display wants: the count of
/// matches after the leading element, and the widest match's byte
/// length.  An empty list has no leading element and is rejected rather
/// than underflowing.
pub fn display_match_list_layout(matches: &Vec<String>) -> (r: Result<
    (usize, usize),
    ReadlineError,
>)
    ensures
        r is Ok <==> matches@.len() > 0,
        r matches Ok(t) ==> t.0 == matches@.len() - 1 && t.1 == max_str_len(matches@),
        r matches Err(e) ==> e.kind == ErrorKind::InvalidArgument,
{
    let n = matches.len();
    if n == 0 {
        return Err(ReadlineError::new(ErrorKind::InvalidArgument, "no matches to display"));
    }
    let mut max: usize = 0;
    let mut i: usize = 0;
    while i < n
        invariant
            n == matches@.len(),
            i <= n,
            max == max_str_len(matches@.take(i as int)),
        decreases n - i,
    {
        proof {
            assert(matches@.take(i + 1).drop_last() =~= matches@.take(i as int));
            assert(matches@.take(i + 1).last() == matches@[i as int]);
        }
        let l = matches[i].as_str().len();
        if l > max {
            max = l;
        }
        i += 1;
    }
    proof {
        assert(matches@.take(n as int) =~= matches@);
    }
    Ok((n - 1, max))
}

} // verus!
