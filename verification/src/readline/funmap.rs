//! Function-map calls: the key-sequence type decoding and status
//! translation.

use crate::error::ErrorKind;
use crate::error::ReadlineError;
use crate::readline::binding::BindType;
use vstd::prelude::*;

verus! {

/// The bind type a key-sequence query reports, when one was asked for:
/// with `add_type` unset the query reports none, otherwise the native
/// discriminant is decoded, and an unknown code is a typed error rather
/// than a panic.
pub fn function_of_keyseq_type(add_type: bool, code: i32) -> (r: Result<
    Option<BindType>,
    ReadlineError,
>)
    ensures
        !add_type ==> (r matches Ok(o) && o is None),
        add_type ==> (r is Ok <==> 0 <= code <= 2),
        add_type && 0 <= code <= 2 ==> (r matches Ok(o) && o matches Some(t) && t == (if code == 0 {
            BindType::Func
        } else if code == 1 {
            BindType::Kmap
        } else {
            BindType::Macr
        })),
        r matches Err(e) ==> e.kind == ErrorKind::InvalidArgument,
{
    if add_type {
        match BindType::from_code(code) {
            Ok(t) => Ok(Some(t)),
            Err(e) => Err(e),
        }
    } else {
        Ok(None)
    }
}

/// Translate the funmap-entry status: the native call reports the new
/// entry's index, never negative on success.
pub fn add_funmap_entry_outcome(res: i32) -> (r: Result<i32, ReadlineError>)
    ensures
        r is Ok <==> res >= 0,
        r matches Ok(v) ==> v == res,
        r matches Err(e) ==> e.kind == ErrorKind::BindingFailed,
{
    if res >= 0 {
        Ok(res)
    } else {
        Err(ReadlineError::new(ErrorKind::BindingFailed, "unable to add funmap entry"))
    }
}

} // verus!
