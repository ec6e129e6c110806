//! Key-binding calls: the bind-type code and the status translation.
//!
//! Every native binding call reports an integer status, zero on success;
//! [`genresult`] turns that convention into a typed result.  The generic
//! bind call additionally takes a discriminant choosing between a
//! function, a keymap and a macro binding: [`BindType`] is that closed
//! set, with a checked decoding in place of a panic on unknown codes.

use crate::error::ErrorKind;
use crate::error::ReadlineError;
use vstd::prelude::*;

verus! {

/// What a generic bind attaches to a key sequence.
#[derive(Clone, Copy, Debug, PartialEq, Eq, Structural)]
pub enum BindType {
    /// Bind to a command function.
    Func,
    /// Bind to a keymap.
    Kmap,
    /// Bind to a macro.
    Macr,
}

impl BindType {
    /// The native discriminant of this bind type.
    pub fn to_code(&self) -> (r: i32)
        ensures
            r == match *self {
                BindType::Func => 0int,
                BindType::Kmap => 1int,
                BindType::Macr => 2int,
            },
    {
        match self {
            BindType::Func => 0,
            BindType::Kmap => 1,
            BindType::Macr => 2,
        }
    }

    /// The bind type for a native discriminant; a code outside the
    /// documented set is a typed error, not a panic.
    pub fn from_code(i: i32) -> (r: Result<BindType, ReadlineError>)
        ensures
            r is Ok <==> 0 <= i <= 2,
            r matches Ok(t) ==> t == (if i == 0 {
                BindType::Func
            } else if i == 1 {
                BindType::Kmap
            } else {
                BindType::Macr
            }),
            r matches Err(e) ==> e.kind == ErrorKind::InvalidArgument,
    {
        if i == 0 {
            Ok(BindType::Func)
        } else if i == 1 {
            Ok(BindType::Kmap)
        } else if i == 2 {
            Ok(BindType::Macr)
        } else {
            Err(ReadlineError::new(ErrorKind::InvalidArgument, "unknown bind type code"))
        }
    }
}

/// Translate a binding call's status: zero is success, anything else a
/// binding failure carrying the given account.
pub fn genresult(res: i32, err: &str) -> (r: Result<i32, ReadlineError>)
    ensures
        r is Ok <==> res == 0,
        r matches Ok(v) ==> v == 0,
        r matches Err(e) ==> e.kind == ErrorKind::BindingFailed && e.detail@ == err@,
{
    if res == 0 {
        Ok(res)
    } else {
        Err(ReadlineError::new(ErrorKind::BindingFailed, err))
    }
}

/// Translate the generic bind call's status, naming the kind of binding
/// that failed.
pub fn generic_bind_outcome(bind_type: BindType, res: i32) -> (r: Result<i32, ReadlineError>)
    ensures
        r is Ok <==> res == 0,
        r matches Ok(v) ==> v == 0,
        r matches Err(e) ==> e.kind == ErrorKind::BindingFailed && e.detail@ == match bind_type {
            BindType::Func => "unable to bind to function"@,
            BindType::Kmap => "unable to bind to keymap"@,
            BindType::Macr => "unable to bind to macro"@,
        },
{
    match bind_type {
        BindType::Func => genresult(res, "unable to bind to function"),
        BindType::Kmap => genresult(res, "unable to bind to keymap"),
        BindType::Macr => genresult(res, "unable to bind to macro"),
    }
}

} // verus!
