//! Character input calls: key decoding and status translation.

use crate::error::ErrorKind;
use crate::error::ReadlineError;
use vstd::prelude::*;

verus! {

/// The character a native key-read status stands for: the low byte of
/// the status, as the native convention has it.
pub fn key_char(code: i32) -> (r: char)
    ensures
        r == ((code as u8) as char),
{
    (#[verifier::truncate] (code as u8)) as char
}

/// Translate the stuff-character status: the native call reports one
/// when the character found room in the input buffer.
pub fn stuff_char_outcome(res: i32) -> (r: Result<i32, ReadlineError>)
    ensures
        r is Ok <==> res == 1,
        r matches Ok(v) ==> v == 1,
        r matches Err(e) ==> e.kind == ErrorKind::BindingFailed,
{
    if res == 1 {
        Ok(res)
    } else {
        Err(ReadlineError::new(ErrorKind::BindingFailed, "unable to stuff character"))
    }
}

/// Translate the execute-next status: zero is success.
pub fn execute_next_outcome(res: i32) -> (r: Result<i32, ReadlineError>)
    ensures
        r is Ok <==> res == 0,
        r matches Ok(v) ==> v == 0,
        r matches Err(e) ==> e.kind == ErrorKind::BindingFailed,
{
    if res == 0 {
        Ok(res)
    } else {
        Err(ReadlineError::new(ErrorKind::BindingFailed, "unable to make character pending"))
    }
}

/// Translate the clear-pending-input status: zero is success.
pub fn clear_pending_input_outcome(res: i32) -> (r: Result<i32, ReadlineError>)
    ensures
        r is Ok <==> res == 0,
        r matches Ok(v) ==> v == 0,
        r matches Err(e) ==> e.kind == ErrorKind::BindingFailed,
{
    if res == 0 {
        Ok(res)
    } else {
        Err(ReadlineError::new(ErrorKind::BindingFailed, "unable to clear pending input"))
    }
}

/// Translate the keyboard-timeout status: the native call reports the
/// previous timeout, never negative on success.
pub fn set_keyboard_input_timeout_outcome(res: i32) -> (r: Result<i32, ReadlineError>)
    ensures
        r is Ok <==> res >= 0,
        r matches Ok(v) ==> v == res,
        r matches Err(e) ==> e.kind == ErrorKind::InvalidArgument,
{
    if res >= 0 {
        Ok(res)
    } else {
        Err(ReadlineError::new(ErrorKind::InvalidArgument, "unable to set keyboard input timeout"))
    }
}

} // verus!
