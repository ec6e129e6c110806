//! Undo-group bookkeeping: the undo-type code, the argument preparation
//! for recording an undo, and the status translation for performing one.

use crate::error::ErrorKind;
use crate::error::ReadlineError;
use crate::foreign::has_nul;
use crate::foreign::to_foreign;
use crate::foreign::OwnedCString;
use vstd::prelude::*;
use vstd::string::StringSliceAdditionalSpecFns;

verus! {

/// The kinds of events the native undo list records.  The code tells
/// what to undo, not how: undoing a `Delete` inserts text, undoing an
/// `Insert` deletes it, and `Begin`/`End` bracket a group.
#[derive(Clone, Copy, Debug, PartialEq, Eq, Structural)]
pub enum UndoType {
    /// Some text was deleted; undoing inserts it.
    Delete,
    /// Some text was inserted; undoing deletes it.
    Insert,
    /// An undo group begins.
    Begin,
    /// An undo group ends.
    End,
}

impl UndoType {
    /// The native discriminant of this undo type.
    pub fn to_code(&self) -> (r: u32)
        ensures
            r == match *self {
                UndoType::Delete => 0int,
                UndoType::Insert => 1int,
                UndoType::Begin => 2int,
                UndoType::End => 3int,
            },
    {
        match self {
            UndoType::Delete => 0,
            UndoType::Insert => 1,
            UndoType::Begin => 2,
            UndoType::End => 3,
        }
    }

    /// The undo type for a native discriminant; a code outside the
    /// documented set is a typed error, not a panic.
    pub fn from_code(i: i32) -> (r: Result<UndoType, ReadlineError>)
        ensures
            r is Ok <==> 0 <= i <= 3,
            r matches Ok(t) ==> t == (if i == 0 {
                UndoType::Delete
            } else if i == 1 {
                UndoType::Insert
            } else if i == 2 {
                UndoType::Begin
            } else {
                UndoType::End
            }),
            r matches Err(e) ==> e.kind == ErrorKind::InvalidArgument,
    {
        if i == 0 {
            Ok(UndoType::Delete)
        } else if i == 1 {
            Ok(UndoType::Insert)
        } else if i == 2 {
            Ok(UndoType::Begin)
        } else if i == 3 {
            Ok(UndoType::End)
        } else {
            Err(ReadlineError::new(ErrorKind::InvalidArgument, "unknown undo type code"))
        }
    }
}

/// Prepare the arguments for recording an undo of the given text: the
/// span end (the text's byte length, which must fit the native integer)
/// and the text as a C string.
pub fn add_undo_args(text: &str) -> (r: Result<(i32, OwnedCString), ReadlineError>)
    ensures
        r is Ok <==> (!has_nul(text.spec_bytes()) && (text.spec_bytes().len() as usize)
            <= i32::MAX),
        r matches Ok(t) ==> ({
            &&& t.1.wf()
            &&& t.1@ == text.spec_bytes() + seq![0u8]
            &&& t.0 == (text.spec_bytes().len() as usize)
        }),
        r matches Err(e) ==> (e.kind == ErrorKind::NulByteInString || e.kind
            == ErrorKind::InvalidArgument),
{
    let n = text.len();
    if n > i32::MAX as usize {
        return Err(
            ReadlineError::new(ErrorKind::InvalidArgument, "text too long for an undo record"),
        );
    }
    let c = to_foreign(text)?;
    Ok((n as i32, c))
}

/// Translate the undo call's status: the native call reports zero when
/// there was nothing to undo, which is a typed error, and non-zero when
/// something was undone.
pub fn do_undo_outcome(res: i32) -> (r: Result<i32, ReadlineError>)
    ensures
        r is Ok <==> res != 0,
        r matches Ok(v) ==> v == res,
        r matches Err(e) ==> e.kind == ErrorKind::BindingFailed,
{
    if res == 0 {
        Err(ReadlineError::new(ErrorKind::BindingFailed, "there was nothing to undo"))
    } else {
        Ok(res)
    }
}

} // verus!
