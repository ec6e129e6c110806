//! Moving the current position through the history list.

use crate::error::ErrorKind;
use crate::error::HistoryError;
use crate::history::History;
use crate::history::HistoryEntry;
use vstd::prelude::*;

verus! {

impl History {
    /// Set the current position, an absolute index into the list; one
    /// past the newest entry is allowed.  Reports whether the position
    /// was accepted; a position outside the list changes nothing.
    pub fn set_pos(&mut self, offset: i32) -> (r: bool)
        requires
            old(self).wf(),
        ensures
            final(self).wf(),
            r <==> 0 <= offset <= old(self).entries@.len(),
            r ==> *final(self) == (History { offset: offset as usize, ..*old(self) }),
            !r ==> *final(self) == *old(self),
    {
        if offset >= 0 && offset as usize <= self.entries.len() {
            self.offset = offset as usize;
            true
        } else {
            false
        }
    }

    /// Back the position up by one entry and hand back a copy of the
    /// entry there.  At the oldest entry there is no previous one, and
    /// the native null result becomes a typed error with the position
    /// unchanged.
    pub fn previous(&mut self) -> (r: Result<HistoryEntry, HistoryError>)
        requires
            old(self).wf(),
        ensures
            final(self).wf(),
            r is Ok <==> old(self).offset > 0,
            r matches Err(e) ==> e.kind == ErrorKind::NullPointer && *final(self) == *old(self),
            r matches Ok(e) ==> ({
                &&& *final(self) == (History { offset: (old(self).offset - 1) as usize, ..*old(self) })
                &&& e == old(self).entries@[old(self).offset - 1]
            }),
    {
        if self.offset == 0 {
            return Err(HistoryError::new(ErrorKind::NullPointer, "no previous entry"));
        }
        self.offset = self.offset - 1;
        let e = &self.entries[self.offset];
        Ok(HistoryEntry { line: e.line.clone(), timestamp: e.timestamp.clone() })
    }

    /// Advance the position by one entry and hand back a copy of the
    /// entry there.  With no further entry to move to, the native null
    /// result becomes a typed error with the position unchanged.
    pub fn next(&mut self) -> (r: Result<HistoryEntry, HistoryError>)
        requires
            old(self).wf(),
        ensures
            final(self).wf(),
            r is Ok <==> old(self).offset + 1 < old(self).entries@.len(),
            r matches Err(e) ==> e.kind == ErrorKind::NullPointer && *final(self) == *old(self),
            r matches Ok(e) ==> ({
                &&& *final(self) == (History { offset: (old(self).offset + 1) as usize, ..*old(self) })
                &&& e == old(self).entries@[old(self).offset + 1]
            }),
    {
        if self.entries.len() == 0 || self.offset >= self.entries.len() - 1 {
            return Err(HistoryError::new(ErrorKind::NullPointer, "no next entry"));
        }
        self.offset = self.offset + 1;
        let e = &self.entries[self.offset];
        Ok(HistoryEntry { line: e.line.clone(), timestamp: e.timestamp.clone() })
    }
}

} // verus!
