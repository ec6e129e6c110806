//! State queries and teardown for the history model.
//!
//! One-time initialization itself is the guard in [`crate::init`]; the
//! surrounding program requests it before every history operation.

use crate::history::History;
use crate::history::HistoryState;
use vstd::prelude::*;

verus! {

/// The flag the native library sets on its state while the history is
/// stifled.
pub open spec fn stifled_flag(stifled: bool) -> int {
    if stifled {
        1int
    } else {
        0int
    }
}

impl History {
    /// A snapshot of the history's bookkeeping: position, length, size
    /// and the stifled flag.
    pub fn get_state(&self) -> (st: HistoryState)
        requires
            self.wf(),
            self.entries@.len() <= i32::MAX,
        ensures
            st.offset == self.offset,
            st.length == self.entries@.len(),
            st.size == self.entries@.len(),
            st.flags == stifled_flag(self.stifle_cap is Some),
    {
        HistoryState {
            offset: self.offset as i32,
            length: self.entries.len() as i32,
            size: self.entries.len() as i32,
            flags: if self.stifle_cap.is_some() {
                1
            } else {
                0
            },
        }
    }

    /// Finish using the history: drop every entry and return to the
    /// starting position.  The native teardown also frees its allocations;
    /// the model keeps only what remains observable, an empty list.
    pub fn cleanup(&mut self)
        requires
            old(self).wf(),
        ensures
            final(self).wf(),
            final(self).entries@.len() == 0,
            final(self).offset == 0,
            final(self).stifle_cap == old(self).stifle_cap,
            final(self).same_config(*old(self)),
    {
        self.entries.clear();
        self.offset = 0;
    }
}

} // verus!
