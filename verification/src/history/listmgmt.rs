//! Management of the entries on the history list.
//!
//! These transitions mirror the native list-management entry points: they
//! place entries on the list, attach timestamps, remove, replace and
//! discard entries, and cap the list's length (*stifling*).  Each is
//! exact: what the list holds afterwards is stated in full, and an input
//! the native call would reject becomes a typed error with the list left
//! untouched.

use crate::error::ErrorKind;
use crate::error::HistoryError;
use crate::foreign::has_nul;
use crate::foreign::str_has_nul;
use crate::foreign::string_of_chars;
use crate::history::capped;
use crate::history::History;
use crate::history::HistoryEntry;
use vstd::prelude::*;
use vstd::string::StringExecFns;
use vstd::string::StringSliceAdditionalSpecFns;

verus! {

/// The character for a decimal digit value.
pub open spec fn digit_char(d: int) -> char {
    ((48 + d) as u8) as char
}

/// The decimal digits of a natural number, most significant first.
pub open spec fn dec_digits(n: nat) -> Seq<char>
    decreases n,
{
    if n < 10 {
        seq![digit_char(n as int)]
    } else {
        dec_digits((n / 10) as nat).push(digit_char((n % 10) as int))
    }
}

/// The decimal rendering of an integer, with a leading minus sign when
/// negative.
pub open spec fn dec_repr(v: int) -> Seq<char> {
    if v < 0 {
        seq!['-'] + dec_digits((-v) as nat)
    } else {
        dec_digits(v as nat)
    }
}

/// Append the decimal digits of `n`, most significant first.
fn push_dec_digits(n: u64, out: &mut Vec<char>)
    ensures
        final(out)@ == old(out)@ + dec_digits(n as nat),
    decreases n,
{
    if n < 10 {
        out.push(((48 + n) as u8) as char);
        assert(out@ =~= old(out)@ + dec_digits(n as nat));
    } else {
        push_dec_digits(n / 10, out);
        out.push(((48 + n % 10) as u8) as char);
        assert(out@ =~= old(out)@ + dec_digits(n as nat));
    }
}

/// The decimal rendering of an integer as an owned string.
pub(crate) fn dec_string(v: i64) -> (r: String)
    requires
        v > i64::MIN,
    ensures
        r@ == dec_repr(v as int),
{
    let mut chars: Vec<char> = Vec::new();
    if v < 0 {
        chars.push('-');
        push_dec_digits((-v) as u64, &mut chars);
        assert(chars@ =~= dec_repr(v as int));
    } else {
        push_dec_digits(v as u64, &mut chars);
        assert(chars@ =~= dec_repr(v as int));
    }
    string_of_chars(&chars)
}

impl History {
    /// Place the line at the end of the history list, dropping the oldest
    /// entry when a stifled list would overflow its cap.  A line whose
    /// encoding holds a nul byte is rejected whole and the list is left
    /// untouched.
    pub fn add(&mut self, line: &str) -> (r: Result<(), HistoryError>)
        requires
            old(self).wf(),
        ensures
            final(self).wf(),
            r is Ok <==> !has_nul(line.spec_bytes()),
            r matches Err(e) ==> e.kind == ErrorKind::NulByteInString && *final(self) == *old(
                self,
            ),
            r is Ok ==> ({
                &&& final(self).lines() == capped(
                    old(self).lines().push(line@),
                    old(self).stifle_cap,
                )
                &&& final(self).stamps() == capped(
                    old(self).stamps().push(Seq::<char>::empty()),
                    old(self).stifle_cap,
                )
                &&& final(self).stifle_cap == old(self).stifle_cap
                &&& final(self).offset == old(self).offset
                &&& final(self).same_config(*old(self))
            }),
    {
        if str_has_nul(line) {
            return Err(
                HistoryError::new(ErrorKind::NulByteInString, "line holds an interior nul byte"),
            );
        }
        let entry = HistoryEntry { line: String::from_str(line), timestamp: String::new() };
        let ghost pushed = self.entries@.push(entry);
        self.entries.push(entry);
        if let Some(m) = self.stifle_cap {
            if self.entries.len() > m as usize {
                self.entries.remove(0);
                assert(self.entries@ =~= pushed.skip(1));
            }
        }
        proof {
            assert(final(self).lines() =~= capped(
                old(self).lines().push(line@),
                old(self).stifle_cap,
            ));
            assert(final(self).stamps() =~= capped(
                old(self).stamps().push(Seq::<char>::empty()),
                old(self).stifle_cap,
            ));
        }
        Ok(())
    }

    /// Attach the given time, in seconds, to the most recent entry.  When
    /// the comment character is unset, or the list is empty, nothing
    /// changes; otherwise the entry's timestamp becomes the comment
    /// character followed by the decimal seconds.
    pub fn add_time(&mut self, sec: i64) -> (r: Result<(), HistoryError>)
        requires
            old(self).wf(),
            sec > i64::MIN,
        ensures
            final(self).wf(),
            r is Ok,
            old(self).comment_char == '\u{0}' || old(self).entries@.len() == 0 ==> *final(self)
                == *old(self),
            old(self).comment_char != '\u{0}' && old(self).entries@.len() > 0 ==> ({
                &&& final(self).lines() == old(self).lines()
                &&& final(self).stamps() == old(self).stamps().update(
                    old(self).entries@.len() - 1,
                    seq![old(self).comment_char] + dec_repr(sec as int),
                )
                &&& final(self).offset == old(self).offset
                &&& final(self).stifle_cap == old(self).stifle_cap
                &&& final(self).same_config(*old(self))
            }),
    {
        if self.comment_char == '\u{0}' || self.entries.len() == 0 {
            return Ok(());
        }
        let mut chars: Vec<char> = Vec::new();
        chars.push(self.comment_char);
        if sec < 0 {
            chars.push('-');
            push_dec_digits((-sec) as u64, &mut chars);
        } else {
            push_dec_digits(sec as u64, &mut chars);
        }
        assert(chars@ =~= seq![self.comment_char] + dec_repr(sec as int));
        let stamp = string_of_chars(&chars);
        let n = self.entries.len();
        let mut last = self.entries.remove(n - 1);
        last.timestamp = stamp;
        self.entries.push(last);
        proof {
            assert(final(self).entries@ =~= old(self).entries@.update(
                old(self).entries@.len() - 1,
                final(self).entries@.last(),
            ));
            assert(final(self).lines() =~= old(self).lines());
            assert(final(self).stamps() =~= old(self).stamps().update(
                old(self).entries@.len() - 1,
                seq![old(self).comment_char] + dec_repr(sec as int),
            ));
        }
        Ok(())
    }

    /// Remove and hand back the entry at the given position.  A position
    /// outside the list — where the native call would return a null
    /// pointer — becomes a typed error instead.
    pub fn remove(&mut self, which: i32) -> (r: Result<HistoryEntry, HistoryError>)
        requires
            old(self).wf(),
        ensures
            final(self).wf(),
            r is Ok <==> 0 <= which < old(self).entries@.len(),
            r matches Err(e) ==> e.kind == ErrorKind::NullPointer && *final(self) == *old(self),
            r matches Ok(entry) ==> ({
                &&& entry == old(self).entries@[which as int]
                &&& final(self).entries@ == old(self).entries@.remove(which as int)
                &&& final(self).offset == vstd::math::min(
                    old(self).offset as int,
                    final(self).entries@.len() as int,
                )
                &&& final(self).stifle_cap == old(self).stifle_cap
                &&& final(self).same_config(*old(self))
            }),
    {
        if which < 0 || which as usize >= self.entries.len() {
            return Err(HistoryError::new(ErrorKind::NullPointer, "invalid remove requested"));
        }
        let entry = self.entries.remove(which as usize);
        if self.offset > self.entries.len() {
            self.offset = self.entries.len();
        }
        Ok(entry)
    }

    /// Replace the line of the entry at the given position, keeping its
    /// timestamp, and hand back the old entry.  A line with a nul byte is
    /// rejected; a position outside the list becomes a typed error.
    pub fn replace_entry(&mut self, which: i32, line: &str) -> (r: Result<
        HistoryEntry,
        HistoryError,
    >)
        requires
            old(self).wf(),
        ensures
            final(self).wf(),
            has_nul(line.spec_bytes()) ==> (r matches Err(e) && e.kind == ErrorKind::NulByteInString
                && *final(self) == *old(self)),
            !has_nul(line.spec_bytes()) && !(0 <= which < old(self).entries@.len()) ==> (
            r matches Err(e) && e.kind == ErrorKind::NullPointer && *final(self) == *old(self)),
            r is Ok <==> (!has_nul(line.spec_bytes()) && 0 <= which < old(self).entries@.len()),
            r matches Ok(entry) ==> ({
                &&& entry == old(self).entries@[which as int]
                &&& final(self).entries@.len() == old(self).entries@.len()
                &&& forall|j: int|
                    0 <= j < old(self).entries@.len() && j != which ==> final(self).entries@[j]
                        == old(self).entries@[j]
                &&& final(self).entries@[which as int].line@ == line@
                &&& final(self).entries@[which as int].timestamp == old(
                    self,
                ).entries@[which as int].timestamp
                &&& final(self).offset == old(self).offset
                &&& final(self).stifle_cap == old(self).stifle_cap
                &&& final(self).same_config(*old(self))
            }),
    {
        if str_has_nul(line) {
            return Err(
                HistoryError::new(ErrorKind::NulByteInString, "line holds an interior nul byte"),
            );
        }
        if which < 0 || which as usize >= self.entries.len() {
            return Err(HistoryError::new(ErrorKind::NullPointer, "invalid replace requested"));
        }
        let idx = which as usize;
        let entry = self.entries.remove(idx);
        let replacement = HistoryEntry {
            line: String::from_str(line),
            timestamp: entry.timestamp.clone(),
        };
        self.entries.insert(idx, replacement);
        Ok(entry)
    }

    /// Delete every entry on the list and return to the starting
    /// position.
    pub fn clear(&mut self)
        requires
            old(self).wf(),
        ensures
            final(self).wf(),
            final(self).entries@.len() == 0,
            final(self).offset == 0,
            final(self).stifle_cap == old(self).stifle_cap,
            final(self).same_config(*old(self)),
    {
        self.entries.clear();
        self.offset = 0;
    }

    /// Stifle the history: remember only the last `max` entries from now
    /// on, discarding the oldest entries beyond that cap at once.  A
    /// negative cap acts as zero.
    pub fn stifle(&mut self, max: i32)
        requires
            old(self).wf(),
        ensures
            final(self).wf(),
            final(self).stifle_cap == Some(
                if max < 0 {
                    0i32
                } else {
                    max
                },
            ),
            final(self).entries@ == capped(old(self).entries@, final(self).stifle_cap),
            final(self).offset == vstd::math::min(
                old(self).offset as int,
                final(self).entries@.len() as int,
            ),
            final(self).same_config(*old(self)),
    {
        let m: i32 = if max < 0 {
            0
        } else {
            max
        };
        let cap = m as usize;
        let ghost orig = self.entries@;
        let ghost mut removed: int = 0;
        while self.entries.len() > cap
            invariant
                0 <= removed <= orig.len(),
                self.entries@ =~= orig.skip(removed),
                removed > 0 ==> orig.len() - removed + 1 > m,
                cap == m,
                0 <= m,
                self.offset == old(self).offset,
                self.stifle_cap == old(self).stifle_cap,
                self.base == old(self).base,
                self.same_config(*old(self)),
            decreases self.entries@.len(),
        {
            self.entries.remove(0);
            proof {
                removed = removed + 1;
                assert(self.entries@ =~= orig.skip(removed));
            }
        }
        self.stifle_cap = Some(m);
        if self.offset > self.entries.len() {
            self.offset = self.entries.len();
        }
        proof {
            assert(final(self).entries@ =~= capped(orig, Some(m)));
        }
    }

    /// Stop stifling the history, returning the cap that was set, or -1
    /// when the history was not stifled.
    pub fn unstifle(&mut self) -> (r: i32)
        requires
            old(self).wf(),
        ensures
            final(self).wf(),
            old(self).stifle_cap matches Some(m) ==> r == m,
            old(self).stifle_cap is None ==> r == -1,
            final(self).stifle_cap is None,
            final(self).entries@ == old(self).entries@,
            final(self).offset == old(self).offset,
            final(self).same_config(*old(self)),
    {
        let r = match self.stifle_cap {
            Some(m) => m,
            None => -1,
        };
        self.stifle_cap = None;
        r
    }

    /// Whether the history is stifled.
    pub fn is_stifled(&self) -> (r: bool)
        ensures
            r == (self.stifle_cap is Some),
    {
        self.stifle_cap.is_some()
    }
}

} // verus!
