//! Information about the history list and its entries.
//!
//! Queries copy entry data eagerly into owned values, so nothing handed
//! out here is invalidated by a later mutation of the list.

use crate::error::ErrorKind;
use crate::error::HistoryError;
use crate::history::listmgmt::dec_digits;
use crate::history::listmgmt::dec_repr;
use crate::history::listmgmt::digit_char;
use crate::history::History;
use crate::history::HistoryEntry;
use vstd::prelude::*;
use vstd::utf8::encode_utf8;

verus! {

/// Whether the character is a decimal digit.
pub open spec fn is_digit(c: char) -> bool {
    48 <= c as u32 <= 57
}

/// The value of a decimal digit character.
pub open spec fn digit_val(c: char) -> int {
    c as u32 - 48
}

/// Whether every character of the sequence is a decimal digit.
pub open spec fn all_digits(s: Seq<char>) -> bool {
    forall|i: int| 0 <= i < s.len() ==> is_digit(s[i])
}

/// The value of a sequence of decimal digit characters.
pub open spec fn dec_val(s: Seq<char>) -> int
    decreases s.len(),
{
    if s.len() == 0 {
        0
    } else {
        dec_val(s.drop_last()) * 10 + digit_val(s.last())
    }
}

/// The byte length of an entry's line, as the native library counts it.
pub open spec fn line_byte_len(e: HistoryEntry) -> int {
    (encode_utf8(e.line@).len() as usize) as int
}

/// The byte count of all lines on the list.
pub open spec fn total_line_bytes(s: Seq<HistoryEntry>) -> int
    decreases s.len(),
{
    if s.len() == 0 {
        0
    } else {
        total_line_bytes(s.drop_last()) + line_byte_len(s.last())
    }
}

/// An owned copy of an entry, equal to it in both fields.
fn copy_entry(e: &HistoryEntry) -> (r: HistoryEntry)
    ensures
        r == *e,
{
    let r = HistoryEntry { line: e.line.clone(), timestamp: e.timestamp.clone() };
    r
}

impl History {
    /// The whole input history, oldest entry first, as owned copies.
    pub fn list(&self) -> (r: Vec<HistoryEntry>)
        ensures
            r@ == self.entries@,
    {
        let n = self.entries.len();
        let mut out: Vec<HistoryEntry> = Vec::new();
        let mut i: usize = 0;
        while i < n
            invariant
                n == self.entries@.len(),
                i <= n,
                out@ =~= self.entries@.take(i as int),
            decreases n - i,
        {
            out.push(copy_entry(&self.entries[i]));
            i += 1;
            assert(out@ =~= self.entries@.take(i as int));
        }
        proof {
            assert(self.entries@.take(n as int) =~= self.entries@);
        }
        out
    }

    /// The number of entries on the list.
    pub fn length(&self) -> (n: usize)
        ensures
            n == self.entries@.len(),
    {
        self.entries.len()
    }

    /// The current position in the history.
    pub fn offset(&self) -> (r: usize)
        ensures
            r == self.offset,
    {
        self.offset
    }

    /// A copy of the entry at the current position; past the newest entry
    /// there is none, and the native null result becomes a typed error.
    pub fn current(&self) -> (r: Result<HistoryEntry, HistoryError>)
        requires
            self.wf(),
        ensures
            r is Ok <==> self.offset < self.entries@.len(),
            r matches Ok(e) ==> e == self.entries@[self.offset as int],
            r matches Err(e) ==> e.kind == ErrorKind::NullPointer,
    {
        if self.offset < self.entries.len() {
            Ok(copy_entry(&self.entries[self.offset]))
        } else {
            Err(HistoryError::new(ErrorKind::NullPointer, "no entry at the current position"))
        }
    }

    /// A copy of the entry at logical position `which`, counted from the
    /// history base; outside the list, a typed error.
    pub fn get(&self, which: i32) -> (r: Result<HistoryEntry, HistoryError>)
        requires
            self.wf(),
        ensures
            r is Ok <==> self.base <= which && which - self.base < self.entries@.len(),
            r matches Ok(e) ==> e == self.entries@[which - self.base],
            r matches Err(e) ==> e.kind == ErrorKind::NullPointer,
    {
        let idx: i64 = (which as i64) - (self.base as i64);
        if idx >= 0 && (idx as u64) < (self.entries.len() as u64) {
            Ok(copy_entry(&self.entries[idx as usize]))
        } else {
            Err(HistoryError::new(ErrorKind::NullPointer, "no entry at that position"))
        }
    }

    /// The time recorded on the entry, in seconds: the timestamp text
    /// without its leading comment character, read as a decimal number.
    /// An entry without a usable timestamp reads as zero.
    pub fn get_time(&self, entry: &HistoryEntry) -> (r: i64)
        ensures
            ({
                let body = entry.timestamp@.drop_first();
                if entry.timestamp@.len() >= 2 && all_digits(body) && dec_val(body) <= i64::MAX {
                    r == dec_val(body)
                } else {
                    r == 0
                }
            }),
    {
        let ts: &str = entry.timestamp.as_str();
        let n = ts.unicode_len();
        if n < 2 {
            return 0;
        }
        let ghost body = entry.timestamp@.drop_first();
        let mut acc: i64 = 0;
        let mut i: usize = 1;
        while i < n
            invariant
                n == ts@.len(),
                ts@ == entry.timestamp@,
                n >= 2,
                1 <= i <= n,
                body == entry.timestamp@.drop_first(),
                acc == dec_val(body.take(i - 1)),
                0 <= acc,
                all_digits(body.take(i - 1)),
            decreases n - i,
        {
            let c = ts.get_char(i);
            let u = c as u32;
            if u < 48 || u > 57 {
                assert(!is_digit(body[i - 1]));
                return 0;
            }
            let d = (u - 48) as i64;
            if acc > (i64::MAX - d) / 10 {
                proof {
                    assert(body.take(i + 1 - 1).drop_last() =~= body.take(i - 1));
                    assert(body.take(i + 1 - 1).last() == body[i - 1]);
                    assert(is_digit(body[i - 1]));
                    assert(dec_val(body.take(i as int)) > i64::MAX);
                    if all_digits(body) {
                        lemma_dec_val_prefix_le(body, i as int);
                    }
                }
                return 0;
            }
            acc = acc * 10 + d;
            i += 1;
            assert(body.take(i - 1).drop_last() =~= body.take(i - 2));
            assert(body.take(i - 1).last() == body[i - 2]);
        }
        proof {
            assert(body.take(n - 1) =~= body);
        }
        acc
    }

    /// The number of bytes the lines on the list hold in all, saturating
    /// at the largest representable count.
    pub fn total_bytes(&self) -> (r: u64)
        ensures
            r == vstd::math::min(total_line_bytes(self.entries@), u64::MAX as int),
    {
        let n = self.entries.len();
        let mut acc: u64 = 0;
        let mut i: usize = 0;
        while i < n
            invariant
                n == self.entries@.len(),
                i <= n,
                acc == vstd::math::min(total_line_bytes(self.entries@.take(i as int)), u64::MAX as int),
            decreases n - i,
        {
            let t: u64 = self.entries[i].line.as_str().len() as u64;
            proof {
                assert(self.entries@.take(i + 1).drop_last() =~= self.entries@.take(i as int));
                assert(self.entries@.take(i + 1).last() == self.entries@[i as int]);
                lemma_total_line_bytes_nonneg(self.entries@.take(i as int));
            }
            if acc > u64::MAX - t {
                acc = u64::MAX;
            } else {
                acc = acc + t;
            }
            i += 1;
        }
        proof {
            assert(self.entries@.take(n as int) =~= self.entries@);
        }
        acc
    }
}

/// The byte count of a list of entries is never negative.
proof fn lemma_total_line_bytes_nonneg(s: Seq<HistoryEntry>)
    ensures
        total_line_bytes(s) >= 0,
    decreases s.len(),
{
    if s.len() > 0 {
        lemma_total_line_bytes_nonneg(s.drop_last());
    }
}

/// A digit prefix never exceeds the value of the whole digit sequence.
proof fn lemma_dec_val_prefix_le(body: Seq<char>, i: int)
    requires
        all_digits(body),
        0 <= i <= body.len(),
    ensures
        dec_val(body.take(i)) <= dec_val(body),
    decreases body.len() - i,
{
    if i < body.len() {
        assert(body.take(i + 1).drop_last() =~= body.take(i));
        assert(body.take(i + 1).last() == body[i]);
        assert(all_digits(body.take(i))) by {
            assert(forall|j: int| 0 <= j < i ==> body.take(i)[j] == body[j]);
        }
        lemma_dec_val_nonneg(body.take(i));
        assert(dec_val(body.take(i + 1)) >= dec_val(body.take(i)));
        lemma_dec_val_prefix_le(body, i + 1);
    } else {
        assert(body.take(i) =~= body);
    }
}

/// The decimal digits of a number read back as that number.
pub proof fn lemma_dec_round_trip(n: nat)
    ensures
        dec_digits(n).len() >= 1,
        all_digits(dec_digits(n)),
        dec_val(dec_digits(n)) == n,
    decreases n,
{
    if n < 10 {
        let c = digit_char(n as int);
        assert(is_digit(c));
        assert(dec_digits(n) == seq![c]);
        assert(dec_digits(n).drop_last() =~= Seq::<char>::empty());
        assert(dec_val(Seq::<char>::empty()) == 0);
    } else {
        lemma_dec_round_trip(n / 10);
        let d = dec_digits((n / 10) as nat);
        let c = digit_char((n % 10) as int);
        assert(is_digit(c));
        assert(dec_digits(n) == d.push(c));
        assert(d.push(c).drop_last() =~= d);
        assert(d.push(c).last() == c);
        assert(forall|i: int| 0 <= i < d.len() ==> d.push(c)[i] == d[i]);
    }
}

/// Timestamp round trip: the timestamp text that recording a
/// non-negative time produces — the comment character followed by the
/// decimal seconds — reads back as exactly that time.
pub proof fn lemma_timestamp_round_trip(cc: char, sec: i64)
    requires
        sec >= 0,
    ensures
        ({
            let ts = seq![cc] + dec_repr(sec as int);
            &&& ts.len() >= 2
            &&& all_digits(ts.drop_first())
            &&& dec_val(ts.drop_first()) == sec
            &&& dec_val(ts.drop_first()) <= i64::MAX
        }),
{
    lemma_dec_round_trip(sec as nat);
    assert((seq![cc] + dec_repr(sec as int)).drop_first() =~= dec_repr(sec as int));
    assert(dec_repr(sec as int) == dec_digits(sec as nat));
}

/// Digit sequences have non-negative values.
proof fn lemma_dec_val_nonneg(s: Seq<char>)
    requires
        all_digits(s),
    ensures
        dec_val(s) >= 0,
    decreases s.len(),
{
    if s.len() > 0 {
        assert(all_digits(s.drop_last())) by {
            assert(forall|j: int| 0 <= j < s.len() - 1 ==> s.drop_last()[j] == s[j]);
        }
        lemma_dec_val_nonneg(s.drop_last());
    }
}

} // verus!
