//! History event expansion.
//!
//! The native expansion machinery is large; the model recognizes the
//! leading event designator, which is what the scenario-level behavior of
//! the binding rests on: a line that starts with the expansion character
//! names either the previous entry (the character doubled) or the most
//! recent entry beginning with the text that follows.  A line that does
//! not start with the expansion character is passed through unchanged, as
//! the native call reports with status zero.
//!
//! The outcome of the real native call, a status and a possibly-null
//! output buffer, is translated by [`expand_outcome`]: a null buffer is a
//! typed error, never a dereference.

use crate::error::ErrorKind;
use crate::error::HistoryError;
use crate::foreign::from_foreign_owned;
use crate::foreign::has_nul;
use crate::foreign::lossy_of;
use crate::foreign::str_has_nul;
use crate::foreign::take_until_nul;
use crate::history::History;
use vstd::prelude::*;
use vstd::string::StrSliceExecFns;
use vstd::string::StringExecFns;
use vstd::string::StringSliceAdditionalSpecFns;

verus! {

/// Whether a line calls for event expansion: the expansion character is
/// set, and the line starts with it, followed by at least one character.
pub open spec fn expansion_applies(s: Seq<char>, ec: char) -> bool {
    &&& ec != '\u{0}'
    &&& s.len() >= 2
    &&& s[0] == ec
}

/// The largest index of a line that the designator text begins, or -1
/// when no line does.
pub open spec fn last_match(lines: Seq<Seq<char>>, p: Seq<char>) -> int
    decreases lines.len(),
{
    if lines.len() == 0 {
        -1
    } else if p.is_prefix_of(lines.last()) {
        lines.len() - 1
    } else {
        last_match(lines.drop_last(), p)
    }
}

/// The entry a designator names: the newest entry for the doubled
/// expansion character, otherwise the most recent line beginning with the
/// text after the expansion character; -1 when there is none.
pub open spec fn event_target(lines: Seq<Seq<char>>, s: Seq<char>, ec: char) -> int
    recommends
        expansion_applies(s, ec),
{
    if s[1] == ec {
        lines.len() - 1
    } else {
        last_match(lines, s.skip(1))
    }
}

/// Whether one string begins with the other, compared by characters.
pub(crate) fn is_char_prefix(p: &str, t: &str) -> (r: bool)
    ensures
        r == p@.is_prefix_of(t@),
{
    let np = p.unicode_len();
    let nt = t.unicode_len();
    if np > nt {
        return false;
    }
    let mut i: usize = 0;
    while i < np
        invariant
            np == p@.len(),
            nt == t@.len(),
            np <= nt,
            i <= np,
            forall|k: int| 0 <= k < i ==> p@[k] == t@[k],
        decreases np - i,
    {
        if p.get_char(i) != t.get_char(i) {
            assert(p@[i as int] != t@.subrange(0, np as int)[i as int]);
            return false;
        }
        i += 1;
    }
    assert(p@ =~= t@.subrange(0, np as int));
    true
}

impl History {
    /// Expand a line against the history.  The status is 0 when the line
    /// carries no leading event designator (the line comes back
    /// unchanged), 1 when the designated entry was found (its line comes
    /// back), and -1 with a message when no entry matches.  A line whose
    /// encoding holds a nul byte is rejected whole.
    pub fn expand(&self, s: &str) -> (r: Result<(isize, String), HistoryError>)
        requires
            self.wf(),
        ensures
            r is Ok <==> !has_nul(s.spec_bytes()),
            r matches Err(e) ==> e.kind == ErrorKind::NulByteInString,
            r matches Ok(t) ==> ({
                let lines = self.lines();
                let j = event_target(lines, s@, self.expansion_char);
                if !expansion_applies(s@, self.expansion_char) {
                    t.0 == 0 && t.1@ == s@
                } else if j >= 0 {
                    t.0 == 1 && t.1@ == lines[j]
                } else {
                    t.0 == -1 && t.1@ == s@ + ": event not found"@
                }
            }),
    {
        if str_has_nul(s) {
            return Err(
                HistoryError::new(ErrorKind::NulByteInString, "line holds an interior nul byte"),
            );
        }
        let n = s.unicode_len();
        if self.expansion_char == '\u{0}' || n < 2 || s.get_char(0) != self.expansion_char {
            return Ok((0, s.to_owned()));
        }
        let ghost lines = self.lines();
        if s.get_char(1) == self.expansion_char {
            let len = self.entries.len();
            if len > 0 {
                let line = self.entries[len - 1].line.clone();
                proof {
                    assert(lines[len - 1] == self.entries@[len - 1].line@);
                    assert(event_target(lines, s@, self.expansion_char) == len - 1);
                }
                return Ok((1, line));
            }
            let mut msg = s.to_owned();
            msg.append(": event not found");
            return Ok((-1, msg));
        }
        let p = s.substring_char(1, n);
        proof {
            assert(p@ =~= s@.skip(1));
        }
        let mut j = self.entries.len();
        proof {
            assert(lines.take(j as int) =~= lines);
        }
        while j > 0
            invariant
                j <= self.entries@.len(),
                p@ == s@.skip(1),
                lines == self.lines(),
                expansion_applies(s@, self.expansion_char),
                s@[1] != self.expansion_char,
                !has_nul(s.spec_bytes()),
                last_match(lines, p@) == last_match(lines.take(j as int), p@),
            decreases j,
        {
            proof {
                assert(lines.take(j as int).last() == lines[j - 1]);
                assert(lines.take(j as int).drop_last() =~= lines.take(j - 1));
            }
            let cand: &str = self.entries[j - 1].line.as_str();
            assert(cand@ == self.entries@[j - 1].line@);
            assert(lines[j - 1] == self.entries@[j - 1].line@);
            if is_char_prefix(p, cand) {
                proof {
                    assert(p@.is_prefix_of(cand@));
                    assert(lines.take(j as int).len() == j);
                    assert(p@.is_prefix_of(lines.take(j as int).last()));
                    assert(last_match(lines.take(j as int), p@) == j - 1);
                    assert(event_target(lines, s@, self.expansion_char) == j - 1);
                }
                let line = self.entries[j - 1].line.clone();
                return Ok((1, line));
            }
            j -= 1;
        }
        proof {
            assert(lines.take(0) =~= Seq::<Seq<char>>::empty());
        }
        let mut msg = s.to_owned();
        msg.append(": event not found");
        Ok((-1, msg))
    }
}

/// The translation of the native expansion call's outcome: the status is
/// passed through as the library defines it, the output buffer is
/// consumed like any native-owned string, and a null output buffer is a
/// typed error, never dereferenced.
pub fn expand_outcome(rc: isize, output: Option<Vec<u8>>) -> (r: Result<
    (isize, String),
    HistoryError,
>)
    ensures
        output is None ==> (r matches Err(e) && e.kind == ErrorKind::NullPointer),
        output matches Some(b) ==> (r matches Ok(t) && t.0 == rc && t.1@ == lossy_of(
            take_until_nul(b@),
        )),
{
    match from_foreign_owned(output, "null pointer returned from the native expansion call") {
        Ok(s) => Ok((rc, s)),
        Err(e) => Err(HistoryError::from_readline(e)),
    }
}

/// The translation of a native call that hands back one native-owned
/// string, for the history half of the binding: a null pointer is a
/// typed error, anything else is consumed and decoded.
pub fn string_outcome(output: Option<Vec<u8>>, detail: &str) -> (r: Result<String, HistoryError>)
    ensures
        output is None ==> (r matches Err(e) && e.kind == ErrorKind::NullPointer && e.detail@
            == detail@),
        output matches Some(b) ==> (r matches Ok(s) && s@ == lossy_of(take_until_nul(b@))),
{
    match from_foreign_owned(output, detail) {
        Ok(s) => Ok(s),
        Err(e) => Err(HistoryError::from_readline(e)),
    }
}

} // verus!
