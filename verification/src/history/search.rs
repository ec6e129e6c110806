//! Searching the history list.
//!
//! A search runs from a starting position, forward through newer entries
//! or backward through older ones, for an entry containing the text — or
//! beginning with it, when the search is anchored.  Finding an entry
//! moves the current position there; finding none changes nothing.

use crate::error::ErrorKind;
use crate::error::HistoryError;
use crate::foreign::has_nul;
use crate::foreign::str_has_nul;
use crate::history::expand::is_char_prefix;
use crate::history::History;
use vstd::prelude::*;
use vstd::string::StrSliceExecFns;
use vstd::string::StringSliceAdditionalSpecFns;

verus! {

/// The direction a search moves through the history entries.
#[derive(Clone, Copy, Debug, PartialEq, Eq, Structural)]
pub enum Direction {
    /// Toward newer entries.
    Forward,
    /// Toward older entries.
    Backward,
}

impl Direction {
    /// The native code of this direction: non-negative forward, negative
    /// backward.
    pub fn to_code(&self) -> (r: i32)
        ensures
            r == match *self {
                Direction::Forward => 0int,
                Direction::Backward => -1int,
            },
    {
        match self {
            Direction::Forward => 0,
            Direction::Backward => -1,
        }
    }
}

/// The position of the first occurrence of `p` in `t` at or after
/// position `i`, or -1 when there is none.
pub open spec fn first_occurrence_from(t: Seq<char>, p: Seq<char>, i: int) -> int
    decreases t.len() + 1 - i,
{
    if i < 0 || i + p.len() > t.len() {
        -1
    } else if p.is_prefix_of(t.skip(i)) {
        i
    } else {
        first_occurrence_from(t, p, i + 1)
    }
}

/// The position of the first occurrence of `p` in `t`, or -1.
pub open spec fn first_occurrence(t: Seq<char>, p: Seq<char>) -> int {
    first_occurrence_from(t, p, 0)
}

/// Whether a line satisfies a search: it begins with the text when the
/// search is anchored, or holds it anywhere otherwise.
pub open spec fn line_matches(line: Seq<char>, p: Seq<char>, anchored: bool) -> bool {
    if anchored {
        p.is_prefix_of(line)
    } else {
        first_occurrence(line, p) >= 0
    }
}

/// The first matching index at or below `from`, scanning toward older
/// entries; a position past the newest entry starts there; -1 when none
/// matches.
pub open spec fn scan_backward(lines: Seq<Seq<char>>, p: Seq<char>, from: int, anchored: bool) -> int
    decreases from + 1,
{
    if from < 0 {
        -1
    } else if from >= lines.len() {
        scan_backward(lines, p, lines.len() - 1, anchored)
    } else if line_matches(lines[from], p, anchored) {
        from
    } else {
        scan_backward(lines, p, from - 1, anchored)
    }
}

/// The first matching index at or above `from`, scanning toward newer
/// entries; -1 when none matches.
pub open spec fn scan_forward(lines: Seq<Seq<char>>, p: Seq<char>, from: int, anchored: bool) -> int
    decreases lines.len() - from,
{
    if from < 0 || from >= lines.len() {
        -1
    } else if line_matches(lines[from], p, anchored) {
        from
    } else {
        scan_forward(lines, p, from + 1, anchored)
    }
}

/// The index where a search from `from` in direction `dir` first
/// matches; -1 when none does.
pub open spec fn scan(
    lines: Seq<Seq<char>>,
    p: Seq<char>,
    from: int,
    dir: Direction,
    anchored: bool,
) -> int {
    match dir {
        Direction::Forward => scan_forward(lines, p, from, anchored),
        Direction::Backward => scan_backward(lines, p, from, anchored),
    }
}

/// Find the first occurrence of `p` in `t`, by characters.
fn find_sub(t: &str, p: &str) -> (r: Option<usize>)
    ensures
        r is None <==> first_occurrence(t@, p@) == -1,
        r matches Some(k) ==> k == first_occurrence(t@, p@),
{
    let nt = t.unicode_len();
    let np = p.unicode_len();
    if np > nt {
        return None;
    }
    let mut i: usize = 0;
    while i <= nt - np
        invariant
            nt == t@.len(),
            np == p@.len(),
            np <= nt,
            i <= nt - np + 1,
            first_occurrence(t@, p@) == first_occurrence_from(t@, p@, i as int),
        decreases nt - np + 1 - i,
    {
        let suf = t.substring_char(i, nt);
        proof {
            assert(suf@ =~= t@.skip(i as int));
        }
        if is_char_prefix(p, suf) {
            return Some(i);
        }
        i += 1;
    }
    None
}

impl History {
    /// Search for an entry containing the text, from the current
    /// position in the given direction.  Finding one moves the position
    /// there and reports where in the line the text begins, capped at
    /// the largest representable offset; finding none reports -1 and
    /// changes nothing.  Text with a nul byte is rejected whole.
    pub fn search(&mut self, s: &str, dir: Direction) -> (r: Result<isize, HistoryError>)
        requires
            old(self).wf(),
        ensures
            final(self).wf(),
            r is Ok <==> !has_nul(s.spec_bytes()),
            r matches Err(e) ==> e.kind == ErrorKind::NulByteInString && *final(self) == *old(self),
            r matches Ok(v) ==> ({
                let j = scan(old(self).lines(), s@, old(self).offset as int, dir, false);
                if j >= 0 {
                    &&& *final(self) == (History { offset: j as usize, ..*old(self) })
                    &&& v == vstd::math::min(
                        first_occurrence(old(self).lines()[j], s@),
                        isize::MAX as int,
                    )
                } else {
                    v == -1 && *final(self) == *old(self)
                }
            }),
    {
        if str_has_nul(s) {
            return Err(
                HistoryError::new(ErrorKind::NulByteInString, "text holds an interior nul byte"),
            );
        }
        match self.scan_entries(s, dir, false) {
            Some(j) => {
                let line: &str = self.entries[j].line.as_str();
                proof {
                    assert(self.lines()[j as int] == self.entries@[j as int].line@);
                }
                let k = find_sub(line, s).unwrap();
                let pos = if k <= isize::MAX as usize {
                    k as isize
                } else {
                    isize::MAX
                };
                self.offset = j;
                Ok(pos)
            },
            None => Ok(-1),
        }
    }

    /// Search for an entry beginning with the text, from the current
    /// position in the given direction.  Finding one moves the position
    /// there and reports zero; finding none reports -1 and changes
    /// nothing.  Text with a nul byte is rejected whole.
    pub fn search_prefix(&mut self, s: &str, dir: Direction) -> (r: Result<isize, HistoryError>)
        requires
            old(self).wf(),
        ensures
            final(self).wf(),
            r is Ok <==> !has_nul(s.spec_bytes()),
            r matches Err(e) ==> e.kind == ErrorKind::NulByteInString && *final(self) == *old(self),
            r matches Ok(v) ==> ({
                let j = scan(old(self).lines(), s@, old(self).offset as int, dir, true);
                if j >= 0 {
                    *final(self) == (History { offset: j as usize, ..*old(self) }) && v == 0
                } else {
                    v == -1 && *final(self) == *old(self)
                }
            }),
    {
        if str_has_nul(s) {
            return Err(
                HistoryError::new(ErrorKind::NulByteInString, "text holds an interior nul byte"),
            );
        }
        match self.scan_entries(s, dir, true) {
            Some(j) => {
                self.offset = j;
                Ok(0)
            },
            None => Ok(-1),
        }
    }

    /// Search for an entry containing the text, from the given absolute
    /// position in the given direction, without moving the current
    /// position.  Reports the absolute index found, or -1.  Text with a
    /// nul byte is rejected whole.
    pub fn search_pos(&self, s: &str, dir: Direction, pos: i32) -> (r: Result<
        isize,
        HistoryError,
    >)
        requires
            self.wf(),
        ensures
            r is Ok <==> !has_nul(s.spec_bytes()),
            r matches Err(e) ==> e.kind == ErrorKind::NulByteInString,
            r matches Ok(v) ==> ({
                let j = scan(self.lines(), s@, pos as int, dir, false);
                if j >= 0 {
                    v == vstd::math::min(j, isize::MAX as int)
                } else {
                    v == -1
                }
            }),
    {
        if str_has_nul(s) {
            return Err(
                HistoryError::new(ErrorKind::NulByteInString, "text holds an interior nul byte"),
            );
        }
        if pos < 0 {
            return Ok(-1);
        }
        match scan_entries_at(self, s, dir, false, pos as usize) {
            Some(j) => {
                if j <= isize::MAX as usize {
                    Ok(j as isize)
                } else {
                    Ok(isize::MAX)
                }
            },
            None => Ok(-1),
        }
    }

    /// Scan the entries from the current position for a match.
    fn scan_entries(&self, s: &str, dir: Direction, anchored: bool) -> (r: Option<usize>)
        requires
            self.wf(),
        ensures
            r is None <==> scan(self.lines(), s@, self.offset as int, dir, anchored) < 0,
            r matches Some(j) ==> j == scan(self.lines(), s@, self.offset as int, dir, anchored)
                && j < self.entries@.len() && line_matches(self.lines()[j as int], s@, anchored),
    {
        scan_entries_at(self, s, dir, anchored, self.offset)
    }
}

/// Scan the entries from the given position for a match.
fn scan_entries_at(h: &History, s: &str, dir: Direction, anchored: bool, from: usize) -> (r:
    Option<usize>)
    ensures
        r is None <==> scan(h.lines(), s@, from as int, dir, anchored) < 0,
        r matches Some(j) ==> j == scan(h.lines(), s@, from as int, dir, anchored) && j
            < h.entries@.len() && line_matches(h.lines()[j as int], s@, anchored),
{
    let ghost lines = h.lines();
    let n = h.entries.len();
    match dir {
        Direction::Forward => {
            let mut j = from;
            while j < n
                invariant
                    dir is Forward,
                    n == h.entries@.len(),
                    lines == h.lines(),
                    from <= j,
                    scan_forward(lines, s@, from as int, anchored) == scan_forward(
                        lines,
                        s@,
                        j as int,
                        anchored,
                    ),
                decreases n - j,
            {
                proof {
                    assert(lines[j as int] == h.entries@[j as int].line@);
                }
                if entry_matches(h, j, s, anchored) {
                    return Some(j);
                }
                j += 1;
            }
            None
        },
        Direction::Backward => {
            if n == 0 {
                proof {
                    assert(scan_backward(lines, s@, -1, anchored) == -1);
                }
                return None;
            }
            let mut k: usize = if from >= n {
                n
            } else {
                from + 1
            };
            proof {
                if from >= n {
                    assert(scan_backward(lines, s@, from as int, anchored) == scan_backward(
                        lines,
                        s@,
                        n - 1,
                        anchored,
                    ));
                }
            }
            while k > 0
                invariant
                    dir is Backward,
                    n == h.entries@.len(),
                    lines == h.lines(),
                    k <= n,
                    scan_backward(lines, s@, from as int, anchored) == scan_backward(
                        lines,
                        s@,
                        k - 1,
                        anchored,
                    ),
                decreases k,
            {
                proof {
                    assert(lines[k - 1] == h.entries@[k - 1].line@);
                }
                if entry_matches(h, k - 1, s, anchored) {
                    return Some(k - 1);
                }
                k -= 1;
            }
            None
        },
    }
}

/// Whether the entry at `j` matches the text.
fn entry_matches(h: &History, j: usize, s: &str, anchored: bool) -> (r: bool)
    requires
        j < h.entries@.len(),
    ensures
        r == line_matches(h.lines()[j as int], s@, anchored),
{
    let line: &str = h.entries[j].line.as_str();
    proof {
        assert(h.lines()[j as int] == h.entries@[j as int].line@);
    }
    if anchored {
        is_char_prefix(s, line)
    } else {
        find_sub(line, s).is_some()
    }
}


} // verus!
