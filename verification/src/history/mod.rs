//! A value-level model of the History library's process-global state.
//!
//! The native library keeps one history per process: a list of entries,
//! an optional cap on its length (the *stifle* state), a handful of
//! configuration characters and delimiter sets, and a current offset into
//! the list.  Every mutating entry point of the native API is modeled here
//! as a verified transition on a [`History`] value; the surrounding
//! program keeps one such value beside the native state and replays each
//! transition onto the native library.
//!
//! Entries are copied eagerly into owned values whenever they are handed
//! out, so no caller ever holds a reference that a later mutation could
//! invalidate.

use vstd::prelude::*;

pub mod expand;
pub mod histfile;
pub mod listinfo;
pub mod listmgmt;
pub mod mgmt;
pub mod move_;
pub mod search;
pub mod vars;

verus! {

/// One remembered line, with its optional timestamp text (empty when the
/// entry has none).
#[derive(Debug, PartialEq)]
pub struct HistoryEntry {
    /// The remembered line.
    pub line: String,
    /// The timestamp text attached to the line, empty when absent.
    pub timestamp: String,
}

/// A snapshot of the history's bookkeeping, as the native state-query
/// call reports it.
#[derive(Clone, Copy, Debug, PartialEq, Eq, Structural)]
pub struct HistoryState {
    /// The current position in the history.
    pub offset: i32,
    /// The number of entries in the list.
    pub length: i32,
    /// The allocated size of the list; here always the length.
    pub size: i32,
    /// The stifled flag, the only one this model tracks.
    pub flags: i32,
}

/// A sequence truncated from the front to at most `cap` elements, the way
/// a stifled history discards its oldest entries.
pub open spec fn capped<T>(s: Seq<T>, cap: Option<i32>) -> Seq<T> {
    match cap {
        Option::None => s,
        Option::Some(m) => if s.len() > m {
            s.skip(s.len() - m)
        } else {
            s
        },
    }
}

/// The process-global history state.
pub struct History {
    /// The remembered entries, oldest first.
    pub entries: Vec<HistoryEntry>,
    /// The current position: an index into the entries, or their number
    /// when the position is past the newest entry.
    pub offset: usize,
    /// The logical offset of the first entry, as the native library
    /// reports it.
    pub base: i32,
    /// The cap on the number of entries while the history is stifled.
    pub stifle_cap: Option<i32>,
    /// Whether timestamps are written to the history file.
    pub write_timestamps: u8,
    /// The character that introduces a history event; nul disables
    /// expansion.
    pub expansion_char: char,
    /// The character that invokes word substitution at the start of a
    /// line.
    pub subst_char: char,
    /// The character that starts a timestamp line; nul disables
    /// timestamps.
    pub comment_char: char,
    /// Whether single-quoted words are exempt from expansion.
    pub quotes_inhibit_expansion: i8,
    /// The characters that separate tokens, when the list is set.
    pub word_delimiters: Option<Vec<char>>,
    /// The additional characters that can delimit a search string, when
    /// the list is set.
    pub search_delimiters: Option<Vec<char>>,
    /// The characters that inhibit expansion right after the expansion
    /// character, when the list is set.
    pub no_expand_chars: Option<Vec<char>>,
}

impl History {
    /// The shape every reachable history has: the position stays within
    /// the list, and a stifled list never exceeds its cap.
    pub open spec fn wf(self) -> bool {
        &&& self.offset <= self.entries@.len()
        &&& match self.stifle_cap {
            Option::Some(m) => m >= 0 && self.entries@.len() <= m,
            Option::None => true,
        }
    }

    /// The remembered lines, oldest first.
    pub open spec fn lines(self) -> Seq<Seq<char>> {
        self.entries@.map_values(|e: HistoryEntry| e.line@)
    }

    /// The timestamp texts, in step with the lines.
    pub open spec fn stamps(self) -> Seq<Seq<char>> {
        self.entries@.map_values(|e: HistoryEntry| e.timestamp@)
    }

    /// Everything but the entry list and the position: the configuration
    /// that list management leaves untouched.
    pub open spec fn same_config(self, other: History) -> bool {
        &&& self.base == other.base
        &&& self.write_timestamps == other.write_timestamps
        &&& self.expansion_char == other.expansion_char
        &&& self.subst_char == other.subst_char
        &&& self.comment_char == other.comment_char
        &&& self.quotes_inhibit_expansion == other.quotes_inhibit_expansion
        &&& self.word_delimiters == other.word_delimiters
        &&& self.search_delimiters == other.search_delimiters
        &&& self.no_expand_chars == other.no_expand_chars
    }

    /// The delimiter sets the native library starts with.
    pub open spec fn default_word_delimiters() -> Seq<char> {
        seq![' ', '\t', '\n', ';', '&', '(', ')', '|', '<', '>']
    }

    /// The characters that inhibit expansion by default.
    pub open spec fn default_no_expand_chars() -> Seq<char> {
        seq![' ', '\t', '\n', '\r', '=']
    }

    /// A fresh history, configured the way the native library starts: no
    /// entries, position zero, base one, not stifled, expansion on `!`,
    /// substitution on `^`, timestamps off.
    pub fn new() -> (h: History)
        ensures
            h.wf(),
            h.lines() =~= Seq::<Seq<char>>::empty(),
            h.entries@.len() == 0,
            h.offset == 0,
            h.base == 1,
            h.stifle_cap is None,
            h.write_timestamps == 0,
            h.expansion_char == '!',
            h.subst_char == '^',
            h.comment_char == '\u{0}',
            h.quotes_inhibit_expansion == 0,
            h.word_delimiters matches Some(w) && w@ == History::default_word_delimiters(),
            h.search_delimiters is None,
            h.no_expand_chars matches Some(n) && n@ == History::default_no_expand_chars(),
    {
        let mut wd: Vec<char> = Vec::new();
        wd.push(' ');
        wd.push('\t');
        wd.push('\n');
        wd.push(';');
        wd.push('&');
        wd.push('(');
        wd.push(')');
        wd.push('|');
        wd.push('<');
        wd.push('>');
        let mut ne: Vec<char> = Vec::new();
        ne.push(' ');
        ne.push('\t');
        ne.push('\n');
        ne.push('\r');
        ne.push('=');
        proof {
            assert(wd@ =~= History::default_word_delimiters());
            assert(ne@ =~= History::default_no_expand_chars());
        }
        History {
            entries: Vec::new(),
            offset: 0,
            base: 1,
            stifle_cap: None,
            write_timestamps: 0,
            expansion_char: '!',
            subst_char: '^',
            comment_char: '\u{0}',
            quotes_inhibit_expansion: 0,
            word_delimiters: Some(wd),
            search_delimiters: None,
            no_expand_chars: Some(ne),
        }
    }
}

} // verus!
