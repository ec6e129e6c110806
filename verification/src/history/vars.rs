//! The history library's process-wide configuration variables.
//!
//! Each native variable is a field of the model: the configuration
//! characters are plain values, and the three delimiter lists are
//! optional character lists, absent exactly when the native pointer would
//! be null.  Setters take effect immediately; list edits state the new
//! list in full.

use crate::error::ErrorKind;
use crate::error::HistoryError;
use crate::history::History;
use vstd::prelude::*;

verus! {

/// Whether the character list holds a nul character, which could not
/// cross the boundary inside a C string.
fn chars_have_nul(chars: &Vec<char>) -> (r: bool)
    ensures
        r == chars@.contains('\u{0}'),
{
    let n = chars.len();
    let mut i: usize = 0;
    while i < n
        invariant
            n == chars@.len(),
            i <= n,
            forall|j: int| 0 <= j < i ==> chars@[j] != '\u{0}',
        decreases n - i,
    {
        if chars[i] == '\u{0}' {
            assert(chars@.contains('\u{0}'));
            return true;
        }
        i += 1;
    }
    assert(!chars@.contains('\u{0}'));
    false
}

/// The predicate that keeps every character but `c`: what removing a
/// character from a delimiter list leaves behind.
pub open spec fn keep_except(c: char) -> spec_fn(char) -> bool {
    |x: char| x != c
}

/// The list with one character appended, counting an absent list as
/// empty: how the native side grows a delimiter set.
pub open spec fn appended(list: Option<Vec<char>>, c: char) -> Seq<char> {
    (match list {
        Option::Some(w) => w@,
        Option::None => Seq::<char>::empty(),
    }).push(c)
}

impl History {
    /// Set whether timestamps are written to the history file.
    pub fn set_write_timestamps(&mut self, v: u8)
        ensures
            *final(self) == (History { write_timestamps: v, ..*old(self) }),
    {
        self.write_timestamps = v;
    }

    /// The current timestamp-writing setting.
    pub fn get_write_timestamps(&self) -> (r: u8)
        ensures
            r == self.write_timestamps,
    {
        self.write_timestamps
    }

    /// Set the character that introduces a history event; nul disables
    /// expansion.
    pub fn set_expansion_char(&mut self, c: char)
        ensures
            *final(self) == (History { expansion_char: c, ..*old(self) }),
    {
        self.expansion_char = c;
    }

    /// The current expansion character.
    pub fn get_expansion_char(&self) -> (r: char)
        ensures
            r == self.expansion_char,
    {
        self.expansion_char
    }

    /// Set the character that invokes word substitution at the start of a
    /// line.
    pub fn set_subst_char(&mut self, c: char)
        ensures
            *final(self) == (History { subst_char: c, ..*old(self) }),
    {
        self.subst_char = c;
    }

    /// The current substitution character.
    pub fn get_subst_char(&self) -> (r: char)
        ensures
            r == self.subst_char,
    {
        self.subst_char
    }

    /// Set the character that starts a timestamp line; nul disables
    /// timestamps.
    pub fn set_comment_char(&mut self, c: char)
        ensures
            *final(self) == (History { comment_char: c, ..*old(self) }),
    {
        self.comment_char = c;
    }

    /// The current comment character.
    pub fn get_comment_char(&self) -> (r: char)
        ensures
            r == self.comment_char,
    {
        self.comment_char
    }

    /// Set whether single-quoted words are exempt from expansion.
    pub fn set_quotes_inhibit_expansion(&mut self, v: i8)
        ensures
            *final(self) == (History { quotes_inhibit_expansion: v, ..*old(self) }),
    {
        self.quotes_inhibit_expansion = v;
    }

    /// The current quoting exemption setting.
    pub fn get_quotes_inhibit_expansion(&self) -> (r: i8)
        ensures
            r == self.quotes_inhibit_expansion,
    {
        self.quotes_inhibit_expansion
    }

    /// Replace the list of word delimiter characters.  A list holding a
    /// nul character is rejected whole.
    pub fn set_word_delimiters(&mut self, chars: Vec<char>) -> (r: Result<(), HistoryError>)
        ensures
            r is Ok <==> !chars@.contains('\u{0}'),
            r matches Err(e) ==> e.kind == ErrorKind::NulByteInString && *final(self) == *old(self),
            r is Ok ==> *final(self) == (History {
                word_delimiters: final(self).word_delimiters,
                ..*old(self)
            }),
            r is Ok ==> (final(self).word_delimiters matches Some(v) && v@ == chars@),
    {
        if chars_have_nul(&chars) {
            return Err(
                HistoryError::new(ErrorKind::NulByteInString, "delimiter list holds a nul character"),
            );
        }
        self.word_delimiters = Some(chars);
        Ok(())
    }

    /// Append a character to the list of word delimiter characters,
    /// starting a fresh list when none is set.
    pub fn add_word_delimiter(&mut self, c: char) -> (r: Result<(), HistoryError>)
        ensures
            r is Ok,
            *final(self) == (History {
                word_delimiters: final(self).word_delimiters,
                ..*old(self)
            }),
            final(self).word_delimiters matches Some(v) && v@ == appended(
                old(self).word_delimiters,
                c,
            ),
    {
        let mut v = match self.word_delimiters.take() {
            Some(v) => v,
            None => Vec::new(),
        };
        v.push(c);
        self.word_delimiters = Some(v);
        Ok(())
    }

    /// Drop every occurrence of a character from the list of word
    /// delimiter characters; with no list set, the native pointer would
    /// be null, a typed error.
    pub fn remove_word_delimiter(&mut self, c: char) -> (r: Result<(), HistoryError>)
        ensures
            r is Ok <==> old(self).word_delimiters is Some,
            r matches Err(e) ==> e.kind == ErrorKind::NullPointer && *final(self) == *old(self),
            r is Ok ==> *final(self) == (History {
                word_delimiters: final(self).word_delimiters,
                ..*old(self)
            }),
            r is Ok ==> (final(self).word_delimiters matches Some(v) && v@ == old(
                self,
            ).word_delimiters->0@.filter(keep_except(c))),
    {
        let cur = match self.word_delimiters.take() {
            Some(v) => v,
            None => {
                return Err(
                    HistoryError::new(ErrorKind::NullPointer, "no word delimiter list to edit"),
                );
            },
        };
        let kept = retain_except(cur, c);
        self.word_delimiters = Some(kept);
        Ok(())
    }

    /// The list of word delimiter characters; with no list set, the
    /// native pointer would be null, a typed error.
    pub fn get_word_delimiters(&self) -> (r: Result<Vec<char>, HistoryError>)
        ensures
            r is Ok <==> self.word_delimiters is Some,
            r matches Ok(v) ==> v@ == self.word_delimiters->0@,
            r matches Err(e) ==> e.kind == ErrorKind::NullPointer,
    {
        match &self.word_delimiters {
            Some(v) => Ok(copy_chars(v)),
            None => Err(HistoryError::new(ErrorKind::NullPointer, "no word delimiter list")),
        }
    }

    /// Replace the list of search delimiter characters.  A list holding a
    /// nul character is rejected whole.
    pub fn set_search_delimiter_chars(&mut self, chars: Vec<char>) -> (r: Result<
        (),
        HistoryError,
    >)
        ensures
            r is Ok <==> !chars@.contains('\u{0}'),
            r matches Err(e) ==> e.kind == ErrorKind::NulByteInString && *final(self) == *old(self),
            r is Ok ==> *final(self) == (History {
                search_delimiters: final(self).search_delimiters,
                ..*old(self)
            }),
            r is Ok ==> (final(self).search_delimiters matches Some(v) && v@ == chars@),
    {
        if chars_have_nul(&chars) {
            return Err(
                HistoryError::new(ErrorKind::NulByteInString, "delimiter list holds a nul character"),
            );
        }
        self.search_delimiters = Some(chars);
        Ok(())
    }

    /// Append a character to the list of search delimiter characters,
    /// starting a fresh list when none is set.
    pub fn add_search_delimiter_char(&mut self, c: char) -> (r: Result<(), HistoryError>)
        ensures
            r is Ok,
            *final(self) == (History {
                search_delimiters: final(self).search_delimiters,
                ..*old(self)
            }),
            final(self).search_delimiters matches Some(v) && v@ == appended(
                old(self).search_delimiters,
                c,
            ),
    {
        let mut v = match self.search_delimiters.take() {
            Some(v) => v,
            None => Vec::new(),
        };
        v.push(c);
        self.search_delimiters = Some(v);
        Ok(())
    }

    /// Drop every occurrence of a character from the list of search
    /// delimiter characters; with no list set, a typed error.
    pub fn remove_search_delimiter_char(&mut self, c: char) -> (r: Result<(), HistoryError>)
        ensures
            r is Ok <==> old(self).search_delimiters is Some,
            r matches Err(e) ==> e.kind == ErrorKind::NullPointer && *final(self) == *old(self),
            r is Ok ==> *final(self) == (History {
                search_delimiters: final(self).search_delimiters,
                ..*old(self)
            }),
            r is Ok ==> (final(self).search_delimiters matches Some(v) && v@ == old(
                self,
            ).search_delimiters->0@.filter(keep_except(c))),
    {
        let cur = match self.search_delimiters.take() {
            Some(v) => v,
            None => {
                return Err(
                    HistoryError::new(ErrorKind::NullPointer, "no search delimiter list to edit"),
                );
            },
        };
        let kept = retain_except(cur, c);
        self.search_delimiters = Some(kept);
        Ok(())
    }

    /// The list of search delimiter characters; an unset list reads as
    /// empty.
    pub fn get_search_delimiter_chars(&self) -> (r: Result<Vec<char>, HistoryError>)
        ensures
            r matches Ok(v),
            r matches Ok(v) ==> v@ == (match self.search_delimiters {
                Option::Some(w) => w@,
                Option::None => Seq::<char>::empty(),
            }),
    {
        match &self.search_delimiters {
            Some(v) => Ok(copy_chars(v)),
            None => Ok(Vec::new()),
        }
    }

    /// Replace the list of characters that inhibit expansion.  A list
    /// holding a nul character is rejected whole.
    pub fn set_no_expand_chars(&mut self, chars: Vec<char>) -> (r: Result<(), HistoryError>)
        ensures
            r is Ok <==> !chars@.contains('\u{0}'),
            r matches Err(e) ==> e.kind == ErrorKind::NulByteInString && *final(self) == *old(self),
            r is Ok ==> *final(self) == (History {
                no_expand_chars: final(self).no_expand_chars,
                ..*old(self)
            }),
            r is Ok ==> (final(self).no_expand_chars matches Some(v) && v@ == chars@),
    {
        if chars_have_nul(&chars) {
            return Err(
                HistoryError::new(ErrorKind::NulByteInString, "delimiter list holds a nul character"),
            );
        }
        self.no_expand_chars = Some(chars);
        Ok(())
    }

    /// Append a character to the list of characters that inhibit
    /// expansion, starting a fresh list when none is set.
    pub fn add_no_expand_char(&mut self, c: char) -> (r: Result<(), HistoryError>)
        ensures
            r is Ok,
            *final(self) == (History { no_expand_chars: final(self).no_expand_chars, ..*old(self) }),
            final(self).no_expand_chars matches Some(v) && v@ == appended(
                old(self).no_expand_chars,
                c,
            ),
    {
        let mut v = match self.no_expand_chars.take() {
            Some(v) => v,
            None => Vec::new(),
        };
        v.push(c);
        self.no_expand_chars = Some(v);
        Ok(())
    }

    /// Drop every occurrence of a character from the list of characters
    /// that inhibit expansion; with no list set, a typed error.
    pub fn remove_no_expand_char(&mut self, c: char) -> (r: Result<(), HistoryError>)
        ensures
            r is Ok <==> old(self).no_expand_chars is Some,
            r matches Err(e) ==> e.kind == ErrorKind::NullPointer && *final(self) == *old(self),
            r is Ok ==> *final(self) == (History {
                no_expand_chars: final(self).no_expand_chars,
                ..*old(self)
            }),
            r is Ok ==> (final(self).no_expand_chars matches Some(v) && v@ == old(
                self,
            ).no_expand_chars->0@.filter(keep_except(c))),
    {
        let cur = match self.no_expand_chars.take() {
            Some(v) => v,
            None => {
                return Err(
                    HistoryError::new(ErrorKind::NullPointer, "no inhibition list to edit"),
                );
            },
        };
        let kept = retain_except(cur, c);
        self.no_expand_chars = Some(kept);
        Ok(())
    }

    /// The list of characters that inhibit expansion; an unset list reads
    /// as empty.
    pub fn get_no_expand_chars(&self) -> (r: Result<Vec<char>, HistoryError>)
        ensures
            r matches Ok(v),
            r matches Ok(v) ==> v@ == (match self.no_expand_chars {
                Option::Some(w) => w@,
                Option::None => Seq::<char>::empty(),
            }),
    {
        match &self.no_expand_chars {
            Some(v) => Ok(copy_chars(v)),
            None => Ok(Vec::new()),
        }
    }
}

/// An owned copy of a character list.
fn copy_chars(v: &Vec<char>) -> (r: Vec<char>)
    ensures
        r@ == v@,
{
    let n = v.len();
    let mut out: Vec<char> = Vec::new();
    let mut i: usize = 0;
    while i < n
        invariant
            n == v@.len(),
            i <= n,
            out@ =~= v@.take(i as int),
        decreases n - i,
    {
        out.push(v[i]);
        i += 1;
        assert(out@ =~= v@.take(i as int));
    }
    proof {
        assert(v@.take(n as int) =~= v@);
    }
    out
}

/// The list without any occurrence of the given character.
fn retain_except(v: Vec<char>, c: char) -> (r: Vec<char>)
    ensures
        r@ == v@.filter(keep_except(c)),
{
    let n = v.len();
    let mut out: Vec<char> = Vec::new();
    let mut i: usize = 0;
    proof {
        reveal(Seq::filter);
        assert(v@.take(0) =~= Seq::<char>::empty());
        assert(v@.take(0).filter(keep_except(c)) =~= Seq::<char>::empty());
    }
    while i < n
        invariant
            n == v@.len(),
            i <= n,
            out@ == v@.take(i as int).filter(keep_except(c)),
        decreases n - i,
    {
        if v[i] != c {
            out.push(v[i]);
        }
        i += 1;
        proof {
            reveal(Seq::filter);
            assert(v@.take(i as int).drop_last() =~= v@.take(i - 1));
            assert(v@.take(i as int).last() == v@[i - 1]);
            assert(out@ =~= v@.take(i as int).filter(keep_except(c)));
        }
    }
    proof {
        assert(v@.take(n as int) =~= v@);
    }
    out
}

} // verus!
