//! The history configuration variables, against their native defaults.

use rl_sys::history::History;

#[test]
fn test_write_timestamps() {
    let mut h = History::new();
    assert_eq!(h.get_write_timestamps(), 0);
    h.set_write_timestamps(1);
    assert_eq!(h.get_write_timestamps(), 1);
    h.set_write_timestamps(0);
}

#[test]
fn test_expansion_char() {
    let mut h = History::new();
    assert_eq!(h.get_expansion_char(), '!');
    h.set_expansion_char('?');
    assert_eq!(h.get_expansion_char(), '?');
    h.set_expansion_char('!');
}

#[test]
fn test_subst_char() {
    let mut h = History::new();
    assert_eq!(h.get_subst_char(), '^');
    h.set_subst_char('%');
    assert_eq!(h.get_subst_char(), '%');
    h.set_subst_char('^');
}

#[test]
fn test_comment_char() {
    let mut h = History::new();
    h.set_comment_char(':');
    assert_eq!(h.get_comment_char(), ':');
    h.set_comment_char('\u{0}');
    assert_eq!(h.get_comment_char(), '\u{0}');
}

#[test]
fn test_word_delimiter() {
    let mut h = History::new();
    h.add_word_delimiter(':').unwrap();
    let mut delims: String = h.get_word_delimiters().unwrap().into_iter().collect();
    assert_eq!(&delims[..], " \t\n;&()|<>:");
    assert!(h.remove_word_delimiter(':').is_ok());
    assert!(h.remove_word_delimiter('|').is_ok());
    delims = h.get_word_delimiters().unwrap().into_iter().collect();
    assert_eq!(&delims[..], " \t\n;&()<>");
    let mut new_delims = Vec::new();
    new_delims.extend([' ', '\t', '\n'].iter().cloned());
    assert!(h.set_word_delimiters(new_delims).is_ok());
    delims = h.get_word_delimiters().unwrap().into_iter().collect();
    assert_eq!(&delims[..], " \t\n");
    let mut old_delims = Vec::new();
    old_delims.extend([' ', '\t', '\n', ';', '&', '(', ')', '|', '<', '>'].iter().cloned());
    assert!(h.set_word_delimiters(old_delims).is_ok());
    delims = h.get_word_delimiters().unwrap().into_iter().collect();
    assert_eq!(&delims[..], " \t\n;&()|<>");
}

#[test]
fn test_search_delimiter_chars() {
    let mut h = History::new();
    let schars = h.get_search_delimiter_chars();
    assert!(schars.is_ok());
    assert!(schars.unwrap().is_empty());
    let mut new_delims = Vec::new();
    new_delims.extend(['#'].iter().cloned());
    assert!(h.set_search_delimiter_chars(new_delims).is_ok());
    let mut delims: String = h.get_search_delimiter_chars().unwrap().into_iter().collect();
    assert_eq!(&delims[..], "#");
    assert!(h.add_search_delimiter_char('@').is_ok());
    delims = h.get_search_delimiter_chars().unwrap().into_iter().collect();
    assert_eq!(&delims[..], "#@");
    assert!(h.remove_search_delimiter_char('@').is_ok());
    delims = h.get_search_delimiter_chars().unwrap().into_iter().collect();
    assert_eq!(&delims[..], "#");
    assert!(h.remove_search_delimiter_char('#').is_ok());
}

#[test]
fn test_no_expand_chars() {
    let mut h = History::new();
    let nec = h.get_no_expand_chars();
    assert!(nec.is_ok());
    let mut delims: String = h.get_no_expand_chars().unwrap().into_iter().collect();
    assert_eq!(&delims[..], " \t\n\r=");
    assert!(h.add_no_expand_char('#').is_ok());
    delims = h.get_no_expand_chars().unwrap().into_iter().collect();
    assert_eq!(&delims[..], " \t\n\r=#");
    assert!(h.remove_no_expand_char('#').is_ok());
    delims = h.get_no_expand_chars().unwrap().into_iter().collect();
    assert_eq!(&delims[..], " \t\n\r=");
    let mut new_delims = Vec::new();
    new_delims.extend(['#'].iter().cloned());
    assert!(h.set_no_expand_chars(new_delims).is_ok());
    delims = h.get_no_expand_chars().unwrap().into_iter().collect();
    assert_eq!(&delims[..], "#");
    let mut old_delims = Vec::new();
    old_delims.extend([' ', '\t', '\n', '\r', '='].iter().cloned());
    assert!(h.set_no_expand_chars(old_delims).is_ok());
    delims = h.get_no_expand_chars().unwrap().into_iter().collect();
    assert_eq!(&delims[..], " \t\n\r=");
}

#[test]
fn test_quotes_inhibit_expansion() {
    let mut h = History::new();
    assert_eq!(h.get_quotes_inhibit_expansion(), 0);
    h.set_quotes_inhibit_expansion(1);
    assert_eq!(h.get_quotes_inhibit_expansion(), 1);
    h.set_quotes_inhibit_expansion(0);
}

#[test]
fn test_set_word_delimiters_rejects_nul() {
    let mut h = History::new();
    let bad = vec![' ', '\u{0}', ';'];
    let e = h.set_word_delimiters(bad).unwrap_err();
    assert_eq!(e.kind, rl_sys::ErrorKind::NulByteInString);
    let delims: String = h.get_word_delimiters().unwrap().into_iter().collect();
    assert_eq!(&delims[..], " \t\n;&()|<>");
}

#[test]
fn test_remove_word_delimiter_unset_list() {
    let mut h = History::new();
    assert!(h.set_word_delimiters(Vec::new()).is_ok());
    assert!(h.get_word_delimiters().unwrap().is_empty());
}
