//! The history model: list management, movement, lookup, search and
//! expansion, on concrete scenarios.

use rl_sys::history::search::Direction;
use rl_sys::history::History;
use rl_sys::ErrorKind;

#[test]
fn test_history_list() {
    let mut h = History::new();
    assert!(h.add("ls -al").is_ok());
    assert!(h.add("test").is_ok());
    let l = h.list();
    let state = h.get_state();
    assert_eq!(l.len() as i32, state.length);
}

#[test]
fn test_stifle() {
    let mut h = History::new();
    // History should not begin stifled.
    assert!(!h.is_stifled());

    let max = 5;
    h.stifle(max);
    assert!(h.is_stifled());

    assert_eq!(max, h.unstifle());
    assert!(!h.is_stifled());
}

#[test]
fn test_state() {
    let h = History::new();
    let state = h.get_state();
    assert!(std::mem::size_of_val(&state) > 0);
}

#[test]
fn test_base() {
    let h = History::new();
    assert!(h.base >= 0);
}

#[test]
fn test_length() {
    let h = History::new();
    let l = h.length() as i64;
    assert!(l >= 0);
}

#[test]
fn test_max_entries() {
    let h = History::new();
    let max = match h.stifle_cap {
        Some(m) => m,
        None => 0,
    };
    assert!(max >= 0);
}

#[test]
fn test_history_round_trip() {
    let mut h = History::new();
    assert!(h.add("ls -al").is_ok());
    assert!(h.add("pwd").is_ok());
    assert_eq!(h.length(), 2);
    let (res, out) = h.expand("!ls").unwrap();
    assert_eq!(res, 1);
    assert_eq!(out, "ls -al");
}

#[test]
fn test_expand_without_designator() {
    let h = History::new();
    let (res, out) = h.expand("plain text").unwrap();
    assert_eq!(res, 0);
    assert_eq!(out, "plain text");
}

#[test]
fn test_expand_previous_entry() {
    let mut h = History::new();
    assert!(h.add("first").is_ok());
    assert!(h.add("second").is_ok());
    let (res, out) = h.expand("!!").unwrap();
    assert_eq!(res, 1);
    assert_eq!(out, "second");
}

#[test]
fn test_expand_event_not_found() {
    let mut h = History::new();
    assert!(h.add("pwd").is_ok());
    let (res, out) = h.expand("!ls").unwrap();
    assert_eq!(res, -1);
    assert_eq!(out, "!ls: event not found");
}

#[test]
fn test_expand_rejects_nul() {
    let h = History::new();
    let e = h.expand("!l\0s").unwrap_err();
    assert_eq!(e.kind, ErrorKind::NulByteInString);
}

#[test]
fn test_add_rejects_nul() {
    let mut h = History::new();
    let e = h.add("bad\0line").unwrap_err();
    assert_eq!(e.kind, ErrorKind::NulByteInString);
    assert_eq!(h.length(), 0);
}

#[test]
fn test_stifle_drops_oldest() {
    let mut h = History::new();
    assert!(h.add("one").is_ok());
    assert!(h.add("two").is_ok());
    assert!(h.add("three").is_ok());
    h.stifle(2);
    let l = h.list();
    assert_eq!(l.len(), 2);
    assert_eq!(l[0].line, "two");
    assert_eq!(l[1].line, "three");
    assert!(h.add("four").is_ok());
    let l = h.list();
    assert_eq!(l.len(), 2);
    assert_eq!(l[0].line, "three");
    assert_eq!(l[1].line, "four");
}

#[test]
fn test_remove_and_clear() {
    let mut h = History::new();
    assert!(h.add("ls -al").is_ok());
    assert!(h.add("test").is_ok());
    let removed = h.remove(0).unwrap();
    assert_eq!(removed.line, "ls -al");
    assert_eq!(h.length(), 1);
    let e = h.remove(5).unwrap_err();
    assert_eq!(e.kind, ErrorKind::NullPointer);
    h.clear();
    assert_eq!(h.length(), 0);
}

#[test]
fn test_replace_entry() {
    let mut h = History::new();
    assert!(h.add("ls -al").is_ok());
    assert_eq!(h.length(), 1);
    assert!(h.replace_entry(0, "test").is_ok());
    assert_eq!(h.length(), 1);
    assert_eq!(h.list()[0].line, "test");
    let e = h.replace_entry(7, "test").unwrap_err();
    assert_eq!(e.kind, ErrorKind::NullPointer);
}

#[test]
fn test_set_pos_bounds() {
    let mut h = History::new();
    assert!(h.add("ls -al").is_ok());
    assert!(h.add("test").is_ok());
    assert!(h.set_pos(2));
    assert!(!h.set_pos(3));
    assert!(!h.set_pos(-1));
}

#[test]
fn test_previous_and_next() {
    let mut h = History::new();
    assert!(h.add("ls -al").is_ok());
    assert!(h.add("test").is_ok());
    assert!(h.set_pos(2));
    assert!(h.previous().is_ok());
    assert!(h.previous().is_ok());
    assert!(h.previous().is_err());
    assert!(h.set_pos(0));
    assert!(h.next().is_ok());
    assert!(h.next().is_err());
}

#[test]
fn test_current_and_get() {
    let mut h = History::new();
    assert!(h.add("test").is_ok());
    assert!(h.current().is_ok());
    assert_eq!(h.current().unwrap().line, "test");
    assert!(h.base == 1);
    assert!(h.get(1).is_ok());
    assert!(h.get(0).is_err());
    assert!(h.get(2).is_err());
}

#[test]
fn test_total_bytes() {
    let mut h = History::new();
    assert!(h.add("test").is_ok());
    assert_eq!(h.total_bytes(), 4);
    assert!(h.add("ls -al").is_ok());
    assert_eq!(h.total_bytes(), 10);
}

#[test]
fn test_add_time_and_get_time() {
    let mut h = History::new();
    h.set_comment_char(':');
    assert!(h.add("test").is_ok());
    assert!(h.add_time(1450747748).is_ok());
    let entry = h.get(1).unwrap();
    assert_eq!(entry.timestamp, ":1450747748");
    assert_eq!(h.get_time(&entry), 1450747748);
}

#[test]
fn test_add_time_without_comment_char() {
    let mut h = History::new();
    assert!(h.add("test").is_ok());
    assert!(h.add_time(99).is_ok());
    assert_eq!(h.get(1).unwrap().timestamp, "");
}

#[test]
fn test_search() {
    let mut h = History::new();
    assert!(h.add("ls -al").is_ok());
    let res = h.search("-al", Direction::Forward).unwrap();
    assert!(res == 3);
    let res1 = h.search("blah", Direction::Forward).unwrap();
    assert!(res1 < 0);
}

#[test]
fn test_search_prefix() {
    let mut h = History::new();
    assert!(h.add("ls -al").is_ok());
    let res = h.search_prefix("ls", Direction::Forward).unwrap();
    assert!(res == 0);
    let res1 = h.search_prefix("blah", Direction::Forward).unwrap();
    assert!(res1 < 0);
}

#[test]
fn test_search_pos() {
    let mut h = History::new();
    assert!(h.add("ls -al").is_ok());
    let res = h.search_pos("ls", Direction::Backward, 1).unwrap();
    assert!(res == 0);
}

#[test]
fn test_direction_codes() {
    assert_eq!(Direction::Forward.to_code(), 0);
    assert_eq!(Direction::Backward.to_code(), -1);
}

#[test]
fn test_cleanup() {
    let mut h = History::new();
    assert!(h.add("ls -al").is_ok());
    h.cleanup();
    assert_eq!(h.length(), 0);
}
