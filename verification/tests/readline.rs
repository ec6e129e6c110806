//! The line-editing half: outcome translation and code decoding.

use rl_sys::history::expand::expand_outcome;
use rl_sys::history::expand::string_outcome;
use rl_sys::history::histfile::gen_result;
use rl_sys::readline::binding;
use rl_sys::readline::binding::BindType;
use rl_sys::readline::charin;
use rl_sys::readline::funmap;
use rl_sys::readline::misc;
use rl_sys::readline::modtext;
use rl_sys::readline::readline_outcome;
use rl_sys::readline::redisplay;
use rl_sys::readline::undo;
use rl_sys::readline::undo::UndoType;
use rl_sys::readline::util;
use rl_sys::readline::vars;
use rl_sys::ErrorKind;

#[test]
fn test_readline_end_of_input() {
    let r = readline_outcome(None).unwrap();
    assert!(r.is_none());
}

#[test]
fn test_readline_line() {
    let r = readline_outcome(Some(b"ls -al\0".to_vec())).unwrap();
    assert_eq!(r, Some("ls -al".to_string()));
}

#[test]
fn test_expand_outcome_null_pointer() {
    let e = expand_outcome(1, None).unwrap_err();
    assert_eq!(e.kind, ErrorKind::NullPointer);
}

#[test]
fn test_expand_outcome_passes_status() {
    let (rc, out) = expand_outcome(2, Some(b"ls -al\0".to_vec())).unwrap();
    assert_eq!(rc, 2);
    assert_eq!(out, "ls -al");
}

#[test]
fn test_string_outcome() {
    let e = string_outcome(None, "no value").unwrap_err();
    assert_eq!(e.kind, ErrorKind::NullPointer);
    assert_eq!(e.detail, "no value");
    let s = string_outcome(Some(b"value\0".to_vec()), "no value").unwrap();
    assert_eq!(s, "value");
}

#[test]
fn test_gen_result() {
    assert_eq!(gen_result(0, 0, "").unwrap(), 0);
    let e = gen_result(-1, 2, "No such file or directory").unwrap_err();
    assert_eq!(e.kind, ErrorKind::IoError);
    assert_eq!(e.detail, "native status 2: No such file or directory");
}

#[test]
fn test_genresult_binding() {
    assert_eq!(binding::genresult(0, "unused").unwrap(), 0);
    let e = binding::genresult(1, "unable to bind key").unwrap_err();
    assert_eq!(e.kind, ErrorKind::BindingFailed);
    assert_eq!(e.detail, "unable to bind key");
}

#[test]
fn test_bind_type_codes() {
    assert_eq!(BindType::from_code(0).unwrap(), BindType::Func);
    assert_eq!(BindType::from_code(1).unwrap(), BindType::Kmap);
    assert_eq!(BindType::from_code(2).unwrap(), BindType::Macr);
    let e = BindType::from_code(3).unwrap_err();
    assert_eq!(e.kind, ErrorKind::InvalidArgument);
    assert_eq!(BindType::from_code(BindType::Macr.to_code()).unwrap(), BindType::Macr);
}

#[test]
fn test_generic_bind_outcome() {
    assert_eq!(binding::generic_bind_outcome(BindType::Func, 0).unwrap(), 0);
    let e = binding::generic_bind_outcome(BindType::Kmap, -1).unwrap_err();
    assert_eq!(e.detail, "unable to bind to keymap");
}

#[test]
fn test_undo_type_codes() {
    assert_eq!(UndoType::from_code(0).unwrap(), UndoType::Delete);
    assert_eq!(UndoType::from_code(3).unwrap(), UndoType::End);
    assert!(UndoType::from_code(4).is_err());
    assert_eq!(UndoType::from_code(UndoType::Begin.to_code() as i32).unwrap(), UndoType::Begin);
}

#[test]
fn test_add_undo_args() {
    let (len, c) = undo::add_undo_args("I deleted this!").unwrap();
    assert_eq!(len, 15);
    assert_eq!(c.as_bytes_with_nul(), b"I deleted this!\0");
    let e = undo::add_undo_args("bad\0text").unwrap_err();
    assert_eq!(e.kind, ErrorKind::NulByteInString);
}

#[test]
fn test_do_undo_outcome() {
    assert!(undo::do_undo_outcome(0).is_err());
    assert_eq!(undo::do_undo_outcome(1).unwrap(), 1);
}

#[test]
fn test_charin_outcomes() {
    assert_eq!(charin::key_char(65), 'A');
    assert_eq!(charin::stuff_char_outcome(1).unwrap(), 1);
    assert!(charin::stuff_char_outcome(0).is_err());
    assert_eq!(charin::execute_next_outcome(0).unwrap(), 0);
    assert!(charin::execute_next_outcome(-1).is_err());
    assert_eq!(charin::clear_pending_input_outcome(0).unwrap(), 0);
    assert_eq!(charin::set_keyboard_input_timeout_outcome(100).unwrap(), 100);
    assert!(charin::set_keyboard_input_timeout_outcome(-1).is_err());
}

#[test]
fn test_modtext_outcomes() {
    assert_eq!(modtext::insert_text_outcome(4).unwrap(), 4);
    assert!(modtext::insert_text_outcome(0).is_err());
    assert_eq!(modtext::delete_text_outcome(2).unwrap(), 2);
    assert!(modtext::delete_text_outcome(-1).is_err());
    assert_eq!(modtext::genresult(0, "unused").unwrap(), 0);
}

#[test]
fn test_redisplay_outcomes() {
    assert_eq!(redisplay::genresult(0, "unused").unwrap(), 0);
    assert!(redisplay::show_char_outcome(0).is_err());
    assert_eq!(redisplay::show_char_outcome(1).unwrap(), 1);
    assert!(redisplay::expand_prompt_outcome(0).is_err());
    assert_eq!(redisplay::expand_prompt_outcome(7).unwrap(), 7);
}

#[test]
fn test_util_outcomes() {
    assert_eq!(util::save_state_outcome(0).unwrap(), 0);
    assert!(util::save_state_outcome(1).is_err());
    assert_eq!(util::restore_state_outcome(0).unwrap(), 0);
    assert!(util::restore_state_outcome(-1).is_err());
}

#[test]
fn test_display_match_list_layout() {
    let matches = vec![
        "prog".to_string(),
        "alpha".to_string(),
        "albert".to_string(),
        "algorithm".to_string(),
    ];
    let (len, max) = util::display_match_list_layout(&matches).unwrap();
    assert_eq!(len, 3);
    assert_eq!(max, 9);
    let empty: Vec<String> = Vec::new();
    let e = util::display_match_list_layout(&empty).unwrap_err();
    assert_eq!(e.kind, ErrorKind::InvalidArgument);
}

#[test]
fn test_funmap_outcomes() {
    assert_eq!(funmap::function_of_keyseq_type(false, 9).unwrap(), None);
    assert_eq!(funmap::function_of_keyseq_type(true, 0).unwrap(), Some(BindType::Func));
    assert!(funmap::function_of_keyseq_type(true, 9).is_err());
    assert_eq!(funmap::add_funmap_entry_outcome(12).unwrap(), 12);
    assert!(funmap::add_funmap_entry_outcome(-1).is_err());
}

#[test]
fn test_misc_outcomes() {
    assert_eq!(misc::set_paren_blink_timeout_outcome(500).unwrap(), 500);
    assert!(misc::set_paren_blink_timeout_outcome(-1).is_err());
}

#[test]
fn test_state_flags() {
    let bits = vars::RL_STATE_INITIALIZED | vars::RL_STATE_READCMD;
    assert!(vars::state_has(bits, vars::RL_STATE_INITIALIZED));
    assert!(!vars::state_has(bits, vars::RL_STATE_DONE));
}
