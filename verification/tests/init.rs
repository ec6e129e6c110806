//! The one-time initialization guard, exercised repeatedly.

use rl_sys::init::GlobalInitState;

#[test]
fn test_init_runs_setup_once() {
    let mut st = GlobalInitState::new();
    assert!(!st.initialized);
    assert_eq!(st.setup_runs, 0);
    let first = st.ensure_initialized();
    assert!(first);
    assert!(st.initialized);
    assert_eq!(st.setup_runs, 1);
    for _ in 0..100 {
        let again = st.ensure_initialized();
        assert!(!again);
    }
    assert!(st.initialized);
    assert_eq!(st.setup_runs, 1);
}
