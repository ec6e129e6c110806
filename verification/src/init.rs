//! The one-time initialization guard.
//!
//! The native library keeps process-global state and must have its setup
//! routine run exactly once before any other call touches that state.  The
//! guard records whether setup has happened and decides, for each request,
//! whether the caller has to run the native routine now.  The surrounding
//! program holds one such state for the whole process and serializes
//! requests to it; under that discipline the setup routine runs exactly
//! once however many times initialization is requested.

use vstd::prelude::*;

verus! {

/// The process-wide initialization record: whether setup has completed,
/// and how often the native setup routine has been run.
#[derive(Clone, Copy, Debug, PartialEq, Eq, Structural)]
pub struct GlobalInitState {
    /// True once the native setup routine has completed.
    pub initialized: bool,
    /// The number of times the native setup routine has been run.
    pub setup_runs: u64,
}

/// The state after one initialization request has been decided on `s`.
pub open spec fn requested_once(s: GlobalInitState) -> GlobalInitState {
    GlobalInitState {
        initialized: true,
        setup_runs: if s.initialized {
            s.setup_runs
        } else {
            (s.setup_runs + 1) as u64
        },
    }
}

/// The state after `n` initialization requests have been decided on `s`.
pub open spec fn requested_n(s: GlobalInitState, n: nat) -> GlobalInitState
    decreases n,
{
    if n == 0 {
        s
    } else {
        requested_once(requested_n(s, (n - 1) as nat))
    }
}

impl GlobalInitState {
    /// A sound state: setup has run exactly once when initialized, and not
    /// at all before.
    pub open spec fn wf(self) -> bool {
        self.setup_runs == if self.initialized {
            1u64
        } else {
            0u64
        }
    }

    /// The state of a process that has not requested initialization yet.
    pub fn new() -> (r: GlobalInitState)
        ensures
            r.wf(),
            !r.initialized,
    {
        GlobalInitState { initialized: false, setup_runs: 0 }
    }

    /// Decide one initialization request.  The result says whether the
    /// native setup routine must be run now: true on the first request,
    /// false on every later one, after which the state is initialized
    /// either way.
    pub fn ensure_initialized(&mut self) -> (run_setup: bool)
        requires
            old(self).wf(),
        ensures
            *final(self) == requested_once(*old(self)),
            final(self).wf(),
            final(self).initialized,
            final(self).setup_runs == 1,
            run_setup == !old(self).initialized,
    {
        if self.initialized {
            false
        } else {
            self.initialized = true;
            self.setup_runs = 1;
            true
        }
    }
}

/// Idempotent initialization: starting from a process that has not set up
/// yet, any positive number of initialization requests leaves the state
/// initialized with the native setup routine having run exactly once.
pub proof fn lemma_initialization_idempotent(s: GlobalInitState, n: nat)
    requires
        s.wf(),
        !s.initialized,
        n >= 1,
    ensures
        requested_n(s, n).wf(),
        requested_n(s, n).initialized,
        requested_n(s, n).setup_runs == 1,
    decreases n,
{
    if n == 1 {
        assert(requested_n(s, 0) == s);
    } else {
        lemma_initialization_idempotent(s, (n - 1) as nat);
    }
}

} // verus!
