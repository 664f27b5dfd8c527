//! The shell's lifecycle: a two-state machine, driven by startup and by tray
//! selections. Only the quit entry ever changes the state.

use vstd::prelude::*;

verus! {

/// The application's formal state. It starts Running once the host runtime
/// comes up; Terminated is terminal.
#[derive(Clone, Copy, Debug, PartialEq, Eq, Structural)]
pub enum AppState {
    Running,
    Terminated,
}

/// The stable id of the tray entry whose selection terminates the shell.
pub open spec fn quit_id() -> Seq<char> {
    "quit"@
}

/// What one tray selection does to the state: from Running, the quit id
/// terminates and every other id (the hide id among them) changes nothing;
/// from Terminated, nothing happens at all.
pub open spec fn tray_transition(state: AppState, id: Seq<char>) -> AppState {
    if state is Terminated {
        AppState::Terminated
    } else if id == quit_id() {
        AppState::Terminated
    } else {
        AppState::Running
    }
}

/// The state the shell is in once startup has run its course: Running when
/// the host runtime came up, Terminated when it failed.
pub open spec fn startup_outcome(runtime_ok: bool) -> AppState {
    if runtime_ok {
        AppState::Running
    } else {
        AppState::Terminated
    }
}

/// Whether two strings hold the same characters.
fn str_eq(a: &str, b: &str) -> (r: bool)
    ensures
        r == (a@ == b@),
{
    let a_owned: String = a.to_owned();
    let b_owned: String = b.to_owned();
    a_owned == b_owned
}

/// Applies one tray selection, carrying the id the OS event delivered, to the
/// current state.
pub fn on_tray_event(state: AppState, id: &str) -> (next: AppState)
    ensures
        next == tray_transition(state, id@),
{
    match state {
        AppState::Terminated => AppState::Terminated,
        AppState::Running => {
            if str_eq(id, "quit") {
                AppState::Terminated
            } else {
                AppState::Running
            }
        },
    }
}

/// Resolves startup: the host runtime either came up, and the shell runs, or
/// it did not, and the shell is terminated.
pub fn resolve_startup(runtime_ok: bool) -> (state: AppState)
    ensures
        state == startup_outcome(runtime_ok),
{
    if runtime_ok {
        AppState::Running
    } else {
        AppState::Terminated
    }
}

/// Law: selecting quit terminates the shell exactly once. From Running the
/// quit id reaches Terminated, and from Terminated every further selection,
/// the quit id again included, leaves the state Terminated.
pub proof fn lemma_quit_terminates_once(id: Seq<char>)
    ensures
        tray_transition(AppState::Running, quit_id()) == AppState::Terminated,
        tray_transition(AppState::Terminated, id) == AppState::Terminated,
{
}

/// Law: a selection that does not carry the quit id never changes the state.
pub proof fn lemma_only_quit_acts(state: AppState, id: Seq<char>)
    requires
        id != quit_id(),
    ensures
        tray_transition(state, id) == state,
{
}

/// Law: startup has two outcomes and no third, whatever the host runtime did:
/// the shell is Running or it is Terminated.
pub proof fn lemma_startup_two_outcomes(runtime_ok: bool)
    ensures
        startup_outcome(runtime_ok) is Running || startup_outcome(runtime_ok) is Terminated,
        startup_outcome(runtime_ok) is Running <==> runtime_ok,
{
}

} // verus!
