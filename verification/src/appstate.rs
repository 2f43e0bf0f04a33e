//! The dashboard's shared state: the active view, the running flag and the
//! "hide sensitive info" toggle, together with the key-command table that the
//! input task applies to it.

use vstd::prelude::*;

verus! {

/// Which screen the dashboard currently shows.
#[derive(Copy, Clone, Debug, PartialEq)]
pub enum AppState {
    Monitoring,
    Main,
    Error { h: &'static str, d: &'static str },
}

/// Ghost image of an `AppState`, with the message payloads as character
/// sequences.
pub ghost enum AppStateModel {
    Monitoring,
    Main,
    Error { h: Seq<char>, d: Seq<char> },
}

impl DeepView for AppState {
    type V = AppStateModel;

    open spec fn deep_view(&self) -> AppStateModel {
        match *self {
            AppState::Monitoring => AppStateModel::Monitoring,
            AppState::Main => AppStateModel::Main,
            AppState::Error { h, d } => AppStateModel::Error { h: h@, d: d@ },
        }
    }
}

pub open spec fn spec_describe(s: AppState) -> Seq<char> {
    match s {
        AppState::Monitoring => "Monitoring"@,
        AppState::Main => "Main"@,
        AppState::Error { h, d } => "Error header "@ + h@ + "; description "@ + d@,
    }
}

impl AppState {
    /// A human-readable label for the view, usable in diagnostics.
    pub fn describe(&self) -> (r: String)
        ensures
            r@ == spec_describe(*self),
    {
        match *self {
            AppState::Monitoring => String::from_str("Monitoring"),
            AppState::Main => String::from_str("Main"),
            AppState::Error { h, d } => {
                let mut s = String::from_str("Error header ");
                s.append(h);
                s.append("; description ");
                s.append(d);
                s
            },
        }
    }
}

/// The single shared record both tasks read and mutate: current view,
/// running flag, and whether identity fields are hidden.
#[derive(Copy, Clone, Debug)]
pub struct ProgramState {
    pub hide_info: bool,
    pub running: bool,
    pub state: AppState,
}

/// The state the dashboard starts in: main screen, running, identity
/// fields hidden.
pub open spec fn initial_state() -> ProgramState {
    ProgramState { hide_info: true, running: true, state: AppState::Main }
}

pub open spec fn spec_change_state(s: ProgramState, v: AppState) -> ProgramState {
    ProgramState { state: v, ..s }
}

pub open spec fn spec_change_running(s: ProgramState) -> ProgramState {
    ProgramState { running: !s.running, ..s }
}

pub open spec fn spec_toggle_hide_info(s: ProgramState) -> ProgramState {
    ProgramState { hide_info: !s.hide_info, ..s }
}

impl ProgramState {
    pub fn new() -> (s: ProgramState)
        ensures
            s == initial_state(),
    {
        ProgramState { hide_info: true, running: true, state: AppState::Main }
    }

    /// Replaces the active view unconditionally; the flags are untouched.
    pub fn change_state(&mut self, s: AppState)
        ensures
            *final(self) == spec_change_state(*old(self), s),
    {
        self.state = s;
    }

    /// Flips the running flag; view and hide flag are untouched.
    pub fn change_running(&mut self)
        ensures
            *final(self) == spec_change_running(*old(self)),
    {
        self.running = !self.running;
    }

    /// Flips the hide flag; view and running flag are untouched.
    pub fn toggle_hide_info(&mut self)
        ensures
            *final(self) == spec_toggle_hide_info(*old(self)),
    {
        self.hide_info = !self.hide_info;
    }
}

/// Toggling the hide flag twice returns the whole state, the flag included,
/// to its prior value.
pub proof fn lemma_toggle_hide_info_involution(s: ProgramState)
    ensures
        spec_toggle_hide_info(spec_toggle_hide_info(s)) == s,
{
}

/// A key press as the input task sees it: the escape key, a character key,
/// or anything else (ignored).
#[derive(Copy, Clone, Debug, PartialEq, Eq, Structural)]
pub enum InputKey {
    Esc,
    Char(char),
    Other,
}

/// The keys that stop the dashboard.
pub open spec fn is_quit_key(k: InputKey) -> bool {
    k == InputKey::Esc || k == InputKey::Char('q')
}

/// The command table: Esc and 'q' flip the running flag, 'm' and 'u' switch
/// to the monitoring view, 'h' flips the hide flag, and every other key is
/// a no-op.
pub open spec fn spec_apply_key(s: ProgramState, k: InputKey) -> ProgramState {
    if is_quit_key(k) {
        spec_change_running(s)
    } else if k == InputKey::Char('m') || k == InputKey::Char('u') {
        spec_change_state(s, AppState::Monitoring)
    } else if k == InputKey::Char('h') {
        spec_toggle_hide_info(s)
    } else {
        s
    }
}

impl ProgramState {
    /// Applies one key press to the state, following the command table.
    pub fn apply_key(&mut self, k: InputKey)
        ensures
            *final(self) == spec_apply_key(*old(self), k),
    {
        match k {
            InputKey::Esc => self.change_running(),
            InputKey::Char(c) => {
                if c == 'q' {
                    self.change_running();
                } else if c == 'm' || c == 'u' {
                    self.change_state(AppState::Monitoring);
                } else if c == 'h' {
                    self.toggle_hide_info();
                }
            },
            InputKey::Other => {},
        }
    }
}

/// The input task as a whole: keys are applied in order, and processing
/// stops as soon as the running flag is off, as the task re-checks it
/// before every read.
pub open spec fn run_input(s: ProgramState, keys: Seq<InputKey>) -> ProgramState
    decreases keys.len(),
{
    if keys.len() == 0 || !s.running {
        s
    } else {
        run_input(spec_apply_key(s, keys.first()), keys.drop_first())
    }
}

/// Starting from a running state, the running flag ends up off exactly when
/// the key sequence contains Esc or 'q'; no other key affects it.
pub proof fn lemma_quit_controls_running(s: ProgramState, keys: Seq<InputKey>)
    requires
        s.running,
    ensures
        !run_input(s, keys).running <==> (exists|i: int|
            0 <= i < keys.len() && is_quit_key(keys[i])),
    decreases keys.len(),
{
    if keys.len() == 0 {
    } else {
        let k = keys.first();
        let s2 = spec_apply_key(s, k);
        if is_quit_key(k) {
            assert(!s2.running);
            assert(run_input(s, keys) == run_input(s2, keys.drop_first()));
            assert(run_input(s2, keys.drop_first()) == s2);
            assert(0 <= 0 < keys.len() && is_quit_key(keys[0]));
        } else {
            assert(s2.running == s.running);
            lemma_quit_controls_running(s2, keys.drop_first());
            let rest = keys.drop_first();
            assert(run_input(s, keys) == run_input(s2, rest));
            if exists|i: int| 0 <= i < rest.len() && is_quit_key(rest[i]) {
                let i = choose|i: int| 0 <= i < rest.len() && is_quit_key(rest[i]);
                assert(keys[i + 1] == rest[i]);
                assert(0 <= i + 1 < keys.len() && is_quit_key(keys[i + 1]));
            }
            if exists|i: int| 0 <= i < keys.len() && is_quit_key(keys[i]) {
                let i = choose|i: int| 0 <= i < keys.len() && is_quit_key(keys[i]);
                assert(i != 0);
                assert(rest[i - 1] == keys[i]);
                assert(0 <= i - 1 < rest.len() && is_quit_key(rest[i - 1]));
            }
        }
    }
}

} // verus!
