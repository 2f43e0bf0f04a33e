use wifi_check_tui::appstate::{AppState, InputKey, ProgramState};

fn run_keys(st: &mut ProgramState, keys: &[InputKey]) {
    for &k in keys {
        if !st.running {
            break;
        }
        st.apply_key(k);
    }
}

#[test]
fn initial_state_values() {
    let st = ProgramState::new();
    assert!(st.hide_info);
    assert!(st.running);
    assert_eq!(st.state, AppState::Main);
}

#[test]
fn esc_stops_running() {
    let mut st = ProgramState::new();
    run_keys(&mut st, &[InputKey::Char('x'), InputKey::Esc]);
    assert!(!st.running);
}

#[test]
fn q_stops_running() {
    let mut st = ProgramState::new();
    run_keys(&mut st, &[InputKey::Char('h'), InputKey::Char('q')]);
    assert!(!st.running);
}

#[test]
fn other_keys_leave_running() {
    let mut st = ProgramState::new();
    run_keys(
        &mut st,
        &[
            InputKey::Char('m'),
            InputKey::Char('u'),
            InputKey::Char('h'),
            InputKey::Char('z'),
            InputKey::Other,
        ],
    );
    assert!(st.running);
}

#[test]
fn keys_after_quit_are_not_processed() {
    let mut st = ProgramState::new();
    run_keys(&mut st, &[InputKey::Char('q'), InputKey::Char('q')]);
    assert!(!st.running);
}

#[test]
fn m_and_u_switch_to_monitoring() {
    let mut st = ProgramState::new();
    st.apply_key(InputKey::Char('m'));
    assert_eq!(st.state, AppState::Monitoring);
    st.change_state(AppState::Main);
    st.apply_key(InputKey::Char('u'));
    assert_eq!(st.state, AppState::Monitoring);
}

#[test]
fn h_toggles_hide_info_twice_restores() {
    let mut st = ProgramState::new();
    let before = st.hide_info;
    st.toggle_hide_info();
    assert_eq!(st.hide_info, !before);
    st.toggle_hide_info();
    assert_eq!(st.hide_info, before);
}

#[test]
fn change_running_flips() {
    let mut st = ProgramState::new();
    st.change_running();
    assert!(!st.running);
    st.change_running();
    assert!(st.running);
}

#[test]
fn change_state_replaces_view() {
    let mut st = ProgramState::new();
    st.change_state(AppState::Error { h: "a", d: "b" });
    assert_eq!(st.state, AppState::Error { h: "a", d: "b" });
    assert!(st.running);
    assert!(st.hide_info);
}

#[test]
fn describe_labels_views() {
    assert_eq!(AppState::Main.describe(), "Main");
    assert_eq!(AppState::Monitoring.describe(), "Monitoring");
    assert_eq!(
        AppState::Error { h: "head", d: "det" }.describe(),
        "Error header head; description det"
    );
}
