use sectool_adapter::devtools::{toggle_action, DevtoolsAction, DevtoolsPanel};

#[test]
fn toggle_closes_shown_panel() {
    let action = toggle_action(true);
    assert_eq!(action, DevtoolsAction::Close);
    assert!(!action.leaves_open());
}

#[test]
fn toggle_opens_hidden_panel() {
    let action = toggle_action(false);
    assert_eq!(action, DevtoolsAction::Open);
    assert!(action.leaves_open());
}

#[test]
fn toggle_twice_restores_state() {
    for start in [false, true] {
        let mut panel = DevtoolsPanel::observed(start);
        let first = panel.toggle();
        let second = panel.toggle();
        assert_ne!(first, second);
        assert_eq!(panel.is_open(), start);
    }
}

#[test]
fn new_window_starts_closed_and_toggles_open_then_closed() {
    let mut panel = DevtoolsPanel::new();
    assert!(!panel.is_open());
    assert_eq!(panel.toggle(), DevtoolsAction::Open);
    assert!(panel.is_open());
    assert_eq!(panel.toggle(), DevtoolsAction::Close);
    assert!(!panel.is_open());
}

#[test]
fn observed_panel_keeps_reported_state() {
    assert!(DevtoolsPanel::observed(true).is_open());
    assert!(!DevtoolsPanel::observed(false).is_open());
}
