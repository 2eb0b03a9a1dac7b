use svc_session::cursor::SelectionCursor;
use svc_session::model::Service;
use svc_session::model::ServiceAction;
use svc_session::session::Effect;
use svc_session::session::InputAction;
use svc_session::session::Mode;
use svc_session::session::Session;
use svc_session::view::visible_services;

fn svc(name: &str, active: &str, sub: &str, user: bool) -> Service {
    Service {
        name: name.to_string(),
        active_state: active.to_string(),
        sub_state: sub.to_string(),
        loaded_state: "loaded".to_string(),
        is_user_config: user,
    }
}

fn abc() -> Vec<Service> {
    vec![
        svc("a.service", "active", "running", true),
        svc("b.service", "inactive", "dead", false),
        svc("c.service", "failed", "failed", true),
    ]
}

fn loaded_session(services: Vec<Service>, now: u64) -> Session {
    let mut s = Session::new(now);
    s.on_refresh_success(services, now);
    s
}

#[test]
fn is_running_requires_active_and_running() {
    assert!(svc("a", "active", "running", true).is_running());
    assert!(!svc("a", "active", "exited", true).is_running());
    assert!(!svc("a", "inactive", "running", true).is_running());
    assert!(!svc("a", "failed", "failed", true).is_running());
}

#[test]
fn filter_keeps_user_services_in_order() {
    let all = abc();
    let filtered = visible_services(&all, true);
    assert_eq!(filtered.len(), 2);
    assert_eq!(filtered[0].name, "a.service");
    assert_eq!(filtered[1].name, "c.service");
    assert!(filtered.iter().all(|s| s.is_user_config));
}

#[test]
fn filter_off_is_identity() {
    let all = abc();
    let visible = visible_services(&all, false);
    assert_eq!(visible.len(), 3);
    for (a, b) in all.iter().zip(visible.iter()) {
        assert_eq!(a.name, b.name);
        assert_eq!(a.is_user_config, b.is_user_config);
    }
}

#[test]
fn filter_of_empty_list_is_empty() {
    let none: Vec<Service> = Vec::new();
    assert!(visible_services(&none, true).is_empty());
    assert!(visible_services(&none, false).is_empty());
}

#[test]
fn reclamp_empties_cursor_on_empty_list() {
    let mut c = SelectionCursor { selected: Some(5) };
    c.reclamp(0);
    assert_eq!(c.selected, None);
}

#[test]
fn reclamp_snaps_overrun_cursor_to_last_index() {
    let mut c = SelectionCursor { selected: Some(7) };
    c.reclamp(3);
    assert_eq!(c.selected, Some(2));
}

#[test]
fn reclamp_keeps_cursor_in_bounds_unchanged() {
    let mut c = SelectionCursor { selected: Some(1) };
    c.reclamp(3);
    assert_eq!(c.selected, Some(1));
}

#[test]
fn reclamp_anchors_absent_cursor_on_nonempty_list() {
    let mut c = SelectionCursor::new();
    c.reclamp(3);
    assert_eq!(c.selected, Some(0));
}

#[test]
fn next_then_previous_returns_to_start() {
    for start in 0..4usize {
        let mut c = SelectionCursor { selected: Some(start) };
        c.next(4);
        c.previous(4);
        assert_eq!(c.selected, Some(start));
    }
}

#[test]
fn next_wraps_from_last_to_first() {
    let mut c = SelectionCursor { selected: Some(3) };
    c.next(4);
    assert_eq!(c.selected, Some(0));
}

#[test]
fn previous_wraps_from_first_to_last() {
    let mut c = SelectionCursor { selected: Some(0) };
    c.previous(4);
    assert_eq!(c.selected, Some(3));
}

#[test]
fn cursor_moves_are_noops_on_empty_list() {
    let mut c = SelectionCursor { selected: Some(2) };
    c.next(0);
    assert_eq!(c.selected, Some(2));
    c.previous(0);
    assert_eq!(c.selected, Some(2));
}

#[test]
fn filtered_view_cursor_and_toggle_scenario() {
    let mut s = loaded_session(abc(), 0);
    let visible = s.get_current_view_services();
    assert_eq!(visible.len(), 2);
    assert_eq!(visible[0].name, "a.service");
    assert_eq!(visible[1].name, "c.service");
    assert_eq!(s.cursor.selected, Some(0));

    s.dispatch(InputAction::CursorNext);
    assert_eq!(s.cursor.selected, Some(1));
    assert_eq!(s.selected_name().as_deref(), Some("c.service"));

    s.dispatch(InputAction::ToggleFilterView);
    let visible = s.get_current_view_services();
    assert_eq!(visible.len(), 3);
    assert_eq!(s.cursor.selected, Some(0));
    assert_eq!(s.selected_name().as_deref(), Some("a.service"));
}

#[test]
fn toggle_to_empty_view_leaves_cursor_absent() {
    let system_only = vec![svc("b.service", "inactive", "dead", false)];
    let mut s = loaded_session(system_only, 0);
    assert_eq!(s.cursor.selected, None);
    s.dispatch(InputAction::ToggleFilterView);
    assert_eq!(s.cursor.selected, Some(0));
    s.dispatch(InputAction::ToggleFilterView);
    assert_eq!(s.cursor.selected, None);
}

#[test]
fn failed_control_action_still_schedules_forced_refresh() {
    let mut s = loaded_session(abc(), 0);
    s.dispatch(InputAction::ToggleFilterView);
    s.dispatch(InputAction::CursorNext);
    assert_eq!(s.selected_name().as_deref(), Some("b.service"));

    let eff = s.dispatch(InputAction::ActionStop);
    match eff {
        Effect::Control { target, action } => {
            assert_eq!(target, "b.service");
            assert!(matches!(action, ServiceAction::Stop));
        }
        _ => panic!("expected a control effect"),
    }
    // The caller's control call fails; the result is discarded by design,
    // so nothing more reaches the session. It must stay interactive and
    // still want an immediate refresh.
    assert!(!s.should_quit);
    assert!(s.timing.refresh_forced);
    assert!(s.data_refresh_due(1));

    // The next successful list poll decides what is displayed for b.
    let mut refreshed = abc();
    refreshed[1].active_state = "active".to_string();
    refreshed[1].sub_state = "running".to_string();
    s.on_refresh_success(refreshed, 1);
    assert!(!s.timing.refresh_forced);
    let visible = s.get_current_view_services();
    assert!(visible[1].is_running());
}

#[test]
fn action_with_no_selection_does_nothing() {
    let mut s = Session::new(0);
    let eff = s.dispatch(InputAction::ActionStart);
    assert!(matches!(eff, Effect::NoEffect));
    assert!(!s.timing.refresh_forced);
}

#[test]
fn autoscroll_scenario_pauses_and_keeps_offset() {
    let lines: Vec<String> = (0..40).map(|i| format!("line {}", i)).collect();
    let mut s = loaded_session(abc(), 0);
    let eff = s.dispatch(InputAction::EnterLogMode);
    let target = match eff {
        Effect::FetchLogs { target } => target,
        _ => panic!("expected a log fetch effect"),
    };
    assert_eq!(target, "a.service");
    s.on_enter_logs_fetched(target, Vec::new());
    assert!(s.in_log_mode());

    s.on_log_refresh(lines, 20);
    assert_eq!(s.log.scroll, 20);
    assert!(s.log.stick_to_bottom);

    s.dispatch(InputAction::ScrollUp);
    assert!(!s.log.stick_to_bottom);
    assert_eq!(s.log.scroll, 19);

    let grown: Vec<String> = (0..45).map(|i| format!("line {}", i)).collect();
    s.on_log_refresh(grown, 20);
    assert_eq!(s.log.scroll, 19);
    assert!(!s.log.stick_to_bottom);
}

#[test]
fn autoscroll_with_short_buffer_stays_at_top() {
    let mut s = loaded_session(abc(), 0);
    s.on_enter_logs_fetched("a.service".to_string(), Vec::new());
    let lines: Vec<String> = (0..5).map(|i| format!("line {}", i)).collect();
    s.on_log_refresh(lines, 20);
    assert_eq!(s.log.scroll, 0);
}

#[test]
fn manual_scroll_clamps_to_buffer_bounds() {
    let mut s = loaded_session(abc(), 0);
    let lines: Vec<String> = (0..3).map(|i| format!("line {}", i)).collect();
    s.on_enter_logs_fetched("a.service".to_string(), lines);
    assert_eq!(s.log.scroll, 0);

    s.dispatch(InputAction::ScrollDown);
    s.dispatch(InputAction::ScrollDown);
    assert_eq!(s.log.scroll, 2);
    s.dispatch(InputAction::ScrollDown);
    assert_eq!(s.log.scroll, 2);

    s.dispatch(InputAction::ScrollUp);
    s.dispatch(InputAction::ScrollUp);
    assert_eq!(s.log.scroll, 0);
    s.dispatch(InputAction::ScrollUp);
    assert_eq!(s.log.scroll, 0);

    // A shrinking buffer pulls a paused offset back inside the new bounds.
    s.dispatch(InputAction::ScrollDown);
    s.dispatch(InputAction::ScrollDown);
    assert_eq!(s.log.scroll, 2);
    let shorter: Vec<String> = (0..2).map(|i| format!("line {}", i)).collect();
    s.on_log_refresh(shorter, 20);
    assert_eq!(s.log.scroll, 1);
}

#[test]
fn jump_to_end_rearms_autoscroll() {
    let mut s = loaded_session(abc(), 0);
    let lines: Vec<String> = (0..40).map(|i| format!("line {}", i)).collect();
    s.on_enter_logs_fetched("a.service".to_string(), lines);
    s.dispatch(InputAction::ScrollDown);
    assert!(!s.log.stick_to_bottom);
    s.dispatch(InputAction::JumpToEnd);
    assert!(s.log.stick_to_bottom);
    let lines: Vec<String> = (0..40).map(|i| format!("line {}", i)).collect();
    s.on_log_refresh(lines, 20);
    assert_eq!(s.log.scroll, 20);
}

#[test]
fn enter_then_exit_log_mode_restores_list_context() {
    let mut s = loaded_session(abc(), 0);
    s.dispatch(InputAction::CursorNext);
    let cursor_before = s.cursor.selected;
    let view_before = s.view_state;

    let eff = s.dispatch(InputAction::EnterLogMode);
    // The dispatch itself changes nothing until the fetch succeeds.
    assert_eq!(s.cursor.selected, cursor_before);
    assert!(!s.in_log_mode());
    let target = match eff {
        Effect::FetchLogs { target } => target,
        _ => panic!("expected a log fetch effect"),
    };
    let lines: Vec<String> = (0..10).map(|i| format!("line {}", i)).collect();
    s.on_enter_logs_fetched(target, lines);
    assert!(s.in_log_mode());
    assert_eq!(s.log_target().as_deref(), Some("c.service"));

    s.dispatch(InputAction::ExitLogMode);
    assert!(!s.in_log_mode());
    assert_eq!(s.cursor.selected, cursor_before);
    assert_eq!(s.view_state, view_before);
    assert!(s.log.lines.is_empty());
    assert_eq!(s.log.scroll, 0);
    assert!(s.log.stick_to_bottom);
    // Any staleness accrued while log-polling is corrected at once.
    assert!(s.data_refresh_due(0));
}

#[test]
fn enter_log_mode_with_no_selection_asks_nothing() {
    let mut s = Session::new(0);
    let eff = s.dispatch(InputAction::EnterLogMode);
    assert!(matches!(eff, Effect::NoEffect));
    assert!(!s.in_log_mode());
}

#[test]
fn quit_is_only_honoured_in_list_mode() {
    let mut s = loaded_session(abc(), 0);
    s.on_enter_logs_fetched("a.service".to_string(), Vec::new());
    s.dispatch(InputAction::Quit);
    assert!(!s.should_quit);
    s.dispatch(InputAction::ExitLogMode);
    s.dispatch(InputAction::Quit);
    assert!(s.should_quit);
}

#[test]
fn refresh_failure_keeps_stale_list_and_retries_next_cadence() {
    let mut s = loaded_session(abc(), 0);
    s.on_refresh_failure(2500);
    assert_eq!(s.services.len(), 3);
    assert!(!s.data_refresh_due(2600));
    assert!(s.data_refresh_due(4500));
}

#[test]
fn refresh_shrinking_visible_list_reclamps_cursor() {
    let mut s = loaded_session(abc(), 0);
    s.dispatch(InputAction::CursorNext);
    assert_eq!(s.cursor.selected, Some(1));
    let only_one = vec![svc("a.service", "active", "running", true)];
    s.on_refresh_success(only_one, 0);
    assert_eq!(s.cursor.selected, Some(0));
    s.on_refresh_success(Vec::new(), 0);
    assert_eq!(s.cursor.selected, None);
}

#[test]
fn data_cadence_governs_refresh_due() {
    let s = Session::new(1000);
    assert!(!s.data_refresh_due(1000));
    assert!(!s.data_refresh_due(2999));
    assert!(s.data_refresh_due(3000));
    assert!(s.data_refresh_due(10_000));
}

#[test]
fn forced_refresh_is_due_at_any_instant() {
    let mut s = Session::new(1000);
    s.timing.force_refresh();
    assert!(s.data_refresh_due(0));
    assert!(s.data_refresh_due(1000));
    assert!(s.data_refresh_due(u64::MAX));
}

#[test]
fn input_slice_counts_down_and_restarts() {
    let mut s = Session::new(1000);
    assert_eq!(s.timing.input_slice_remaining(1000), 100);
    assert_eq!(s.timing.input_slice_remaining(1040), 60);
    assert_eq!(s.timing.input_slice_remaining(1100), 0);
    assert_eq!(s.timing.input_slice_remaining(5000), 0);
    s.timing.tick_input(1040);
    assert_eq!(s.timing.last_input_poll, 1000);
    s.timing.tick_input(1100);
    assert_eq!(s.timing.last_input_poll, 1100);
    assert_eq!(s.timing.input_slice_remaining(1150), 50);
}

#[test]
fn log_viewport_rows_takes_popup_share_minus_border() {
    assert_eq!(svc_session::logs::log_viewport_rows(30), 22);
    assert_eq!(svc_session::logs::log_viewport_rows(100), 78);
    assert_eq!(svc_session::logs::log_viewport_rows(0), 0);
    assert_eq!(svc_session::logs::log_viewport_rows(2), 0);
    assert_eq!(svc_session::logs::log_viewport_rows(3), 0);
    assert_eq!(svc_session::logs::log_viewport_rows(u16::MAX), 52426);
}

#[test]
fn display_model_reflects_session_state() {
    let mut s = loaded_session(abc(), 0);
    let d = s.display_model();
    assert_eq!(d.visible.len(), 2);
    assert_eq!(d.cursor, Some(0));
    assert!(!d.in_log_mode);
    assert!(d.log_lines.is_empty());
    assert_eq!(d.view_label, " ~/.config/systemd/user Services ");

    s.dispatch(InputAction::ToggleFilterView);
    let lines: Vec<String> = (0..4).map(|i| format!("line {}", i)).collect();
    s.on_enter_logs_fetched("a.service".to_string(), lines);
    let d = s.display_model();
    assert_eq!(d.visible.len(), 3);
    assert!(d.in_log_mode);
    assert_eq!(d.log_lines.len(), 4);
    assert_eq!(d.log_lines[2], "line 2");
    assert!(d.stick_to_bottom);
    assert_eq!(d.view_label, " All User Services ");
}

#[test]
fn fresh_session_starts_filtered_in_list_mode() {
    let s = Session::new(42);
    assert!(s.services.is_empty());
    assert!(s.view_state.show_only_filtered);
    assert_eq!(s.cursor.selected, None);
    assert!(matches!(s.mode, Mode::ListMode));
    assert!(!s.should_quit);
    assert_eq!(s.timing.data_cadence, 2000);
    assert_eq!(s.timing.input_cadence, 100);
}
