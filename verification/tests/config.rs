use bclicker::config::{Config, Statistics};
use bclicker::keys::{KeyCombo, KeyId};

#[test]
fn default_config_matches_the_documented_defaults() {
    let c = Config::default();
    assert_eq!(c.cps_presets, vec![20, 30, 40, 50]);
    assert_eq!(c.selected_preset, 0);
    assert_eq!(c.custom_cps_value, None);
    assert!(!c.using_custom_cps);
    assert_eq!(c.selected_button, 0);
    assert_eq!(
        c.toggle_keybind,
        Some(KeyCombo { ctrl: true, shift: true, alt: false, key: KeyId::Letter('B') })
    );
    assert!(c.sound_enabled);
    assert_eq!(c.statistics.total_clicks, 0);
    assert_eq!(c.statistics.total_sessions, 0);
}

#[test]
fn current_cps_prefers_the_active_custom_value() {
    let mut c = Config::default();
    assert_eq!(c.current_cps(), 20);
    c.selected_preset = 2;
    assert_eq!(c.current_cps(), 40);
    c.custom_cps_value = Some(75);
    assert_eq!(c.current_cps(), 40);
    c.using_custom_cps = true;
    assert_eq!(c.current_cps(), 75);
}

#[test]
fn sanitize_keeps_a_healthy_config_as_it_is() {
    let mut c = Config::default();
    c.selected_preset = 3;
    c.custom_cps_value = Some(75);
    c.using_custom_cps = true;
    c.selected_button = 1;
    let s = c.sanitized();
    assert_eq!(s.cps_presets, vec![20, 30, 40, 50]);
    assert_eq!(s.selected_preset, 3);
    assert_eq!(s.custom_cps_value, Some(75));
    assert!(s.using_custom_cps);
    assert_eq!(s.selected_button, 1);
}

#[test]
fn sanitize_repairs_a_corrupt_config() {
    let mut c = Config::default();
    c.cps_presets = vec![0, 5000];
    c.selected_preset = 9;
    c.custom_cps_value = Some(2000);
    c.using_custom_cps = true;
    c.selected_button = 7;
    c.toggle_keybind = Some(KeyCombo { ctrl: false, shift: false, alt: false, key: KeyId::Function(0) });
    let s = c.sanitized();
    assert_eq!(s.cps_presets, vec![20, 30, 40, 50]);
    assert_eq!(s.selected_preset, 0);
    assert_eq!(s.custom_cps_value, None);
    assert!(!s.using_custom_cps);
    assert_eq!(s.selected_button, 1);
    assert_eq!(
        s.toggle_keybind,
        Some(KeyCombo { ctrl: true, shift: true, alt: false, key: KeyId::Letter('B') })
    );
}

#[test]
fn sanitize_drops_missing_keybind_to_the_default() {
    let mut c = Config::default();
    c.toggle_keybind = None;
    let s = c.sanitized();
    assert_eq!(
        s.toggle_keybind,
        Some(KeyCombo { ctrl: true, shift: true, alt: false, key: KeyId::Letter('B') })
    );
}

#[test]
fn record_click_increments_both_counters() {
    let mut st = Statistics::default();
    st.record_click();
    st.record_click();
    assert_eq!(st.total_clicks, 2);
    assert_eq!(st.session_clicks, 2);
    assert_eq!(st.total_sessions, 0);
}

#[test]
fn record_click_saturates_at_the_top() {
    let mut st = Statistics::default();
    st.total_clicks = u64::MAX;
    st.session_clicks = u64::MAX - 1;
    st.record_click();
    assert_eq!(st.total_clicks, u64::MAX);
    assert_eq!(st.session_clicks, u64::MAX);
}

#[test]
fn reset_never_decreases_total_clicks() {
    let mut st = Statistics::default();
    st.total_clicks = 1234;
    st.session_clicks = 56;
    st.total_sessions = 7;
    st.session_duration = 90;
    st.last_session_start = 111;
    st.reset();
    assert_eq!(st.total_clicks, 1234);
    assert_eq!(st.session_clicks, 0);
    assert_eq!(st.total_sessions, 0);
    assert_eq!(st.session_duration, 0);
    assert_eq!(st.last_session_start, 111);
}

#[test]
fn start_session_opens_a_new_session() {
    let mut st = Statistics::default();
    st.total_clicks = 10;
    st.session_clicks = 10;
    st.total_sessions = 3;
    st.start_session(424242);
    assert_eq!(st.total_clicks, 10);
    assert_eq!(st.session_clicks, 0);
    assert_eq!(st.total_sessions, 4);
    assert_eq!(st.last_session_start, 424242);
}

#[test]
fn sanitize_keeps_an_inactive_custom_value() {
    let mut c = Config::default();
    c.custom_cps_value = Some(75);
    c.using_custom_cps = false;
    let s = c.sanitized();
    assert_eq!(s.custom_cps_value, Some(75));
    assert!(!s.using_custom_cps);
}

#[test]
fn sanitize_clears_the_custom_flag_without_a_value() {
    let mut c = Config::default();
    c.custom_cps_value = None;
    c.using_custom_cps = true;
    let s = c.sanitized();
    assert!(!s.using_custom_cps);
    assert_eq!(s.current_cps(), 20);
}
