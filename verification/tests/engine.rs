use bclicker::engine::{pace_decision, target_interval_micros, Cue, Engine, PaceAction};

#[test]
fn target_interval_is_exactly_a_million_over_the_rate() {
    assert_eq!(target_interval_micros(1), 1_000_000);
    assert_eq!(target_interval_micros(2), 500_000);
    assert_eq!(target_interval_micros(3), 333_333);
    assert_eq!(target_interval_micros(50), 20_000);
    assert_eq!(target_interval_micros(999), 1_001);
    assert_eq!(target_interval_micros(1000), 1_000);
}

#[test]
fn pace_clicks_once_the_interval_has_elapsed() {
    assert_eq!(pace_decision(20_000, 50), PaceAction::Click);
    assert_eq!(pace_decision(25_000, 50), PaceAction::Click);
    assert_eq!(pace_decision(0, 1000), PaceAction::Spin);
}

#[test]
fn pace_sleeps_only_when_the_remainder_is_worth_it() {
    assert_eq!(pace_decision(0, 50), PaceAction::Sleep(20_000));
    assert_eq!(pace_decision(18_999, 50), PaceAction::Sleep(1_001));
    assert_eq!(pace_decision(19_000, 50), PaceAction::Spin);
    assert_eq!(pace_decision(19_999, 50), PaceAction::Spin);
}

#[test]
fn one_cue_per_edge_never_one_per_poll() {
    let mut e = Engine::new();
    assert_eq!(e.observe(false), None);
    assert_eq!(e.observe(true), Some(Cue::Start));
    assert_eq!(e.observe(true), None);
    assert_eq!(e.observe(true), None);
    assert_eq!(e.observe(false), Some(Cue::Stop));
    assert_eq!(e.observe(false), None);
    assert_eq!(e.observe(true), Some(Cue::Start));
}

#[test]
fn rapid_toggle_gives_exactly_one_cue_per_edge() {
    let mut e = Engine::new();
    assert_eq!(e.observe(true), Some(Cue::Start));
    assert_eq!(e.observe(false), Some(Cue::Stop));
    assert_eq!(e.observe(true), Some(Cue::Start));
}
