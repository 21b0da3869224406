//! Tests of the simulation state: startup validation, setters, rule
//! cycling, pause, notifications and frame advancement.

use game_of_life::state::{CustomWinitEvent, State};

fn current_cells(s: &State) -> Vec<u32> {
    if s.grid.a_is_current {
        s.grid.buf_a.clone()
    } else {
        s.grid.buf_b.clone()
    }
}

#[test]
fn defaults_when_nothing_is_given() {
    let s = State::new(None, None, None, None, false, None);
    assert_eq!(s.rule_idx, 0);
    assert_eq!(s.cells_width, 512);
    assert_eq!(s.cells_height, 512);
    assert_eq!(s.seed, 0);
    assert_eq!(s.initial_density, 12);
    assert_eq!(s.generations_per_second, 8);
    assert!(!s.paused);
    assert_eq!(s.frame_count, 0);
}

#[test]
fn invalid_startup_values_fall_back_to_defaults() {
    let s = State::new(Some(17), Some(100), None, Some(0), true, Some(0));
    assert_eq!(s.rule_idx, 0);
    assert_eq!(s.cells_width, 512);
    assert_eq!(s.initial_density, 12);
    assert_eq!(s.generations_per_second, 8);
    assert!(s.paused);

    let s = State::new(Some(16), Some(64), Some(9), Some(99), false, Some(100));
    assert_eq!(s.rule_idx, 16);
    assert_eq!(s.cells_width, 64);
    assert_eq!(s.seed, 9);
    assert_eq!(s.initial_density, 99);
    assert_eq!(s.generations_per_second, 100);
}

#[test]
fn density_bounds_are_clamped() {
    let mut s = State::new(None, Some(64), None, None, false, None);
    assert!(s.set_initial_density(0).is_none());
    assert_eq!(s.initial_density, 12);
    assert!(s.set_initial_density(100).is_none());
    assert_eq!(s.initial_density, 12);
    assert!(s.set_initial_density(1).is_some());
    assert_eq!(s.initial_density, 1);
    assert!(s.set_initial_density(99).is_some());
    assert_eq!(s.initial_density, 99);
}

#[test]
fn generations_per_second_bounds_are_clamped() {
    let mut s = State::new(None, Some(64), None, None, false, None);
    assert!(s.set_generations_per_second(0).is_none());
    assert_eq!(s.generations_per_second, 8);
    assert!(s.set_generations_per_second(101).is_none());
    assert!(s.set_generations_per_second(1).is_some());
    assert_eq!(s.generations_per_second, 1);
    assert!(s.set_generations_per_second(100).is_some());
    assert_eq!(s.generations_per_second, 100);
}

#[test]
fn setting_current_density_still_notifies_without_drift() {
    let mut s = State::new(None, Some(64), Some(5), Some(40), false, None);
    let before = current_cells(&s);
    let n = s.set_initial_density(40);
    let n = n.expect("an in-range value fires a notification even if unchanged");
    assert_eq!(n.density, 40);
    assert_eq!(n.seed, 5);
    // The rebuild regenerates from identical parameters: no drift.
    assert_eq!(current_cells(&s), before);
    assert_eq!(s.frame_count, 0);
}

#[test]
fn rule_cycling_wraps_both_ways() {
    let mut s = State::new(None, Some(64), None, None, false, None);
    assert_eq!(s.rule_idx, 0);
    s.change_rule(false);
    assert_eq!(s.rule_idx, 16);
    s.change_rule(true);
    assert_eq!(s.rule_idx, 0);
    for expected in 1..17u32 {
        s.change_rule(true);
        assert_eq!(s.rule_idx, expected);
    }
    s.change_rule(true);
    assert_eq!(s.rule_idx, 0);
}

#[test]
fn rule_change_reseeds_density_from_rule() {
    let mut s = State::new(None, Some(64), None, Some(77), false, None);
    let n = s.set_rule_idx(2);
    assert_eq!(s.rule_idx, 2);
    // Day & Night prefers a density of 50.
    assert_eq!(s.initial_density, 50);
    assert_eq!(n.density, 50);
    // An out-of-range index falls back to the first rule.
    s.set_rule_idx(17);
    assert_eq!(s.rule_idx, 0);
    assert_eq!(s.initial_density, 12);
}

#[test]
fn toggle_pause_leaves_grid_untouched() {
    let mut s = State::new(None, Some(64), Some(3), Some(50), false, None);
    let before = current_cells(&s);
    let n = s.toggle_pause();
    assert!(s.paused);
    assert!(n.paused);
    assert_eq!(current_cells(&s), before);
    let n = s.toggle_pause();
    assert!(!s.paused);
    assert!(!n.paused);
}

#[test]
fn notification_reports_frames_only_while_paused() {
    let mut s = State::new(None, Some(64), None, None, false, Some(100));
    // Advance a few generations so the frame counter is non-zero.
    let n = s.advance(50_000_001);
    assert_eq!(n, 5);
    assert_eq!(s.frame_count, 5);
    let running = s.inform_ui_about_state();
    assert_eq!(running.frame, 0);
    s.toggle_pause();
    let paused = s.inform_ui_about_state();
    assert_eq!(paused.frame, 5);
}

#[test]
fn notification_carries_display_name() {
    let s = State::new(None, Some(64), None, None, false, None);
    let n = s.inform_ui_about_state();
    assert_eq!(n.rule_name, "Conway's Life B3/S23");
    assert_eq!(n.cells_width, 64);
    assert_eq!(n.cells_height, 64);
    assert_eq!(n.generations_per_second, 8);
}

#[test]
fn resize_validates_dimensions_and_resets_frames() {
    let mut s = State::new(None, Some(64), None, None, false, Some(100));
    s.advance(100_000_000);
    assert!(s.frame_count > 0);
    let n = s.reset_with_cells_width(128, 128);
    assert_eq!(s.cells_width, 128);
    assert_eq!(s.cells_height, 128);
    assert_eq!(s.frame_count, 0);
    assert_eq!(n.cells_width, 128);
    // A dimension outside the accepted set falls back to the default.
    s.reset_with_cells_width(100, 2048);
    assert_eq!(s.cells_width, 512);
    assert_eq!(s.cells_height, 2048);
}

#[test]
fn reset_draws_fresh_seed_and_rebuilds() {
    let mut s = State::new(None, Some(64), Some(1), Some(50), false, None);
    s.advance(0);
    let n = s.reset();
    assert_eq!(s.frame_count, 0);
    assert_eq!(n.seed, s.seed);
    assert_eq!(s.initial_density, 50);
    assert!(s.grid.a_is_current);
}

#[test]
fn reset_to_seed_is_reproducible() {
    let mut a = State::new(None, Some(64), Some(1), Some(50), false, None);
    let mut b = State::new(None, Some(64), Some(2), Some(50), false, None);
    assert_ne!(current_cells(&a), current_cells(&b));
    a.reset_to_seed(7);
    b.reset_to_seed(7);
    assert_eq!(current_cells(&a), current_cells(&b));
}

#[test]
fn events_dispatch_to_the_matching_transition() {
    let mut s = State::new(None, Some(64), None, None, false, None);
    assert!(s.apply_event(&CustomWinitEvent::RuleChange(2)).is_some());
    assert_eq!(s.rule_idx, 2);
    assert_eq!(s.initial_density, 50);
    assert!(s.apply_event(&CustomWinitEvent::SizeChange(128)).is_some());
    assert_eq!(s.cells_width, 128);
    assert!(s.apply_event(&CustomWinitEvent::SetDensity(0)).is_none());
    assert!(s.apply_event(&CustomWinitEvent::SetDensity(33)).is_some());
    assert_eq!(s.initial_density, 33);
    assert!(s
        .apply_event(&CustomWinitEvent::SetGenerationsPerSecond(44))
        .is_some());
    assert_eq!(s.generations_per_second, 44);
    assert!(s.apply_event(&CustomWinitEvent::TogglePause).is_some());
    assert!(s.paused);
    let seed_before = s.seed;
    s.apply_event(&CustomWinitEvent::Reset);
    assert_eq!(s.frame_count, 0);
    let _ = seed_before;
}

#[test]
fn current_cells_follow_the_active_role() {
    let mut s = State::new(None, Some(64), Some(6), Some(50), false, None);
    assert_eq!(s.grid.current_cells(), &s.grid.buf_a);
    let rule = game_of_life::rules::rule_at(s.rule_idx);
    s.grid.step(&rule);
    assert!(!s.grid.a_is_current);
    assert_eq!(s.grid.current_cells(), &s.grid.buf_b);
}

#[test]
fn advance_while_paused_does_nothing() {
    let mut s = State::new(None, Some(64), None, None, true, Some(100));
    let before = current_cells(&s);
    let n = s.advance(5_000_000_000);
    assert_eq!(n, 0);
    assert_eq!(s.frame_count, 0);
    assert_eq!(current_cells(&s), before);
}

#[test]
fn advance_steps_match_direct_stepping() {
    let mut s = State::new(None, Some(64), Some(4), Some(30), false, Some(10));
    let mut mirror =
        game_of_life::grid::GridBufferPair::new(64, 64, 4, 30).unwrap();
    let rule = game_of_life::rules::rule_at(0);
    // 0.35 s at 10 generations per second: three whole periods.
    let n = s.advance(350_000_001);
    assert_eq!(n, 3);
    for _ in 0..3 {
        mirror.step(&rule);
    }
    assert_eq!(current_cells(&s), if mirror.a_is_current { mirror.buf_a } else { mirror.buf_b });
    // Alternation: after an odd number of steps B is current.
    assert!(!s.grid.a_is_current);
}
