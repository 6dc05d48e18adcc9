use pathtracer::path::{choose_light, BounceOutcome, PathState};

#[test]
fn fresh_path_counts_primary_emission() {
    let p = PathState::start(5);
    assert!(p.alive);
    assert_eq!(p.bounces, 0);
    assert!(p.counts_emission());
    assert!(!p.roulette_active());
}

#[test]
fn zero_depth_path_is_never_traced() {
    let p = PathState::start(0);
    assert!(!p.alive);
}

#[test]
fn emission_counts_only_after_specular_bounces() {
    let mut p = PathState::start(6);
    p.advance(BounceOutcome::Scattered { is_delta: true });
    assert!(p.counts_emission());
    p.advance(BounceOutcome::Scattered { is_delta: false });
    assert!(!p.counts_emission());
    p.advance(BounceOutcome::Scattered { is_delta: true });
    assert!(p.counts_emission());
}

#[test]
fn path_dies_at_its_bounce_budget() {
    let mut p = PathState::start(5);
    for _ in 0..4 {
        p.advance(BounceOutcome::Scattered { is_delta: false });
        assert!(p.alive);
    }
    p.advance(BounceOutcome::Scattered { is_delta: false });
    assert!(!p.alive);
    assert_eq!(p.bounces, 5);
}

#[test]
fn roulette_waits_for_the_fourth_bounce() {
    let mut p = PathState::start(10);
    for bounce in 0..10 {
        assert_eq!(p.roulette_active(), bounce > 3);
        p.advance(BounceOutcome::Scattered { is_delta: false });
    }
}

#[test]
fn terminating_outcomes_end_the_path() {
    for outcome in [
        BounceOutcome::Miss,
        BounceOutcome::Absorbed,
        BounceOutcome::SampleRejected,
    ] {
        let mut p = PathState::start(5);
        p.advance(BounceOutcome::Scattered { is_delta: false });
        p.advance(outcome);
        assert!(!p.alive);
        assert_eq!(p.bounces, 1);
    }

    let mut p = PathState::start(9);
    for _ in 0..5 {
        p.advance(BounceOutcome::Scattered { is_delta: false });
    }
    assert!(p.roulette_active());
    p.advance(BounceOutcome::RouletteKilled);
    assert!(!p.alive);
}

#[test]
fn light_pick_clamps_the_boundary_draw() {
    assert_eq!(choose_light(0, 4), 0);
    assert_eq!(choose_light(3, 4), 3);
    assert_eq!(choose_light(4, 4), 3);
    assert_eq!(choose_light(100, 4), 3);
    assert_eq!(choose_light(0, 1), 0);
}
