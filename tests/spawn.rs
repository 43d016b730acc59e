use eldritch_core::anim::Species;
use eldritch_core::spawn::{spawn_due, MAX_PLUM_COUNT, MAX_SPIDER_COUNT};

#[test]
fn no_spawn_before_activity() {
    assert!(!spawn_due(Species::Plum, 0, false, true));
    assert!(!spawn_due(Species::Spider, 0, false, true));
}

#[test]
fn spawn_when_interval_passed() {
    assert!(spawn_due(Species::Plum, 0, true, true));
    assert!(!spawn_due(Species::Plum, 0, true, false));
}

#[test]
fn plum_population_cap() {
    assert_eq!(MAX_PLUM_COUNT, 30);
    assert!(spawn_due(Species::Plum, 30, true, true));
    assert!(!spawn_due(Species::Plum, 31, true, true));
}

#[test]
fn spider_population_cap() {
    assert_eq!(MAX_SPIDER_COUNT, 1000);
    assert!(spawn_due(Species::Spider, 1000, true, true));
    assert!(!spawn_due(Species::Spider, 1001, true, true));
}
