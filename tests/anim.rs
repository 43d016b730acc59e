use eldritch_core::anim::{AnimationIndices, Clip, PlayingClips, Species};

fn spider_table() -> AnimationIndices {
    let mut t = AnimationIndices::new();
    for (i, name) in [
        "Attack",
        "Wandering_Walk_Cycle",
        "Wandering_Turn_Left",
        "Wandering_Turn_Right",
        "Idle",
    ]
    .iter()
    .enumerate()
    {
        t.insert(name.to_string(), i as u32 + 1);
    }
    t
}

#[test]
fn index_table_lookup() {
    let t = spider_table();
    assert_eq!(t.len(), 5);
    assert_eq!(t.get("Attack"), Some(1));
    assert_eq!(t.get("Idle"), Some(5));
    assert_eq!(t.get("Fast_Walk_Cycle"), None);
    assert_eq!(t.node_of(Species::Spider, Clip::Walk), Some(2));
    assert_eq!(t.node_of(Species::Spider, Clip::TurnRight), Some(4));
    assert_eq!(t.node_of(Species::Plum, Clip::Walk), None);
}

#[test]
fn index_table_replaces_same_name() {
    let mut t = spider_table();
    t.insert("Attack".to_string(), 42);
    assert_eq!(t.len(), 5);
    assert_eq!(t.get("Attack"), Some(42));
    assert_eq!(t.get("Wandering_Turn_Left"), Some(3));
}

#[test]
fn index_table_clip_coverage() {
    let t = spider_table();
    assert!(t.has_all_clips(Species::Spider));
    assert!(!t.has_all_clips(Species::Plum));
    let empty = AnimationIndices::new();
    assert_eq!(empty.len(), 0);
    assert!(!empty.has_all_clips(Species::Spider));
}

#[test]
fn playing_clips_start() {
    let mut p = PlayingClips::none();
    assert!(!p.playing(Clip::Attack));
    p.start(Clip::TurnLeft);
    assert!(p.playing(Clip::TurnLeft));
    assert!(!p.playing(Clip::TurnRight) && !p.playing(Clip::Walk));
    p.start(Clip::Walk);
    assert!(p.playing(Clip::TurnLeft) && p.playing(Clip::Walk));
}

#[test]
fn index_table_from_entries() {
    let t = AnimationIndices::from_entries(vec![
        ("Attack".to_string(), 4),
        ("Fast_Walk_Cycle".to_string(), 5),
        ("Fast_Turning_Left".to_string(), 6),
        ("Fast_Turning_Right".to_string(), 7),
        ("Attack".to_string(), 9),
    ]);
    assert_eq!(t.len(), 4);
    assert_eq!(t.get("Attack"), Some(9));
    assert_eq!(t.node_of(Species::Plum, Clip::TurnLeft), Some(6));
    assert!(t.has_all_clips(Species::Plum));
    assert!(!t.has_all_clips(Species::Spider));
    assert_eq!(AnimationIndices::from_entries(Vec::new()).len(), 0);
}
