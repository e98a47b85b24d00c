use three_body::{trail_color, Controller, InputEvent, Trail, TrailStore};

#[test]
fn trail_keeps_most_recent_points() {
    let mut t: Trail<[f32; 3]> = Trail::new(3);
    for k in 0..10 {
        t.record([k as f32, 0.0, 0.0]);
        assert!(t.len() <= t.capacity());
    }
    let xs: Vec<f32> = t.points().iter().map(|p| p[0]).collect();
    assert_eq!(xs, vec![7.0, 8.0, 9.0]);
}

#[test]
fn trail_below_capacity_keeps_everything() {
    let mut t: Trail<u32> = Trail::new(5);
    t.record(1);
    t.record(2);
    assert_eq!(t.points(), &vec![1, 2]);
}

#[test]
fn zero_capacity_trail_stays_empty() {
    let mut t: Trail<u32> = Trail::new(0);
    t.record(1);
    assert_eq!(t.len(), 0);
    let s: Trail<u32> = Trail::seeded(0, 4);
    assert!(s.points().is_empty());
}

#[test]
fn seeded_trail_holds_its_seed() {
    let t: Trail<u32> = Trail::seeded(20, 4);
    assert_eq!(t.points(), &vec![4]);
    assert_eq!(t.capacity(), 20);
}

#[test]
fn store_creates_trail_lazily() {
    let mut s: TrailStore<u32> = TrailStore::new();
    let a = s.spawn(2);
    let b = s.spawn(100);
    assert_eq!((a, b), (0, 1));
    assert_eq!(s.len(), 2);
    assert!(s.snapshot(a).is_none());
    s.record(a, 10);
    assert_eq!(s.snapshot(a), Some(&vec![10]));
    assert!(s.snapshot(b).is_none());
    s.record(a, 11);
    s.record(a, 12);
    assert_eq!(s.snapshot(a), Some(&vec![11, 12]));
    assert_eq!(s.capacity(a), 2);
    assert_eq!(s.capacity(b), 100);
}

#[test]
fn stopped_record_leaves_trail_unchanged() {
    let mut s: TrailStore<u32> = TrailStore::new();
    let h = s.spawn(20);
    let mut c = Controller::new();
    s.record_gated(&c, h, 1);
    assert!(s.snapshot(h).is_none());
    c.handle(InputEvent::ToggleRun);
    s.record_gated(&c, h, 2);
    assert_eq!(s.snapshot(h), Some(&vec![2]));
    c.handle(InputEvent::ToggleRun);
    s.record_gated(&c, h, 3);
    assert_eq!(s.snapshot(h), Some(&vec![2]));
    c.handle(InputEvent::ToggleRun);
    c.handle(InputEvent::ToggleTrail);
    s.record_gated(&c, h, 4);
    assert_eq!(s.snapshot(h), Some(&vec![2]));
    c.handle(InputEvent::ToggleTrail);
    s.record_gated(&c, h, 5);
    assert_eq!(s.snapshot(h), Some(&vec![2, 5]));
}

#[test]
fn trail_color_falls_back() {
    assert_eq!(trail_color(Some(1), Some(2), 3), 1);
    assert_eq!(trail_color(None, Some(2), 3), 2);
    assert_eq!(trail_color(None, None, 3), 3);
}
