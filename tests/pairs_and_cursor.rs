use three_body::{unordered_pairs, CursorCoords};

#[test]
fn pairs_of_three() {
    assert_eq!(unordered_pairs(3), vec![(0, 1), (0, 2), (1, 2)]);
}

#[test]
fn pairs_of_none_or_one() {
    assert!(unordered_pairs(0).is_empty());
    assert!(unordered_pairs(1).is_empty());
}

#[test]
fn pairs_count_is_half_square() {
    for n in 0..12usize {
        let r = unordered_pairs(n);
        assert_eq!(r.len(), n * n.saturating_sub(1) / 2);
        for w in r.windows(2) {
            assert!(w[0] < w[1]);
        }
    }
}

#[test]
fn click_outside_viewport_spawns_nothing() {
    let mut c: CursorCoords<(f32, f32)> = CursorCoords::new();
    assert!(c.spawn_point().is_none());
    c.update(Some((1.5, -2.0)));
    assert_eq!(c.spawn_point(), Some(&(1.5, -2.0)));
    c.update(None);
    assert!(c.spawn_point().is_none());
}
