use raysr::nearest::NearestHit;

fn key(t: f32) -> u32 {
    t.to_bits()
}

fn scan(t_max: f32, ts: &[Option<f32>]) -> NearestHit {
    let mut s = NearestHit::new(key(t_max));
    for (i, t) in ts.iter().enumerate() {
        s.offer(i, t.map(key));
    }
    s
}

// The answer an independent test of every object gives: the first least distance below t_max.
fn independent(t_max: f32, ts: &[Option<f32>]) -> Option<usize> {
    let mut best: Option<(usize, f32)> = None;
    for (i, t) in ts.iter().enumerate() {
        if let Some(t) = *t {
            if t < t_max && best.map_or(true, |(_, b)| t < b) {
                best = Some((i, t));
            }
        }
    }
    best.map(|(i, _)| i)
}

#[test]
fn empty_scene_has_no_hit() {
    let s = scan(f32::MAX, &[]);
    assert_eq!(s.index, None);
    assert_eq!(s.bound, key(f32::MAX));
}

#[test]
fn all_misses_keep_the_bound() {
    let s = scan(f32::MAX, &[None, None, None]);
    assert_eq!(s.index, None);
    assert_eq!(s.bound, key(f32::MAX));
}

#[test]
fn nearest_of_three_is_taken() {
    let s = scan(f32::MAX, &[Some(3.5), Some(0.75), Some(2.0)]);
    assert_eq!(s.index, Some(1));
    assert_eq!(s.bound, key(0.75));
}

#[test]
fn equal_distances_keep_the_first() {
    let s = scan(f32::MAX, &[None, Some(1.25), Some(1.25), Some(4.0)]);
    assert_eq!(s.index, Some(1));
    assert_eq!(s.bound, key(1.25));
}

#[test]
fn hits_at_or_beyond_t_max_are_rejected() {
    let s = scan(2.0, &[Some(2.0), Some(7.5), None]);
    assert_eq!(s.index, None);
    assert_eq!(s.bound, key(2.0));
    let s = scan(2.0, &[Some(2.0), Some(1.999), Some(7.5)]);
    assert_eq!(s.index, Some(1));
}

#[test]
fn offer_narrows_the_bound() {
    let mut s = NearestHit::new(key(10.0));
    s.offer(0, Some(key(6.0)));
    assert_eq!(s, NearestHit { bound: key(6.0), index: Some(0) });
    s.offer(1, Some(key(8.0)));
    assert_eq!(s, NearestHit { bound: key(6.0), index: Some(0) });
    s.offer(2, None);
    assert_eq!(s, NearestHit { bound: key(6.0), index: Some(0) });
    s.offer(3, Some(key(0.001)));
    assert_eq!(s, NearestHit { bound: key(0.001), index: Some(3) });
}

#[test]
fn narrowing_scan_agrees_with_independent_tests() {
    let scenes: [&[Option<f32>]; 5] = [
        &[Some(1.0), Some(0.5), Some(0.25)],
        &[Some(0.25), Some(0.5), Some(1.0)],
        &[None, Some(1000.0), Some(0.001), Some(0.001), None],
        &[Some(99.5), None, Some(99.5), Some(100.5)],
        &[Some(f32::INFINITY), Some(3.0e38)],
    ];
    for ts in scenes {
        for t_max in [f32::MAX, 100.0, 1.0, 0.001] {
            assert_eq!(scan(t_max, ts).index, independent(t_max, ts));
        }
    }
}
