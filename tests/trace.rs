use libray::distance::{is_finite, FAR};
use libray::trace::{nearest_hit, Hit};

fn key(d: f32) -> u32 {
    d.to_bits()
}

#[test]
fn distance_keys_order_as_distances() {
    let ds = [0.0f32, 1e-30, 0.5, 1.0, 4.0, 4.000001, 1e30, f32::MAX];
    for w in ds.windows(2) {
        assert!(key(w[0]) < key(w[1]));
    }
    assert_eq!(key(f32::INFINITY), FAR);
    assert!(is_finite(key(f32::MAX)));
    assert!(!is_finite(FAR));
    assert!(is_finite(0));
}

#[test]
fn trace_without_elements_misses() {
    assert_eq!(nearest_hit(&vec![]), None);
}

#[test]
fn trace_passing_every_element_misses() {
    assert_eq!(nearest_hit(&vec![None, None, None]), None);
}

#[test]
fn trace_takes_globally_nearest() {
    let hits = vec![Some(key(9.0)), None, Some(key(4.0)), Some(key(6.5))];
    assert_eq!(nearest_hit(&hits), Some(Hit { distance: key(4.0), element: 2 }));
}

#[test]
fn trace_nearest_last_element() {
    let hits = vec![Some(key(3.0)), Some(key(2.0)), Some(key(1.0))];
    assert_eq!(nearest_hit(&hits), Some(Hit { distance: key(1.0), element: 2 }));
}

#[test]
fn trace_equal_distances_take_first() {
    let hits = vec![None, Some(key(5.0)), Some(key(2.0)), Some(key(2.0))];
    assert_eq!(nearest_hit(&hits), Some(Hit { distance: key(2.0), element: 2 }));
}

#[test]
fn trace_hit_at_zero_distance() {
    let hits = vec![Some(key(1.0)), Some(key(0.0))];
    assert_eq!(nearest_hit(&hits), Some(Hit::new(0, 1)));
}
