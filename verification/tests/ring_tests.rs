use robo_monitor::arith::floor_div;
use robo_monitor::ring::{RingStatistic, Sample};

fn values(ring: &RingStatistic) -> Vec<i64> {
    ring.snapshot().iter().map(|s| s.value).collect()
}

fn indices(ring: &RingStatistic) -> Vec<u64> {
    ring.snapshot().iter().map(|s| s.index).collect()
}

#[test]
fn seed_numbers_zero_readings_newest_first() {
    let ring = RingStatistic::seed(4);
    assert_eq!(ring.capacity(), 4);
    assert_eq!(indices(&ring), vec![3, 2, 1, 0]);
    assert_eq!(values(&ring), vec![0, 0, 0, 0]);
    assert_eq!(ring.total(), 0);
    assert_eq!(ring.mean(), (0, 0));
    assert_eq!(ring.newest(), Sample { index: 3, value: 0 });
    assert_eq!(ring.oldest(), Sample { index: 0, value: 0 });
}

#[test]
fn seed_of_one_slot() {
    let mut ring = RingStatistic::seed(1);
    assert_eq!(ring.snapshot(), vec![Sample { index: 0, value: 0 }]);
    ring.push(-7);
    assert_eq!(ring.snapshot(), vec![Sample { index: 1, value: -7 }]);
    assert_eq!(ring.total(), -7);
    assert_eq!(ring.mean(), (-7, 0));
}

#[test]
fn push_five_onto_four_zeros() {
    let mut ring = RingStatistic::seed(4);
    ring.push(5000);
    assert_eq!(ring.newest(), Sample { index: 4, value: 5000 });
    assert_eq!(indices(&ring), vec![4, 3, 2, 1]);
    assert_eq!(values(&ring), vec![5000, 0, 0, 0]);
    assert_eq!(ring.total(), 5000);
    assert_eq!(ring.mean(), (1250, 0));
}

#[test]
fn length_stays_after_every_push() {
    let mut ring = RingStatistic::seed(5);
    for v in 0..37i64 {
        ring.push(v * 11 - 100);
        assert_eq!(ring.capacity(), 5);
        assert_eq!(ring.snapshot().len(), 5);
    }
}

#[test]
fn indices_grow_by_one_on_every_push() {
    let mut ring = RingStatistic::seed(3);
    for k in 0..20u64 {
        let before = ring.newest().index;
        ring.push(1);
        assert_eq!(ring.newest().index, before + 1);
        assert_eq!(ring.newest().index, 3 + k);
        let shot = ring.snapshot();
        for w in shot.windows(2) {
            assert_eq!(w[0].index, w[1].index + 1);
        }
    }
}

#[test]
fn total_equals_fresh_sum_after_pushes() {
    let mut ring = RingStatistic::seed(4);
    let input = [10i64, -3, 7, 7, 1000, -250, 0, 42, i64::MAX, i64::MIN, 5];
    for v in input {
        ring.push(v);
        let fresh: i128 = ring.snapshot().iter().map(|s| s.value as i128).sum();
        assert_eq!(ring.total(), fresh);
        let (whole, rest) = ring.mean();
        assert_eq!((whole as i128) * 4 + (rest as i128), fresh);
        assert!(rest < 4);
    }
    assert_eq!(values(&ring), vec![5, i64::MIN, i64::MAX, 42]);
    assert_eq!(ring.total(), 46);
    assert_eq!(ring.mean(), (11, 2));
}

#[test]
fn mean_rounds_towards_minus_infinity() {
    let mut ring = RingStatistic::seed(4);
    ring.push(-5);
    assert_eq!(ring.total(), -5);
    assert_eq!(ring.mean(), (-2, 3));
    ring.push(6);
    assert_eq!(ring.total(), 1);
    assert_eq!(ring.mean(), (0, 1));
}

#[test]
fn mean_of_extreme_values_fits() {
    let mut ring = RingStatistic::seed(2);
    ring.push(i64::MIN);
    ring.push(i64::MIN);
    assert_eq!(ring.mean(), (i64::MIN, 0));
    ring.push(i64::MAX);
    ring.push(i64::MAX);
    assert_eq!(ring.mean(), (i64::MAX, 0));
}

#[test]
fn oldest_is_what_the_next_push_drops() {
    let mut ring = RingStatistic::seed(3);
    ring.push(1);
    ring.push(2);
    ring.push(3);
    assert_eq!(ring.oldest(), Sample { index: 3, value: 1 });
    ring.push(4);
    assert_eq!(ring.oldest(), Sample { index: 4, value: 2 });
    assert_eq!(ring.total(), 9);
}

#[test]
fn floor_div_exact_values() {
    assert_eq!(floor_div(7, 2), (3, 1));
    assert_eq!(floor_div(-7, 2), (-4, 1));
    assert_eq!(floor_div(-8, 2), (-4, 0));
    assert_eq!(floor_div(0, 5), (0, 0));
    assert_eq!(floor_div(-1, 5), (-1, 4));
    assert_eq!(floor_div(i128::MIN, 1), (i128::MIN, 0));
    assert_eq!(floor_div(i128::MAX, i128::MAX), (1, 0));
    assert_eq!(floor_div(i128::MIN, i128::MAX), (-2, i128::MAX - 1));
}
