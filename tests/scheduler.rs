use paperboy::{activate_house, initialize_houses, DeliveryScheduler, House, Point};
use rand::rngs::StdRng;
use rand::SeedableRng;

const BASE: u64 = 10_000_000_000;

fn changed(before: &[House], after: &[House]) -> Vec<usize> {
    (0..before.len()).filter(|&i| before[i] != after[i]).collect()
}

#[test]
fn houses_start_inactive_in_two_rows() {
    let houses = initialize_houses();
    assert_eq!(houses.len(), 6);
    assert!(houses.iter().all(|h| !h.active));
    assert_eq!(houses[0].position, Point::new(100, 115));
    assert_eq!(houses[2].position, Point::new(-10, 115));
    assert_eq!(houses[5].position, Point::new(-10, 45));
}

#[test]
fn expiry_activates_exactly_one_house() {
    for seed in 0..50u64 {
        let mut rng = StdRng::seed_from_u64(seed);
        let mut s = DeliveryScheduler::new(BASE);
        let mut houses = initialize_houses();
        let before = houses.clone();
        assert!(s.tick(BASE, &mut houses, &mut rng));
        let diff = changed(&before, &houses);
        assert_eq!(diff.len(), 1);
        assert!(houses[diff[0]].active);
        assert_eq!(houses[diff[0]].position, before[diff[0]].position);
        assert_eq!(s.elapsed(), 0);
        assert!(s.duration() < 2 * BASE);
        assert_eq!(s.base_duration(), BASE);
    }
}

#[test]
fn expiry_on_an_active_house_may_change_nothing() {
    let mut rng = StdRng::seed_from_u64(7);
    let mut s = DeliveryScheduler::new(BASE);
    let mut houses = vec![House { position: Point::new(1, 1), active: true }];
    assert!(s.tick(BASE + 5, &mut houses, &mut rng));
    assert!(houses[0].active);
    assert_eq!(houses.len(), 1);
}

#[test]
fn resampled_durations_vary_and_stay_below_twice_base() {
    let mut rng = StdRng::seed_from_u64(42);
    let mut s = DeliveryScheduler::new(BASE);
    let mut houses = initialize_houses();
    let mut seen = Vec::new();
    for _ in 0..20 {
        let d = s.duration();
        assert!(s.tick(d, &mut houses, &mut rng));
        assert!(s.duration() < 2 * BASE);
        seen.push(s.duration());
    }
    seen.sort();
    seen.dedup();
    assert!(seen.len() > 1);
}

#[test]
fn empty_houses_still_reset_and_resample() {
    let mut rng = StdRng::seed_from_u64(1);
    let mut s = DeliveryScheduler::new(BASE);
    let mut houses: Vec<House> = Vec::new();
    assert!(!s.tick(BASE / 2, &mut houses, &mut rng));
    assert_eq!(s.elapsed(), BASE / 2);
    assert!(s.tick(BASE / 2, &mut houses, &mut rng));
    assert!(houses.is_empty());
    assert_eq!(s.elapsed(), 0);
    assert!(s.duration() < 2 * BASE);
}

#[test]
fn no_expiry_before_duration() {
    let mut rng = StdRng::seed_from_u64(3);
    let mut s = DeliveryScheduler::new(BASE);
    let mut houses = initialize_houses();
    assert!(!s.tick(BASE - 1, &mut houses, &mut rng));
    assert_eq!(s.elapsed(), BASE - 1);
    assert_eq!(s.duration(), BASE);
    assert_eq!(houses, initialize_houses());
    assert!(s.tick(1, &mut houses, &mut rng));
}

#[test]
fn tick_with_given_draws() {
    let mut s = DeliveryScheduler::new(100);
    let mut houses = initialize_houses();
    assert!(!s.tick_with(60, &mut houses, 5, Some(3)));
    assert_eq!(s.elapsed(), 60);
    assert_eq!(houses, initialize_houses());
    assert!(s.tick_with(40, &mut houses, 0, Some(3)));
    assert_eq!(s.elapsed(), 0);
    assert_eq!(s.duration(), 0);
    assert!(houses[3].active);
    assert_eq!(changed(&initialize_houses(), &houses), vec![3]);
    // a countdown of zero runs out on the next tick, even one of no time
    assert!(s.tick_with(0, &mut houses, 150, None));
    assert_eq!(s.duration(), 150);
    assert_eq!(changed(&initialize_houses(), &houses), vec![3]);
}

#[test]
fn advance_saturates_on_huge_delta() {
    let mut s = DeliveryScheduler::new(100);
    assert!(!s.advance(99));
    assert!(s.advance(u64::MAX));
    assert_eq!(s.elapsed(), 0);
    assert_eq!(s.duration(), 100);
    s.restart(199);
    assert_eq!(s.duration(), 199);
}

#[test]
fn activate_house_sets_only_the_pick() {
    let mut houses = initialize_houses();
    activate_house(&mut houses, None);
    assert_eq!(houses, initialize_houses());
    activate_house(&mut houses, Some(5));
    activate_house(&mut houses, Some(5));
    assert_eq!(changed(&initialize_houses(), &houses), vec![5]);
    assert!(houses[5].active);
}
