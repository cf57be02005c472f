use war_sheep::geometry::{distance_squared, is_beyond_half, is_within, Point};
use war_sheep::targeting::{nearest_within, select_target, Candidate};
use war_sheep::utils::{bounds_check, Bounds, Health};

fn at(x: i32, y: i32) -> Point {
    Point { x, y }
}

fn candidate(id: u64, x: i32, y: i32) -> Candidate {
    Candidate { id, position: at(x, y) }
}

#[test]
fn distance_squared_of_a_right_triangle() {
    assert_eq!(distance_squared(at(0, 0), at(3000, 4000)), 25_000_000);
    assert_eq!(distance_squared(at(3000, 4000), at(0, 0)), 25_000_000);
    assert_eq!(distance_squared(at(-1, -1), at(-1, -1)), 0);
}

#[test]
fn distance_squared_across_the_whole_plane() {
    let far: u128 = 4_294_967_295;
    assert_eq!(
        distance_squared(at(i32::MIN, i32::MIN), at(i32::MAX, i32::MAX)),
        2 * far * far
    );
}

#[test]
fn within_includes_the_rim() {
    assert!(is_within(at(0, 0), at(3000, 4000), 5000));
    assert!(!is_within(at(0, 0), at(3000, 4000), 4999));
    assert!(is_within(at(7, 7), at(7, 7), 0));
}

#[test]
fn nothing_is_within_a_negative_range() {
    assert!(!is_within(at(0, 0), at(0, 0), -1));
    assert!(!is_within(at(0, 0), at(0, 0), -800));
    assert!(!is_within(at(0, 0), at(0, 0), i64::MIN));
}

#[test]
fn within_takes_the_widest_range() {
    assert!(is_within(at(i32::MIN, i32::MIN), at(i32::MAX, i32::MAX), i64::MAX));
}

#[test]
fn beyond_half_starts_at_half_the_range() {
    assert!(is_beyond_half(at(0, 0), at(500, 0), 1000));
    assert!(!is_beyond_half(at(0, 0), at(499, 0), 1000));
    assert!(is_beyond_half(at(0, 0), at(0, 0), -1));
    assert!(is_beyond_half(at(0, 0), at(0, 0), 0));
}

#[test]
fn out_of_range_is_always_beyond_half() {
    let origin = at(0, 0);
    let ranges: [i64; 5] = [-5, 0, 1, 1000, 2500];
    let mut x: i32 = -3000;
    while x <= 3000 {
        for range in ranges.iter() {
            if !is_within(origin, at(x, 100), *range) {
                assert!(is_beyond_half(origin, at(x, 100), *range));
            }
        }
        x += 250;
    }
}

#[test]
fn select_target_of_nobody_is_nobody() {
    let nobody: Vec<Candidate> = Vec::new();
    assert_eq!(select_target(at(0, 0), &nobody, 1000), None);
}

#[test]
fn select_target_leaves_out_who_is_too_far() {
    let candidates = vec![candidate(1, 5000, 0), candidate(2, 0, -3001)];
    assert_eq!(select_target(at(0, 0), &candidates, 3000), None);
    assert_eq!(select_target(at(0, 0), &candidates, 3001), Some(2));
}

#[test]
fn select_target_takes_the_nearest() {
    let candidates = vec![candidate(10, 4000, 0), candidate(11, 1000, 1000), candidate(12, -3000, 0)];
    assert_eq!(select_target(at(0, 0), &candidates, 100_000), Some(11));
    assert_eq!(select_target(at(3500, 0), &candidates, 100_000), Some(10));
}

#[test]
fn select_target_takes_the_first_of_equals() {
    let candidates = vec![candidate(7, 0, 2000), candidate(8, 2000, 0), candidate(9, -2000, 0)];
    assert_eq!(select_target(at(0, 0), &candidates, 2000), Some(7));
    let turned = vec![candidate(9, -2000, 0), candidate(8, 2000, 0), candidate(7, 0, 2000)];
    assert_eq!(select_target(at(0, 0), &turned, 2000), Some(9));
}

#[test]
fn select_target_with_a_negative_range_is_nobody() {
    let candidates = vec![candidate(1, 0, 0)];
    assert_eq!(select_target(at(0, 0), &candidates, -1), None);
}

#[test]
fn select_target_never_names_one_out_of_range() {
    let candidates = vec![
        candidate(0, 900, 900),
        candidate(1, -1200, 300),
        candidate(2, 100, -2500),
        candidate(3, 3000, 3000),
    ];
    let mut range: i64 = 0;
    while range <= 5000 {
        let origin = at(50, -50);
        match select_target(origin, &candidates, range) {
            Some(id) => {
                let chosen = candidates[id as usize];
                assert!(is_within(origin, chosen.position, range));
                for other in candidates.iter() {
                    assert!(
                        distance_squared(origin, chosen.position) <= distance_squared(origin, other.position)
                    );
                }
            }
            None => {
                for other in candidates.iter() {
                    assert!(!is_within(origin, other.position, range));
                }
            }
        }
        range += 100;
    }
}

#[test]
fn nearest_within_gives_the_place() {
    let points = vec![at(10, 10), at(1, 1), at(1, -1), at(-5, 0)];
    assert_eq!(nearest_within(at(0, 0), &points, 50), Some(1));
    assert_eq!(nearest_within(at(0, 0), &points, 1), None);
    assert_eq!(nearest_within(at(-5, 1), &points, 1), Some(3));
}

#[test]
fn health_starts_full() {
    let h = Health::new(60_000);
    assert_eq!(h.current, 60_000);
    assert_eq!(h.max, 60_000);
    assert!(!h.depleted());
    assert_eq!(h.fraction(), 1000);
}

#[test]
fn health_takes_damage() {
    let mut h = Health::new(20_000);
    h.take_damage(200);
    assert_eq!(h, Health { current: 19_800, max: 20_000 });
    assert_eq!(h.fraction(), 990);
    h.take_damage(19_800);
    assert_eq!(h.current, 0);
    assert!(h.depleted());
    assert_eq!(h.fraction(), 0);
    h.take_damage(1);
    assert_eq!(h.current, -1);
    assert_eq!(h.fraction(), 0);
}

#[test]
fn health_stops_at_the_lowest_value() {
    let mut h = Health { current: i64::MIN + 5, max: 10 };
    h.take_damage(10);
    assert_eq!(h.current, i64::MIN);
    let mut g = Health { current: 0, max: 10 };
    g.take_damage(u64::MAX);
    assert_eq!(g.current, i64::MIN);
}

#[test]
fn health_fraction_rounds_down() {
    assert_eq!(Health { current: 1, max: 3 }.fraction(), 333);
    assert_eq!(Health { current: 2, max: 3 }.fraction(), 666);
    assert_eq!(Health { current: 5, max: 3 }.fraction(), 1000);
    assert_eq!(Health { current: i64::MAX - 1, max: i64::MAX }.fraction(), 999);
}

#[test]
fn bounds_check_brings_a_point_back() {
    let bounds = Bounds { x: (-6200, 6200), y: (-6400, 7000) };
    assert_eq!(bounds_check(at(0, 0), &bounds), at(0, 0));
    assert_eq!(bounds_check(at(7000, 0), &bounds), at(6200, 0));
    assert_eq!(bounds_check(at(-7000, 8000), &bounds), at(-6200, 7000));
    assert_eq!(bounds_check(at(6200, -6401), &bounds), at(6200, -6400));
}

#[test]
fn bounds_check_tests_the_upper_limit_first() {
    let crossed = Bounds { x: (10, 5), y: (0, 0) };
    assert_eq!(bounds_check(at(7, 0), &crossed), at(5, 0));
    assert_eq!(bounds_check(at(3, 0), &crossed), at(10, 0));
}
