use aerial_reward::adaptation::adapt_target;
use aerial_reward::wrapper::AerialWeightedWrapper;

fn wrapper_with_target(ticks: &[(u64, u32)]) -> AerialWeightedWrapper {
    let mut w = AerialWeightedWrapper::new(None, None, None, None);
    w.reset(0);
    for &(tick, height) in ticks {
        w.get_reward(tick, true, height, 1000);
    }
    w.reset(1000);
    w
}

#[test]
fn new_uses_defaults() {
    let w = AerialWeightedWrapper::new(None, None, None, None);
    assert_eq!(w.min_height(), 150);
    assert_eq!(w.max_height(), 800);
    assert_eq!(w.min_height_ratio(), 100);
    assert_eq!(w.max_height_ratio(), 4000);
    assert_eq!(w.target_height(), 150);
    assert_eq!(w.total_height(), 0);
    assert_eq!(w.num_ticks_touched(), 0);
    assert_eq!(w.last_seen_tick(), 0);
}

#[test]
fn new_takes_overrides() {
    let w = AerialWeightedWrapper::new(Some(200), Some(1000), Some(-500), Some(2500));
    assert_eq!(w.min_height(), 200);
    assert_eq!(w.max_height(), 1000);
    assert_eq!(w.min_height_ratio(), -500);
    assert_eq!(w.max_height_ratio(), 2500);
    assert_eq!(w.target_height(), 200);
}

#[test]
fn first_reset_without_samples_gives_min_height() {
    let mut w = AerialWeightedWrapper::new(None, None, None, None);
    w.reset(7);
    assert_eq!(w.target_height(), 150);
    assert_eq!(w.last_seen_tick(), 7);
    assert_eq!(w.num_ticks_touched(), 0);
    assert_eq!(w.total_height(), 0);
}

#[test]
fn reset_without_samples_above_floor_steps_down() {
    // target 262 after one episode averaging 600; no samples then count as 150
    let mut w = wrapper_with_target(&[(1, 600)]);
    assert_eq!(w.target_height(), 262);
    w.reset(2000);
    assert_eq!(w.target_height(), 262 - (262 - 150) * 5 / 100);
}

#[test]
fn downward_step_is_five_percent_of_gap() {
    assert_eq!(adapt_target(400, 200, 150, 800), 390);
}

#[test]
fn upward_step_is_quarter_of_gap() {
    assert_eq!(adapt_target(400, 600, 150, 800), 450);
}

#[test]
fn equal_average_keeps_target() {
    assert_eq!(adapt_target(400, 400, 150, 800), 400);
}

#[test]
fn extreme_average_is_capped() {
    assert_eq!(adapt_target(400, 10000, 150, 800), 800);
    assert_eq!(adapt_target(400, 801, 150, 800), 800);
}

#[test]
fn low_average_is_floored() {
    assert_eq!(adapt_target(400, 20, 150, 800), 150);
    assert_eq!(adapt_target(400, 0, 150, 800), 150);
}

#[test]
fn average_at_bounds_is_not_clamped() {
    assert_eq!(adapt_target(400, 800, 150, 800), 500);
    assert_eq!(adapt_target(400, 150, 150, 800), 388);
}

#[test]
fn reset_folds_average_of_samples() {
    // samples 500 and 700 average 600: 150 + (600 - 150) / 4 = 262
    let w = wrapper_with_target(&[(1, 500), (2, 700)]);
    assert_eq!(w.target_height(), 262);
    assert_eq!(w.num_ticks_touched(), 0);
    assert_eq!(w.total_height(), 0);
    assert_eq!(w.last_seen_tick(), 1000);
}

#[test]
fn reset_with_huge_average_stops_at_max_height() {
    let w = wrapper_with_target(&[(1, 10000)]);
    assert_eq!(w.target_height(), 800);
}

#[test]
fn average_is_rounded_down() {
    // samples 601 and 602 average 601 after rounding down: 150 + 451 / 4 = 262
    let w = wrapper_with_target(&[(1, 601), (2, 602)]);
    assert_eq!(w.target_height(), 262);
}

#[test]
fn same_tick_is_recorded_once() {
    let mut w = AerialWeightedWrapper::new(None, None, None, None);
    w.reset(0);
    w.get_reward(5, true, 300, 1000);
    w.get_reward(5, true, 300, 1000);
    assert_eq!(w.num_ticks_touched(), 1);
    assert_eq!(w.total_height(), 300);
    assert_eq!(w.last_seen_tick(), 5);
}

#[test]
fn untouched_tick_is_not_recorded() {
    let mut w = AerialWeightedWrapper::new(None, None, None, None);
    w.reset(0);
    w.get_reward(5, false, 300, 1000);
    assert_eq!(w.num_ticks_touched(), 0);
    assert_eq!(w.total_height(), 0);
    assert_eq!(w.last_seen_tick(), 0);
    w.get_reward(5, true, 300, 1000);
    assert_eq!(w.num_ticks_touched(), 1);
}

#[test]
fn tick_of_reset_is_not_recorded() {
    let mut w = AerialWeightedWrapper::new(None, None, None, None);
    w.reset(9);
    w.get_reward(9, true, 300, 1000);
    assert_eq!(w.num_ticks_touched(), 0);
    w.get_reward(10, true, 300, 1000);
    w.get_reward(11, true, 500, 1000);
    assert_eq!(w.num_ticks_touched(), 2);
    assert_eq!(w.total_height(), 800);
}

#[test]
fn multiplier_is_clamped() {
    let mut w = AerialWeightedWrapper::new(None, None, None, None);
    w.reset(0);
    assert_eq!(w.get_reward(1, false, 0, -2000), 100);
    assert_eq!(w.get_reward(2, false, 0, 99), 100);
    assert_eq!(w.get_reward(3, false, 0, 100), 100);
    assert_eq!(w.get_reward(4, false, 0, 1234), 1234);
    assert_eq!(w.get_reward(5, false, 0, 4000), 4000);
    assert_eq!(w.get_reward(6, false, 0, i64::MAX), 4000);
    assert_eq!(w.clamp_ratio(i64::MIN), 100);
}

#[test]
fn final_reward_matches_reward() {
    let mut a = AerialWeightedWrapper::new(None, None, None, None);
    let mut b = AerialWeightedWrapper::new(None, None, None, None);
    a.reset(3);
    b.reset(3);
    let ra = a.get_reward(4, true, 420, 5000);
    let rb = b.get_final_reward(4, true, 420, 5000);
    assert_eq!(ra, rb);
    assert_eq!(a.total_height(), b.total_height());
    assert_eq!(a.num_ticks_touched(), b.num_ticks_touched());
    assert_eq!(a.last_seen_tick(), b.last_seen_tick());
    a.reset(10);
    b.reset(10);
    assert_eq!(a.target_height(), b.target_height());
}
