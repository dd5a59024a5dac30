use spin_wheel::gesture::{drag_momentum, isqrt, Point};
use spin_wheel::layout::{arc_degrees, Color, Slice, Slices};
use spin_wheel::spin::{decelerate, SpinState, Wheel};

fn slices(n: usize) -> Slices {
    let mut v = Vec::new();
    for i in 0..n {
        v.push(Slice {
            label: format!("s{i}"),
            color: Color { red: i as u8, green: 0, blue: 0 },
        });
    }
    Slices::new(v)
}

fn spinning(rotation: i64, start_time: i64, momentum: u64) -> Wheel {
    Wheel {
        rotation,
        spin: SpinState::Spinning { start_time, momentum },
        gesture: None,
    }
}

#[test]
fn five_slices_winning_index() {
    let s = slices(5);
    assert_eq!(s.slice_width(), 72);
    assert_eq!(s.winning_index(0), 0);
    assert_eq!(s.winning_index(71), 0);
    assert_eq!(s.winning_index(72), 1);
    assert_eq!(s.winning_index(359), 4);
}

#[test]
fn widths_sum_to_full_turn() {
    for n in [1usize, 5, 7, 11, 360, 361, 500] {
        let s = slices(n);
        let mut sum = 0;
        for i in 0..n {
            let (a, b) = s.boundaries(i);
            assert!(a <= b);
            sum += b - a;
        }
        assert_eq!(sum, 360, "n = {n}");
        assert_eq!(s.boundaries(n - 1).1, 360);
    }
}

#[test]
fn seven_slices_boundaries() {
    let s = slices(7);
    assert_eq!(s.slice_width(), 51);
    assert_eq!(s.boundaries(0), (0, 51));
    assert_eq!(s.boundaries(5), (255, 306));
    assert_eq!(s.boundaries(6), (306, 360));
}

#[test]
fn last_slice_wins_up_to_full_turn() {
    let s = slices(7);
    assert_eq!(s.winning_index(305), 5);
    assert_eq!(s.winning_index(306), 6);
    assert_eq!(s.winning_index(357), 6);
    assert_eq!(s.winning_index(359), 6);
}

#[test]
fn winner_stable_under_full_turn() {
    let s = slices(7);
    for a in [0u64, 1, 50, 51, 200, 359, 1000] {
        assert_eq!(s.winning_index(a), s.winning_index(a + 360));
    }
    assert_eq!(slices(5).winning_index(432), 1);
}

#[test]
fn winner_slice_is_cloned() {
    let s = slices(5);
    let w = s.current_winner_slice(150);
    assert_eq!(w.label, "s2");
    assert_eq!(w.color, Color { red: 2, green: 0, blue: 0 });
}

#[test]
fn arc_degrees_inclusive() {
    assert_eq!(arc_degrees(10, 13), vec![10, 11, 12, 13]);
    assert_eq!(arc_degrees(360, 360), vec![360]);
    assert_eq!(arc_degrees(0, 72).len(), 73);
}

#[test]
fn integer_square_root() {
    assert_eq!(isqrt(0), 0);
    assert_eq!(isqrt(1), 1);
    assert_eq!(isqrt(15), 3);
    assert_eq!(isqrt(16), 4);
    assert_eq!(isqrt(17), 4);
    assert_eq!(isqrt(1_000_000_000_000), 1_000_000);
}

#[test]
fn drag_momentum_is_fifth_of_distance() {
    let o = Point { x: 0, y: 0 };
    assert_eq!(drag_momentum(o, Point { x: 3, y: 4 }), 1000);
    assert_eq!(drag_momentum(Point { x: 3, y: 4 }, o), 1000);
    assert_eq!(drag_momentum(o, Point { x: 1, y: 1 }), 282);
    assert_eq!(drag_momentum(o, Point { x: -50, y: 0 }), 10_000);
    let far = drag_momentum(Point { x: i32::MIN, y: i32::MIN }, Point { x: i32::MAX, y: i32::MAX });
    assert_eq!(far, 1_214_800_199_707);
}

#[test]
fn decay_is_linear() {
    assert_eq!(decelerate(0, 10_000), 10_000);
    assert_eq!(decelerate(5_000, 10_000), 5_000);
    assert_eq!(decelerate(10_000, 10_000), 0);
    assert_eq!(decelerate(12_000, 10_000), -2_000);
}

#[test]
fn momentum_ten_half_way_still_spins() {
    // momentum 10, elapsed 5 s: speed 0.05 rad, that is 5000 units
    let mut w = spinning(1_000, 0, 10_000);
    assert!(w.can_update(5_000));
    w.update(5_000);
    assert_eq!(w.rotation, 6_000);
    assert!(w.is_running());
}

#[test]
fn momentum_ten_exhausted_stops() {
    let mut w = spinning(1_000, 0, 10_000);
    w.update(10_000);
    assert!(!w.is_running());
    assert_eq!(w.spin, SpinState::Stopped { angle: 1_000 });
    assert_eq!(w.rotation, 1_000);
}

#[test]
fn speed_just_under_threshold_stops() {
    let mut w = spinning(7, 0, 10_000);
    w.update(9_901);
    assert_eq!(w.spin, SpinState::Stopped { angle: 7 });
    let mut w = spinning(7, 0, 10_000);
    w.update(9_900);
    assert_eq!(w.rotation, 107);
    assert!(w.is_running());
}

#[test]
fn stopped_ticks_keep_angle() {
    let mut w = spinning(4_242, 0, 10_000);
    w.update(20_000);
    for t in [20_001i64, 30_000, 1_000_000] {
        w.update(t);
        assert_eq!(w.rotation, 4_242);
        assert_eq!(w.spin, SpinState::Stopped { angle: 4_242 });
    }
}

#[test]
fn still_gesture_stops_on_first_tick() {
    let mut w = spinning(500, 0, 100_000);
    w.update(10);
    let before = w.rotation;
    let p = Point { x: 12, y: -7 };
    w.mouse_pressed(p);
    assert!(!w.is_running());
    w.mouse_released(p, 2_000);
    assert_eq!(w.spin, SpinState::Spinning { start_time: 2_000, momentum: 0 });
    assert!(w.gesture.is_none());
    w.update(2_000);
    assert!(!w.is_running());
    assert_eq!(w.rotation, before);
}

#[test]
fn drag_sets_wheel_spinning() {
    let mut w = Wheel::new();
    assert_eq!(w.rotation, 0);
    w.mouse_pressed(Point { x: 0, y: 0 });
    assert_eq!(w.gesture, Some(Point { x: 0, y: 0 }));
    // a second press while one is pending is ignored
    w.mouse_pressed(Point { x: 9, y: 9 });
    assert_eq!(w.gesture, Some(Point { x: 0, y: 0 }));
    w.mouse_released(Point { x: 30, y: 40 }, 1_000);
    assert_eq!(w.spin, SpinState::Spinning { start_time: 1_000, momentum: 10_000 });
    w.update(1_100);
    assert_eq!(w.rotation, 9_900);
    w.update(1_200);
    assert_eq!(w.rotation, 9_900 + 9_800);
    // a release with no pending press is ignored
    w.mouse_released(Point { x: 0, y: 0 }, 1_300);
    assert_eq!(w.spin, SpinState::Spinning { start_time: 1_000, momentum: 10_000 });
}

#[test]
fn press_freezes_spinning_wheel() {
    let mut w = spinning(0, 0, 10_000);
    w.update(0);
    assert_eq!(w.rotation, 10_000);
    w.mouse_pressed(Point { x: 1, y: 1 });
    assert_eq!(w.spin, SpinState::Stopped { angle: 10_000 });
    w.update(1);
    assert_eq!(w.rotation, 10_000);
}

#[test]
fn update_that_would_overflow_is_reported() {
    let w = spinning(i64::MAX - 10, 0, 10_000);
    assert!(!w.can_update(0));
    assert!(w.can_update(9_990));
    assert!(Wheel::new().can_update(i64::MAX));
}
