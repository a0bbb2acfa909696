use wgpu_book::animation::{compute_bindings, FrameCounter, IterationSweep, JuliaCycle};
use wgpu_book::particles::work_group_count;

#[test]
fn julia_cycle_starts_at_the_first_parameter() {
    let c = JuliaCycle::new(10);
    assert_eq!(c.max_iter(), 2);
    assert_eq!(c.cxy_num(), 0);
}

#[test]
fn julia_cycle_moves_to_the_next_parameter_after_200() {
    let mut c = JuliaCycle::new(10);
    for _ in 0..198 {
        c.advance();
    }
    assert_eq!(c.max_iter(), 200);
    assert_eq!(c.cxy_num(), 0);
    c.advance();
    assert_eq!(c.max_iter(), 2);
    assert_eq!(c.cxy_num(), 1);
}

#[test]
fn julia_cycle_closed_form() {
    let count = 10usize;
    let mut c = JuliaCycle::new(count);
    for k in 0..(199 * count * 2 + 57) {
        assert_eq!(c.max_iter() as usize, 2 + k % 199);
        assert_eq!(c.cxy_num(), (k / 199) % count);
        c.advance();
    }
}

#[test]
fn julia_cycle_single_parameter_stays() {
    let mut c = JuliaCycle::new(1);
    for _ in 0..1000 {
        c.advance();
        assert_eq!(c.cxy_num(), 0);
    }
}

fn original_sweep(max_iter: i32) -> f32 {
    let a = 100;
    let m = (max_iter - a) % (4 * a);
    (m as f32 - 2.0 * a as f32).abs()
}

#[test]
fn sweep_levels() {
    let mut s = IterationSweep::new();
    assert_eq!(s.max_iter(), 2);
    assert_eq!(s.level(), 298);
    for _ in 0..98 {
        s.advance();
    }
    assert_eq!(s.max_iter(), 100);
    assert_eq!(s.level(), 200);
    for _ in 0..200 {
        s.advance();
    }
    assert_eq!(s.level(), 0);
    for _ in 0..200 {
        s.advance();
    }
    assert_eq!(s.level(), 200);
}

#[test]
fn sweep_matches_float_formula_and_steps_by_one() {
    let mut s = IterationSweep::new();
    let mut previous = s.level();
    for _ in 0..2000 {
        assert_eq!(s.level() as f32, original_sweep(s.max_iter()));
        s.advance();
        assert_eq!((s.level() - previous).abs(), 1);
        previous = s.level();
    }
}

#[test]
fn frame_counter_ping_pongs() {
    let mut f = FrameCounter::new();
    assert_eq!((f.compute_slot(), f.render_slot()), (0, 1));
    f.advance();
    assert_eq!((f.compute_slot(), f.render_slot()), (1, 0));
    for _ in 0..10 {
        let (_, writes) = compute_bindings(f.compute_slot());
        assert_eq!(writes, f.render_slot());
        let drawn = f.render_slot();
        f.advance();
        let (reads, _) = compute_bindings(f.compute_slot());
        assert_eq!(reads, drawn);
    }
    assert_eq!(compute_bindings(0), (0, 1));
    assert_eq!(compute_bindings(1), (1, 0));
}

fn original_groups(n: u32) -> u32 {
    ((n as f32) / (64 as f32)).ceil() as u32
}

#[test]
fn work_groups_round_up() {
    assert_eq!(work_group_count(0), 0);
    assert_eq!(work_group_count(1), 1);
    assert_eq!(work_group_count(64), 1);
    assert_eq!(work_group_count(65), 2);
    assert_eq!(work_group_count(10000), 157);
    assert_eq!(work_group_count(16_777_216), 262_144);
}

#[test]
fn work_groups_follow_single_precision_beyond_2_24() {
    // 2^24 + 1 rounds down to 2^24 in single precision
    assert_eq!(work_group_count(16_777_217), 262_144);
    assert_eq!(work_group_count(u32::MAX), 67_108_864);
    let samples = [
        16_777_217u32, 16_777_218, 16_777_219, 33_554_433, 33_554_434, 33_554_435, 33_554_436,
        100_000_001, 123_456_789, 2_147_483_647, 2_147_483_648, 4_000_000_063, u32::MAX - 1,
    ];
    for &n in samples.iter() {
        assert_eq!(work_group_count(n), original_groups(n), "n = {}", n);
    }
    let mut n: u32 = 1;
    while n < 4_000_000_000 {
        assert_eq!(work_group_count(n), original_groups(n), "n = {}", n);
        n = n.wrapping_mul(3).wrapping_add(7);
    }
}

#[test]
fn sweep_repeats_every_400_frames() {
    let mut s = IterationSweep::new();
    for _ in 0..98 {
        s.advance();
    }
    let mut first: Vec<i32> = Vec::new();
    for _ in 0..400 {
        first.push(s.level());
        s.advance();
    }
    for k in 0..400 {
        assert_eq!(s.level(), first[k]);
        assert!(s.level() >= 0 && s.level() <= 200);
        s.advance();
    }
}
