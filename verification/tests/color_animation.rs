use greeting_card::animate::apply_colors;
use greeting_card::color::{color_from_sins, color_phases, Color, COLOR_SCALE};
use greeting_card::scene::{build_scene, Entity};

const PI: f64 = std::f64::consts::PI;

/// The sine of a phase given in microradians, scaled to micro-units and
/// clamped into the range the library requires.
fn sin_micro(phase_micros: u64) -> i64 {
    let s = (phase_micros as f64 / 1e6).sin();
    ((s * 1e6).round() as i64).clamp(-COLOR_SCALE, COLOR_SCALE)
}

/// The frame color at elapsed time `t` seconds, through the library's
/// fixed-point pipeline.
fn animated_color(t_seconds: f64) -> Color {
    let t_micros = (t_seconds * 1e6).round() as u64;
    let (pr, pg, pb) = color_phases(t_micros);
    color_from_sins(sin_micro(pr), sin_micro(pg), sin_micro(pb))
}

fn close(channel_micro: i64, expected: f64) -> bool {
    (channel_micro as f64 / 1e6 - expected).abs() < 1e-4
}

#[test]
fn phases_follow_the_three_frequencies() {
    assert_eq!(color_phases(0), (0, 0, 0));
    assert_eq!(color_phases(4_000_000), (5_000_000, 3_000_000, 2_000_000));
    assert_eq!(color_phases(1_000_000), (1_250_000, 750_000, 500_000));
}

#[test]
fn phases_add_from_multiples_of_four() {
    let (r1, g1, b1) = color_phases(8_000_000);
    let (r2, g2, b2) = color_phases(123_457);
    assert_eq!(color_phases(8_123_457), (r1 + r2, g1 + g2, b1 + b2));
}

#[test]
fn color_channels_are_half_sine_plus_half() {
    let c = color_from_sins(-COLOR_SCALE, 0, COLOR_SCALE);
    assert_eq!(c.red, 0);
    assert_eq!(c.green, COLOR_SCALE / 2);
    assert_eq!(c.blue, COLOR_SCALE);
    assert_eq!(c.alpha, COLOR_SCALE);
}

#[test]
fn color_at_time_zero_is_mid_gray() {
    let c = animated_color(0.0);
    assert_eq!(c.red, COLOR_SCALE / 2);
    assert_eq!(c.green, COLOR_SCALE / 2);
    assert_eq!(c.blue, COLOR_SCALE / 2);
    assert_eq!(c.alpha, COLOR_SCALE);
}

#[test]
fn color_at_time_pi_matches_the_sinusoids() {
    let c = animated_color(PI);
    assert!(close(c.red, (1.25 * PI).sin() / 2.0 + 0.5));
    assert!(close(c.green, (0.75 * PI).sin() / 2.0 + 0.5));
    assert!(close(c.blue, 1.0));
    assert!(close(c.red, 0.1464));
    assert!(close(c.green, 0.8536));
    assert_eq!(c.alpha, COLOR_SCALE);
}

#[test]
fn color_at_time_two_pi_matches_the_sinusoids() {
    let c = animated_color(2.0 * PI);
    assert!(close(c.red, 1.0));
    assert!(close(c.green, 0.0));
    assert!(close(c.blue, 0.5));
    assert_eq!(c.alpha, COLOR_SCALE);
}

#[test]
fn color_determinism_against_the_formula() {
    for k in 0..200 {
        let t = k as f64 * 0.37;
        let c = animated_color(t);
        assert!(close(c.red, (1.25 * t).sin() / 2.0 + 0.5));
        assert!(close(c.green, (0.75 * t).sin() / 2.0 + 0.5));
        assert!(close(c.blue, (0.50 * t).sin() / 2.0 + 0.5));
        assert_eq!(c.alpha, COLOR_SCALE);
    }
}

#[test]
fn color_channels_stay_in_range() {
    for k in 0..500 {
        let t = k as f64 * 0.111;
        let c = animated_color(t);
        assert!(0 <= c.red && c.red <= COLOR_SCALE);
        assert!(0 <= c.green && c.green <= COLOR_SCALE);
        assert!(0 <= c.blue && c.blue <= COLOR_SCALE);
        assert_eq!(c.alpha, COLOR_SCALE);
        assert!(c.is_valid());
    }
}

#[test]
fn color_repeats_after_the_common_period() {
    let period = 2.0 * PI / 0.25;
    for k in 0..50 {
        let t = k as f64 * 0.73;
        let a = animated_color(t);
        let b = animated_color(t + period);
        assert!((a.red - b.red).abs() < 100);
        assert!((a.green - b.green).abs() < 100);
        assert!((a.blue - b.blue).abs() < 100);
        assert_eq!(a.alpha, b.alpha);
    }
}

#[test]
fn animator_paints_every_animated_entity_alike() {
    let mut store = build_scene();
    let c = animated_color(PI);
    apply_colors(&mut store, c);
    assert!(matches!(store.entities[0], Entity::Camera));
    for e in &store.entities {
        if let Entity::Text(t) = e {
            assert!(t.color_animated);
            assert_eq!(t.segments[0].color, c);
        }
    }
    // The text itself is untouched.
    if let Entity::Text(t) = &store.entities[2] {
        assert_eq!(t.segments[0].value, "developed using Rust");
    } else {
        panic!("expected the attribution text entity");
    }
    assert!(store.is_well_formed());
}
