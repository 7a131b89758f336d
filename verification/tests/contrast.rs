use flagcat::contrast::{
    calc_fg_color, conv_grayscale, linear_to_srgb, srgb_to_linear, LINEAR_ONE,
};

const BLACK: (u8, u8, u8) = (0, 0, 0);
const WHITE: (u8, u8, u8) = (255, 255, 255);

fn decode(v: f64) -> f64 {
    if v < 0.04045 {
        v / 12.92
    } else {
        ((v + 0.055) / 1.055).powf(2.4)
    }
}

fn encode(x: f64) -> f64 {
    if x <= 0.003_130_8 {
        12.92 * x
    } else {
        1.055 * x.powf(1.0 / 2.4) - 0.055
    }
}

fn gray_in_floating_point(color: (u8, u8, u8)) -> f64 {
    let red = decode(f64::from(color.0) / 256.0);
    let green = decode(f64::from(color.1) / 256.0);
    let blue = decode(f64::from(color.2) / 256.0);
    encode(red * 0.299 + green * 0.587 + blue * 0.114) * 256.0
}

#[test]
fn black_text_on_white() {
    assert_eq!(calc_fg_color(WHITE), BLACK);
}

#[test]
fn white_text_on_black() {
    assert_eq!(calc_fg_color(BLACK), WHITE);
}

#[test]
fn the_threshold_lies_between_grey_levels_160_and_161() {
    assert_eq!(conv_grayscale((160, 160, 160)), 160);
    assert_eq!(calc_fg_color((160, 160, 160)), WHITE);
    assert_eq!(conv_grayscale((161, 161, 161)), 161);
    assert_eq!(calc_fg_color((161, 161, 161)), BLACK);
    assert_eq!(conv_grayscale((0, 204, 0)), 160);
    assert_eq!(calc_fg_color((0, 204, 0)), WHITE);
    assert_eq!(conv_grayscale((0, 205, 0)), 161);
    assert_eq!(calc_fg_color((0, 205, 0)), BLACK);
}

#[test]
fn grey_levels_of_some_colours() {
    assert_eq!(conv_grayscale((255, 0, 0)), 148);
    assert_eq!(conv_grayscale((0, 255, 0)), 201);
    assert_eq!(conv_grayscale((0, 0, 255)), 94);
    assert_eq!(conv_grayscale((255, 255, 0)), 241);
    assert_eq!(conv_grayscale((91, 206, 250)), 187);
    assert_eq!(conv_grayscale((245, 169, 184)), 197);
    assert_eq!(conv_grayscale((200, 150, 100)), 162);
    assert_eq!(conv_grayscale((10, 11, 12)), 10);
}

#[test]
fn a_grey_is_its_own_grey_level() {
    for c in 0..=255u8 {
        assert_eq!(conv_grayscale((c, c, c)), c);
    }
}

#[test]
fn grey_level_lies_between_the_channels() {
    for r in (0..=255u8).step_by(51) {
        for g in (0..=255u8).step_by(51) {
            for b in (0..=255u8).step_by(51) {
                let gray = conv_grayscale((r, g, b));
                assert!(gray >= r.min(g).min(b));
                assert!(gray <= r.max(g).max(b));
            }
        }
    }
}

#[test]
fn grey_level_agrees_with_the_formula_in_floating_point() {
    let mut compared = 0;
    for r in (0..=255u8).step_by(15) {
        for g in (0..=255u8).step_by(15) {
            for b in (0..=255u8).step_by(15) {
                let exact = gray_in_floating_point((r, g, b));
                if (exact - exact.round()).abs() < 1e-6 {
                    // Too close to a whole number for floating point to tell the side.
                    continue;
                }
                assert_eq!(f64::from(conv_grayscale((r, g, b))), exact.floor());
                compared += 1;
            }
        }
    }
    assert!(compared > 5000);
}

#[test]
fn linear_intensity_is_the_decoded_channel_rounded_down() {
    let one = LINEAR_ONE as f64;
    for c in 0..=255u8 {
        let exact = decode(f64::from(c) / 256.0) * one;
        let level = srgb_to_linear(c) as f64;
        assert!(level <= exact + 1e-3, "channel {}", c);
        assert!(level > exact - 1.0 - 1e-3, "channel {}", c);
    }
}

#[test]
fn linear_intensity_at_chosen_channels() {
    assert_eq!(LINEAR_ONE, 1 << 32);
    assert_eq!(srgb_to_linear(0), 0);
    assert_eq!(srgb_to_linear(1), 1298546);
    assert_eq!(srgb_to_linear(10), 12985461);
    assert_eq!(srgb_to_linear(11), 14314102);
    assert_eq!(srgb_to_linear(128), 919299698);
    assert_eq!(srgb_to_linear(255), 4256899988);
}

#[test]
fn linear_intensity_grows_with_the_channel() {
    for c in 0..255u8 {
        assert!(srgb_to_linear(c) < srgb_to_linear(c + 1));
    }
}

#[test]
fn encoding_rounds_down_to_a_channel_value() {
    assert_eq!(linear_to_srgb(0), 0);
    assert_eq!(linear_to_srgb(u64::MAX), 255);
    for c in 1..=255u8 {
        let level = srgb_to_linear(c);
        assert_eq!(linear_to_srgb(level), c);
        assert_eq!(linear_to_srgb(level + 1), c);
        assert_eq!(linear_to_srgb(level - 1), c - 1);
    }
}
