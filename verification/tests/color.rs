use flagcat::cat::{get_color_tuple, Control};
use flagcat::color::{cube_cell, push_background_reset, push_decimal, push_foreground_reset, rgb_to_256};

fn text(chars: &[char]) -> String {
    chars.iter().collect()
}

fn control(seed: usize) -> Control {
    Control {
        seed,
        flag_name: String::from("rainbow"),
        background_mode: false,
        individual_mode: false,
        word_mode: false,
        print_color: true,
        terminal_supports_truecolor: false,
    }
}

#[test]
fn red_foreground_in_the_256_colour_table() {
    assert_eq!(text(&rgb_to_256(255, 0, 0, true, false)), "\x1b[38;5;196m");
}

#[test]
fn red_foreground_in_truecolor() {
    assert_eq!(text(&rgb_to_256(255, 0, 0, true, true)), "\x1b[38;2;255;0;0m");
}

#[test]
fn background_uses_the_other_selector() {
    assert_eq!(text(&rgb_to_256(0, 0, 0, false, false)), "\x1b[48;5;16m");
    assert_eq!(text(&rgb_to_256(255, 255, 255, false, false)), "\x1b[48;5;231m");
    assert_eq!(text(&rgb_to_256(1, 20, 3, false, true)), "\x1b[48;2;1;20;3m");
}

#[test]
fn truecolor_writes_every_channel_without_padding() {
    assert_eq!(text(&rgb_to_256(0, 9, 10, true, true)), "\x1b[38;2;0;9;10m");
    assert_eq!(text(&rgb_to_256(99, 100, 101, true, true)), "\x1b[38;2;99;100;101m");
    assert_eq!(text(&rgb_to_256(200, 255, 7, true, true)), "\x1b[38;2;200;255;7m");
}

#[test]
fn cube_levels_change_where_six_times_the_channel_passes_a_multiple_of_256() {
    assert_eq!(cube_cell(42, 0, 0), 16);
    assert_eq!(cube_cell(43, 0, 0), 52);
    assert_eq!(cube_cell(0, 85, 0), 16 + 6);
    assert_eq!(cube_cell(0, 86, 0), 16 + 12);
    assert_eq!(cube_cell(0, 0, 213), 16 + 4);
    assert_eq!(cube_cell(0, 0, 214), 16 + 5);
    assert_eq!(cube_cell(128, 128, 128), 16 + 36 * 3 + 6 * 3 + 3);
    assert_eq!(cube_cell(255, 255, 255), 231);
}

#[test]
fn cube_cell_weighs_red_over_green_over_blue() {
    assert_eq!(cube_cell(255, 0, 0), 196);
    assert_eq!(cube_cell(0, 255, 0), 46);
    assert_eq!(cube_cell(0, 0, 255), 21);
}

#[test]
fn decimal_of_every_byte() {
    for n in 0..=255u8 {
        let mut out = vec!['x'];
        push_decimal(&mut out, n);
        assert_eq!(text(&out), format!("x{}", n));
    }
}

#[test]
fn reset_sequences() {
    let mut out = vec!['a'];
    push_background_reset(&mut out);
    push_foreground_reset(&mut out);
    assert_eq!(text(&out), "a\x1b[49m\x1b[39m");
}

#[test]
fn seed_selects_cyclically() {
    let palette = [(1u8, 2u8, 3u8), (4, 5, 6), (7, 8, 9)];
    assert_eq!(get_color_tuple(&control(0), &palette), (1, 2, 3));
    assert_eq!(get_color_tuple(&control(1), &palette), (4, 5, 6));
    assert_eq!(get_color_tuple(&control(2), &palette), (7, 8, 9));
    assert_eq!(get_color_tuple(&control(3), &palette), (1, 2, 3));
    assert_eq!(get_color_tuple(&control(usize::MAX), &palette), palette[usize::MAX % 3]);
}

#[test]
fn a_palette_length_further_is_the_same_colour() {
    let palette = [(10u8, 0u8, 0u8), (0, 20, 0), (0, 0, 30), (40, 40, 0), (0, 50, 50)];
    for k in 0..40usize {
        assert_eq!(
            get_color_tuple(&control(k), &palette),
            get_color_tuple(&control(k + palette.len()), &palette)
        );
    }
}
