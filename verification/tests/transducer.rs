use flagcat::cat::{
    colored_print, handle_newline, print_chars_lol, print_lines_lol, print_printable, print_unit,
    reset_colors, Control,
};
use flagcat::escape::ScanError;

const RED_GREEN: [(u8, u8, u8); 2] = [(255, 0, 0), (0, 255, 0)];
const RED_WHITE: [(u8, u8, u8); 2] = [(255, 0, 0), (255, 255, 255)];

fn chars(text: &str) -> Vec<char> {
    text.chars().collect()
}

fn text(chars: &[char]) -> String {
    chars.iter().collect()
}

fn control(seed: usize) -> Control {
    Control {
        seed,
        flag_name: String::from("test"),
        background_mode: false,
        individual_mode: false,
        word_mode: false,
        print_color: true,
        terminal_supports_truecolor: false,
    }
}

fn run(input: &str, palette: &[(u8, u8, u8)], c: &mut Control, flush: bool) -> String {
    match print_chars_lol(&chars(input), palette, c, flush) {
        Ok(out) => text(&out),
        Err(e) => panic!("{}", e.message()),
    }
}

fn failure(input: &str, c: &mut Control) -> ScanError {
    match print_chars_lol(&chars(input), &RED_GREEN, c, false) {
        Ok(out) => panic!("rendered to {:?}", text(&out)),
        Err(e) => e,
    }
}

#[test]
fn without_colour_the_output_is_the_input() {
    let mut c = control(7);
    c.print_color = false;
    c.background_mode = true;
    c.individual_mode = true;
    let input = "plain \x1b[31mred\x1b[0m\n\ttab \x1b";
    assert_eq!(run(input, &RED_GREEN, &mut c, false), input);
    assert_eq!(c.seed, 7);
    assert_eq!(run(input, &RED_GREEN, &mut c, true), input);
    assert_eq!(c.seed, 7);
    assert_eq!(run("", &RED_GREEN, &mut c, false), "");
}

#[test]
fn without_colour_no_palette_is_needed() {
    let mut c = control(0);
    c.print_color = false;
    assert_eq!(run("abc\n", &[], &mut c, false), "abc\n");
}

#[test]
fn by_default_the_seed_advances_at_each_newline() {
    let mut c = control(0);
    let out = run("ab\ncd\n", &RED_GREEN, &mut c, false);
    assert_eq!(
        out,
        "\x1b[38;5;196ma\x1b[38;5;196mb\n\x1b[38;5;46mc\x1b[38;5;46md\n"
    );
    assert_eq!(c.seed, 2);
}

#[test]
fn by_default_whitespace_is_coloured_like_any_character() {
    let mut c = control(1);
    assert_eq!(
        run("a b", &RED_GREEN, &mut c, false),
        "\x1b[38;5;46ma\x1b[38;5;46m \x1b[38;5;46mb"
    );
    assert_eq!(c.seed, 1);
}

#[test]
fn empty_input_gives_empty_output() {
    let mut c = control(3);
    assert_eq!(run("", &RED_GREEN, &mut c, false), "");
    assert_eq!(c.seed, 3);
}

#[test]
fn individual_mode_advances_after_each_character_but_whitespace() {
    let mut c = control(0);
    c.individual_mode = true;
    assert_eq!(
        run("ab c\n", &RED_GREEN, &mut c, false),
        "\x1b[38;5;196ma\x1b[38;5;46mb\x1b[38;5;196m \x1b[38;5;196mc\n"
    );
    assert_eq!(c.seed, 3);
}

#[test]
fn word_mode_advances_after_each_whitespace() {
    let mut c = control(0);
    c.word_mode = true;
    assert_eq!(
        run("a b\tc\nd", &RED_GREEN, &mut c, false),
        "\x1b[38;5;196ma\x1b[38;5;196m \x1b[38;5;46mb\x1b[38;5;46m\t\x1b[38;5;196mc\n\x1b[38;5;196md"
    );
    assert_eq!(c.seed, 2);
}

#[test]
fn with_both_modes_every_character_advances() {
    let mut c = control(0);
    c.individual_mode = true;
    c.word_mode = true;
    assert_eq!(
        run("a b\n", &RED_GREEN, &mut c, false),
        "\x1b[38;5;196ma\x1b[38;5;46m \x1b[38;5;196mb\n"
    );
    assert_eq!(c.seed, 3);
}

#[test]
fn truecolor_names_the_colour_itself() {
    let mut c = control(0);
    c.terminal_supports_truecolor = true;
    assert_eq!(
        run("x", &[(1, 20, 255)], &mut c, false),
        "\x1b[38;2;1;20;255mx"
    );
}

#[test]
fn background_mode_paints_the_background_under_a_contrasting_foreground() {
    let mut c = control(0);
    c.background_mode = true;
    assert_eq!(
        run("a\nb", &RED_WHITE, &mut c, false),
        "\x1b[38;5;231m\x1b[48;5;196ma\x1b[49m\n\x1b[38;5;16m\x1b[48;5;231mb"
    );
    assert_eq!(c.seed, 1);
}

#[test]
fn background_mode_in_truecolor() {
    let mut c = control(1);
    c.background_mode = true;
    c.terminal_supports_truecolor = true;
    assert_eq!(
        run("a", &RED_WHITE, &mut c, false),
        "\x1b[38;2;0;0;0m\x1b[48;2;255;255;255ma"
    );
}

#[test]
fn background_mode_leaves_whitespace_unpainted() {
    let mut c = control(0);
    c.background_mode = true;
    assert_eq!(
        run("a \t\u{2003}b", &RED_WHITE, &mut c, false),
        "\x1b[38;5;231m\x1b[48;5;196ma\x1b[49m \x1b[49m\t\x1b[49m\u{2003}\x1b[38;5;231m\x1b[48;5;196mb"
    );
}

#[test]
fn background_mode_paints_what_is_not_whitespace() {
    let mut c = control(0);
    c.background_mode = true;
    assert_eq!(
        run("\u{e9}_", &RED_WHITE, &mut c, false),
        "\x1b[38;5;231m\x1b[48;5;196m\u{e9}\x1b[38;5;231m\x1b[48;5;196m_"
    );
}

#[test]
fn word_mode_counts_unicode_whitespace() {
    let mut c = control(0);
    c.word_mode = true;
    run("a\u{a0}b\u{3000}c\u{200b}d", &RED_GREEN, &mut c, false);
    assert_eq!(c.seed, 2);
}

#[test]
fn escape_sequences_pass_through_uncoloured() {
    let mut c = control(0);
    assert_eq!(
        run("\x1b[1;31mA\x1b[0m", &RED_GREEN, &mut c, false),
        "\x1b[1;31m\x1b[38;5;196mA\x1b[0m"
    );
    assert_eq!(run("\x1b[0 qZ", &RED_GREEN, &mut c, false), "\x1b[0 q\x1b[38;5;196mZ");
    assert_eq!(run("\x1b(BZ", &RED_GREEN, &mut c, false), "\x1b(B\x1b[38;5;196mZ");
    assert_eq!(run("\x1b #8Z", &RED_GREEN, &mut c, false), "\x1b #8\x1b[38;5;196mZ");
    assert_eq!(run("\x1bMZ", &RED_GREEN, &mut c, false), "\x1bM\x1b[38;5;196mZ");
    assert_eq!(c.seed, 0);
}

#[test]
fn escape_sequences_pass_through_in_every_mode() {
    let sequence = "\x1b[38;2;1;2;3m";
    for bits in 0..32u8 {
        let mut c = control(usize::from(bits));
        c.background_mode = bits & 1 != 0;
        c.individual_mode = bits & 2 != 0;
        c.word_mode = bits & 4 != 0;
        c.terminal_supports_truecolor = bits & 8 != 0;
        let flush = bits & 16 != 0;
        let before = run("ab ", &RED_WHITE, &mut c.clone(), flush);
        let out = run(&format!("ab {}c\n", sequence), &RED_WHITE, &mut c, flush);
        assert_eq!(&out[before.len()..before.len() + sequence.len()], sequence);
    }
}

#[test]
fn escape_sequences_do_not_advance_the_seed() {
    let mut c = control(0);
    c.individual_mode = true;
    c.word_mode = true;
    run("\x1b[31m\x1b(B\x1bM\x1b\n\x1b7", &RED_GREEN, &mut c, false);
    assert_eq!(c.seed, 0);
}

#[test]
fn an_escaped_newline_ends_no_line() {
    let mut c = control(0);
    c.background_mode = true;
    assert_eq!(run("\x1b\n", &RED_GREEN, &mut c, false), "\x1b\n");
    assert_eq!(c.seed, 0);
}

#[test]
fn an_escaped_escape_character_opens_no_sequence() {
    let mut c = control(0);
    assert_eq!(
        run("\x1b\x1b[m", &RED_GREEN, &mut c, false),
        "\x1b\x1b\x1b[38;5;196m[\x1b[38;5;196mm"
    );
}

#[test]
fn escape_character_at_the_end_fails() {
    let mut c = control(0);
    assert_eq!(failure("\x1b", &mut c), ScanError::LoneEscape);
    assert_eq!(failure("some text\n\x1b", &mut c), ScanError::LoneEscape);
}

#[test]
fn csi_with_a_byte_out_of_range_fails() {
    let mut c = control(0);
    assert_eq!(failure("ab\x1b[1\x07mcd", &mut c), ScanError::CsiBadByte);
    assert_eq!(failure("\x1b[12\ncd", &mut c), ScanError::CsiBadByte);
    assert_eq!(failure("\x1b[ 1m", &mut c), ScanError::CsiBadByte);
}

#[test]
fn unterminated_sequences_fail() {
    let mut c = control(0);
    assert_eq!(failure("ab\x1b[12", &mut c), ScanError::CsiUnterminated);
    assert_eq!(failure("ab\x1b[1 ", &mut c), ScanError::CsiUnterminated);
    assert_eq!(failure("ab\x1b(", &mut c), ScanError::NfUnterminated);
}

#[test]
fn nf_with_a_byte_out_of_range_fails() {
    let mut c = control(0);
    assert_eq!(failure("ab\x1b(\x07B", &mut c), ScanError::NfBadByte);
}

#[test]
fn a_failure_leaves_the_control_as_it_was() {
    let mut c = control(5);
    c.individual_mode = true;
    assert_eq!(failure("abc\ndef\x1b[", &mut c), ScanError::CsiUnterminated);
    assert_eq!(c.seed, 5);
    assert_eq!(c.flag_name, "test");
    assert!(c.individual_mode && c.print_color);
    let mut d = control(5);
    assert_eq!(failure("x\ny\nz\n\x1b", &mut d), ScanError::LoneEscape);
    assert_eq!(d.seed, 5);
}

#[test]
fn flushing_resets_the_foreground_after_every_unit() {
    let mut c = control(0);
    assert_eq!(
        run("a\x1b[0m\n", &RED_GREEN, &mut c, true),
        "\x1b[38;5;196ma\x1b[39m\x1b[0m\x1b[39m\n\x1b[39m"
    );
    assert_eq!(c.seed, 1);
}

#[test]
fn flushing_in_background_mode_resets_both() {
    let mut c = control(0);
    c.background_mode = true;
    assert_eq!(
        run("a \n", &RED_WHITE, &mut c, true),
        "\x1b[38;5;231m\x1b[48;5;196ma\x1b[49m\x1b[39m\x1b[49m \x1b[49m\x1b[39m\x1b[49m\n\x1b[49m\x1b[39m"
    );
}

#[test]
fn lines_get_a_newline_each_and_one_reset_at_the_end() {
    let mut c = control(0);
    let lines = vec![chars("ab"), chars(""), chars("c")];
    let out = print_lines_lol(&lines, &RED_GREEN, &mut c).unwrap();
    assert_eq!(
        text(&out),
        "\x1b[38;5;196ma\x1b[38;5;196mb\n\n\x1b[38;5;196mc\n\x1b[39m"
    );
    assert_eq!(c.seed, 3);
}

#[test]
fn no_lines_give_the_reset_alone() {
    let mut c = control(4);
    let out = print_lines_lol(&[], &RED_GREEN, &mut c).unwrap();
    assert_eq!(text(&out), "\x1b[39m");
    assert_eq!(c.seed, 4);
}

#[test]
fn lines_without_colour_are_joined_by_newlines() {
    let mut c = control(4);
    c.print_color = false;
    let lines = vec![chars("a\x1b[1mb"), chars("c\x1b")];
    let out = print_lines_lol(&lines, &[], &mut c).unwrap();
    assert_eq!(text(&out), "a\x1b[1mb\nc\x1b\n");
    assert_eq!(c.seed, 4);
}

#[test]
fn lines_in_background_mode() {
    let mut c = control(0);
    c.background_mode = true;
    let lines = vec![chars("a"), chars("b")];
    let out = print_lines_lol(&lines, &RED_WHITE, &mut c).unwrap();
    assert_eq!(
        text(&out),
        "\x1b[38;5;231m\x1b[48;5;196ma\x1b[49m\n\x1b[38;5;16m\x1b[48;5;231mb\x1b[49m\n\x1b[39m"
    );
    assert_eq!(c.seed, 2);
}

#[test]
fn a_malformed_line_fails_the_whole_text() {
    let mut c = control(0);
    let lines = vec![chars("fine"), chars("more"), chars("bad \x1b[1"), chars("never")];
    assert_eq!(
        print_lines_lol(&lines, &RED_GREEN, &mut c),
        Err(ScanError::CsiBadByte)
    );
    assert_eq!(c.seed, 0);
}

#[test]
fn an_escape_character_at_the_end_of_a_line_takes_the_newline() {
    let mut c = control(0);
    let lines = vec![chars("a\x1b"), chars("b")];
    let out = print_lines_lol(&lines, &RED_GREEN, &mut c).unwrap();
    assert_eq!(
        text(&out),
        "\x1b[38;5;196ma\x1b\n\x1b[38;5;196mb\n\x1b[39m"
    );
    assert_eq!(c.seed, 1);
}

#[test]
fn the_seed_advances_once_for_each_line() {
    for n in 0..6usize {
        let mut c = control(10);
        let lines: Vec<Vec<char>> = (0..n).map(|k| chars(&"word \x1b[1m".repeat(k))).collect();
        print_lines_lol(&lines, &RED_GREEN, &mut c).unwrap();
        assert_eq!(c.seed, 10 + n);
    }
}

#[test]
fn within_a_line_every_character_has_the_same_colour() {
    let mut c = control(1);
    let out = run("abc def", &RED_GREEN, &mut c, false);
    assert_eq!(out.matches("\x1b[38;5;46m").count(), 7);
    assert_eq!(out.matches("\x1b[38;5;196m").count(), 0);
    assert_eq!(c.seed, 1);
}

#[test]
fn in_background_mode_every_newline_follows_a_background_reset() {
    let mut c = control(0);
    c.background_mode = true;
    c.individual_mode = true;
    let lines = vec![chars("one two"), chars(""), chars("\x1b[1mthree\x1b[0m"), chars(" ")];
    let out = text(&print_lines_lol(&lines, &RED_WHITE, &mut c).unwrap());
    let newlines: Vec<usize> = out.match_indices('\n').map(|(at, _)| at).collect();
    assert_eq!(newlines.len(), 4);
    for at in newlines {
        assert!(out[..at].ends_with("\x1b[49m"));
    }
}

#[test]
fn the_foreground_is_reset_once_at_the_very_end() {
    for bits in 0..16u8 {
        let mut c = control(0);
        c.background_mode = bits & 1 != 0;
        c.individual_mode = bits & 2 != 0;
        c.word_mode = bits & 4 != 0;
        c.terminal_supports_truecolor = bits & 8 != 0;
        let lines = vec![chars("39m [39m"), chars("\x1b[1m\x1b\x1b[39m"), chars("")];
        let out = text(&print_lines_lol(&lines, &[(39, 39, 39)], &mut c).unwrap());
        assert!(out.ends_with("\x1b[39m"));
        assert_eq!(out.matches("\x1b[39m").count(), 1);
    }
}

#[test]
fn a_foreground_reset_in_the_input_is_passed_through() {
    let mut c = control(0);
    let lines = vec![chars("a\x1b[39mb")];
    let out = text(&print_lines_lol(&lines, &RED_GREEN, &mut c).unwrap());
    assert_eq!(
        out,
        "\x1b[38;5;196ma\x1b[39m\x1b[38;5;196mb\n\x1b[39m"
    );
}

#[test]
fn units_one_at_a_time() {
    let input = chars("a\x1b[1m\nb");
    let mut c = control(0);
    c.background_mode = true;
    let mut ignoring_whitespace = false;
    let mut printed = 1u16;
    let (out, next) = print_unit(
        &input, 0, &RED_WHITE, &mut c, &mut ignoring_whitespace, &mut printed, false,
    )
    .unwrap();
    assert_eq!((text(&out).as_str(), next), ("\x1b[38;5;231m\x1b[48;5;196ma", 1));
    assert_eq!((c.seed, ignoring_whitespace, printed), (0, false, 2));
    let (out, next) = print_unit(
        &input, 1, &RED_WHITE, &mut c, &mut ignoring_whitespace, &mut printed, false,
    )
    .unwrap();
    assert_eq!((text(&out).as_str(), next), ("\x1b[1m", 5));
    assert_eq!((c.seed, ignoring_whitespace, printed), (0, false, 2));
    let (out, next) = print_unit(
        &input, 5, &RED_WHITE, &mut c, &mut ignoring_whitespace, &mut printed, true,
    )
    .unwrap();
    assert_eq!((text(&out).as_str(), next), ("\x1b[49m\n\x1b[49m\x1b[39m", 6));
    assert_eq!((c.seed, ignoring_whitespace, printed), (1, true, 1));
    let (out, next) = print_unit(
        &input, 6, &RED_WHITE, &mut c, &mut ignoring_whitespace, &mut printed, false,
    )
    .unwrap();
    assert_eq!((text(&out).as_str(), next), ("\x1b[38;5;16m\x1b[48;5;231mb", 7));
    assert_eq!((c.seed, ignoring_whitespace, printed), (1, true, 2));
}

#[test]
fn a_unit_that_fails_changes_nothing() {
    let input = chars("a\x1b[");
    let mut c = control(9);
    let mut ignoring_whitespace = true;
    let mut printed = 17u16;
    let r = print_unit(
        &input, 1, &RED_GREEN, &mut c, &mut ignoring_whitespace, &mut printed, true,
    );
    assert_eq!(r, Err(ScanError::CsiUnterminated));
    assert_eq!((c.seed, ignoring_whitespace, printed), (9, true, 17));
}

#[test]
fn the_printed_character_counter_starts_over_when_full() {
    let input = chars("ab");
    let mut c = control(0);
    let mut ignoring_whitespace = false;
    let mut printed = u16::MAX - 1;
    print_unit(&input, 0, &RED_GREEN, &mut c, &mut ignoring_whitespace, &mut printed, false)
        .unwrap();
    assert_eq!(printed, u16::MAX);
    print_unit(&input, 1, &RED_GREEN, &mut c, &mut ignoring_whitespace, &mut printed, false)
        .unwrap();
    assert_eq!(printed, 0);
}

#[test]
fn newline_by_default() {
    let mut c = control(3);
    let mut ignoring_whitespace = true;
    let mut printed = 40u16;
    let out = handle_newline(&mut c, &mut ignoring_whitespace, &mut printed);
    assert_eq!(text(&out), "\n");
    assert_eq!((c.seed, ignoring_whitespace, printed), (4, false, 1));
}

#[test]
fn newline_in_background_mode() {
    let mut c = control(3);
    c.background_mode = true;
    c.word_mode = true;
    let mut ignoring_whitespace = false;
    let mut printed = 40u16;
    let out = handle_newline(&mut c, &mut ignoring_whitespace, &mut printed);
    assert_eq!(text(&out), "\x1b[49m\n");
    assert_eq!((c.seed, ignoring_whitespace, printed), (3, true, 1));
}

#[test]
fn newline_without_colour() {
    let mut c = control(3);
    c.background_mode = true;
    c.individual_mode = true;
    c.print_color = false;
    let mut ignoring_whitespace = false;
    let mut printed = 0u16;
    let out = handle_newline(&mut c, &mut ignoring_whitespace, &mut printed);
    assert_eq!(text(&out), "\n");
    assert_eq!((c.seed, ignoring_whitespace, printed), (3, true, 1));
}

#[test]
fn full_reset() {
    let mut c = control(0);
    assert_eq!(text(&reset_colors(&c)), "\x1b[39m");
    c.background_mode = true;
    assert_eq!(text(&reset_colors(&c)), "\x1b[49m\x1b[39m");
    c.print_color = false;
    assert_eq!(text(&reset_colors(&c)), "");
}

#[test]
fn one_coloured_character() {
    let mut c = control(1);
    assert_eq!(text(&colored_print('x', &c, &RED_GREEN)), "\x1b[38;5;46mx");
    assert_eq!(text(&colored_print(' ', &c, &RED_GREEN)), "\x1b[38;5;46m ");
    c.background_mode = true;
    assert_eq!(
        text(&colored_print('x', &c, &RED_GREEN)),
        "\x1b[38;5;16m\x1b[48;5;46mx"
    );
    c.terminal_supports_truecolor = true;
    c.seed = 2;
    assert_eq!(
        text(&colored_print('x', &c, &RED_GREEN)),
        "\x1b[38;2;255;255;255m\x1b[48;2;255;0;0mx"
    );
}

#[test]
fn whitespace_on_a_background_gets_a_reset_and_no_colour() {
    let mut c = control(0);
    c.background_mode = true;
    assert_eq!(text(&colored_print(' ', &c, &RED_GREEN)), "\x1b[49m ");
    assert_eq!(text(&colored_print('\t', &c, &RED_GREEN)), "\x1b[49m\t");
    assert_eq!(text(&colored_print('\u{3000}', &c, &RED_GREEN)), "\x1b[49m\u{3000}");
    c.terminal_supports_truecolor = true;
    c.seed = 1;
    assert_eq!(text(&colored_print(' ', &c, &RED_GREEN)), "\x1b[49m ");
    assert_eq!(c.seed, 1);
}

#[test]
fn what_is_not_whitespace_is_coloured_on_a_background() {
    let mut c = control(0);
    c.background_mode = true;
    assert_eq!(
        text(&colored_print('_', &c, &RED_GREEN)),
        "\x1b[38;5;231m\x1b[48;5;196m_"
    );
    assert_eq!(
        text(&colored_print('\x1c', &c, &RED_GREEN)),
        "\x1b[38;5;231m\x1b[48;5;196m\x1c"
    );
    assert_eq!(
        text(&colored_print('\u{200b}', &c, &RED_GREEN)),
        "\x1b[38;5;231m\x1b[48;5;196m\u{200b}"
    );
}

#[test]
fn a_printable_character_said_to_be_whitespace() {
    let mut c = control(0);
    c.background_mode = true;
    c.word_mode = true;
    let out = print_printable('x', true, &RED_GREEN, &mut c);
    assert_eq!(text(&out), "\x1b[49mx");
    assert_eq!(c.seed, 1);
    c.word_mode = false;
    c.individual_mode = true;
    let out = print_printable(' ', true, &RED_GREEN, &mut c);
    assert_eq!(text(&out), "\x1b[49m ");
    assert_eq!(c.seed, 1);
    c.background_mode = false;
    let out = print_printable(' ', true, &RED_GREEN, &mut c);
    assert_eq!(text(&out), "\x1b[38;5;46m ");
    assert_eq!(c.seed, 1);
}

#[test]
fn a_printable_character_said_not_to_be_whitespace() {
    let mut c = control(0);
    c.background_mode = true;
    c.individual_mode = true;
    let out = print_printable(' ', false, &RED_GREEN, &mut c);
    assert_eq!(text(&out), "\x1b[38;5;231m\x1b[48;5;196m ");
    assert_eq!(c.seed, 1);
    c.individual_mode = false;
    c.word_mode = true;
    let out = print_printable('x', false, &RED_GREEN, &mut c);
    assert_eq!(text(&out), "\x1b[38;5;16m\x1b[48;5;46mx");
    assert_eq!(c.seed, 1);
    c.individual_mode = true;
    let out = print_printable('x', false, &RED_GREEN, &mut c);
    assert_eq!(c.seed, 2);
    assert_eq!(text(&out), "\x1b[38;5;16m\x1b[48;5;46mx");
    let out = print_printable('x', true, &RED_GREEN, &mut c);
    assert_eq!(c.seed, 3);
    assert_eq!(text(&out), "\x1b[49mx");
}

#[test]
fn whitespace_below_u_0080_is_tab_to_carriage_return_and_space() {
    for code in 0..0x80u8 {
        let character = char::from(code);
        let whitespace = character == ' ' || ('\x09'..='\x0d').contains(&character);
        let mut c = control(0);
        c.background_mode = true;
        let out = text(&colored_print(character, &c, &RED_GREEN));
        assert_eq!(out.starts_with("\x1b[49m"), whitespace, "character {}", code);
        if character != '\x1b' && character != '\n' {
            c.word_mode = true;
            let out = print_chars_lol(&[character], &RED_GREEN, &mut c, false).unwrap();
            assert_eq!(text(&out).starts_with("\x1b[49m"), whitespace);
            assert_eq!(c.seed, usize::from(whitespace));
        }
    }
}

#[test]
fn each_line_has_its_own_colour() {
    let mut c = control(5);
    let lines = vec![chars("ab"), chars("\x1b[1mcd"), chars("e f")];
    let out = text(&print_lines_lol(&lines, &RED_GREEN, &mut c).unwrap());
    assert_eq!(
        out,
        "\x1b[38;5;46ma\x1b[38;5;46mb\n\x1b[1m\x1b[38;5;196mc\x1b[38;5;196md\n\x1b[38;5;46me\x1b[38;5;46m \x1b[38;5;46mf\n\x1b[39m"
    );
    assert_eq!(c.seed, 8);
}

#[test]
fn a_stream_advances_the_seed_once_for_each_newline() {
    let mut c = control(0);
    run("a\n\nb c\x1b[0m\n\x1b\nd", &RED_GREEN, &mut c, false);
    assert_eq!(c.seed, 3);
}

#[test]
fn plain_lines_give_one_newline_each() {
    for bits in 0..16u8 {
        let mut c = control(0);
        c.background_mode = bits & 1 != 0;
        c.individual_mode = bits & 2 != 0;
        c.word_mode = bits & 4 != 0;
        c.terminal_supports_truecolor = bits & 8 != 0;
        let lines = vec![chars("one"), chars(""), chars("two words"), chars(" ")];
        let out = text(&print_lines_lol(&lines, &RED_WHITE, &mut c).unwrap());
        assert_eq!(out.matches('\n').count(), 4);
        if c.background_mode {
            assert_eq!(out.matches("\x1b[49m\n").count(), 4);
        }
    }
}

#[test]
fn a_seed_at_its_end_has_room_for_what_does_not_advance_it() {
    let mut c = control(usize::MAX);
    assert_eq!(
        run("ab \x1b[0m", &RED_GREEN, &mut c, false),
        "\x1b[38;5;46ma\x1b[38;5;46mb\x1b[38;5;46m \x1b[0m"
    );
    assert_eq!(c.seed, usize::MAX);
    c.word_mode = true;
    run("ab\n\x1b(B\n", &RED_GREEN, &mut c, false);
    assert_eq!(c.seed, usize::MAX);
}

#[test]
fn the_seed_may_advance_up_to_its_end() {
    let mut c = control(usize::MAX - 2);
    let lines = vec![chars("a long line of many characters"), chars("and another")];
    print_lines_lol(&lines, &RED_GREEN, &mut c).unwrap();
    assert_eq!(c.seed, usize::MAX);
    let mut d = control(usize::MAX - 1);
    d.individual_mode = true;
    run("\x1b[1mx\n", &RED_GREEN, &mut d, false);
    assert_eq!(d.seed, usize::MAX);
}
