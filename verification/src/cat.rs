//! The stream transducer: text in, recoloured text out.
//!
//! The input is read as a sequence of units. An escape character opens a unit
//! that is one escape sequence, echoed as it stands; every other character is
//! a unit of its own, printed in the colour that the seed selects from the
//! palette. The seed advances per character, per word or per line.

use crate::chars::{ascii_white_space, char_is_whitespace, is_whitespace};
use crate::color::{
    background_reset, color_at, encode, foreground_reset, push_background_reset,
    push_foreground_reset, rgb_to_256,
};
use crate::contrast::{calc_fg_color, contrast};
use crate::escape::{escape_tail, lemma_escape_tail_bound, scan_escape, ScanError, ESC};
use vstd::prelude::*;
use vstd::slice::{slice_subrange, slice_to_vec};

verus! {

/// What the transducer needs to know with every character.
#[derive(Clone, Debug)]
pub struct Control {
    /// The position in the palette, taken modulo the palette's length.
    pub seed: usize,
    /// The name of the palette in use.
    pub flag_name: String,
    /// Colour the background, and print in a foreground that contrasts.
    pub background_mode: bool,
    /// Advance the seed after every character that is not whitespace.
    pub individual_mode: bool,
    /// Advance the seed after every whitespace character.
    pub word_mode: bool,
    /// Colour the text at all; when off, text passes through unchanged.
    pub print_color: bool,
    /// Write 24-bit colours rather than cells of the 256-colour table.
    pub terminal_supports_truecolor: bool,
}

/// The switches of a [`Control`], as the rendering depends on them.
pub struct Modes {
    /// Colour the background, under a foreground that contrasts.
    pub background: bool,
    /// Advance the seed after every character that is not whitespace.
    pub individual: bool,
    /// Advance the seed after every whitespace character.
    pub word: bool,
    /// Colour the text at all.
    pub print_color: bool,
    /// Write 24-bit colours rather than cells of the 256-colour table.
    pub truecolor: bool,
}

impl Control {
    /// The switches, without the seed and the palette's name.
    pub open spec fn modes(&self) -> Modes {
        Modes {
            background: self.background_mode,
            individual: self.individual_mode,
            word: self.word_mode,
            print_color: self.print_color,
            truecolor: self.terminal_supports_truecolor,
        }
    }

    /// The same control with another seed.
    pub open spec fn with_seed(self, seed: int) -> Control {
        Control {
            seed: seed as usize,
            flag_name: self.flag_name,
            background_mode: self.background_mode,
            individual_mode: self.individual_mode,
            word_mode: self.word_mode,
            print_color: self.print_color,
            terminal_supports_truecolor: self.terminal_supports_truecolor,
        }
    }
}

/// A character in the colour that `seed` selects. In background mode the
/// colour goes to the background, under a foreground that contrasts with it.
#[verifier::opaque]
pub open spec fn paint(ch: char, seed: nat, palette: Seq<(u8, u8, u8)>, m: Modes) -> Seq<char> {
    let color = color_at(seed, palette);
    if m.background {
        encode(contrast(color), true, m.truecolor) + encode(color, false, m.truecolor) + seq![ch]
    } else {
        encode(color, true, m.truecolor) + seq![ch]
    }
}

/// What is written for a character that is neither an escape character nor a
/// newline, given whether it is whitespace. Whitespace gets no background: in
/// background mode no colour is worked out for it, and it is written after a
/// background reset.
pub open spec fn printable_text(
    ch: char,
    whitespace: bool,
    seed: nat,
    palette: Seq<(u8, u8, u8)>,
    m: Modes,
) -> Seq<char> {
    if m.background && whitespace {
        background_reset() + seq![ch]
    } else {
        paint(ch, seed, palette, m)
    }
}

/// What is written for a character that is neither an escape character nor a
/// newline.
pub open spec fn printable_output(
    ch: char,
    seed: nat,
    palette: Seq<(u8, u8, u8)>,
    m: Modes,
) -> Seq<char> {
    printable_text(ch, is_whitespace(ch), seed, palette, m)
}

/// By how much a character that is neither an escape character nor a newline
/// advances the seed, given whether it is whitespace: by one after whitespace
/// where the seed advances per word, by one after any other character where
/// it advances per character.
pub open spec fn printable_step(whitespace: bool, m: Modes) -> nat {
    if whitespace {
        if m.word {
            1
        } else {
            0
        }
    } else {
        if m.individual {
            1
        } else {
            0
        }
    }
}

/// What is written for a newline: in background mode the background is reset
/// first, so that it does not run on into the next line.
pub open spec fn newline_output(m: Modes) -> Seq<char> {
    if m.print_color && m.background {
        background_reset() + seq!['\n']
    } else {
        seq!['\n']
    }
}

/// The full colour reset: of the background in background mode, then of the
/// foreground. Nothing where colours are off.
pub open spec fn reset_output(m: Modes) -> Seq<char> {
    if !m.print_color {
        Seq::empty()
    } else if m.background {
        background_reset() + foreground_reset()
    } else {
        foreground_reset()
    }
}

/// By how much the unit that starts with `ch` advances the seed: by one after
/// a newline where the seed advances per line, after whitespace where it
/// advances per word, after any other character where it advances per
/// character; never after an escape sequence.
pub open spec fn seed_step(ch: char, m: Modes) -> nat {
    if ch == ESC {
        0
    } else if ch == '\n' {
        if !m.individual && !m.word {
            1
        } else {
            0
        }
    } else {
        printable_step(is_whitespace(ch), m)
    }
}

/// By how much the unit that starts with `ch` advances the seed at most,
/// whatever counts as whitespace.
pub open spec fn seed_step_bound(ch: char, m: Modes) -> nat {
    if ch == ESC {
        0
    } else if ch == '\n' {
        if !m.individual && !m.word {
            1
        } else {
            0
        }
    } else if m.individual || m.word {
        1
    } else {
        0
    }
}

/// The length of the unit that starts at `s[i]`: the whole escape sequence
/// where `s[i]` is the escape character, one character otherwise.
pub open spec fn unit_len(s: Seq<char>, i: int) -> Result<nat, ScanError> {
    if s[i] == ESC {
        match escape_tail(s, i) {
            Ok(n) => Ok(1 + n),
            Err(e) => Err(e),
        }
    } else {
        Ok(1)
    }
}

/// What is written for the unit of `n` characters that starts at `s[i]`,
/// followed by a full colour reset where `flush` is on.
pub open spec fn unit_output(
    s: Seq<char>,
    i: int,
    n: nat,
    seed: nat,
    palette: Seq<(u8, u8, u8)>,
    m: Modes,
    flush: bool,
) -> Seq<char> {
    let body = if s[i] == ESC {
        s.subrange(i, i + n)
    } else if s[i] == '\n' {
        newline_output(m)
    } else {
        printable_output(s[i], seed, palette, m)
    };
    if flush {
        body + reset_output(m)
    } else {
        body
    }
}

/// The coloured rendering of `s` from index `i` on, with the seed it ends on,
/// or the error of the first escape sequence that cannot be recognised.
pub open spec fn render(
    s: Seq<char>,
    i: int,
    seed: nat,
    palette: Seq<(u8, u8, u8)>,
    m: Modes,
    flush: bool,
) -> Result<(Seq<char>, nat), ScanError>
    decreases s.len() - i,
{
    if i < 0 || i >= s.len() {
        Ok((Seq::empty(), seed))
    } else {
        match unit_len(s, i) {
            Err(e) => Err(e),
            Ok(n) => match render(s, i + n, seed + seed_step(s[i], m), palette, m, flush) {
                Err(e) => Err(e),
                Ok((rest, last)) => Ok(
                    (unit_output(s, i, n, seed, palette, m, flush) + rest, last),
                ),
            },
        }
    }
}

/// Whether every escape sequence of `s` from index `i` on is recognised, the
/// input read unit by unit.
pub open spec fn recognised(s: Seq<char>, i: int) -> bool
    decreases s.len() - i,
{
    if i < 0 || i >= s.len() {
        true
    } else {
        match unit_len(s, i) {
            Err(_) => false,
            Ok(n) => recognised(s, i + n),
        }
    }
}

/// The room that the seed needs for `s` from index `i` on: one step for
/// every unit that may advance it, up to the end of `s` or to the first
/// escape sequence that is not recognised.
pub open spec fn seed_room(s: Seq<char>, i: int, m: Modes) -> nat
    decreases s.len() - i,
{
    if i < 0 || i >= s.len() {
        0
    } else {
        match unit_len(s, i) {
            Err(_) => 0,
            Ok(n) => seed_step_bound(s[i], m) + seed_room(s, i + n, m),
        }
    }
}

/// Whether it is settled of the character `ch` if it is whitespace: below
/// U+0080 whitespace is U+0009 to U+000D and the space.
pub open spec fn whitespace_settled(ch: char) -> bool {
    ch < '\u{80}' ==> is_whitespace(ch) == ascii_white_space(ch)
}

/// Whether whitespace is settled of every character of `s` from index `i` on
/// that is printed as a unit of its own, up to the end of `s` or to the first
/// escape sequence that is not recognised.
pub open spec fn text_settled(s: Seq<char>, i: int) -> bool
    decreases s.len() - i,
{
    if i < 0 || i >= s.len() {
        true
    } else {
        match unit_len(s, i) {
            Err(_) => true,
            Ok(n) => (s[i] != ESC && s[i] != '\n' ==> whitespace_settled(s[i])) && text_settled(
                s,
                i + n,
            ),
        }
    }
}

/// The same of the lines from index `k` on, each with its newline, up to the
/// last line or to the first one that holds an escape sequence that is not
/// recognised.
pub open spec fn lines_settled(lines: Seq<Seq<char>>, k: int) -> bool
    decreases lines.len() - k,
{
    if k < 0 || k >= lines.len() {
        true
    } else {
        text_settled(lines[k].push('\n'), 0) && (recognised(lines[k].push('\n'), 0)
            ==> lines_settled(lines, k + 1))
    }
}

/// What the transducer makes of `s`: its coloured rendering, or `s` itself
/// where colours are off.
pub open spec fn transduce(
    s: Seq<char>,
    seed: nat,
    palette: Seq<(u8, u8, u8)>,
    m: Modes,
    flush: bool,
) -> Result<(Seq<char>, nat), ScanError> {
    if m.print_color {
        render(s, 0, seed, palette, m, flush)
    } else {
        Ok((s, seed))
    }
}

/// The lines as sequences of characters.
pub open spec fn line_views(lines: Seq<Vec<char>>) -> Seq<Seq<char>> {
    Seq::new(lines.len(), |k: int| lines[k]@)
}

/// The number of characters in the lines from index `k` on, counting one
/// newline for each line.
pub open spec fn total_chars(lines: Seq<Seq<char>>, k: int) -> nat
    decreases lines.len() - k,
{
    if k < 0 || k >= lines.len() {
        0
    } else {
        lines[k].len() + 1 + total_chars(lines, k + 1)
    }
}

/// The lines from index `k` on, one after the other, each with a newline
/// added to it.
pub open spec fn joined(lines: Seq<Seq<char>>, k: int) -> Seq<char>
    decreases lines.len() - k,
{
    if k < 0 || k >= lines.len() {
        Seq::empty()
    } else {
        lines[k].push('\n') + joined(lines, k + 1)
    }
}

/// What the transducer makes of the lines from index `k` on, each with a
/// newline added to it.
pub open spec fn render_lines(
    lines: Seq<Seq<char>>,
    k: int,
    seed: nat,
    palette: Seq<(u8, u8, u8)>,
    m: Modes,
) -> Result<(Seq<char>, nat), ScanError>
    decreases lines.len() - k,
{
    if k < 0 || k >= lines.len() {
        Ok((Seq::empty(), seed))
    } else {
        match transduce(lines[k].push('\n'), seed, palette, m, false) {
            Err(e) => Err(e),
            Ok((out, next)) => match render_lines(lines, k + 1, next, palette, m) {
                Err(e) => Err(e),
                Ok((rest, last)) => Ok((out + rest, last)),
            },
        }
    }
}

/// The room that the seed needs for the lines from index `k` on, each with
/// its newline, up to the last line or to the first one that holds an escape
/// sequence that is not recognised.
pub open spec fn lines_room(lines: Seq<Seq<char>>, k: int, m: Modes) -> nat
    decreases lines.len() - k,
{
    if k < 0 || k >= lines.len() {
        0
    } else {
        seed_room(lines[k].push('\n'), 0, m) + if recognised(lines[k].push('\n'), 0) {
            lines_room(lines, k + 1, m)
        } else {
            0
        }
    }
}

/// What the transducer makes of a whole text given as lines: the lines'
/// rendering and, where colours are on, one foreground reset at the end.
pub open spec fn lines_output(
    lines: Seq<Seq<char>>,
    seed: nat,
    palette: Seq<(u8, u8, u8)>,
    m: Modes,
) -> Result<(Seq<char>, nat), ScanError> {
    match render_lines(lines, 0, seed, palette, m) {
        Err(e) => Err(e),
        Ok((out, last)) => Ok(
            (
                if m.print_color {
                    out + foreground_reset()
                } else {
                    out
                },
                last,
            ),
        ),
    }
}

/// The rendering from the start of `s`, once a unit further: what was written
/// up to the unit at `i` and what the unit adds stand before what follows it.
proof fn lemma_render_advance(
    s: Seq<char>,
    i: int,
    n: nat,
    seed: nat,
    whole: Result<(Seq<char>, nat), ScanError>,
    before: Seq<char>,
    palette: Seq<(u8, u8, u8)>,
    m: Modes,
    flush: bool,
)
    requires
        0 <= i < s.len(),
        unit_len(s, i) == Ok::<nat, ScanError>(n),
        match render(s, i, seed, palette, m, flush) {
            Ok((rest, last)) => whole == Ok::<(Seq<char>, nat), ScanError>((before + rest, last)),
            Err(e) => whole == Err::<(Seq<char>, nat), ScanError>(e),
        },
    ensures
        match render(s, i + n, seed + seed_step(s[i], m), palette, m, flush) {
            Ok((rest, last)) => whole == Ok::<(Seq<char>, nat), ScanError>(
                (before + unit_output(s, i, n, seed, palette, m, flush) + rest, last),
            ),
            Err(e) => whole == Err::<(Seq<char>, nat), ScanError>(e),
        },
{
    let written = unit_output(s, i, n, seed, palette, m, flush);
    match render(s, i + n, seed + seed_step(s[i], m), palette, m, flush) {
        Ok((rest, _)) => {
            assert((before + written) + rest =~= before + (written + rest));
        },
        Err(_) => {},
    }
}

/// With colours off a text given as lines comes out as it went in: the lines
/// one after the other, each with its newline, and the seed where it was.
pub proof fn lemma_uncoloured_lines_are_joined(
    lines: Seq<Seq<char>>,
    k: int,
    seed: nat,
    palette: Seq<(u8, u8, u8)>,
    m: Modes,
)
    requires
        !m.print_color,
    ensures
        render_lines(lines, k, seed, palette, m) == Ok::<(Seq<char>, nat), ScanError>(
            (joined(lines, k), seed),
        ),
        k == 0 ==> lines_output(lines, seed, palette, m) == Ok::<(Seq<char>, nat), ScanError>(
            (joined(lines, 0), seed),
        ),
    decreases lines.len() - k,
{
    if 0 <= k < lines.len() {
        lemma_uncoloured_lines_are_joined(lines, k + 1, seed, palette, m);
    }
}

/// The seed never goes back, and stays within the room reckoned for it.
pub proof fn lemma_render_seed_bound(
    s: Seq<char>,
    i: int,
    seed: nat,
    palette: Seq<(u8, u8, u8)>,
    m: Modes,
    flush: bool,
)
    ensures
        render(s, i, seed, palette, m, flush) matches Ok((_, last)) ==> seed <= last <= seed
            + seed_room(s, i, m),
        render(s, i, seed, palette, m, flush) is Ok <==> recognised(s, i),
    decreases s.len() - i,
{
    if 0 <= i < s.len() {
        match unit_len(s, i) {
            Ok(n) => {
                lemma_render_seed_bound(s, i + n, seed + seed_step(s[i], m), palette, m, flush);
            },
            Err(_) => {},
        }
    }
}

/// The seed needs no more room than one step for every character.
pub proof fn lemma_seed_room_bound(s: Seq<char>, i: int, m: Modes)
    requires
        0 <= i <= s.len(),
    ensures
        seed_room(s, i, m) <= s.len() - i,
    decreases s.len() - i,
{
    if i < s.len() {
        lemma_unit_len_bound(s, i);
        match unit_len(s, i) {
            Ok(n) => {
                lemma_seed_room_bound(s, i + n, m);
            },
            Err(_) => {},
        }
    }
}

/// For lines the seed needs no more room than one step for every character
/// and every newline.
pub proof fn lemma_lines_room_bound(lines: Seq<Seq<char>>, k: int, m: Modes)
    requires
        0 <= k <= lines.len(),
    ensures
        lines_room(lines, k, m) <= total_chars(lines, k),
    decreases lines.len() - k,
{
    if k < lines.len() {
        lemma_seed_room_bound(lines[k].push('\n'), 0, m);
        lemma_lines_room_bound(lines, k + 1, m);
    }
}

/// A unit has at least one character and lies within the input.
pub proof fn lemma_unit_len_bound(s: Seq<char>, i: int)
    requires
        0 <= i < s.len(),
    ensures
        unit_len(s, i) matches Ok(n) ==> 1 <= n && i + n <= s.len(),
{
    lemma_escape_tail_bound(s, i);
}

/// The printed-character counter after one more character; it starts over
/// from zero past `u16::MAX`.
pub open spec fn count_up(n: u16) -> u16 {
    if n == u16::MAX {
        0
    } else {
        (n + 1) as u16
    }
}

/// The colour that the control's seed selects from the palette.
pub fn get_color_tuple(c: &Control, palette: &[(u8, u8, u8)]) -> (color: (u8, u8, u8))
    requires
        palette@.len() > 0,
    ensures
        color == color_at(c.seed as nat, palette@),
{
    palette[c.seed % palette.len()]
}

/// What is written for `character`, given whether it is whitespace.
fn printable_chars(
    character: char,
    whitespace: bool,
    c: &Control,
    palette: &[(u8, u8, u8)],
) -> (out: Vec<char>)
    requires
        palette@.len() > 0,
    ensures
        out@ == printable_text(character, whitespace, c.seed as nat, palette@, c.modes()),
{
    reveal(paint);
    if c.background_mode {
        if whitespace {
            let mut out: Vec<char> = Vec::new();
            push_background_reset(&mut out);
            out.push(character);
            out
        } else {
            let bg = get_color_tuple(c, palette);
            let fg = calc_fg_color(bg);
            let mut out = rgb_to_256(fg.0, fg.1, fg.2, true, c.terminal_supports_truecolor);
            let mut back = rgb_to_256(bg.0, bg.1, bg.2, false, c.terminal_supports_truecolor);
            out.append(&mut back);
            out.push(character);
            out
        }
    } else {
        let fg = get_color_tuple(c, palette);
        let mut out = rgb_to_256(fg.0, fg.1, fg.2, true, c.terminal_supports_truecolor);
        out.push(character);
        out
    }
}

/// The character `character` as it is printed: preceded by the escape
/// sequences that colour it, or, where it is whitespace in background mode,
/// by a background reset and no colour.
pub fn colored_print(character: char, c: &Control, palette: &[(u8, u8, u8)]) -> (out: Vec<char>)
    requires
        palette@.len() > 0,
    ensures
        out@ == printable_output(character, c.seed as nat, palette@, c.modes()),
        whitespace_settled(character),
{
    let whitespace = char_is_whitespace(character);
    printable_chars(character, whitespace, c, palette)
}

/// Prints a character that is neither an escape character nor a newline,
/// given whether it is whitespace: returns what is written for it and
/// advances the seed as the modes ask.
pub fn print_printable(
    character: char,
    whitespace: bool,
    palette: &[(u8, u8, u8)],
    c: &mut Control,
) -> (out: Vec<char>)
    requires
        palette@.len() > 0,
        old(c).seed + printable_step(whitespace, old(c).modes()) <= usize::MAX,
    ensures
        out@ == printable_text(
            character,
            whitespace,
            old(c).seed as nat,
            palette@,
            old(c).modes(),
        ),
        *final(c) == old(c).with_seed(
            old(c).seed + printable_step(whitespace, old(c).modes()),
        ),
{
    let out = printable_chars(character, whitespace, c, palette);
    if c.individual_mode && !whitespace {
        c.seed = c.seed + 1;
    }
    if c.word_mode && whitespace {
        c.seed = c.seed + 1;
    }
    out
}

/// The full colour reset for the control's modes.
pub fn reset_colors(c: &Control) -> (out: Vec<char>)
    ensures
        out@ == reset_output(c.modes()),
{
    let mut out: Vec<char> = Vec::new();
    if c.print_color {
        if c.background_mode {
            push_background_reset(&mut out);
        }
        push_foreground_reset(&mut out);
    }
    out
}

/// Ends a line: writes the newline, after a background reset in background
/// mode; advances the seed where it advances per line; and starts the
/// per-line state over.
pub fn handle_newline(
    c: &mut Control,
    ignoring_whitespace: &mut bool,
    printed_chars_on_line_plus_one: &mut u16,
) -> (out: Vec<char>)
    requires
        !old(c).individual_mode && !old(c).word_mode ==> old(c).seed < usize::MAX,
    ensures
        out@ == newline_output(old(c).modes()),
        *final(c) == old(c).with_seed(old(c).seed + seed_step('\n', old(c).modes())),
        *final(ignoring_whitespace) == old(c).background_mode,
        *final(printed_chars_on_line_plus_one) == 1,
{
    let mut out: Vec<char> = Vec::new();
    if c.print_color {
        if c.background_mode {
            push_background_reset(&mut out);
        }
    }
    out.push('\n');
    if !c.individual_mode && !c.word_mode {
        c.seed = c.seed + 1;
    }
    *ignoring_whitespace = c.background_mode;
    *printed_chars_on_line_plus_one = 1u16;
    out
}

/// Transduces the one unit of `input` that starts at `pos`: returns what is
/// written for it and the index of the next unit, and advances the seed and
/// the per-line state. With `constantly_flush` a full colour reset follows
/// the unit, so that the caller may flush its output after every unit.
pub fn print_unit(
    input: &[char],
    pos: usize,
    palette: &[(u8, u8, u8)],
    c: &mut Control,
    ignoring_whitespace: &mut bool,
    printed_chars_on_line_plus_one: &mut u16,
    constantly_flush: bool,
) -> (r: Result<(Vec<char>, usize), ScanError>)
    requires
        pos < input@.len(),
        palette@.len() > 0,
        old(c).print_color,
        old(c).seed + seed_step(input@[pos as int], old(c).modes()) <= usize::MAX,
    ensures
        match unit_len(input@, pos as int) {
            Ok(n) => {
                &&& r matches Ok((out, next))
                &&& next == pos + n
                &&& next <= input@.len()
                &&& out@ == unit_output(
                    input@,
                    pos as int,
                    n,
                    old(c).seed as nat,
                    palette@,
                    old(c).modes(),
                    constantly_flush,
                )
                &&& *final(c) == old(c).with_seed(
                    old(c).seed + seed_step(input@[pos as int], old(c).modes()),
                )
                &&& *final(ignoring_whitespace) == if input@[pos as int] == '\n' {
                    old(c).background_mode
                } else {
                    *old(ignoring_whitespace)
                }
                &&& *final(printed_chars_on_line_plus_one) == if input@[pos as int] == ESC {
                    *old(printed_chars_on_line_plus_one)
                } else if input@[pos as int] == '\n' {
                    1u16
                } else {
                    count_up(*old(printed_chars_on_line_plus_one))
                }
            },
            Err(e) => {
                &&& r == Err::<(Vec<char>, usize), ScanError>(e)
                &&& *final(c) == *old(c)
                &&& *final(ignoring_whitespace) == *old(ignoring_whitespace)
                &&& *final(printed_chars_on_line_plus_one) == *old(printed_chars_on_line_plus_one)
            },
        },
        input@[pos as int] != ESC && input@[pos as int] != '\n' ==> whitespace_settled(
            input@[pos as int],
        ),
{
    let character = input[pos];
    let mut out: Vec<char>;
    let next: usize;
    if character == ESC {
        match scan_escape(input, pos) {
            Err(e) => {
                return Err(e);
            },
            Ok(end) => {
                out = slice_to_vec(slice_subrange(input, pos, end));
                next = end;
            },
        }
    } else if character == '\n' {
        out = handle_newline(c, ignoring_whitespace, printed_chars_on_line_plus_one);
        next = pos + 1;
    } else {
        let whitespace = char_is_whitespace(character);
        out = print_printable(character, whitespace, palette, c);
        *printed_chars_on_line_plus_one = if *printed_chars_on_line_plus_one == u16::MAX {
            0
        } else {
            *printed_chars_on_line_plus_one + 1
        };
        next = pos + 1;
    }
    if constantly_flush {
        let mut reset = reset_colors(c);
        out.append(&mut reset);
    }
    Ok((out, next))
}

/// Transduces a stream of characters.
///
/// Escape sequences are echoed as they stand, every other character is
/// printed in the colour its seed selects, and a newline ends a line. With
/// colours off the input is returned as it is and the seed stays where it
/// was. Where an escape sequence cannot be recognised nothing is returned but
/// the error, and `c` is left as it was.
///
/// The seed must have room to advance: one step for every unit that may
/// advance it. Room for one step per character is always enough.
pub fn print_chars_lol(
    input: &[char],
    palette: &[(u8, u8, u8)],
    c: &mut Control,
    constantly_flush: bool,
) -> (r: Result<Vec<char>, ScanError>)
    requires
        old(c).print_color ==> palette@.len() > 0,
        old(c).print_color ==> (old(c).seed + input@.len() <= usize::MAX || old(c).seed
            + seed_room(input@, 0, old(c).modes()) <= usize::MAX),
    ensures
        match transduce(
            input@,
            old(c).seed as nat,
            palette@,
            old(c).modes(),
            constantly_flush,
        ) {
            Ok((text, seed)) => {
                &&& r matches Ok(out)
                &&& out@ == text
                &&& *final(c) == old(c).with_seed(seed as int)
                &&& final(c).seed == seed
            },
            Err(e) => r == Err::<Vec<char>, ScanError>(e) && *final(c) == *old(c),
        },
        !old(c).print_color ==> (r matches Ok(out) && out@ == input@ && *final(c) == *old(c)),
        old(c).print_color ==> text_settled(input@, 0),
{
    let mut ignoring_whitespace = c.background_mode;
    let mut printed_chars_on_line_plus_one = 1u16;
    if !c.print_color {
        return Ok(slice_to_vec(input));
    }
    let start_seed = c.seed;
    let ghost m = c.modes();
    proof {
        lemma_seed_room_bound(input@, 0, m);
    }
    let mut out: Vec<char> = Vec::new();
    let mut pos: usize = 0;
    while pos < input.len()
        invariant
            pos <= input@.len(),
            palette@.len() > 0,
            c.seed + seed_room(input@, pos as int, m) <= usize::MAX,
            text_settled(input@, pos as int) ==> text_settled(input@, 0),
            c.print_color,
            m == old(c).modes(),
            start_seed == old(c).seed,
            *c == old(c).with_seed(c.seed as int),
            match render(input@, pos as int, c.seed as nat, palette@, m, constantly_flush) {
                Ok((rest, last)) => render(
                    input@,
                    0,
                    start_seed as nat,
                    palette@,
                    m,
                    constantly_flush,
                ) == Ok::<(Seq<char>, nat), ScanError>((out@ + rest, last)),
                Err(e) => render(input@, 0, start_seed as nat, palette@, m, constantly_flush)
                    == Err::<(Seq<char>, nat), ScanError>(e),
            },
        decreases input@.len() - pos,
    {
        let ghost before = out@;
        let ghost seed = c.seed as nat;
        match print_unit(
            input,
            pos,
            palette,
            c,
            &mut ignoring_whitespace,
            &mut printed_chars_on_line_plus_one,
            constantly_flush,
        ) {
            Err(e) => {
                c.seed = start_seed;
                return Err(e);
            },
            Ok((mut unit, next)) => {
                proof {
                    lemma_render_advance(
                        input@,
                        pos as int,
                        (next - pos) as nat,
                        seed,
                        render(input@, 0, start_seed as nat, palette@, m, constantly_flush),
                        before,
                        palette@,
                        m,
                        constantly_flush,
                    );
                }
                out.append(&mut unit);
                pos = next;
            },
        }
    }
    Ok(out)
}

/// Transduces a text given as lines: each line with a newline added to it,
/// and, where colours are on, a foreground reset at the end of all of them,
/// so that no colour outlasts the text.
///
/// Where an escape sequence in some line cannot be recognised nothing is
/// returned but the error, and `c` is left as it was.
///
/// The seed must have room to advance: one step for every unit that may
/// advance it. Room for one step per character and per line is always
/// enough.
pub fn print_lines_lol(
    lines: &[Vec<char>],
    palette: &[(u8, u8, u8)],
    c: &mut Control,
) -> (r: Result<Vec<char>, ScanError>)
    requires
        old(c).print_color ==> palette@.len() > 0,
        old(c).print_color ==> (old(c).seed + total_chars(line_views(lines@), 0) <= usize::MAX
            || old(c).seed + lines_room(line_views(lines@), 0, old(c).modes()) <= usize::MAX),
    ensures
        match lines_output(line_views(lines@), old(c).seed as nat, palette@, old(c).modes()) {
            Ok((text, seed)) => {
                &&& r matches Ok(out)
                &&& out@ == text
                &&& *final(c) == old(c).with_seed(seed as int)
                &&& final(c).seed == seed
            },
            Err(e) => r == Err::<Vec<char>, ScanError>(e) && *final(c) == *old(c),
        },
        !old(c).print_color ==> (r matches Ok(out) && out@ == joined(line_views(lines@), 0)
            && *final(c) == *old(c)),
        old(c).print_color ==> lines_settled(line_views(lines@), 0),
{
    let start_seed = c.seed;
    let ghost m = c.modes();
    let ghost all = line_views(lines@);
    proof {
        if !c.print_color {
            lemma_uncoloured_lines_are_joined(all, 0, c.seed as nat, palette@, m);
        }
        lemma_lines_room_bound(all, 0, m);
    }
    let mut out: Vec<char> = Vec::new();
    let mut k: usize = 0;
    while k < lines.len()
        invariant
            k <= lines@.len(),
            all == line_views(lines@),
            c.print_color ==> palette@.len() > 0,
            c.print_color ==> c.seed + lines_room(all, k as int, m) <= usize::MAX,
            c.print_color ==> (lines_settled(all, k as int) ==> lines_settled(all, 0)),
            m == old(c).modes(),
            start_seed == old(c).seed,
            *c == old(c).with_seed(c.seed as int),
            match render_lines(all, k as int, c.seed as nat, palette@, m) {
                Ok((rest, last)) => render_lines(all, 0, start_seed as nat, palette@, m) == Ok::<
                    (Seq<char>, nat),
                    ScanError,
                >((out@ + rest, last)),
                Err(e) => render_lines(all, 0, start_seed as nat, palette@, m) == Err::<
                    (Seq<char>, nat),
                    ScanError,
                >(e),
            },
        decreases lines@.len() - k,
    {
        let ghost before = out@;
        let ghost start_line = c.seed;
        let mut text = slice_to_vec(lines[k].as_slice());
        text.push('\n');
        assert(text@ == all[k as int].push('\n'));
        match print_chars_lol(text.as_slice(), palette, c, false) {
            Err(e) => {
                proof {
                    lemma_render_seed_bound(text@, 0, start_line as nat, palette@, m, false);
                }
                c.seed = start_seed;
                return Err(e);
            },
            Ok(mut line) => {
                proof {
                    if m.print_color {
                        lemma_render_seed_bound(text@, 0, start_line as nat, palette@, m, false);
                    }
                    match render_lines(all, k + 1, c.seed as nat, palette@, m) {
                        Ok((rest, _)) => {
                            assert((before + line@) + rest =~= before + (line@ + rest));
                        },
                        Err(_) => {},
                    }
                }
                out.append(&mut line);
                k = k + 1;
            },
        }
    }
    if c.print_color {
        push_foreground_reset(&mut out);
    }
    Ok(out)
}

} // verus!
