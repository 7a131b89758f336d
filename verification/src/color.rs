//! Colours and the escape sequences that select them.

use vstd::prelude::*;

verus! {

/// The character of the decimal digit `d`.
pub open spec fn digit_char(d: nat) -> char
    recommends
        d < 10,
{
    ('0' as int + d) as char
}

/// The decimal notation of `n`, without leading zeros.
pub open spec fn decimal(n: nat) -> Seq<char>
    decreases n,
{
    if n < 10 {
        seq![digit_char(n)]
    } else {
        decimal(n / 10).push(digit_char(n % 10))
    }
}

/// The sequence that restores the terminal's default background.
pub open spec fn background_reset() -> Seq<char> {
    seq!['\x1b', '[', '4', '9', 'm']
}

/// The sequence that restores the terminal's default foreground.
pub open spec fn foreground_reset() -> Seq<char> {
    seq!['\x1b', '[', '3', '9', 'm']
}

/// The colour that `seed` selects: the palette is walked cyclically.
pub open spec fn color_at(seed: nat, palette: Seq<(u8, u8, u8)>) -> (u8, u8, u8)
    recommends
        palette.len() > 0,
{
    palette[(seed % palette.len()) as int]
}

/// The level, `0..=5`, of a channel in the 6x6x6 colour cube.
pub open spec fn cube_level(channel: u8) -> nat {
    (6 * channel / 256) as nat
}

/// The index of a colour's cell in the 256-colour table: the cube starts at
/// 16, with red the most significant of its three digits in base 6.
pub open spec fn cube_index(color: (u8, u8, u8)) -> nat {
    16 + 36 * cube_level(color.0) + 6 * cube_level(color.1) + cube_level(color.2)
}

/// The selector that opens a colour sequence: `38` sets the foreground, `48`
/// the background.
pub open spec fn layer_prefix(foreground: bool) -> Seq<char> {
    if foreground {
        seq!['\x1b', '[', '3', '8', ';']
    } else {
        seq!['\x1b', '[', '4', '8', ';']
    }
}

/// The escape sequence that sets the foreground or the background to `color`:
/// with `truecolor` the three channels in decimal, otherwise the index of the
/// colour's cell in the 256-colour table.
pub open spec fn encode(color: (u8, u8, u8), foreground: bool, truecolor: bool) -> Seq<char> {
    if truecolor {
        layer_prefix(foreground) + seq!['2', ';'] + decimal(color.0 as nat) + seq![';'] + decimal(
            color.1 as nat,
        ) + seq![';'] + decimal(color.2 as nat) + seq!['m']
    } else {
        layer_prefix(foreground) + seq!['5', ';'] + decimal(cube_index(color)) + seq!['m']
    }
}

/// Any seed and the seed one palette length further select the same colour.
pub proof fn lemma_palette_cycles(seed: nat, palette: Seq<(u8, u8, u8)>)
    requires
        palette.len() > 0,
    ensures
        color_at(seed + palette.len(), palette) == color_at(seed, palette),
{
    let k = seed as int;
    let n = palette.len() as int;
    assert((k + n) % n == k % n) by (nonlinear_arith)
        requires
            n > 0,
            k >= 0,
    ;
}

/// A character that a colour sequence holds after its escape character.
pub open spec fn is_code_char(c: char) -> bool {
    c == '[' || c == ';' || c == 'm' || ('0' <= c && c <= '9')
}

/// Decimal notation is made of digits, at least one.
pub proof fn lemma_decimal_is_digits(n: nat)
    ensures
        decimal(n).len() >= 1,
        forall|j: int|
            0 <= j < decimal(n).len() ==> '0' <= #[trigger] decimal(n)[j] && decimal(n)[j] <= '9',
    decreases n,
{
    if n >= 10 {
        lemma_decimal_is_digits(n / 10);
    }
}

/// The shape of a colour sequence: the escape character, `[`, the selector
/// `38` or `48`, and after the escape character nothing but digits, `;` and
/// the closing `m`.
pub proof fn lemma_encode_shape(color: (u8, u8, u8), foreground: bool, truecolor: bool)
    ensures
        ({
            let e = encode(color, foreground, truecolor);
            &&& e.len() >= 9
            &&& e[0] == '\x1b'
            &&& e[1] == '['
            &&& e[2] == if foreground {
                '3'
            } else {
                '4'
            }
            &&& e[3] == '8'
            &&& forall|j: int| 1 <= j < e.len() ==> is_code_char(#[trigger] e[j])
        }),
{
    let e = encode(color, foreground, truecolor);
    let head = layer_prefix(foreground);
    if truecolor {
        let r = decimal(color.0 as nat);
        let g = decimal(color.1 as nat);
        let b = decimal(color.2 as nat);
        lemma_decimal_is_digits(color.0 as nat);
        lemma_decimal_is_digits(color.1 as nat);
        lemma_decimal_is_digits(color.2 as nat);
        let e1 = head + seq!['2', ';'];
        let e2 = e1 + r;
        let e3 = e2 + seq![';'];
        let e4 = e3 + g;
        let e5 = e4 + seq![';'];
        let e6 = e5 + b;
        assert(e == e6 + seq!['m']);
        assert forall|j: int| 1 <= j < e.len() implies is_code_char(#[trigger] e[j]) by {
            if j < e1.len() {
            } else if j < e2.len() {
                assert(e[j] == r[j - e1.len()]);
            } else if j < e3.len() {
            } else if j < e4.len() {
                assert(e[j] == g[j - e3.len()]);
            } else if j < e5.len() {
            } else if j < e6.len() {
                assert(e[j] == b[j - e5.len()]);
            } else {
            }
        }
    } else {
        let n = decimal(cube_index(color));
        lemma_decimal_is_digits(cube_index(color));
        let e1 = head + seq!['5', ';'];
        let e2 = e1 + n;
        assert(e == e2 + seq!['m']);
        assert forall|j: int| 1 <= j < e.len() implies is_code_char(#[trigger] e[j]) by {
            if j < e1.len() {
            } else if j < e2.len() {
                assert(e[j] == n[j - e1.len()]);
            } else {
            }
        }
    }
}

/// The character of the digit `d`.
fn digit(d: u8) -> (c: char)
    requires
        d < 10,
    ensures
        c == digit_char(d as nat),
{
    (48u8 + d) as char
}

/// Appends the decimal notation of `n` to `out`.
pub fn push_decimal(out: &mut Vec<char>, n: u8)
    ensures
        final(out)@ == old(out)@ + decimal(n as nat),
{
    proof {
        reveal_with_fuel(decimal, 3);
    }
    if n >= 100 {
        out.push(digit(n / 100));
    }
    if n >= 10 {
        out.push(digit((n / 10) % 10));
    }
    out.push(digit(n % 10));
    assert(out@ =~= old(out)@ + decimal(n as nat));
}

/// Appends the sequence that restores the default background to `out`.
pub fn push_background_reset(out: &mut Vec<char>)
    ensures
        final(out)@ == old(out)@ + background_reset(),
{
    out.push('\x1b');
    out.push('[');
    out.push('4');
    out.push('9');
    out.push('m');
    assert(out@ =~= old(out)@ + background_reset());
}

/// Appends the sequence that restores the default foreground to `out`.
pub fn push_foreground_reset(out: &mut Vec<char>)
    ensures
        final(out)@ == old(out)@ + foreground_reset(),
{
    out.push('\x1b');
    out.push('[');
    out.push('3');
    out.push('9');
    out.push('m');
    assert(out@ =~= old(out)@ + foreground_reset());
}

/// The index of the cell of `(r, g, b)` in the 256-colour table.
pub fn cube_cell(r: u8, g: u8, b: u8) -> (index: u8)
    ensures
        index == cube_index((r, g, b)),
        16 <= index <= 231,
{
    let red: u16 = 6 * (r as u16) / 256;
    let green: u16 = 6 * (g as u16) / 256;
    let blue: u16 = 6 * (b as u16) / 256;
    (16 + 36 * red + 6 * green + blue) as u8
}

/// The escape sequence that sets the foreground (or, with `foreground` off,
/// the background) to the colour `(r, g, b)`: the colour itself where the
/// terminal takes 24-bit colours, the nearest cell of the 256-colour table
/// where it does not.
pub fn rgb_to_256(r: u8, g: u8, b: u8, foreground: bool, use_truecolor: bool) -> (code: Vec<char>)
    ensures
        code@ == encode((r, g, b), foreground, use_truecolor),
{
    let mut code: Vec<char> = Vec::new();
    code.push('\x1b');
    code.push('[');
    code.push(if foreground { '3' } else { '4' });
    code.push('8');
    code.push(';');
    assert(code@ =~= layer_prefix(foreground));
    if use_truecolor {
        code.push('2');
        code.push(';');
        push_decimal(&mut code, r);
        code.push(';');
        push_decimal(&mut code, g);
        code.push(';');
        push_decimal(&mut code, b);
        code.push('m');
        assert(code@ =~= encode((r, g, b), foreground, use_truecolor));
    } else {
        code.push('5');
        code.push(';');
        push_decimal(&mut code, cube_cell(r, g, b));
        code.push('m');
        assert(code@ =~= encode((r, g, b), foreground, use_truecolor));
    }
    code
}

} // verus!
