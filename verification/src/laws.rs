//! What holds of the transducer on every input.

use crate::cat::{
    lemma_unit_len_bound, lines_output, lines_room, newline_output, paint, recognised, render,
    render_lines, reset_output, seed_room, seed_step, transduce, unit_len, unit_output, Modes,
};
use crate::color::{
    background_reset, color_at, encode, foreground_reset, is_code_char, lemma_encode_shape,
};
use crate::contrast::contrast;
use crate::escape::{
    byte_run, escape_tail, is_csi_final, is_intermediate, is_parameter, lemma_byte_run_bound,
    lemma_byte_run_is, lemma_escape_tail_bound, lemma_escape_tail_is_printable,
    lemma_escape_tail_prefix, lemma_escape_tail_suffix, parameter_run, ScanError, ESC,
};
use vstd::prelude::*;

verus! {

/// The text of a rendering; empty where there is none.
pub open spec fn text_of(r: Result<(Seq<char>, nat), ScanError>) -> Seq<char> {
    match r {
        Ok((text, _)) => text,
        Err(_) => Seq::empty(),
    }
}

/// The seed a rendering ends on; zero where there is none.
pub open spec fn seed_of(r: Result<(Seq<char>, nat), ScanError>) -> nat {
    match r {
        Ok((_, seed)) => seed,
        Err(_) => 0,
    }
}

/// A rendering continued with the rendering of `b`, which starts on the seed
/// that the first ended on.
pub open spec fn then_render(
    first: Result<(Seq<char>, nat), ScanError>,
    b: Seq<char>,
    palette: Seq<(u8, u8, u8)>,
    m: Modes,
    flush: bool,
) -> Result<(Seq<char>, nat), ScanError> {
    match first {
        Err(e) => Err(e),
        Ok((text, seed)) => match render(b, 0, seed, palette, m, flush) {
            Err(e) => Err(e),
            Ok((rest, last)) => Ok((text + rest, last)),
        },
    }
}

/// A text is rendered if and only if all its escape sequences are recognised.
pub proof fn lemma_rendered_iff_recognised(
    s: Seq<char>,
    i: int,
    seed: nat,
    palette: Seq<(u8, u8, u8)>,
    m: Modes,
    flush: bool,
)
    ensures
        render(s, i, seed, palette, m, flush) is Ok <==> recognised(s, i),
    decreases s.len() - i,
{
    if 0 <= i < s.len() {
        match unit_len(s, i) {
            Ok(n) => {
                lemma_rendered_iff_recognised(
                    s,
                    i + n,
                    seed + seed_step(s[i], m),
                    palette,
                    m,
                    flush,
                );
            },
            Err(_) => {},
        }
    }
}

/// A unit of `b` is the same unit, with the same output, when text stands
/// before `b`.
pub proof fn lemma_unit_suffix(
    a: Seq<char>,
    b: Seq<char>,
    i: int,
    seed: nat,
    palette: Seq<(u8, u8, u8)>,
    m: Modes,
    flush: bool,
)
    requires
        0 <= i < b.len(),
    ensures
        (a + b)[a.len() + i] == b[i],
        unit_len(a + b, a.len() + i) == unit_len(b, i),
        unit_len(b, i) matches Ok(n) ==> unit_output(
            a + b,
            a.len() + i,
            n,
            seed,
            palette,
            m,
            flush,
        ) == unit_output(b, i, n, seed, palette, m, flush),
{
    lemma_escape_tail_suffix(a, b, i);
    lemma_escape_tail_bound(b, i);
    match unit_len(b, i) {
        Ok(n) => {
            assert((a + b).subrange(a.len() + i, a.len() + i + n) =~= b.subrange(i, i + n));
        },
        Err(_) => {},
    }
}

/// A unit recognised in `a` is the same unit, with the same output, when more
/// text follows `a`.
pub proof fn lemma_unit_prefix(
    a: Seq<char>,
    b: Seq<char>,
    i: int,
    seed: nat,
    palette: Seq<(u8, u8, u8)>,
    m: Modes,
    flush: bool,
)
    requires
        0 <= i < a.len(),
        unit_len(a, i) is Ok,
    ensures
        (a + b)[i] == a[i],
        unit_len(a + b, i) == unit_len(a, i),
        unit_len(a, i) matches Ok(n) ==> unit_output(a + b, i, n, seed, palette, m, flush)
            == unit_output(a, i, n, seed, palette, m, flush),
{
    lemma_escape_tail_bound(a, i);
    if a[i] == ESC {
        lemma_escape_tail_prefix(a, b, i);
    }
    match unit_len(a, i) {
        Ok(n) => {
            assert((a + b).subrange(i, i + n) =~= a.subrange(i, i + n));
        },
        Err(_) => {},
    }
}

/// The rendering of `b` from a unit boundary on does not depend on what
/// stands before `b`.
pub proof fn lemma_render_suffix(
    a: Seq<char>,
    b: Seq<char>,
    i: int,
    seed: nat,
    palette: Seq<(u8, u8, u8)>,
    m: Modes,
    flush: bool,
)
    requires
        0 <= i <= b.len(),
    ensures
        render(a + b, a.len() + i, seed, palette, m, flush) == render(
            b,
            i,
            seed,
            palette,
            m,
            flush,
        ),
    decreases b.len() - i,
{
    if i < b.len() {
        lemma_unit_suffix(a, b, i, seed, palette, m, flush);
        lemma_unit_len_bound(b, i);
        match unit_len(b, i) {
            Ok(n) => {
                lemma_render_suffix(a, b, i + n, seed + seed_step(b[i], m), palette, m, flush);
            },
            Err(_) => {},
        }
    }
}

/// Where `a` is rendered from index `i` on, the rendering of `a + b` from
/// there is that rendering continued with the rendering of `b`.
pub proof fn lemma_render_prefix(
    a: Seq<char>,
    b: Seq<char>,
    i: int,
    seed: nat,
    palette: Seq<(u8, u8, u8)>,
    m: Modes,
    flush: bool,
)
    requires
        0 <= i <= a.len(),
        render(a, i, seed, palette, m, flush) is Ok,
    ensures
        render(a + b, i, seed, palette, m, flush) == then_render(
            render(a, i, seed, palette, m, flush),
            b,
            palette,
            m,
            flush,
        ),
    decreases a.len() - i,
{
    if i < a.len() {
        lemma_unit_prefix(a, b, i, seed, palette, m, flush);
        lemma_unit_len_bound(a, i);
        match unit_len(a, i) {
            Ok(n) => {
                let next = seed + seed_step(a[i], m);
                lemma_render_prefix(a, b, i + n, next, palette, m, flush);
                let written = unit_output(a, i, n, seed, palette, m, flush);
                match render(a, i + n, next, palette, m, flush) {
                    Ok((text, end)) => {
                        match render(b, 0, end, palette, m, flush) {
                            Ok((rest, _)) => {
                                assert((written + text) + rest =~= written + (text + rest));
                            },
                            Err(_) => {},
                        }
                    },
                    Err(_) => {},
                }
            },
            Err(_) => {},
        }
    } else {
        lemma_render_suffix(a, b, 0, seed, palette, m, flush);
        match render(b, 0, seed, palette, m, flush) {
            Ok((rest, _)) => {
                assert(Seq::<char>::empty() + rest =~= rest);
            },
            Err(_) => {},
        }
    }
}

/// Text after text: where all escape sequences of `a` are recognised, the
/// rendering of `a + b` is the rendering of `a` continued with that of `b`.
pub proof fn lemma_render_concat(
    a: Seq<char>,
    b: Seq<char>,
    seed: nat,
    palette: Seq<(u8, u8, u8)>,
    m: Modes,
    flush: bool,
)
    requires
        recognised(a, 0),
    ensures
        render(a + b, 0, seed, palette, m, flush) == then_render(
            render(a, 0, seed, palette, m, flush),
            b,
            palette,
            m,
            flush,
        ),
{
    lemma_rendered_iff_recognised(a, 0, seed, palette, m, flush);
    lemma_render_prefix(a, b, 0, seed, palette, m, flush);
}

/// An escape sequence passes through: a well-formed escape sequence `esc`
/// that stands in the input after text whose own escape sequences are all
/// recognised appears in the output as it is, in one piece, right after what
/// that text is rendered to, whatever the seed and the modes.
pub proof fn lemma_escape_passes_through(
    pre: Seq<char>,
    esc: Seq<char>,
    post: Seq<char>,
    seed: nat,
    palette: Seq<(u8, u8, u8)>,
    m: Modes,
    flush: bool,
)
    requires
        recognised(pre, 0),
        esc.len() >= 1,
        esc[0] == ESC,
        escape_tail(esc, 0) == Ok::<nat, ScanError>((esc.len() - 1) as nat),
    ensures
        ({
            let before = render(pre, 0, seed, palette, m, flush);
            let whole = render(pre + esc + post, 0, seed, palette, m, flush);
            &&& before is Ok
            &&& whole is Ok <==> recognised(post, 0)
            &&& whole is Ok ==> text_of(whole).len() >= text_of(before).len() + esc.len()
                && text_of(whole).subrange(
                text_of(before).len() as int,
                (text_of(before).len() + esc.len()) as int,
            ) == esc
            &&& whole is Ok ==> seed_of(whole) == seed_of(
                render(post, 0, seed_of(before), palette, m, flush),
            )
            &&& whole is Ok ==> text_of(whole) == text_of(before) + esc + (if flush {
                reset_output(m)
            } else {
                Seq::empty()
            }) + text_of(render(post, 0, seed_of(before), palette, m, flush))
        }),
{
    let before = render(pre, 0, seed, palette, m, flush);
    let tail = esc + post;
    assert(pre + esc + post =~= pre + tail);
    lemma_rendered_iff_recognised(pre, 0, seed, palette, m, flush);
    lemma_render_concat(pre, tail, seed, palette, m, flush);
    let at = seed_of(before);
    lemma_escape_tail_prefix(esc, post, 0);
    assert(tail[0] == ESC);
    assert(unit_len(tail, 0) == Ok::<nat, ScanError>(esc.len()));
    assert(tail.subrange(0, esc.len() as int) =~= esc);
    lemma_render_suffix(esc, post, 0, at, palette, m, flush);
    lemma_rendered_iff_recognised(post, 0, at, palette, m, flush);
    let written = unit_output(tail, 0, esc.len(), at, palette, m, flush);
    assert(written.subrange(0, esc.len() as int) =~= esc);
    assert(render(tail, esc.len() as int, at, palette, m, flush) == render(
        post,
        0,
        at,
        palette,
        m,
        flush,
    ));
    assert(seed_step(tail[0], m) == 0);
    match render(post, 0, at, palette, m, flush) {
        Ok((rest, last)) => {
            let whole = render(pre + tail, 0, seed, palette, m, flush);
            assert(render(tail, 0, at, palette, m, flush) == Ok::<(Seq<char>, nat), ScanError>(
                (written + rest, last),
            ));
            assert(text_of(whole) == text_of(before) + (written + rest));
            let close = if flush {
                reset_output(m)
            } else {
                Seq::empty()
            };
            assert(written =~= esc + close);
            assert(text_of(before) + (written + rest) =~= text_of(before) + esc + close + rest);
            assert(text_of(whole).subrange(
                text_of(before).len() as int,
                (text_of(before).len() + esc.len()) as int,
            ) =~= esc);
        },
        Err(_) => {},
    }
}

/// An escape character at the end of the input fails the whole run.
pub proof fn lemma_lone_escape_fails(
    pre: Seq<char>,
    seed: nat,
    palette: Seq<(u8, u8, u8)>,
    m: Modes,
    flush: bool,
)
    requires
        recognised(pre, 0),
    ensures
        render(pre.push(ESC), 0, seed, palette, m, flush) == Err::<(Seq<char>, nat), ScanError>(
            ScanError::LoneEscape,
        ),
{
    let tail = seq![ESC];
    assert(pre.push(ESC) =~= pre + tail);
    lemma_render_concat(pre, tail, seed, palette, m, flush);
    lemma_rendered_iff_recognised(pre, 0, seed, palette, m, flush);
}

/// A CSI sequence with a byte outside the allowed ranges fails the whole
/// run: after the introducer and any parameter bytes, a byte that is neither
/// a parameter, an intermediate nor a final byte.
pub proof fn lemma_csi_bad_byte_fails(
    pre: Seq<char>,
    parameters: Seq<char>,
    bad: char,
    post: Seq<char>,
    seed: nat,
    palette: Seq<(u8, u8, u8)>,
    m: Modes,
    flush: bool,
)
    requires
        recognised(pre, 0),
        forall|k: int| 0 <= k < parameters.len() ==> is_parameter(#[trigger] parameters[k]),
        !is_parameter(bad),
        !is_intermediate(bad),
        !is_csi_final(bad),
    ensures
        render(pre + seq![ESC, '['] + parameters + seq![bad] + post, 0, seed, palette, m, flush)
            == Err::<(Seq<char>, nat), ScanError>(ScanError::CsiBadByte),
{
    let tail = seq![ESC, '['] + parameters + seq![bad] + post;
    assert(pre + seq![ESC, '['] + parameters + seq![bad] + post =~= pre + tail);
    lemma_render_concat(pre, tail, seed, palette, m, flush);
    lemma_rendered_iff_recognised(pre, 0, seed, palette, m, flush);
    let n = parameters.len();
    assert(tail[0] == ESC);
    assert(tail[1] == '[');
    assert forall|j: int| 2 <= j < 2 + n implies '\x30' <= #[trigger] tail[j] && tail[j]
        <= '\x3f' by {
        assert(tail[j] == parameters[j - 2]);
    }
    assert(tail[2 + n as int] == bad);
    lemma_byte_run_is(tail, 2, n, '\x30', '\x3f');
    lemma_byte_run_is(tail, 2 + n as int, 0, '\x20', '\x2f');
}

/// Where the seed advances per line it rests within a line: text without a
/// newline is rendered to its end on the seed it started on.
pub proof fn lemma_seed_rests_within_line(
    text: Seq<char>,
    i: int,
    seed: nat,
    palette: Seq<(u8, u8, u8)>,
    m: Modes,
    flush: bool,
)
    requires
        !m.individual,
        !m.word,
        forall|k: int| 0 <= k < text.len() ==> text[k] != '\n',
    ensures
        render(text, i, seed, palette, m, flush) matches Ok((_, last)) ==> last == seed,
    decreases text.len() - i,
{
    if 0 <= i < text.len() {
        match unit_len(text, i) {
            Ok(n) => {
                lemma_seed_rests_within_line(text, i + n, seed, palette, m, flush);
            },
            Err(_) => {},
        }
    }
}

/// Where the seed advances per line, a line advances it exactly once, at its
/// end: a line without a newline in it, whose escape sequences are all
/// recognised, is rendered together with the newline that ends it, and the
/// seed is then one further.
pub proof fn lemma_line_advances_seed_once(
    line: Seq<char>,
    seed: nat,
    palette: Seq<(u8, u8, u8)>,
    m: Modes,
)
    requires
        m.print_color,
        !m.individual,
        !m.word,
        forall|k: int| 0 <= k < line.len() ==> line[k] != '\n',
        recognised(line, 0),
    ensures
        seed_of(render(line, 0, seed, palette, m, false)) == seed,
        transduce(line.push('\n'), seed, palette, m, false) is Ok,
        seed_of(transduce(line.push('\n'), seed, palette, m, false)) == seed + 1,
{
    let end = seq!['\n'];
    assert(line.push('\n') =~= line + end);
    lemma_rendered_iff_recognised(line, 0, seed, palette, m, false);
    lemma_seed_rests_within_line(line, 0, seed, palette, m, false);
    lemma_render_concat(line, end, seed, palette, m, false);
    assert(unit_len(end, 0) == Ok::<nat, ScanError>(1));
    assert(render(end, 1, seed + 1, palette, m, false) == Ok::<(Seq<char>, nat), ScanError>(
        (Seq::empty(), seed + 1),
    ));
}

/// Where the seed advances per line, a text of lines advances it by the
/// number of its lines: given lines without a newline in them, whose escape
/// sequences are all recognised.
pub proof fn lemma_lines_advance_seed_by_their_number(
    lines: Seq<Seq<char>>,
    k: int,
    seed: nat,
    palette: Seq<(u8, u8, u8)>,
    m: Modes,
)
    requires
        0 <= k <= lines.len(),
        m.print_color,
        !m.individual,
        !m.word,
        forall|j: int, i: int|
            0 <= j < lines.len() && 0 <= i < lines[j].len() ==> #[trigger] lines[j][i] != '\n',
        forall|j: int| 0 <= j < lines.len() ==> recognised(#[trigger] lines[j], 0),
    ensures
        render_lines(lines, k, seed, palette, m) is Ok,
        seed_of(render_lines(lines, k, seed, palette, m)) == seed + (lines.len() - k),
        k == 0 ==> lines_output(lines, seed, palette, m) is Ok && seed_of(
            lines_output(lines, seed, palette, m),
        ) == seed + lines.len(),
    decreases lines.len() - k,
{
    if k < lines.len() {
        assert(recognised(lines[k], 0));
        assert forall|i: int| 0 <= i < lines[k].len() implies lines[k][i] != '\n' by {
            assert(lines[k][i] != '\n');
        }
        lemma_line_advances_seed_once(lines[k], seed, palette, m);
        lemma_lines_advance_seed_by_their_number(lines, k + 1, seed + 1, palette, m);
    }
}

/// Whether the newline at `out[j]` is guarded: the background reset stands
/// right before it, or the escape character whose sequence it ends.
pub open spec fn newline_guarded(out: Seq<char>, j: int) -> bool {
    (j >= 5 && out.subrange(j - 5, j) == background_reset()) || (j >= 1 && out[j - 1] == ESC)
}

/// Whether every newline of `out` is guarded.
pub open spec fn newlines_guarded(out: Seq<char>) -> bool {
    forall|j: int| 0 <= j < out.len() && #[trigger] out[j] == '\n' ==> newline_guarded(out, j)
}

proof fn lemma_newlines_guarded_concat(a: Seq<char>, b: Seq<char>)
    requires
        newlines_guarded(a),
        newlines_guarded(b),
    ensures
        newlines_guarded(a + b),
{
    let w = a + b;
    assert forall|j: int| 0 <= j < w.len() && #[trigger] w[j] == '\n' implies newline_guarded(
        w,
        j,
    ) by {
        if j < a.len() {
            assert(a[j] == '\n');
            assert(newline_guarded(a, j));
            if j >= 5 && a.subrange(j - 5, j) == background_reset() {
                assert(w.subrange(j - 5, j) =~= a.subrange(j - 5, j));
            } else {
                assert(w[j - 1] == a[j - 1]);
            }
        } else {
            let k = j - a.len();
            assert(b[k] == '\n');
            assert(newline_guarded(b, k));
            if k >= 5 && b.subrange(k - 5, k) == background_reset() {
                assert(w.subrange(j - 5, j) =~= b.subrange(k - 5, k));
            } else {
                assert(w[j - 1] == b[k - 1]);
            }
        }
    }
}

proof fn lemma_no_newline_is_guarded(out: Seq<char>)
    requires
        forall|j: int| 0 <= j < out.len() ==> #[trigger] out[j] != '\n',
    ensures
        newlines_guarded(out),
{
}

proof fn lemma_encode_has_no_newline(color: (u8, u8, u8), foreground: bool, truecolor: bool)
    ensures
        forall|j: int|
            0 <= j < encode(color, foreground, truecolor).len() ==> #[trigger] encode(
                color,
                foreground,
                truecolor,
            )[j] != '\n',
{
    lemma_encode_shape(color, foreground, truecolor);
    let e = encode(color, foreground, truecolor);
    assert forall|j: int| 0 <= j < e.len() implies #[trigger] e[j] != '\n' by {
        if j >= 1 {
            assert(is_code_char(e[j]));
        }
    }
}

proof fn lemma_paint_has_no_newline(ch: char, seed: nat, palette: Seq<(u8, u8, u8)>, m: Modes)
    requires
        ch != '\n',
    ensures
        forall|j: int|
            0 <= j < paint(ch, seed, palette, m).len() ==> #[trigger] paint(
                ch,
                seed,
                palette,
                m,
            )[j] != '\n',
{
    reveal(paint);
    let color = color_at(seed, palette);
    lemma_encode_has_no_newline(color, true, m.truecolor);
    lemma_encode_has_no_newline(color, false, m.truecolor);
    lemma_encode_has_no_newline(contrast(color), true, m.truecolor);
}

proof fn lemma_unit_newlines_guarded(
    s: Seq<char>,
    i: int,
    seed: nat,
    palette: Seq<(u8, u8, u8)>,
    m: Modes,
    flush: bool,
)
    requires
        0 <= i < s.len(),
        m.print_color,
        m.background,
    ensures
        unit_len(s, i) matches Ok(n) ==> newlines_guarded(
            unit_output(s, i, n, seed, palette, m, flush),
        ),
{
    lemma_unit_len_bound(s, i);
    match unit_len(s, i) {
        Ok(n) => {
            let reset = background_reset() + foreground_reset();
            lemma_no_newline_is_guarded(reset);
            lemma_no_newline_is_guarded(Seq::<char>::empty());
            let body = unit_output(s, i, n, seed, palette, m, false);
            if s[i] == ESC {
                lemma_escape_tail_is_printable(s, i);
                assert forall|j: int| 0 <= j < body.len() && #[trigger] body[j]
                    == '\n' implies newline_guarded(body, j) by {
                    assert(body[j] == s[i + j]);
                    assert(body[0] == s[i]);
                    assert(j == 1);
                }
            } else if s[i] == '\n' {
                assert(body.subrange(0, 5) =~= background_reset());
                assert(newline_guarded(body, 5));
            } else {
                lemma_paint_has_no_newline(s[i], seed, palette, m);
                lemma_no_newline_is_guarded(body);
            }
            if flush {
                lemma_newlines_guarded_concat(body, reset);
            }
        },
        Err(_) => {},
    }
}

proof fn lemma_render_newlines_guarded(
    s: Seq<char>,
    i: int,
    seed: nat,
    palette: Seq<(u8, u8, u8)>,
    m: Modes,
    flush: bool,
)
    requires
        m.print_color,
        m.background,
    ensures
        newlines_guarded(text_of(render(s, i, seed, palette, m, flush))),
    decreases s.len() - i,
{
    if 0 <= i < s.len() {
        lemma_unit_newlines_guarded(s, i, seed, palette, m, flush);
        match unit_len(s, i) {
            Ok(n) => {
                let next = seed + seed_step(s[i], m);
                lemma_render_newlines_guarded(s, i + n, next, palette, m, flush);
                lemma_newlines_guarded_concat(
                    unit_output(s, i, n, seed, palette, m, flush),
                    text_of(render(s, i + n, next, palette, m, flush)),
                );
            },
            Err(_) => {},
        }
    }
}

proof fn lemma_render_lines_newlines_guarded(
    lines: Seq<Seq<char>>,
    k: int,
    seed: nat,
    palette: Seq<(u8, u8, u8)>,
    m: Modes,
)
    requires
        m.print_color,
        m.background,
    ensures
        newlines_guarded(text_of(render_lines(lines, k, seed, palette, m))),
    decreases lines.len() - k,
{
    if 0 <= k < lines.len() {
        let line = transduce(lines[k].push('\n'), seed, palette, m, false);
        lemma_render_newlines_guarded(lines[k].push('\n'), 0, seed, palette, m, false);
        match line {
            Ok((out, next)) => {
                lemma_render_lines_newlines_guarded(lines, k + 1, next, palette, m);
                lemma_newlines_guarded_concat(
                    out,
                    text_of(render_lines(lines, k + 1, next, palette, m)),
                );
            },
            Err(_) => {},
        }
    }
}

/// In background mode the background is reset right before every newline
/// that the transducer writes: each newline of the output has the background
/// reset immediately before it, unless it is the one character of an escape
/// sequence that was passed through, which has its escape character there.
pub proof fn lemma_newlines_follow_background_reset(
    s: Seq<char>,
    seed: nat,
    palette: Seq<(u8, u8, u8)>,
    m: Modes,
    flush: bool,
)
    requires
        m.print_color,
        m.background,
    ensures
        newlines_guarded(text_of(transduce(s, seed, palette, m, flush))),
{
    lemma_render_newlines_guarded(s, 0, seed, palette, m, flush);
}

/// The same of a text given as lines.
pub proof fn lemma_line_ends_follow_background_reset(
    lines: Seq<Seq<char>>,
    seed: nat,
    palette: Seq<(u8, u8, u8)>,
    m: Modes,
)
    requires
        m.print_color,
        m.background,
    ensures
        newlines_guarded(text_of(lines_output(lines, seed, palette, m))),
{
    lemma_render_lines_newlines_guarded(lines, 0, seed, palette, m);
    lemma_no_newline_is_guarded(foreground_reset());
    lemma_newlines_guarded_concat(
        text_of(render_lines(lines, 0, seed, palette, m)),
        foreground_reset(),
    );
}

/// Whether the foreground reset stands in `out` at index `j`.
pub open spec fn foreground_reset_at(out: Seq<char>, j: int) -> bool {
    0 <= j && j + 5 <= out.len() && out.subrange(j, j + 5) == foreground_reset()
}

/// Whether some escape sequence of `s`, read unit by unit from index `i` on,
/// is itself the foreground reset.
pub open spec fn echoes_foreground_reset(s: Seq<char>, i: int) -> bool
    decreases s.len() - i,
{
    if i < 0 || i >= s.len() {
        false
    } else {
        match unit_len(s, i) {
            Err(_) => false,
            Ok(n) => (s[i] == ESC && s.subrange(i, i + n) == foreground_reset())
                || echoes_foreground_reset(s, i + n),
        }
    }
}

/// Whether the characters that follow `o[j]` in `o` rule out that a
/// foreground reset starts at `j`.
spec fn ruled_out(o: Seq<char>, j: int) -> bool {
    ||| j + 1 < o.len() && o[j + 1] != '['
    ||| j + 2 < o.len() && o[j + 2] != '3'
    ||| j + 3 < o.len() && o[j + 3] != '9'
    ||| j + 4 < o.len() && o[j + 4] != 'm'
}

/// Whether what follows each escape character of `o` rules a foreground
/// reset out, but for an escape character at the very end of `o`.
spec fn guarded(o: Seq<char>) -> bool {
    forall|j: int|
        0 <= j < o.len() && #[trigger] o[j] == ESC ==> j == o.len() - 1 || ruled_out(o, j)
}

/// Whether `o` can stand anywhere in an output without a foreground reset
/// arising in it or across its ends: it is guarded and does not start with
/// `[`.
spec fn reset_free(o: Seq<char>) -> bool {
    &&& o.len() > 0 ==> o[0] != '['
    &&& guarded(o)
}

proof fn lemma_guarded_concat(a: Seq<char>, b: Seq<char>)
    requires
        guarded(a),
        guarded(b),
        a.len() > 0 && a[a.len() - 1] == ESC && b.len() > 0 ==> b[0] != '[',
    ensures
        guarded(a + b),
{
    let w = a + b;
    assert forall|j: int| 0 <= j < w.len() && #[trigger] w[j] == ESC implies j == w.len() - 1
        || ruled_out(w, j) by {
        if j < a.len() {
            assert(a[j] == ESC);
            if j == a.len() - 1 {
                if b.len() > 0 {
                    assert(w[j + 1] == b[0]);
                }
            } else {
                assert(ruled_out(a, j));
                if j + 1 < a.len() {
                    assert(w[j + 1] == a[j + 1]);
                }
                if j + 2 < a.len() {
                    assert(w[j + 2] == a[j + 2]);
                }
                if j + 3 < a.len() {
                    assert(w[j + 3] == a[j + 3]);
                }
                if j + 4 < a.len() {
                    assert(w[j + 4] == a[j + 4]);
                }
            }
        } else {
            let k = j - a.len();
            assert(b[k] == ESC);
            if k != b.len() - 1 {
                assert(ruled_out(b, k));
                if k + 1 < b.len() {
                    assert(w[j + 1] == b[k + 1]);
                }
                if k + 2 < b.len() {
                    assert(w[j + 2] == b[k + 2]);
                }
                if k + 3 < b.len() {
                    assert(w[j + 3] == b[k + 3]);
                }
                if k + 4 < b.len() {
                    assert(w[j + 4] == b[k + 4]);
                }
            }
        }
    }
}

proof fn lemma_reset_free_concat(a: Seq<char>, b: Seq<char>)
    requires
        reset_free(a),
        reset_free(b),
    ensures
        reset_free(a + b),
{
    lemma_guarded_concat(a, b);
    let w = a + b;
    if a.len() > 0 {
        assert(w[0] == a[0]);
    } else if b.len() > 0 {
        assert(w[0] == b[0]);
    }
}

proof fn lemma_encode_reset_free(color: (u8, u8, u8), foreground: bool, truecolor: bool)
    ensures
        reset_free(encode(color, foreground, truecolor)),
{
    lemma_encode_shape(color, foreground, truecolor);
    let e = encode(color, foreground, truecolor);
    assert forall|j: int| 0 <= j < e.len() && #[trigger] e[j] == ESC implies j == e.len() - 1
        || ruled_out(e, j) by {
        if j >= 1 {
            assert(is_code_char(e[j]));
        }
    }
}

proof fn lemma_paint_reset_free(ch: char, seed: nat, palette: Seq<(u8, u8, u8)>, m: Modes)
    requires
        ch != ESC,
    ensures
        reset_free(paint(ch, seed, palette, m)),
{
    reveal(paint);
    let color = color_at(seed, palette);
    let last = seq![ch];
    assert(guarded(last));
    if m.background {
        let front = encode(contrast(color), true, m.truecolor);
        let back = encode(color, false, m.truecolor);
        lemma_encode_reset_free(contrast(color), true, m.truecolor);
        lemma_encode_reset_free(color, false, m.truecolor);
        lemma_encode_shape(contrast(color), true, m.truecolor);
        lemma_encode_shape(color, false, m.truecolor);
        lemma_reset_free_concat(front, back);
        let both = front + back;
        assert(both[both.len() - 1] == back[back.len() - 1]);
        assert(is_code_char(back[back.len() - 1]));
        lemma_guarded_concat(both, last);
        assert((both + last)[0] == front[0]);
    } else {
        let front = encode(color, true, m.truecolor);
        lemma_encode_reset_free(color, true, m.truecolor);
        lemma_encode_shape(color, true, m.truecolor);
        assert(is_code_char(front[front.len() - 1]));
        lemma_guarded_concat(front, last);
        assert((front + last)[0] == front[0]);
    }
}

proof fn lemma_escape_reset_free(s: Seq<char>, i: int)
    requires
        0 <= i < s.len(),
        s[i] == ESC,
    ensures
        escape_tail(s, i) matches Ok(n) ==> s.subrange(i, i + 1 + n) == foreground_reset()
            || reset_free(s.subrange(i, i + 1 + n)),
{
    lemma_escape_tail_bound(s, i);
    lemma_escape_tail_is_printable(s, i);
    match escape_tail(s, i) {
        Ok(n) => {
            let body = s.subrange(i, i + 1 + n);
            assert(body[0] == s[i]);
            assert(body[1] == s[i + 1]);
            if body != foreground_reset() {
                assert forall|j: int| 0 <= j < body.len() && #[trigger] body[j]
                    == ESC implies j == body.len() - 1 || ruled_out(body, j) by {
                    assert(body[j] == s[i + j]);
                    if j == 0 {
                        if s[i + 1] == '[' {
                            reveal_with_fuel(byte_run, 4);
                            let p = parameter_run(s, i + 2);
                            lemma_byte_run_bound(s, i + 2, '\x30', '\x3f');
                            lemma_byte_run_bound(s, i + 2 + p, '\x20', '\x2f');
                            assert(body[2] == s[i + 2]);
                            if s[i + 2] == '3' {
                                assert(body[3] == s[i + 3]);
                                if s[i + 3] == '9' {
                                    assert(body[4] == s[i + 4]);
                                    if s[i + 4] == 'm' {
                                        assert(body =~= foreground_reset());
                                    }
                                }
                            }
                        }
                    } else if j >= 2 {
                        assert('\x20' <= s[i + j]);
                    }
                }
            }
        },
        Err(_) => {},
    }
}

proof fn lemma_unit_reset_free(
    s: Seq<char>,
    i: int,
    seed: nat,
    palette: Seq<(u8, u8, u8)>,
    m: Modes,
)
    requires
        0 <= i < s.len(),
        m.print_color,
    ensures
        unit_len(s, i) matches Ok(n) ==> (s[i] == ESC && s.subrange(i, i + n)
            == foreground_reset()) || reset_free(
            unit_output(s, i, n, seed, palette, m, false),
        ),
{
    match unit_len(s, i) {
        Ok(n) => {
            let body = unit_output(s, i, n, seed, palette, m, false);
            if s[i] == ESC {
                lemma_escape_reset_free(s, i);
            } else if s[i] == '\n' {
                assert(reset_free(body));
            } else {
                lemma_paint_reset_free(s[i], seed, palette, m);
                assert(reset_free(background_reset() + seq![s[i]]));
            }
        },
        Err(_) => {},
    }
}

proof fn lemma_render_reset_free(
    s: Seq<char>,
    i: int,
    seed: nat,
    palette: Seq<(u8, u8, u8)>,
    m: Modes,
)
    requires
        m.print_color,
        !echoes_foreground_reset(s, i),
    ensures
        reset_free(text_of(render(s, i, seed, palette, m, false))),
    decreases s.len() - i,
{
    if 0 <= i < s.len() {
        lemma_unit_reset_free(s, i, seed, palette, m);
        match unit_len(s, i) {
            Ok(n) => {
                let next = seed + seed_step(s[i], m);
                lemma_render_reset_free(s, i + n, next, palette, m);
                lemma_reset_free_concat(
                    unit_output(s, i, n, seed, palette, m, false),
                    text_of(render(s, i + n, next, palette, m, false)),
                );
            },
            Err(_) => {},
        }
    }
}

proof fn lemma_render_lines_reset_free(
    lines: Seq<Seq<char>>,
    k: int,
    seed: nat,
    palette: Seq<(u8, u8, u8)>,
    m: Modes,
)
    requires
        m.print_color,
        forall|j: int|
            0 <= j < lines.len() ==> !echoes_foreground_reset(#[trigger] lines[j].push('\n'), 0),
    ensures
        reset_free(text_of(render_lines(lines, k, seed, palette, m))),
    decreases lines.len() - k,
{
    if 0 <= k < lines.len() {
        assert(!echoes_foreground_reset(lines[k].push('\n'), 0));
        lemma_render_reset_free(lines[k].push('\n'), 0, seed, palette, m);
        match transduce(lines[k].push('\n'), seed, palette, m, false) {
            Ok((out, next)) => {
                lemma_render_lines_reset_free(lines, k + 1, next, palette, m);
                lemma_reset_free_concat(
                    out,
                    text_of(render_lines(lines, k + 1, next, palette, m)),
                );
            },
            Err(_) => {},
        }
    }
}

/// The foreground is reset exactly once, at the very end: the output of a
/// text given as lines, with colours on, ends in the foreground reset and
/// holds it nowhere else, provided that no escape sequence of the text is
/// itself a foreground reset (passed through, it would stand in the output
/// a second time).
pub proof fn lemma_foreground_reset_once_at_end(
    lines: Seq<Seq<char>>,
    seed: nat,
    palette: Seq<(u8, u8, u8)>,
    m: Modes,
)
    requires
        m.print_color,
        forall|k: int|
            0 <= k < lines.len() ==> !echoes_foreground_reset(#[trigger] lines[k].push('\n'), 0),
    ensures
        lines_output(lines, seed, palette, m) matches Ok((out, _)) ==> {
            &&& foreground_reset_at(out, out.len() - 5)
            &&& forall|j: int| foreground_reset_at(out, j) ==> j == out.len() - 5
        },
{
    lemma_render_lines_reset_free(lines, 0, seed, palette, m);
    match render_lines(lines, 0, seed, palette, m) {
        Ok((body, _)) => {
            let end = foreground_reset();
            let out = body + end;
            assert(out.subrange(out.len() - 5, out.len() as int) =~= end);
            assert forall|j: int| foreground_reset_at(out, j) implies j == out.len() - 5 by {
                let found = out.subrange(j, j + 5);
                assert(found[0] == out[j]);
                assert(found[1] == out[j + 1]);
                assert(found[2] == out[j + 2]);
                assert(found[3] == out[j + 3]);
                assert(found[4] == out[j + 4]);
                if j < body.len() {
                    assert(body[j] == ESC);
                    if j == body.len() - 1 {
                        assert(out[j + 1] == end[0]);
                    } else {
                        assert(ruled_out(body, j));
                        if j + 1 < body.len() {
                            assert(out[j + 1] == body[j + 1]);
                        }
                        if j + 2 < body.len() {
                            assert(out[j + 2] == body[j + 2]);
                        }
                        if j + 3 < body.len() {
                            assert(out[j + 3] == body[j + 3]);
                        }
                        if j + 4 < body.len() {
                            assert(out[j + 4] == body[j + 4]);
                        }
                    }
                }
            }
        },
        Err(_) => {},
    }
}

/// How many units of `s` from index `i` on are a newline: the newlines that
/// stand outside escape sequences, up to the first escape sequence that is
/// not recognised.
pub open spec fn newline_units(s: Seq<char>, i: int) -> nat
    decreases s.len() - i,
{
    if i < 0 || i >= s.len() {
        0
    } else {
        match unit_len(s, i) {
            Err(_) => 0,
            Ok(n) => (if s[i] == '\n' {
                1nat
            } else {
                0
            }) + newline_units(s, i + n),
        }
    }
}

/// Where the seed advances per line, a stream advances it once for every
/// newline that stands outside an escape sequence, and for nothing else.
pub proof fn lemma_seed_counts_newlines(
    s: Seq<char>,
    i: int,
    seed: nat,
    palette: Seq<(u8, u8, u8)>,
    m: Modes,
    flush: bool,
)
    requires
        !m.individual,
        !m.word,
    ensures
        render(s, i, seed, palette, m, flush) matches Ok((_, last)) ==> last == seed
            + newline_units(s, i),
    decreases s.len() - i,
{
    if 0 <= i < s.len() {
        match unit_len(s, i) {
            Ok(n) => {
                lemma_seed_counts_newlines(
                    s,
                    i + n,
                    seed + seed_step(s[i], m),
                    palette,
                    m,
                    flush,
                );
            },
            Err(_) => {},
        }
    }
}

/// Where the seed advances per line, the room it needs is one step for every
/// newline that stands outside an escape sequence.
pub proof fn lemma_room_by_default(s: Seq<char>, i: int, m: Modes)
    requires
        !m.individual,
        !m.word,
    ensures
        seed_room(s, i, m) == newline_units(s, i),
    decreases s.len() - i,
{
    if 0 <= i < s.len() {
        match unit_len(s, i) {
            Ok(n) => {
                lemma_room_by_default(s, i + n, m);
            },
            Err(_) => {},
        }
    }
}

/// Where the seed advances per line, the room it needs for lines without a
/// newline in them, whose escape sequences are all recognised, is one step
/// for every line.
pub proof fn lemma_lines_room_by_default(lines: Seq<Seq<char>>, k: int, m: Modes)
    requires
        0 <= k <= lines.len(),
        m.print_color,
        !m.individual,
        !m.word,
        forall|j: int, i: int|
            0 <= j < lines.len() && 0 <= i < lines[j].len() ==> #[trigger] lines[j][i] != '\n',
        forall|j: int| 0 <= j < lines.len() ==> recognised(#[trigger] lines[j], 0),
    ensures
        lines_room(lines, k, m) == lines.len() - k,
    decreases lines.len() - k,
{
    if k < lines.len() {
        let text = lines[k].push('\n');
        let palette = Seq::<(u8, u8, u8)>::empty();
        assert(recognised(lines[k], 0));
        assert forall|i: int| 0 <= i < lines[k].len() implies lines[k][i] != '\n' by {
            assert(lines[k][i] != '\n');
        }
        lemma_line_advances_seed_once(lines[k], 0, palette, m);
        lemma_rendered_iff_recognised(text, 0, 0, palette, m, false);
        lemma_seed_counts_newlines(text, 0, 0, palette, m, false);
        lemma_room_by_default(text, 0, m);
        lemma_lines_room_by_default(lines, k + 1, m);
    }
}

/// What is written for `s` from index `i` on when every unit is printed on
/// the same seed.
pub open spec fn render_resting(
    s: Seq<char>,
    i: int,
    seed: nat,
    palette: Seq<(u8, u8, u8)>,
    m: Modes,
    flush: bool,
) -> Seq<char>
    decreases s.len() - i,
{
    if i < 0 || i >= s.len() {
        Seq::empty()
    } else {
        match unit_len(s, i) {
            Err(_) => Seq::empty(),
            Ok(n) => unit_output(s, i, n, seed, palette, m, flush) + render_resting(
                s,
                i + n,
                seed,
                palette,
                m,
                flush,
            ),
        }
    }
}

/// Where the seed advances per line, every character of a text without a
/// newline is printed on the seed that the text started on.
pub proof fn lemma_line_is_rendered_on_one_seed(
    text: Seq<char>,
    i: int,
    seed: nat,
    palette: Seq<(u8, u8, u8)>,
    m: Modes,
    flush: bool,
)
    requires
        !m.individual,
        !m.word,
        forall|k: int| 0 <= k < text.len() ==> text[k] != '\n',
    ensures
        render(text, i, seed, palette, m, flush) matches Ok((out, _)) ==> out == render_resting(
            text,
            i,
            seed,
            palette,
            m,
            flush,
        ),
    decreases text.len() - i,
{
    if 0 <= i < text.len() {
        match unit_len(text, i) {
            Ok(n) => {
                lemma_line_is_rendered_on_one_seed(text, i + n, seed, palette, m, flush);
            },
            Err(_) => {},
        }
    }
}

/// What is written for the lines from index `k` on when line after line is
/// printed on one seed each, the first on `seed`, the next one further, each
/// ended by its newline.
pub open spec fn lines_resting(
    lines: Seq<Seq<char>>,
    k: int,
    seed: nat,
    palette: Seq<(u8, u8, u8)>,
    m: Modes,
) -> Seq<char>
    decreases lines.len() - k,
{
    if k < 0 || k >= lines.len() {
        Seq::empty()
    } else {
        render_resting(lines[k], 0, seed, palette, m, false) + newline_output(m) + lines_resting(
            lines,
            k + 1,
            seed + 1,
            palette,
            m,
        )
    }
}

/// Where the seed advances per line, each line has its own colour: of lines
/// without a newline in them, whose escape sequences are all recognised, the
/// first is printed on the seed that the text starts on, every character of
/// it, and each further line on the seed one further.
pub proof fn lemma_each_line_has_its_colour(
    lines: Seq<Seq<char>>,
    k: int,
    seed: nat,
    palette: Seq<(u8, u8, u8)>,
    m: Modes,
)
    requires
        0 <= k <= lines.len(),
        m.print_color,
        !m.individual,
        !m.word,
        forall|j: int, i: int|
            0 <= j < lines.len() && 0 <= i < lines[j].len() ==> #[trigger] lines[j][i] != '\n',
        forall|j: int| 0 <= j < lines.len() ==> recognised(#[trigger] lines[j], 0),
    ensures
        render_lines(lines, k, seed, palette, m) is Ok,
        text_of(render_lines(lines, k, seed, palette, m)) == lines_resting(
            lines,
            k,
            seed,
            palette,
            m,
        ),
        k == 0 ==> text_of(lines_output(lines, seed, palette, m)) == lines_resting(
            lines,
            0,
            seed,
            palette,
            m,
        ) + foreground_reset(),
    decreases lines.len() - k,
{
    lemma_lines_advance_seed_by_their_number(lines, k, seed, palette, m);
    if k < lines.len() {
        let line = lines[k];
        let end = seq!['\n'];
        assert(recognised(line, 0));
        assert forall|i: int| 0 <= i < line.len() implies line[i] != '\n' by {
            assert(lines[k][i] != '\n');
        }
        assert(line.push('\n') =~= line + end);
        lemma_rendered_iff_recognised(line, 0, seed, palette, m, false);
        lemma_seed_rests_within_line(line, 0, seed, palette, m, false);
        lemma_line_is_rendered_on_one_seed(line, 0, seed, palette, m, false);
        lemma_render_concat(line, end, seed, palette, m, false);
        assert(unit_len(end, 0) == Ok::<nat, ScanError>(1));
        assert(render(end, 1, seed + 1, palette, m, false) == Ok::<(Seq<char>, nat), ScanError>(
            (Seq::empty(), seed + 1),
        ));
        assert(unit_output(end, 0, 1, seed, palette, m, false) == newline_output(m));
        let first = render_resting(line, 0, seed, palette, m, false);
        assert(text_of(transduce(line.push('\n'), seed, palette, m, false)) =~= first
            + newline_output(m));
        lemma_line_advances_seed_once(line, seed, palette, m);
        lemma_each_line_has_its_colour(lines, k + 1, seed + 1, palette, m);
        lemma_lines_advance_seed_by_their_number(lines, k + 1, seed + 1, palette, m);
    }
}

/// How many newlines `out` holds.
pub open spec fn count_newlines(out: Seq<char>) -> nat
    decreases out.len(),
{
    if out.len() == 0 {
        0
    } else {
        count_newlines(out.drop_last()) + if out.last() == '\n' {
            1nat
        } else {
            0
        }
    }
}

/// How many units of `s` from index `i` on are an escape character with a
/// newline as its one character.
pub open spec fn escaped_newlines(s: Seq<char>, i: int) -> nat
    decreases s.len() - i,
{
    if i < 0 || i >= s.len() {
        0
    } else {
        match unit_len(s, i) {
            Err(_) => 0,
            Ok(n) => (if s[i] == ESC && s[i + 1] == '\n' {
                1nat
            } else {
                0
            }) + escaped_newlines(s, i + n),
        }
    }
}

/// Whether the background reset stands right before every newline of `out`.
pub open spec fn newlines_follow_reset(out: Seq<char>) -> bool {
    forall|j: int|
        0 <= j < out.len() && #[trigger] out[j] == '\n' ==> j >= 5 && out.subrange(j - 5, j)
            == background_reset()
}

proof fn lemma_count_newlines_concat(a: Seq<char>, b: Seq<char>)
    ensures
        count_newlines(a + b) == count_newlines(a) + count_newlines(b),
    decreases b.len(),
{
    if b.len() == 0 {
        assert(a + b =~= a);
    } else {
        assert((a + b).drop_last() =~= a + b.drop_last());
        lemma_count_newlines_concat(a, b.drop_last());
    }
}

proof fn lemma_count_newlines_none(a: Seq<char>)
    requires
        forall|j: int| 0 <= j < a.len() ==> #[trigger] a[j] != '\n',
    ensures
        count_newlines(a) == 0,
    decreases a.len(),
{
    if a.len() > 0 {
        let front = a.drop_last();
        assert forall|j: int| 0 <= j < front.len() implies #[trigger] front[j] != '\n' by {
            assert(front[j] == a[j]);
        }
        lemma_count_newlines_none(front);
    }
}

proof fn lemma_count_newlines_one(a: Seq<char>)
    requires
        a.len() > 0,
        a.last() == '\n',
        forall|j: int| 0 <= j < a.len() - 1 ==> #[trigger] a[j] != '\n',
    ensures
        count_newlines(a) == 1,
{
    let front = a.drop_last();
    assert forall|j: int| 0 <= j < front.len() implies #[trigger] front[j] != '\n' by {
        assert(front[j] == a[j]);
    }
    lemma_count_newlines_none(front);
}

proof fn lemma_newlines_follow_reset_concat(a: Seq<char>, b: Seq<char>)
    requires
        newlines_follow_reset(a),
        newlines_follow_reset(b),
    ensures
        newlines_follow_reset(a + b),
{
    let w = a + b;
    assert forall|j: int| 0 <= j < w.len() && #[trigger] w[j] == '\n' implies j >= 5
        && w.subrange(j - 5, j) == background_reset() by {
        if j < a.len() {
            assert(a[j] == '\n');
            assert(w.subrange(j - 5, j) =~= a.subrange(j - 5, j));
        } else {
            let k = j - a.len();
            assert(b[k] == '\n');
            assert(w.subrange(j - 5, j) =~= b.subrange(k - 5, k));
        }
    }
}

/// The newlines of what is written for one unit: one for a newline, one for
/// an escaped newline, none else; and but for the escaped one each follows
/// the background reset in background mode.
proof fn lemma_unit_newlines(
    s: Seq<char>,
    i: int,
    seed: nat,
    palette: Seq<(u8, u8, u8)>,
    m: Modes,
    flush: bool,
)
    requires
        0 <= i < s.len(),
    ensures
        unit_len(s, i) matches Ok(n) ==> {
            let out = unit_output(s, i, n, seed, palette, m, flush);
            &&& count_newlines(out) == if s[i] == '\n' || (s[i] == ESC && s[i + 1] == '\n') {
                1nat
            } else {
                0
            }
            &&& m.print_color && m.background && !(s[i] == ESC && s[i + 1] == '\n')
                ==> newlines_follow_reset(out)
        },
{
    lemma_unit_len_bound(s, i);
    match unit_len(s, i) {
        Ok(n) => {
            let body = unit_output(s, i, n, seed, palette, m, false);
            let reset = reset_output(m);
            lemma_count_newlines_none(reset);
            lemma_count_newlines_none(Seq::<char>::empty());
            if s[i] == ESC {
                lemma_escape_tail_is_printable(s, i);
                assert(body[0] == s[i]);
                assert(body[1] == s[i + 1]);
                if s[i + 1] == '\n' {
                    assert(n == 2);
                    assert(body.last() == '\n');
                    lemma_count_newlines_one(body);
                } else {
                    assert forall|j: int| 0 <= j < body.len() implies #[trigger] body[j]
                        != '\n' by {
                        assert(body[j] == s[i + j]);
                    }
                    lemma_count_newlines_none(body);
                }
            } else if s[i] == '\n' {
                lemma_count_newlines_one(body);
                if m.print_color && m.background {
                    assert(body.subrange(0, 5) =~= background_reset());
                    assert(newlines_follow_reset(body));
                }
            } else {
                lemma_paint_has_no_newline(s[i], seed, palette, m);
                lemma_count_newlines_none(body);
            }
            if flush {
                lemma_count_newlines_concat(body, reset);
                if newlines_follow_reset(body) {
                    lemma_newlines_follow_reset_concat(body, reset);
                }
            }
        },
        Err(_) => {},
    }
}

/// The output holds one newline for every newline of the input that stands
/// outside an escape sequence and one for every escaped newline, and no
/// other.
pub proof fn lemma_newlines_are_counted(
    s: Seq<char>,
    i: int,
    seed: nat,
    palette: Seq<(u8, u8, u8)>,
    m: Modes,
    flush: bool,
)
    ensures
        render(s, i, seed, palette, m, flush) matches Ok((out, _)) ==> count_newlines(out)
            == newline_units(s, i) + escaped_newlines(s, i),
    decreases s.len() - i,
{
    if 0 <= i < s.len() {
        lemma_unit_newlines(s, i, seed, palette, m, flush);
        match unit_len(s, i) {
            Ok(n) => {
                let next = seed + seed_step(s[i], m);
                lemma_newlines_are_counted(s, i + n, next, palette, m, flush);
                lemma_count_newlines_concat(
                    unit_output(s, i, n, seed, palette, m, flush),
                    text_of(render(s, i + n, next, palette, m, flush)),
                );
            },
            Err(_) => {},
        }
    }
}

/// In background mode the background reset stands immediately before every
/// newline of the output, provided that the input escapes no newline (an
/// escaped newline is passed through behind its escape character).
pub proof fn lemma_every_newline_follows_background_reset(
    s: Seq<char>,
    i: int,
    seed: nat,
    palette: Seq<(u8, u8, u8)>,
    m: Modes,
    flush: bool,
)
    requires
        m.print_color,
        m.background,
        escaped_newlines(s, i) == 0,
    ensures
        newlines_follow_reset(text_of(render(s, i, seed, palette, m, flush))),
    decreases s.len() - i,
{
    if 0 <= i < s.len() {
        lemma_unit_newlines(s, i, seed, palette, m, flush);
        match unit_len(s, i) {
            Ok(n) => {
                let next = seed + seed_step(s[i], m);
                lemma_every_newline_follows_background_reset(s, i + n, next, palette, m, flush);
                lemma_newlines_follow_reset_concat(
                    unit_output(s, i, n, seed, palette, m, flush),
                    text_of(render(s, i + n, next, palette, m, flush)),
                );
            },
            Err(_) => {},
        }
    }
}

/// A line without escape characters and newlines, with the newline that ends
/// it: all of it is recognised, and it holds the one newline.
proof fn lemma_plain_line(text: Seq<char>, i: int)
    requires
        0 <= i < text.len(),
        text.last() == '\n',
        forall|j: int| 0 <= j < text.len() - 1 ==> #[trigger] text[j] != '\n' && text[j] != ESC,
    ensures
        recognised(text, i),
        newline_units(text, i) == 1,
        escaped_newlines(text, i) == 0,
    decreases text.len() - i,
{
    assert(text.last() == text[text.len() - 1]);
    if i < text.len() - 1 {
        assert(text[i] != ESC && text[i] != '\n');
        lemma_plain_line(text, i + 1);
    } else {
        assert(recognised(text, i + 1));
        assert(newline_units(text, i + 1) == 0);
        assert(escaped_newlines(text, i + 1) == 0);
    }
    assert(unit_len(text, i) == Ok::<nat, ScanError>(1));
}

proof fn lemma_plain_lines(
    lines: Seq<Seq<char>>,
    k: int,
    seed: nat,
    palette: Seq<(u8, u8, u8)>,
    m: Modes,
)
    requires
        0 <= k <= lines.len(),
        m.print_color,
        forall|j: int, i: int|
            0 <= j < lines.len() && 0 <= i < lines[j].len() ==> #[trigger] lines[j][i] != '\n'
                && lines[j][i] != ESC,
    ensures
        render_lines(lines, k, seed, palette, m) is Ok,
        count_newlines(text_of(render_lines(lines, k, seed, palette, m))) == lines.len() - k,
        m.background ==> newlines_follow_reset(text_of(render_lines(lines, k, seed, palette, m))),
    decreases lines.len() - k,
{
    if k < lines.len() {
        let text = lines[k].push('\n');
        assert forall|j: int| 0 <= j < text.len() - 1 implies #[trigger] text[j] != '\n'
            && text[j] != ESC by {
            assert(text[j] == lines[k][j]);
        }
        lemma_plain_line(text, 0);
        lemma_rendered_iff_recognised(text, 0, seed, palette, m, false);
        lemma_newlines_are_counted(text, 0, seed, palette, m, false);
        if m.background {
            lemma_every_newline_follows_background_reset(text, 0, seed, palette, m, false);
        }
        match transduce(text, seed, palette, m, false) {
            Ok((out, next)) => {
                lemma_plain_lines(lines, k + 1, next, palette, m);
                let rest = text_of(render_lines(lines, k + 1, next, palette, m));
                lemma_count_newlines_concat(out, rest);
                if m.background {
                    lemma_newlines_follow_reset_concat(out, rest);
                }
            },
            Err(_) => {},
        }
    } else {
        lemma_count_newlines_none(Seq::<char>::empty());
    }
}

/// Plain lines end in a background reset and a newline each: of lines
/// without escape characters and newlines in them, the output holds one
/// newline for each line and no other, and in background mode the background
/// reset stands immediately before each of them.
pub proof fn lemma_plain_lines_end_in_background_reset(
    lines: Seq<Seq<char>>,
    seed: nat,
    palette: Seq<(u8, u8, u8)>,
    m: Modes,
)
    requires
        m.print_color,
        forall|j: int, i: int|
            0 <= j < lines.len() && 0 <= i < lines[j].len() ==> #[trigger] lines[j][i] != '\n'
                && lines[j][i] != ESC,
    ensures
        lines_output(lines, seed, palette, m) is Ok,
        count_newlines(text_of(lines_output(lines, seed, palette, m))) == lines.len(),
        m.background ==> newlines_follow_reset(text_of(lines_output(lines, seed, palette, m))),
{
    lemma_plain_lines(lines, 0, seed, palette, m);
    let body = text_of(render_lines(lines, 0, seed, palette, m));
    let end = foreground_reset();
    lemma_count_newlines_none(end);
    lemma_count_newlines_concat(body, end);
    if m.background {
        assert(newlines_follow_reset(end));
        lemma_newlines_follow_reset_concat(body, end);
    }
}

} // verus!
