//! Lexical recognition of terminal escape sequences.
//!
//! Only the boundaries of a sequence are recognised, so that it can be echoed
//! unmodified; what a sequence does to a terminal is of no concern here.

use vstd::prelude::*;

verus! {

/// The escape character, which introduces every escape sequence.
pub const ESC: char = '\x1b';

/// Why an escape sequence could not be recognised.
#[derive(Clone, Copy, Debug, PartialEq, Eq, Structural)]
pub enum ScanError {
    /// The input ends right after the escape character.
    LoneEscape,
    /// The input ends before the final byte of a CSI sequence.
    CsiUnterminated,
    /// A CSI sequence holds a byte that is neither a parameter, an
    /// intermediate nor a final byte where one of them is due.
    CsiBadByte,
    /// The input ends before the final byte of an nF sequence.
    NfUnterminated,
    /// An nF sequence holds a byte that is neither an intermediate nor a
    /// final byte.
    NfBadByte,
}

impl ScanError {
    /// The text of [`ScanError::message`].
    pub open spec fn message_text(self) -> Seq<char> {
        match self {
            ScanError::LoneEscape => "Escape character with no escape sequence after it"@,
            ScanError::CsiUnterminated => "CSI escape sequence did not terminate"@,
            ScanError::CsiBadByte => "CSI escape sequence terminated with an incorrect value"@,
            ScanError::NfUnterminated => "nF escape sequence did not terminate"@,
            ScanError::NfBadByte => "nF escape sequence terminated with an incorrect value"@,
        }
    }

    /// A sentence that describes the error.
    pub fn message(&self) -> (text: &'static str)
        ensures
            text@ == self.message_text(),
    {
        match self {
            ScanError::LoneEscape => "Escape character with no escape sequence after it",
            ScanError::CsiUnterminated => "CSI escape sequence did not terminate",
            ScanError::CsiBadByte => "CSI escape sequence terminated with an incorrect value",
            ScanError::NfUnterminated => "nF escape sequence did not terminate",
            ScanError::NfBadByte => "nF escape sequence terminated with an incorrect value",
        }
    }
}

/// A CSI parameter byte, `0x30..=0x3F`.
pub open spec fn is_parameter(c: char) -> bool {
    '\x30' <= c && c <= '\x3f'
}

/// An intermediate byte, `0x20..=0x2F`.
pub open spec fn is_intermediate(c: char) -> bool {
    '\x20' <= c && c <= '\x2f'
}

/// A byte that ends a CSI sequence, `0x40..=0x7E`.
pub open spec fn is_csi_final(c: char) -> bool {
    '\x40' <= c && c <= '\x7e'
}

/// A byte that ends an nF sequence, `0x30..=0x7E`.
pub open spec fn is_nf_final(c: char) -> bool {
    '\x30' <= c && c <= '\x7e'
}

/// How many characters in the range `lo..=hi` stand in a row in `s` from
/// index `i` on.
pub open spec fn byte_run(s: Seq<char>, i: int, lo: char, hi: char) -> nat
    decreases s.len() - i,
{
    if 0 <= i < s.len() && lo <= s[i] && s[i] <= hi {
        1 + byte_run(s, i + 1, lo, hi)
    } else {
        0
    }
}

/// How many parameter bytes stand in a row in `s` from index `i` on.
pub open spec fn parameter_run(s: Seq<char>, i: int) -> nat {
    byte_run(s, i, '\x30', '\x3f')
}

/// How many intermediate bytes stand in a row in `s` from index `i` on.
pub open spec fn intermediate_run(s: Seq<char>, i: int) -> nat {
    byte_run(s, i, '\x20', '\x2f')
}

/// The number of characters that follow the escape character at `s[i]` and
/// belong to its escape sequence, or the reason why there is no such sequence.
///
/// The character after the escape character selects the form:
/// - `[` opens a CSI sequence: parameter bytes, then intermediate bytes, then
///   one final byte;
/// - an intermediate byte opens an nF sequence: further intermediate bytes,
///   then one final byte;
/// - any other character is the whole sequence.
pub open spec fn escape_tail(s: Seq<char>, i: int) -> Result<nat, ScanError> {
    if i + 1 >= s.len() {
        Err(ScanError::LoneEscape)
    } else if s[i + 1] == '[' {
        let p = parameter_run(s, i + 2);
        let q = intermediate_run(s, i + 2 + p);
        let end = i + 2 + p + q;
        if end >= s.len() {
            Err(ScanError::CsiUnterminated)
        } else if is_csi_final(s[end]) {
            Ok(2 + p + q)
        } else {
            Err(ScanError::CsiBadByte)
        }
    } else if is_intermediate(s[i + 1]) {
        let q = intermediate_run(s, i + 2);
        let end = i + 2 + q;
        if end >= s.len() {
            Err(ScanError::NfUnterminated)
        } else if is_nf_final(s[end]) {
            Ok(2 + q)
        } else {
            Err(ScanError::NfBadByte)
        }
    } else {
        Ok(1)
    }
}

/// A run ends inside the sequence or at its end; it holds nothing but
/// characters of its range, and the character after it is none.
pub proof fn lemma_byte_run_bound(s: Seq<char>, i: int, lo: char, hi: char)
    requires
        0 <= i <= s.len(),
    ensures
        i + byte_run(s, i, lo, hi) <= s.len(),
        forall|j: int|
            i <= j < i + byte_run(s, i, lo, hi) ==> lo <= #[trigger] s[j] && s[j] <= hi,
        i + byte_run(s, i, lo, hi) < s.len() ==> !(lo <= s[i + byte_run(s, i, lo, hi)] && s[i
            + byte_run(s, i, lo, hi)] <= hi),
    decreases s.len() - i,
{
    if i < s.len() && lo <= s[i] && s[i] <= hi {
        lemma_byte_run_bound(s, i + 1, lo, hi);
    }
}

/// A stretch of characters of the range, followed by a character that is
/// none, is a run.
pub proof fn lemma_byte_run_is(s: Seq<char>, i: int, n: nat, lo: char, hi: char)
    requires
        0 <= i,
        i + n <= s.len(),
        forall|j: int| i <= j < i + n ==> lo <= #[trigger] s[j] && s[j] <= hi,
        i + n < s.len() ==> !(lo <= s[i + n] && s[i + n] <= hi),
    ensures
        byte_run(s, i, lo, hi) == n,
    decreases n,
{
    if n > 0 {
        lemma_byte_run_is(s, i + 1, (n - 1) as nat, lo, hi);
    }
}

/// A run that ends inside `u` is the same run when more text follows `u`.
pub proof fn lemma_byte_run_prefix(u: Seq<char>, v: Seq<char>, i: int, lo: char, hi: char)
    requires
        0 <= i <= u.len(),
        i + byte_run(u, i, lo, hi) < u.len(),
    ensures
        byte_run(u + v, i, lo, hi) == byte_run(u, i, lo, hi),
    decreases u.len() - i,
{
    assert((u + v)[i] == u[i]);
    if lo <= u[i] && u[i] <= hi {
        lemma_byte_run_prefix(u, v, i + 1, lo, hi);
    }
}

/// A run in `b` is the same run when text stands before `b`.
pub proof fn lemma_byte_run_suffix(a: Seq<char>, b: Seq<char>, i: int, lo: char, hi: char)
    requires
        0 <= i <= b.len(),
    ensures
        byte_run(a + b, a.len() + i, lo, hi) == byte_run(b, i, lo, hi),
    decreases b.len() - i,
{
    if i < b.len() {
        assert((a + b)[a.len() + i] == b[i]);
        if lo <= b[i] && b[i] <= hi {
            lemma_byte_run_suffix(a, b, i + 1, lo, hi);
        }
    }
}

/// A recognised escape sequence has at least one character after the escape
/// character and lies within the input.
pub proof fn lemma_escape_tail_bound(s: Seq<char>, i: int)
    requires
        0 <= i < s.len(),
    ensures
        escape_tail(s, i) matches Ok(n) ==> 1 <= n && i + 1 + n <= s.len(),
{
    if i + 1 < s.len() {
        if s[i + 1] == '[' {
            lemma_byte_run_bound(s, i + 2, '\x30', '\x3f');
            lemma_byte_run_bound(s, i + 2 + parameter_run(s, i + 2), '\x20', '\x2f');
        } else {
            lemma_byte_run_bound(s, i + 2, '\x20', '\x2f');
        }
    }
}

/// What a recognised escape sequence holds: unless it is a single character
/// after the escape character, that character is `[` or an intermediate byte,
/// and all that follow it lie in `0x20..=0x7E`.
pub proof fn lemma_escape_tail_is_printable(s: Seq<char>, i: int)
    requires
        0 <= i < s.len(),
    ensures
        escape_tail(s, i) matches Ok(n) ==> {
            &&& n > 1 ==> s[i + 1] == '[' || is_intermediate(s[i + 1])
            &&& forall|j: int| i + 2 <= j < i + 1 + n ==> '\x20' <= #[trigger] s[j] && s[j] <= '\x7e'
        },
{
    lemma_escape_tail_bound(s, i);
    if i + 1 < s.len() {
        if s[i + 1] == '[' {
            lemma_byte_run_bound(s, i + 2, '\x30', '\x3f');
            lemma_byte_run_bound(s, i + 2 + parameter_run(s, i + 2), '\x20', '\x2f');
        } else if is_intermediate(s[i + 1]) {
            lemma_byte_run_bound(s, i + 2, '\x20', '\x2f');
        }
    }
}

/// An escape sequence recognised in `u` is the same sequence when more text
/// follows `u`.
pub proof fn lemma_escape_tail_prefix(u: Seq<char>, v: Seq<char>, i: int)
    requires
        0 <= i < u.len(),
        escape_tail(u, i) is Ok,
    ensures
        escape_tail(u + v, i) == escape_tail(u, i),
{
    let w = u + v;
    assert(w[i + 1] == u[i + 1]);
    if u[i + 1] == '[' {
        let p = parameter_run(u, i + 2);
        lemma_byte_run_bound(u, i + 2, '\x30', '\x3f');
        lemma_byte_run_bound(u, i + 2 + p, '\x20', '\x2f');
        let q = intermediate_run(u, i + 2 + p);
        lemma_byte_run_prefix(u, v, i + 2, '\x30', '\x3f');
        lemma_byte_run_prefix(u, v, i + 2 + p, '\x20', '\x2f');
        assert(w[i + 2 + p + q] == u[i + 2 + p + q]);
    } else if is_intermediate(u[i + 1]) {
        let q = intermediate_run(u, i + 2);
        lemma_byte_run_bound(u, i + 2, '\x20', '\x2f');
        lemma_byte_run_prefix(u, v, i + 2, '\x20', '\x2f');
        assert(w[i + 2 + q] == u[i + 2 + q]);
    }
}

/// What is recognised at an escape character of `b` is the same when text
/// stands before `b`.
pub proof fn lemma_escape_tail_suffix(a: Seq<char>, b: Seq<char>, i: int)
    requires
        0 <= i < b.len(),
    ensures
        escape_tail(a + b, a.len() + i) == escape_tail(b, i),
{
    let w = a + b;
    let k = a.len() + i;
    if i + 1 < b.len() {
        assert(w[k + 1] == b[i + 1]);
        if b[i + 1] == '[' {
            let p = parameter_run(b, i + 2);
            lemma_byte_run_bound(b, i + 2, '\x30', '\x3f');
            lemma_byte_run_bound(b, i + 2 + p, '\x20', '\x2f');
            let q = intermediate_run(b, i + 2 + p);
            lemma_byte_run_suffix(a, b, i + 2, '\x30', '\x3f');
            lemma_byte_run_suffix(a, b, i + 2 + p, '\x20', '\x2f');
            if i + 2 + p + q < b.len() {
                assert(w[k + 2 + p + q] == b[i + 2 + p + q]);
            }
        } else if is_intermediate(b[i + 1]) {
            let q = intermediate_run(b, i + 2);
            lemma_byte_run_bound(b, i + 2, '\x20', '\x2f');
            lemma_byte_run_suffix(a, b, i + 2, '\x20', '\x2f');
            if i + 2 + q < b.len() {
                assert(w[k + 2 + q] == b[i + 2 + q]);
            }
        }
    }
}

/// The index just past the characters in the range `lo..=hi` that stand in a
/// row from `from` on.
fn skip_run(input: &[char], from: usize, lo: char, hi: char) -> (to: usize)
    requires
        from <= input@.len(),
    ensures
        to == from + byte_run(input@, from as int, lo, hi),
        to <= input@.len(),
{
    let mut j: usize = from;
    while j < input.len() && lo <= input[j] && input[j] <= hi
        invariant
            from <= j <= input@.len(),
            byte_run(input@, from as int, lo, hi) == (j - from) + byte_run(
                input@,
                j as int,
                lo,
                hi,
            ),
        decreases input@.len() - j,
    {
        j = j + 1;
    }
    j
}

/// Finds the end of the escape sequence whose escape character is
/// `input[start]`: the index just past its last character.
pub fn scan_escape(input: &[char], start: usize) -> (r: Result<usize, ScanError>)
    requires
        start < input@.len(),
        input@[start as int] == ESC,
    ensures
        match escape_tail(input@, start as int) {
            Ok(n) => r == Ok::<usize, ScanError>((start + 1 + n) as usize) && start + 1 + n
                <= input@.len(),
            Err(e) => r == Err::<usize, ScanError>(e),
        },
{
    proof {
        lemma_escape_tail_bound(input@, start as int);
    }
    let len = input.len();
    if start + 1 >= len {
        return Err(ScanError::LoneEscape);
    }
    let first = input[start + 1];
    if first == '[' {
        let p = skip_run(input, start + 2, '\x30', '\x3f');
        let end = skip_run(input, p, '\x20', '\x2f');
        if end >= len {
            Err(ScanError::CsiUnterminated)
        } else if '\x40' <= input[end] && input[end] <= '\x7e' {
            Ok(end + 1)
        } else {
            Err(ScanError::CsiBadByte)
        }
    } else if '\x20' <= first && first <= '\x2f' {
        let end = skip_run(input, start + 2, '\x20', '\x2f');
        if end >= len {
            Err(ScanError::NfUnterminated)
        } else if '\x30' <= input[end] && input[end] <= '\x7e' {
            Ok(end + 1)
        } else {
            Err(ScanError::NfBadByte)
        }
    } else {
        Ok(start + 2)
    }
}

} // verus!
