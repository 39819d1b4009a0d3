//! The PEM armor of transport security material.
//!
//! A text is taken for PEM when it is ASCII and made of one or more armored
//! blocks. A block is a line `-----BEGIN <label>-----`, a body of base64
//! lines, and a line `-----END <label>-----` with the same label. Line
//! breaks may stand before the first block, between blocks and after the
//! last. What the base64 decodes to is not looked at.

use vstd::prelude::*;
use vstd::string::is_ascii_spec_bytes;
use vstd::utf8::is_ascii_chars;

verus! {

/// The byte `-`.
pub const DASH: u8 = 0x2d;

/// The byte `=`, which pads a base64 body.
pub const PAD: u8 = 0x3d;

/// The line feed.
pub const LF: u8 = 0x0a;

/// The carriage return.
pub const CR: u8 = 0x0d;

/// The kinds of bytes that a block is made of.
#[derive(Clone, Copy, Debug, PartialEq, Eq, Structural)]
pub enum Class {
    /// What a label may hold: printable ASCII except `-`.
    Label,
    /// What a body may hold: base64 digits, padding and line breaks.
    Body,
    /// Line breaks.
    Break,
}

/// `c` is a line feed or a carriage return.
pub open spec fn is_break(c: u8) -> bool {
    c == LF || c == CR
}

/// `c` is a base64 digit: a letter, a digit, `+` or `/`.
pub open spec fn is_data(c: u8) -> bool {
    ||| 0x41 <= c <= 0x5a
    ||| 0x61 <= c <= 0x7a
    ||| 0x30 <= c <= 0x39
    ||| c == 0x2b
    ||| c == 0x2f
}

/// `c` belongs to `class`.
pub open spec fn in_class(class: Class, c: u8) -> bool {
    match class {
        Class::Label => 0x20 <= c <= 0x7e && c != DASH,
        Class::Body => is_data(c) || c == PAD || is_break(c),
        Class::Break => is_break(c),
    }
}

/// Where the run of bytes of `class` that starts at `from` ends: the first
/// index at or after `from` whose byte is of another class, or the end of
/// `b`.
pub open spec fn run_end(b: Seq<u8>, from: int, class: Class) -> int
    decreases b.len() - from,
{
    if 0 <= from < b.len() && in_class(class, b[from]) {
        run_end(b, from + 1, class)
    } else {
        from
    }
}

/// `b` holds `word` at `at`.
pub open spec fn has_at(b: Seq<u8>, at: int, word: Seq<u8>) -> bool {
    0 <= at && at + word.len() <= b.len() && b.subrange(at, at + word.len()) == word
}

/// A base64 digit stands somewhere in `b` from `from` up to `to`.
pub open spec fn holds_data(b: Seq<u8>, from: int, to: int) -> bool {
    exists|k: int| from <= k < to && is_data(#[trigger] b[k])
}

/// The bytes of `-----BEGIN `.
pub open spec fn begin_marker() -> Seq<u8> {
    seq![0x2du8, 0x2d, 0x2d, 0x2d, 0x2d, 0x42, 0x45, 0x47, 0x49, 0x4e, 0x20]
}

/// The bytes of `-----END `.
pub open spec fn end_marker() -> Seq<u8> {
    seq![0x2du8, 0x2d, 0x2d, 0x2d, 0x2d, 0x45, 0x4e, 0x44, 0x20]
}

/// The bytes of `-----`.
pub open spec fn dashes() -> Seq<u8> {
    seq![0x2du8, 0x2d, 0x2d, 0x2d, 0x2d]
}

/// Where the block that starts at `at` ends, just behind the dashes that
/// close its END line; `None` if no block starts at `at`.
///
/// A block is `-----BEGIN `, a label that is not empty, `-----`, a body that
/// begins with a line break, ends with a line feed and holds at least one
/// base64 digit, then `-----END `, the same label and `-----`.
pub open spec fn block_end(b: Seq<u8>, at: int) -> Option<int> {
    let label = at + begin_marker().len();
    let label_end = run_end(b, label, Class::Label);
    let body = label_end + dashes().len();
    let body_end = run_end(b, body, Class::Body);
    let end_label = body_end + end_marker().len();
    let closing = end_label + (label_end - label);
    if has_at(b, at, begin_marker()) && label < label_end && has_at(b, label_end, dashes())
        && body < body_end && is_break(b[body]) && b[body_end - 1] == LF && holds_data(
        b,
        body,
        body_end,
    ) && has_at(b, body_end, end_marker()) && has_at(b, end_label, b.subrange(label, label_end))
        && has_at(b, closing, dashes()) {
        Some(closing + dashes().len())
    } else {
        None
    }
}

/// From `at` to its end `b` is one or more blocks, with nothing but line
/// breaks between them and behind the last.
pub open spec fn blocks_from(b: Seq<u8>, at: int) -> bool
    decreases b.len() - at,
{
    match block_end(b, at) {
        None => false,
        Some(end) => {
            let next = run_end(b, end, Class::Break);
            next == b.len() || (at < next < b.len() && blocks_from(b, next))
        },
    }
}

/// `b` is PEM armor: line breaks, if any, and then blocks to the end.
pub open spec fn armored(b: Seq<u8>) -> bool {
    blocks_from(b, run_end(b, 0, Class::Break))
}

/// The bytes of an ASCII text, one for each character.
pub open spec fn ascii_bytes(text: Seq<char>) -> Seq<u8> {
    Seq::new(text.len(), |i: int| text[i] as u8)
}

/// `text` is PEM: it is ASCII, and its bytes are PEM armor.
pub open spec fn is_pem(text: Seq<char>) -> bool {
    is_ascii_chars(text) && armored(ascii_bytes(text))
}

/// Tells whether `c` belongs to `class`.
fn has_class(class: Class, c: u8) -> (yes: bool)
    ensures
        yes == in_class(class, c),
{
    let broken = c == LF || c == CR;
    match class {
        Class::Label => 0x20 <= c && c <= 0x7e && c != DASH,
        Class::Body => (0x41 <= c && c <= 0x5a) || (0x61 <= c && c <= 0x7a) || (0x30 <= c && c
            <= 0x39) || c == 0x2b || c == 0x2f || c == PAD || broken,
        Class::Break => broken,
    }
}

/// Finds the end of the run of bytes of `class` that starts at `from`, and
/// tells whether the run holds a base64 digit.
fn scan(b: &[u8], from: usize, class: Class) -> (found: (usize, bool))
    requires
        from <= b.len(),
    ensures
        found.0 == run_end(b@, from as int, class),
        from <= found.0 <= b.len(),
        found.1 == holds_data(b@, from as int, found.0 as int),
{
    let mut at = from;
    let mut data = false;
    while at < b.len() && has_class(class, b[at])
        invariant
            from <= at <= b.len(),
            run_end(b@, from as int, class) == run_end(b@, at as int, class),
            data == holds_data(b@, from as int, at as int),
        decreases b.len() - at,
    {
        let c = b[at];
        let digit = (0x41 <= c && c <= 0x5a) || (0x61 <= c && c <= 0x7a) || (0x30 <= c && c
            <= 0x39) || c == 0x2b || c == 0x2f;
        proof {
            if digit {
                assert(is_data(b@[at as int]));
            } else if holds_data(b@, from as int, at + 1) {
                let k = choose|k: int| from <= k < at + 1 && is_data(#[trigger] b@[k]);
                assert(k < at);
            }
        }
        data = data || digit;
        at = at + 1;
    }
    (at, data)
}

/// Tells whether `b` holds `word` at `at`.
fn holds_at(b: &[u8], at: usize, word: &[u8]) -> (yes: bool)
    requires
        at <= b.len(),
    ensures
        yes == has_at(b@, at as int, word@),
{
    if word.len() > b.len() - at {
        return false;
    }
    let mut i: usize = 0;
    while i < word.len()
        invariant
            i <= word.len(),
            at + word.len() <= b.len(),
            forall|k: int| 0 <= k < i ==> b@[at + k] == word@[k],
        decreases word.len() - i,
    {
        if b[at + i] != word[i] {
            proof {
                assert(b@.subrange(at as int, at + word@.len())[i as int] == b@[at + i]);
            }
            return false;
        }
        i = i + 1;
    }
    proof {
        assert(b@.subrange(at as int, at + word@.len()) =~= word@);
    }
    true
}

/// Tells whether `b` holds at `at` the `n` bytes that it holds at `from`.
fn repeats_at(b: &[u8], at: usize, from: usize, n: usize) -> (yes: bool)
    requires
        at <= b.len(),
        from + n <= b.len(),
    ensures
        yes == has_at(b@, at as int, b@.subrange(from as int, from + n)),
{
    if n > b.len() - at {
        return false;
    }
    let ghost word = b@.subrange(from as int, from + n);
    let mut i: usize = 0;
    while i < n
        invariant
            i <= n,
            at + n <= b.len(),
            from + n <= b.len(),
            word == b@.subrange(from as int, from + n),
            forall|k: int| 0 <= k < i ==> b@[at + k] == word[k],
        decreases n - i,
    {
        if b[at + i] != b[from + i] {
            proof {
                assert(b@.subrange(at as int, at + n)[i as int] == b@[at + i]);
                assert(word[i as int] == b@[from + i]);
            }
            return false;
        }
        proof {
            assert(word[i as int] == b@[from + i]);
        }
        i = i + 1;
    }
    proof {
        assert(b@.subrange(at as int, at + n) =~= word);
    }
    true
}

/// Finds the end of the block that starts at `at`.
fn check_block(b: &[u8], at: usize) -> (end: Option<usize>)
    requires
        at <= b.len(),
    ensures
        match end {
            Some(e) => block_end(b@, at as int) == Some(e as int) && at < e <= b.len(),
            None => block_end(b@, at as int) is None,
        },
{
    let begin: [u8; 11] = [0x2d, 0x2d, 0x2d, 0x2d, 0x2d, 0x42, 0x45, 0x47, 0x49, 0x4e, 0x20];
    let finish: [u8; 9] = [0x2d, 0x2d, 0x2d, 0x2d, 0x2d, 0x45, 0x4e, 0x44, 0x20];
    let five: [u8; 5] = [0x2d, 0x2d, 0x2d, 0x2d, 0x2d];
    proof {
        assert(begin@ =~= begin_marker());
        assert(finish@ =~= end_marker());
        assert(five@ =~= dashes());
    }
    if !holds_at(b, at, begin.as_slice()) {
        return None;
    }
    let label = at + 11;
    let (label_end, _) = scan(b, label, Class::Label);
    if label_end == label {
        return None;
    }
    if !holds_at(b, label_end, five.as_slice()) {
        return None;
    }
    let body = label_end + 5;
    let (body_end, data) = scan(b, body, Class::Body);
    if body_end == body {
        return None;
    }
    if !(b[body] == LF || b[body] == CR) {
        return None;
    }
    if b[body_end - 1] != LF {
        return None;
    }
    if !data {
        return None;
    }
    if !holds_at(b, body_end, finish.as_slice()) {
        return None;
    }
    let end_label = body_end + 9;
    let n = label_end - label;
    if !repeats_at(b, end_label, label, n) {
        return None;
    }
    let closing = end_label + n;
    if !holds_at(b, closing, five.as_slice()) {
        return None;
    }
    Some(closing + 5)
}

/// Tells whether `b` is PEM armor.
pub fn check_armor(b: &[u8]) -> (ok: bool)
    ensures
        ok == armored(b@),
{
    let (start, _) = scan(b, 0, Class::Break);
    let mut at = start;
    loop
        invariant
            at <= b.len(),
            armored(b@) == blocks_from(b@, at as int),
        decreases b.len() - at,
    {
        match check_block(b, at) {
            None => {
                return false;
            },
            Some(end) => {
                let (next, _) = scan(b, end, Class::Break);
                if next == b.len() {
                    return true;
                }
                at = next;
            },
        }
    }
}

/// Tells whether `text` is PEM.
pub fn check_pem(text: &str) -> (ok: bool)
    ensures
        ok == is_pem(text@),
{
    if !text.is_ascii() {
        return false;
    }
    let bytes = text.as_bytes();
    proof {
        is_ascii_spec_bytes(text);
        assert(bytes@ =~= ascii_bytes(text@));
    }
    check_armor(bytes)
}

} // verus!
