//! PEM: binary data as text, between a line that begins it and a line that ends it.
//!
//! ```text
//! -----BEGIN PUBLIC KEY-----
//! MFkwEwYHKoZIzj0CAQYIKoZIzj0DAQcDQgAE...
//! -----END PUBLIC KEY-----
//! ```
//!
//! The label may be any text without a dash, and must be the same at both ends. Between the
//! two lines stands base64, broken up by blanks in any way. Behind the end only blanks may
//! follow. The base64 must be whole: groups of four symbols, padded at the end with `=` where
//! the data stops short, and no stray bits in the last symbol.
use vstd::prelude::*;
use vstd::slice::slice_subrange;
use vstd::string::*;

verus! {

/// `-`
pub const DASH: u8 = 0x2d;

/// `=`
pub const PAD: u8 = 0x3d;

/// What is wrong with a text that is no PEM.
#[derive(Clone, Copy, Debug, PartialEq, Eq, Structural)]
pub enum PemError {
    /// The text is not data between a beginning and an end with one label.
    Armor,
    /// What stands between the beginning and the end is not whole base64.
    Encoding,
}

/// Space, tab, carriage return, line feed.
pub open spec fn is_blank(byte: u8) -> bool {
    byte == 0x20 || byte == 0x09 || byte == 0x0d || byte == 0x0a
}

/// Where the first dash at or behind `from` stands; the length of the text if there is none.
pub open spec fn next_dash(text: Seq<u8>, from: int) -> int
    decreases text.len() - from,
{
    if from >= text.len() {
        text.len() as int
    } else if text[from] == DASH {
        from
    } else {
        next_dash(text, from + 1)
    }
}

/// Whether the pattern stands in the text at `at`.
pub open spec fn stands_at(text: Seq<u8>, at: int, pattern: Seq<u8>) -> bool {
    0 <= at && at + pattern.len() <= text.len() && text.subrange(at, at + pattern.len())
        == pattern
}

/// Whether the text holds only blanks from `from` on.
pub open spec fn blank_from(text: Seq<u8>, from: int) -> bool {
    forall|i: int| from <= i < text.len() ==> is_blank(#[trigger] text[i])
}

/// The text that begins a PEM, up to the label.
pub open spec fn begin_mark() -> Seq<u8> {
    "-----BEGIN ".spec_bytes()
}

/// The text that ends a PEM, up to the label.
pub open spec fn end_mark() -> Seq<u8> {
    "-----END ".spec_bytes()
}

/// The dashes that close the line of a label.
pub open spec fn label_close() -> Seq<u8> {
    "-----".spec_bytes()
}

/// Where the label of a text ends, the label being what follows the beginning.
pub open spec fn label_end(text: Seq<u8>) -> int {
    next_dash(text, begin_mark().len() as int)
}

/// The label of a text.
pub open spec fn label(text: Seq<u8>) -> Seq<u8> {
    text.subrange(begin_mark().len() as int, label_end(text))
}

/// Where the body of a text starts: behind the line of the first label.
pub open spec fn body_start(text: Seq<u8>) -> int {
    label_end(text) + label_close().len()
}

/// Where the body of a text ends: at the first dash behind its start.
pub open spec fn body_end(text: Seq<u8>) -> int {
    next_dash(text, body_start(text))
}

/// Whether the text is a PEM frame: a beginning with a label, a body, and an end with the same
/// label, followed by blanks at most.
pub open spec fn is_armored(text: Seq<u8>) -> bool {
    &&& stands_at(text, 0, begin_mark())
    &&& label_end(text) > begin_mark().len()
    &&& stands_at(text, label_end(text), label_close())
    &&& stands_at(text, body_end(text), end_mark())
    &&& stands_at(text, body_end(text) + end_mark().len(), label(text))
    &&& stands_at(text, body_end(text) + end_mark().len() + label(text).len(), label_close())
    &&& blank_from(
        text,
        body_end(text) + end_mark().len() + label(text).len() + label_close().len(),
    )
}

/// The body of a PEM frame.
pub open spec fn body(text: Seq<u8>) -> Seq<u8> {
    text.subrange(body_start(text), body_end(text))
}

/// The symbols of a body: what is left when the blanks are taken out.
pub open spec fn symbols(body: Seq<u8>) -> Seq<u8>
    decreases body.len(),
{
    if body.len() == 0 {
        body
    } else if is_blank(body.last()) {
        symbols(body.drop_last())
    } else {
        symbols(body.drop_last()).push(body.last())
    }
}

/// The six bits that a base64 symbol stands for.
pub open spec fn sextet(symbol: u8) -> Option<int> {
    if 0x41 <= symbol <= 0x5a {
        Some(symbol - 0x41)
    } else if 0x61 <= symbol <= 0x7a {
        Some(symbol - 0x61 + 26)
    } else if 0x30 <= symbol <= 0x39 {
        Some(symbol - 0x30 + 52)
    } else if symbol == 0x2b {
        Some(62)
    } else if symbol == 0x2f {
        Some(63)
    } else {
        None
    }
}

/// The first byte that a group spells: the first sextet and the upper two bits of the second.
pub open spec fn first_byte(a: int, b: int) -> u8 {
    (a * 4 + b / 16) as u8
}

/// The second byte that a group spells: the lower four bits of the second sextet and the upper
/// four of the third.
pub open spec fn second_byte(b: int, c: int) -> u8 {
    ((b % 16) * 16 + c / 4) as u8
}

/// The third byte that a group spells: the lower two bits of the third sextet and the fourth.
pub open spec fn third_byte(c: int, d: int) -> u8 {
    ((c % 4) * 64 + d) as u8
}

/// The bytes that a group of four symbols spells, padding allowed: three bytes without
/// padding, two with one `=`, one with two. `None` where a symbol is none of base64, padding
/// stands anywhere but at the end, or the last symbol before the padding has bits to spare.
pub open spec fn group(a: u8, b: u8, c: u8, d: u8) -> Option<Seq<u8>> {
    match (sextet(a), sextet(b)) {
        (Some(x), Some(y)) => if c == PAD {
            if d == PAD && y % 16 == 0 {
                Some(seq![first_byte(x, y)])
            } else {
                None
            }
        } else {
            match sextet(c) {
                None => None,
                Some(z) => if d == PAD {
                    if z % 4 == 0 {
                        Some(seq![first_byte(x, y), second_byte(y, z)])
                    } else {
                        None
                    }
                } else {
                    match sextet(d) {
                        None => None,
                        Some(w) => Some(
                            seq![first_byte(x, y), second_byte(y, z), third_byte(z, w)],
                        ),
                    }
                },
            }
        },
        _ => None,
    }
}

/// The bytes that symbols spell, group by group. Only the last group may be padded.
pub open spec fn decoded(symbols: Seq<u8>) -> Option<Seq<u8>>
    decreases symbols.len(),
{
    if symbols.len() == 0 {
        Some(Seq::empty())
    } else if symbols.len() < 4 {
        None
    } else {
        match group(symbols[0], symbols[1], symbols[2], symbols[3]) {
            None => None,
            Some(bytes) => if symbols.len() == 4 {
                Some(bytes)
            } else if bytes.len() < 3 {
                None
            } else {
                match decoded(symbols.skip(4)) {
                    None => None,
                    Some(rest) => Some(bytes + rest),
                }
            },
        }
    }
}

/// The data that a PEM text carries, or what is wrong with the text.
pub open spec fn carried(text: Seq<u8>) -> Result<Seq<u8>, PemError> {
    if !is_armored(text) {
        Err(PemError::Armor)
    } else {
        match decoded(symbols(body(text))) {
            None => Err(PemError::Encoding),
            Some(bytes) => Ok(bytes),
        }
    }
}

/// Finds the first dash at or behind `from`.
fn find_dash(text: &[u8], from: usize) -> (r: usize)
    requires
        from <= text@.len(),
    ensures
        r == next_dash(text@, from as int),
        from <= r <= text@.len(),
{
    let mut at = from;
    while at < text.len() && text[at] != DASH
        invariant
            from <= at <= text@.len(),
            next_dash(text@, from as int) == next_dash(text@, at as int),
        decreases text@.len() - at,
    {
        at = at + 1;
    }
    at
}

/// Says whether the pattern stands in the text at `at`.
fn stands(text: &[u8], at: usize, pattern: &[u8]) -> (r: bool)
    ensures
        r == stands_at(text@, at as int, pattern@),
{
    if at > text.len() || pattern.len() > text.len() - at {
        return false;
    }
    let total = text.len();
    let mut matched: usize = 0;
    while matched < pattern.len()
        invariant
            matched <= pattern@.len(),
            at + pattern@.len() <= text@.len() == total,
            forall|i: int| 0 <= i < matched ==> text@[at + i] == pattern@[i],
        decreases pattern@.len() - matched,
    {
        if text[at + matched] != pattern[matched] {
            assert(text@.subrange(at as int, at + pattern@.len())[matched as int]
                != pattern@[matched as int]);
            return false;
        }
        matched = matched + 1;
    }
    assert(text@.subrange(at as int, at + pattern@.len()) =~= pattern@);
    true
}

/// Says whether the text holds only blanks from `from` on.
fn only_blanks(text: &[u8], from: usize) -> (r: bool)
    requires
        from <= text@.len(),
    ensures
        r == blank_from(text@, from as int),
{
    let mut at = from;
    while at < text.len()
        invariant
            from <= at <= text@.len(),
            forall|i: int| from <= i < at ==> is_blank(#[trigger] text@[i]),
        decreases text@.len() - at,
    {
        let byte = text[at];
        if !(byte == 0x20 || byte == 0x09 || byte == 0x0d || byte == 0x0a) {
            return false;
        }
        at = at + 1;
    }
    true
}

/// Finds the body of a PEM frame: where it starts and where it ends.
fn find_body(text: &[u8]) -> (r: Option<(usize, usize)>)
    ensures
        r is Some <==> is_armored(text@),
        r matches Some((start, end)) ==> start == body_start(text@) && end == body_end(text@)
            && start <= end <= text@.len(),
{
    let total = text.len();
    let begin = "-----BEGIN ".as_bytes();
    let end = "-----END ".as_bytes();
    let close = "-----".as_bytes();
    if !stands(text, 0, begin) {
        return None;
    }
    let label_start = begin.len();
    let label_end = find_dash(text, label_start);
    if label_end == label_start || !stands(text, label_end, close) {
        return None;
    }
    let body_start = label_end + close.len();
    let body_end = find_dash(text, body_start);
    if !stands(text, body_end, end) {
        return None;
    }
    let second_label = body_end + end.len();
    if !stands(text, second_label, slice_subrange(text, label_start, label_end)) {
        return None;
    }
    let second_close = second_label + (label_end - label_start);
    if !stands(text, second_close, close) {
        return None;
    }
    if !only_blanks(text, second_close + close.len()) {
        return None;
    }
    Some((body_start, body_end))
}

/// Takes the blanks out of a stretch of text.
fn take_symbols(text: &[u8], start: usize, end: usize) -> (r: Vec<u8>)
    requires
        start <= end <= text@.len(),
    ensures
        r@ == symbols(text@.subrange(start as int, end as int)),
{
    let mut found: Vec<u8> = Vec::new();
    let mut at = start;
    while at < end
        invariant
            start <= at <= end <= text@.len(),
            found@ == symbols(text@.subrange(start as int, at as int)),
        decreases end - at,
    {
        let byte = text[at];
        proof {
            let next = text@.subrange(start as int, at + 1);
            assert(next.drop_last() == text@.subrange(start as int, at as int));
            assert(next.last() == byte);
        }
        if !(byte == 0x20 || byte == 0x09 || byte == 0x0d || byte == 0x0a) {
            found.push(byte);
        }
        at = at + 1;
    }
    found
}

/// Reads the six bits of a base64 symbol.
fn read_sextet(symbol: u8) -> (r: Option<u8>)
    ensures
        match sextet(symbol) {
            Some(bits) => r == Some(bits as u8) && bits < 64,
            None => r is None,
        },
{
    if 0x41 <= symbol && symbol <= 0x5a {
        Some(symbol - 0x41)
    } else if 0x61 <= symbol && symbol <= 0x7a {
        Some(symbol - 0x61 + 26)
    } else if 0x30 <= symbol && symbol <= 0x39 {
        Some(symbol - 0x30 + 52)
    } else if symbol == 0x2b {
        Some(62)
    } else if symbol == 0x2f {
        Some(63)
    } else {
        None
    }
}

/// Appends to `bytes` what a group of four symbols spells. Says whether the group spells
/// anything.
fn read_group(a: u8, b: u8, c: u8, d: u8, bytes: &mut Vec<u8>) -> (r: bool)
    ensures
        match group(a, b, c, d) {
            Some(spelt) => r && final(bytes)@ == old(bytes)@ + spelt,
            None => !r,
        },
{
    let x = match read_sextet(a) {
        Some(x) => x,
        None => {
            return false;
        },
    };
    let y = match read_sextet(b) {
        Some(y) => y,
        None => {
            return false;
        },
    };
    if c == PAD {
        if d != PAD || y % 16 != 0 {
            return false;
        }
        bytes.push(x * 4 + y / 16);
        assert(bytes@ =~= old(bytes)@ + seq![first_byte(x as int, y as int)]);
        return true;
    }
    let z = match read_sextet(c) {
        Some(z) => z,
        None => {
            return false;
        },
    };
    if d == PAD {
        if z % 4 != 0 {
            return false;
        }
        bytes.push(x * 4 + y / 16);
        bytes.push((y % 16) * 16 + z / 4);
        assert(bytes@ =~= old(bytes)@ + seq![
            first_byte(x as int, y as int),
            second_byte(y as int, z as int),
        ]);
        return true;
    }
    let w = match read_sextet(d) {
        Some(w) => w,
        None => {
            return false;
        },
    };
    bytes.push(x * 4 + y / 16);
    bytes.push((y % 16) * 16 + z / 4);
    bytes.push((z % 4) * 64 + w);
    assert(bytes@ =~= old(bytes)@ + seq![
        first_byte(x as int, y as int),
        second_byte(y as int, z as int),
        third_byte(z as int, w as int),
    ]);
    true
}

/// Reads the bytes that symbols spell.
fn read_symbols(symbols: &Vec<u8>) -> (r: Option<Vec<u8>>)
    ensures
        match decoded(symbols@) {
            Some(bytes) => r matches Some(read) && read@ == bytes,
            None => r is None,
        },
{
    let mut bytes: Vec<u8> = Vec::new();
    let mut at: usize = 0;
    proof {
        assert(symbols@.skip(0) =~= symbols@);
        assert forall|rest: Seq<u8>| bytes@ + rest == rest by {
            assert(bytes@ + rest =~= rest);
        }
    }
    while at < symbols.len()
        invariant
            at <= symbols@.len(),
            decoded(symbols@) == match decoded(symbols@.skip(at as int)) {
                Some(rest) => Some(bytes@ + rest),
                None => None,
            },
        decreases symbols@.len() - at,
    {
        let ghost left = symbols@.skip(at as int);
        if symbols.len() - at < 4 {
            return None;
        }
        let ghost before = bytes@;
        let had = bytes.len();
        let spelt = read_group(
            symbols[at],
            symbols[at + 1],
            symbols[at + 2],
            symbols[at + 3],
            &mut bytes,
        );
        if !spelt {
            return None;
        }
        if symbols.len() - at > 4 && bytes.len() - had != 3 {
            return None;
        }
        proof {
            assert(left.skip(4) =~= symbols@.skip(at + 4));
            let group_bytes = group(left[0], left[1], left[2], left[3])->0;
            if left.len() == 4 {
                assert(symbols@.skip(at + 4) =~= Seq::<u8>::empty());
                assert(group_bytes + Seq::<u8>::empty() =~= group_bytes);
            } else {
                assert forall|rest: Seq<u8>| before + (group_bytes + rest) == bytes@ + rest by {
                    assert(before + (group_bytes + rest) =~= bytes@ + rest);
                }
            }
        }
        at = at + 4;
    }
    proof {
        assert(symbols@.skip(at as int) =~= Seq::<u8>::empty());
        assert(bytes@ + Seq::<u8>::empty() =~= bytes@);
    }
    Some(bytes)
}

/// Reads the data that a PEM text carries.
pub fn decode(text: &str) -> (r: Result<Vec<u8>, PemError>)
    ensures
        match carried(text.spec_bytes()) {
            Ok(bytes) => r matches Ok(read) && read@ == bytes,
            Err(fault) => r == Err::<Vec<u8>, PemError>(fault),
        },
{
    let text = text.as_bytes();
    match find_body(text) {
        None => Err(PemError::Armor),
        Some((start, end)) => {
            let symbols = take_symbols(text, start, end);
            match read_symbols(&symbols) {
                None => Err(PemError::Encoding),
                Some(bytes) => Ok(bytes),
            }
        },
    }
}

} // verus!
