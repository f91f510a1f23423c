//! The frame of an envelope: five parts between four dots, of which the third carries the
//! initialization vector of the content encryption.
//!
//! An envelope is looked at here before any key touches it. The content encryption that
//! sealing uses takes a vector of sixteen bytes, which are twenty-two symbols of base64. A
//! text with fewer symbols in that place, with another number of parts, or too long for the
//! cipher to take in one piece, is no envelope that can be decrypted.
use vstd::prelude::*;
use vstd::string::*;

verus! {

/// `.`
pub const DOT: u8 = 0x2e;

/// The parts of an envelope are separated by this many dots.
pub const SEPARATORS: usize = 4;

/// The part of an envelope that carries the initialization vector, counted from zero.
pub const VECTOR_PART: usize = 2;

/// The fewest symbols that spell the sixteen bytes of an initialization vector.
pub const VECTOR_SYMBOLS: usize = 22;

/// A signed token has three parts, separated by this many dots.
pub const SIGNED_SEPARATORS: usize = 2;

/// The longest text, in bytes, that is handed on for decryption.
pub const LONGEST_ENVELOPE: usize = 0x7fff_ffff;

/// How many dots the text holds.
pub open spec fn dots(text: Seq<u8>) -> nat
    decreases text.len(),
{
    if text.len() == 0 {
        0
    } else if text.last() == DOT {
        dots(text.drop_last()) + 1
    } else {
        dots(text.drop_last())
    }
}

/// How many bytes stand in the given part of the text, the parts being what the dots leave
/// between them.
pub open spec fn part_len(text: Seq<u8>, part: nat) -> nat
    decreases text.len(),
{
    if text.len() == 0 {
        0
    } else if text.last() != DOT && dots(text.drop_last()) == part {
        part_len(text.drop_last(), part) + 1
    } else {
        part_len(text.drop_last(), part)
    }
}

/// Whether the byte is a symbol of URL-safe base64: a letter, a digit, `-` or `_`.
pub open spec fn is_url_symbol(byte: u8) -> bool {
    ||| 0x41 <= byte <= 0x5a
    ||| 0x61 <= byte <= 0x7a
    ||| 0x30 <= byte <= 0x39
    ||| byte == 0x2d
    ||| byte == 0x5f
}

/// Whether the text is a token in compact form: parts of URL-safe base64, separated by the
/// given number of dots. Such a text passes through a URL or a JSON string as it is.
pub open spec fn is_compact(text: Seq<u8>, separators: nat) -> bool {
    &&& dots(text) == separators
    &&& forall|i: int| 0 <= i < text.len() ==> is_url_symbol(#[trigger] text[i]) || text[i] == DOT
}

/// Whether the text has the frame of an envelope: five parts, room for an initialization
/// vector in the third, and a length that the cipher can take.
pub open spec fn is_framed(text: Seq<u8>) -> bool {
    &&& text.len() <= LONGEST_ENVELOPE
    &&& dots(text) == SEPARATORS
    &&& part_len(text, VECTOR_PART as nat) >= VECTOR_SYMBOLS
}

/// Says whether the text has the frame of an envelope.
pub fn check_frame(envelope: &str) -> (r: bool)
    ensures
        r == is_framed(envelope.spec_bytes()),
{
    let text = envelope.as_bytes();
    if text.len() > LONGEST_ENVELOPE {
        return false;
    }
    let mut separators: usize = 0;
    let mut symbols: usize = 0;
    let mut at: usize = 0;
    while at < text.len()
        invariant
            at <= text@.len(),
            separators == dots(text@.take(at as int)) <= at,
            symbols == part_len(text@.take(at as int), VECTOR_PART as nat) <= at,
        decreases text@.len() - at,
    {
        proof {
            assert(text@.take(at + 1).drop_last() =~= text@.take(at as int));
        }
        if text[at] == DOT {
            separators = separators + 1;
        } else if separators == VECTOR_PART {
            symbols = symbols + 1;
        }
        at = at + 1;
    }
    proof {
        assert(text@.take(at as int) =~= text@);
    }
    separators == SEPARATORS && symbols >= VECTOR_SYMBOLS
}

} // verus!
