//! The frame of DER data: tags and lengths, and whether what they announce is there.
//!
//! A key arrives as DER: elements that each begin with a tag and a length. Nothing here reads
//! what a key means. [`elements_fit`] only walks the elements the way a reader does, into a
//! constructed element and past the content of a primitive one, and says whether every length
//! it meets announces content that the data has room for.
use vstd::prelude::*;

verus! {

/// The header of an element: the tag and the length in front of its content.
pub struct Header {
    /// Whether the content is itself a run of elements.
    pub constructed: bool,
    /// Where the content starts.
    pub start: int,
    /// How many bytes of content the header announces.
    pub length: nat,
}

/// The number that bytes spell, most significant byte first.
pub open spec fn big_endian(bytes: Seq<u8>) -> nat
    decreases bytes.len(),
{
    if bytes.len() == 0 {
        0
    } else {
        big_endian(bytes.drop_last()) * 256 + bytes.last() as nat
    }
}

/// The header that starts at `at`, if a whole header in a plain form starts there: a tag of one
/// byte, and a length either in one byte or in up to four bytes behind a count.
pub open spec fn header_at(bytes: Seq<u8>, at: int) -> Option<Header> {
    if at < 0 || at + 2 > bytes.len() {
        None
    } else if bytes[at] % 32 == 31 {
        None
    } else {
        let constructed = (bytes[at] / 32) % 2 == 1;
        let first = bytes[at + 1];
        let count = first - 128;
        if first < 128 {
            Some(Header { constructed, start: at + 2, length: first as nat })
        } else if count == 0 || count > 4 || at + 2 + count > bytes.len() {
            None
        } else {
            Some(
                Header {
                    constructed,
                    start: at + 2 + count,
                    length: big_endian(bytes.subrange(at + 2, at + 2 + count)),
                },
            )
        }
    }
}

/// Whether, from `at` on, every element has a plain header and announces no more content than
/// the data holds behind it. A constructed element is walked into, the content of a primitive
/// one is passed over.
pub open spec fn elements_fit_from(bytes: Seq<u8>, at: int) -> bool
    decreases bytes.len() - at,
{
    if at >= bytes.len() {
        true
    } else {
        match header_at(bytes, at) {
            None => false,
            Some(header) => header.start + header.length <= bytes.len() && elements_fit_from(
                bytes,
                if header.constructed {
                    header.start
                } else {
                    header.start + header.length
                },
            ),
        }
    }
}

/// Whether every element of the data has a plain header and announces no more content than the
/// data holds behind it.
pub open spec fn elements_fit(bytes: Seq<u8>) -> bool {
    elements_fit_from(bytes, 0)
}

/// A number spelt by at most four bytes is below 2^32.
proof fn lemma_big_endian_bound(bytes: Seq<u8>)
    requires
        bytes.len() <= 4,
    ensures
        big_endian(bytes) < 0x1_0000_0000,
        bytes.len() <= 3 ==> big_endian(bytes) < 0x100_0000,
        bytes.len() <= 2 ==> big_endian(bytes) < 0x1_0000,
        bytes.len() <= 1 ==> big_endian(bytes) < 0x100,
    decreases bytes.len(),
{
    if bytes.len() > 0 {
        lemma_big_endian_bound(bytes.drop_last());
    }
}

/// Reads the length that `count` bytes spell from `from` on.
fn read_length(bytes: &[u8], from: usize, count: usize) -> (r: u64)
    requires
        count <= 4,
        from + count <= bytes@.len(),
    ensures
        r == big_endian(bytes@.subrange(from as int, from + count)),
{
    let total = bytes.len();
    let mut value: u64 = 0;
    let mut read: usize = 0;
    while read < count
        invariant
            read <= count <= 4,
            from + count <= bytes@.len() == total,
            value == big_endian(bytes@.subrange(from as int, from + read)),
        decreases count - read,
    {
        proof {
            let before = bytes@.subrange(from as int, from + read);
            let after = bytes@.subrange(from as int, from + read + 1);
            assert(after.drop_last() == before);
            lemma_big_endian_bound(before);
        }
        value = value * 256 + bytes[from + read] as u64;
        read = read + 1;
    }
    value
}

/// Says whether every element of the data has a plain header and announces no more content
/// than the data holds behind it.
pub fn check_elements(bytes: &[u8]) -> (r: bool)
    ensures
        r == elements_fit(bytes@),
{
    let mut at: usize = 0;
    while at < bytes.len()
        invariant
            at <= bytes@.len(),
            elements_fit(bytes@) == elements_fit_from(bytes@, at as int),
        decreases bytes@.len() - at,
    {
        if bytes.len() - at < 2 {
            return false;
        }
        let tag = bytes[at];
        let first = bytes[at + 1];
        if tag % 32 == 31 {
            return false;
        }
        let constructed = (tag / 32) % 2 == 1;
        let start: usize;
        let length: u64;
        if first < 128 {
            start = at + 2;
            length = first as u64;
        } else {
            let count = (first - 128) as usize;
            if count == 0 || count > 4 || bytes.len() - at - 2 < count {
                return false;
            }
            start = at + 2 + count;
            length = read_length(bytes, at + 2, count);
        }
        let room = (bytes.len() - start) as u64;
        if length > room {
            return false;
        }
        at = if constructed {
            start
        } else {
            start + length as usize
        };
    }
    true
}

} // verus!
