//! Payload sniffing: the window of bytes that one look-ahead read yields,
//! case folding, and substring search over bytes.
//!
//! Letters are folded to lower case byte by byte in the ASCII range; no
//! charset validation is done. No byte of a UTF-8 multi-byte sequence and no
//! non-ASCII character folds into an ASCII letter of `s`, `h`, `u`, `d` or
//! `p`, so a search for an ASCII tag over these bytes gives the same answer
//! as one over the bytes decoded as (lossy) UTF-8 and folded.
use vstd::prelude::*;

verus! {

/// Most bytes that one sniff observes.
pub const SNIFF_LIMIT: usize = 8192;

/// Seconds that a sniff waits for the client's first bytes.
pub const SNIFF_TIMEOUT_SECS: u64 = 2;

/// A byte folded to lower case in the ASCII range.
pub open spec fn lower_byte(b: u8) -> u8 {
    if 65 <= b <= 90 {
        (b + 32) as u8
    } else {
        b
    }
}

/// A byte sequence folded to lower case in the ASCII range.
pub open spec fn lowered(s: Seq<u8>) -> Seq<u8> {
    s.map_values(|b: u8| lower_byte(b))
}

/// `needle` occurs in `hay` starting at `i`.
pub open spec fn occurs_at(hay: Seq<u8>, needle: Seq<u8>, i: int) -> bool {
    0 <= i && i + needle.len() <= hay.len() && hay.subrange(i, i + needle.len()) == needle
}

/// `needle` occurs somewhere in `hay`.
pub open spec fn contains(hay: Seq<u8>, needle: Seq<u8>) -> bool {
    exists|i: int| occurs_at(hay, needle, i)
}

/// What a look-ahead outcome observed, as a sequence.
pub open spec fn peeked_view(p: Option<Vec<u8>>) -> Option<Seq<u8>> {
    match p {
        Some(v) => Some(v@),
        None => None,
    }
}

/// What a sniff yields: the first `SNIFF_LIMIT` observed bytes, or nothing
/// when the look-ahead timed out or failed.
pub open spec fn window_of(peeked: Option<Seq<u8>>) -> Seq<u8> {
    match peeked {
        Some(s) => if s.len() <= SNIFF_LIMIT { s } else { s.take(SNIFF_LIMIT as int) },
        None => Seq::empty(),
    }
}

proof fn lemma_lower_byte_idempotent(b: u8)
    ensures
        lower_byte(lower_byte(b)) == lower_byte(b),
{
}

/// Folding to lower case twice gives what folding once gives.
pub proof fn lemma_lowered_idempotent(data: Seq<u8>)
    ensures
        lowered(lowered(data)) == lowered(data),
{
    assert forall|i: int| 0 <= i < data.len() implies #[trigger] lowered(lowered(data))[i]
        == lowered(data)[i] by {
        lemma_lower_byte_idempotent(data[i]);
    }
    assert(lowered(lowered(data)) =~= lowered(data));
}

/// Returns `b` folded to lower case in the ASCII range.
pub fn lower_ascii(b: u8) -> (r: u8)
    ensures
        r == lower_byte(b),
{
    if 65 <= b && b <= 90 {
        b + 32
    } else {
        b
    }
}

/// Returns `data` folded to lower case in the ASCII range.
pub fn lowercase(data: &[u8]) -> (r: Vec<u8>)
    ensures
        r@ == lowered(data@),
{
    let mut out: Vec<u8> = Vec::with_capacity(data.len());
    let mut i: usize = 0;
    while i < data.len()
        invariant
            i <= data@.len(),
            out@ =~= lowered(data@.take(i as int)),
        decreases data.len() - i,
    {
        out.push(lower_ascii(data[i]));
        assert(data@.take(i + 1) =~= data@.take(i as int).push(data@[i as int]));
        i = i + 1;
    }
    assert(data@.take(data.len() as int) =~= data@);
    out
}

/// Returns whether `needle` occurs at position `at` of `hay`.
fn matches_at(hay: &[u8], needle: &[u8], at: usize) -> (r: bool)
    requires
        at + needle@.len() <= hay@.len(),
    ensures
        r == occurs_at(hay@, needle@, at as int),
{
    let mut j: usize = 0;
    while j < needle.len()
        invariant
            j <= needle@.len(),
            at + needle@.len() <= hay@.len(),
            hay@.len() == hay.len(),
            forall|k: int| 0 <= k < j ==> hay@[at + k] == needle@[k],
        decreases needle.len() - j,
    {
        if hay[at + j] != needle[j] {
            assert(hay@.subrange(at as int, at + needle@.len())[j as int] != needle@[j as int]);
            return false;
        }
        j = j + 1;
    }
    assert(hay@.subrange(at as int, at + needle@.len()) =~= needle@);
    true
}

/// Returns whether `needle` occurs anywhere in `hay`.
pub fn contains_bytes(hay: &[u8], needle: &[u8]) -> (r: bool)
    ensures
        r == contains(hay@, needle@),
{
    if needle.len() > hay.len() {
        return false;
    }
    let last: usize = hay.len() - needle.len();
    let mut i: usize = 0;
    loop
        invariant
            i <= last,
            last + needle@.len() == hay@.len(),
            forall|k: int| 0 <= k < i ==> !occurs_at(hay@, needle@, k),
        decreases last - i,
    {
        if matches_at(hay, needle, i) {
            return true;
        }
        if i == last {
            return false;
        }
        i = i + 1;
    }
}

/// Returns the bytes that a sniff yields from what the look-ahead read
/// observed: at most `SNIFF_LIMIT` of them, and none where it observed
/// nothing (`None`: timed out or failed).
pub fn sniff_window(peeked: Option<Vec<u8>>) -> (r: Vec<u8>)
    ensures
        r@ == window_of(peeked_view(peeked)),
{
    match peeked {
        Some(mut v) => {
            if v.len() > SNIFF_LIMIT {
                v.truncate(SNIFF_LIMIT);
            }
            v
        },
        None => Vec::new(),
    }
}

} // verus!
