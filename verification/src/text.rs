use vstd::prelude::*;

verus! {

/// `str`'s equality compares the two strings character by character.
pub assume_specification[ <str as PartialEq>::eq ](a: &str, b: &str) -> (same: bool)
    ensures
        same == (a@ == b@),
;

/// `String::push` appends one character at the end and changes nothing else.
pub assume_specification[ String::push ](s: &mut String, c: char)
    ensures
        final(s)@ == old(s)@.push(c),
;

/// An ASCII capital letter as its small letter; every other byte as itself.
pub open spec fn lowered(b: u8) -> u8 {
    if 0x41 <= b <= 0x5a {
        (b + 32) as u8
    } else {
        b
    }
}

/// `needle` stands in `hay` at position `at`, capital ASCII letters of `hay` read as small.
pub open spec fn matches_at(hay: Seq<u8>, needle: Seq<u8>, at: int) -> bool {
    &&& 0 <= at
    &&& at + needle.len() <= hay.len()
    &&& forall|j: int| 0 <= j < needle.len() ==> #[trigger] needle[j] == lowered(hay[at + j])
}

/// `needle` stands somewhere in `hay`, capital ASCII letters of `hay` read as small.
pub open spec fn mentions(hay: Seq<u8>, needle: Seq<u8>) -> bool {
    exists|at: int| matches_at(hay, needle, at)
}

fn lower(b: u8) -> (small: u8)
    ensures
        small == lowered(b),
{
    if 0x41 <= b && b <= 0x5a {
        b + 32
    } else {
        b
    }
}

fn matches_here(hay: &[u8], needle: &[u8], at: usize) -> (found: bool)
    requires
        at + needle@.len() <= hay@.len(),
    ensures
        found == matches_at(hay@, needle@, at as int),
{
    let size = hay.len();
    let mut j: usize = 0;
    while j < needle.len()
        invariant
            j <= needle@.len(),
            at + needle@.len() <= hay@.len() == size,
            forall|k: int| 0 <= k < j ==> #[trigger] needle@[k] == lowered(hay@[at + k]),
        decreases needle@.len() - j,
    {
        if lower(hay[at + j]) != needle[j] {
            return false;
        }
        j += 1;
    }
    true
}

/// Whether `needle` stands somewhere in `hay`, capital ASCII letters of `hay` read as small.
pub fn mentions_bytes(hay: &[u8], needle: &[u8]) -> (found: bool)
    ensures
        found == mentions(hay@, needle@),
{
    if needle.len() > hay.len() {
        return false;
    }
    let last = hay.len() - needle.len();
    let mut at: usize = 0;
    while at < last
        invariant
            at <= last,
            last == hay@.len() - needle@.len(),
            forall|a: int| 0 <= a < at ==> !matches_at(hay@, needle@, a),
        decreases last - at,
    {
        if matches_here(hay, needle, at) {
            return true;
        }
        at += 1;
    }
    matches_here(hay, needle, last)
}

} // verus!
