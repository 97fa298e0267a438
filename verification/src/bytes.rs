//! Big-endian integers and byte-string helpers shared by the codecs.

use vstd::prelude::*;

verus! {

/// The two octets of `x`, most significant first.
pub open spec fn spec_u16_be(x: u16) -> Seq<u8> {
    seq![(x / 256) as u8, (x % 256) as u8]
}

/// The integer whose big-endian octets are `hi`, `lo`.
pub open spec fn spec_u16_from_be(hi: u8, lo: u8) -> u16 {
    (hi as int * 256 + lo as int) as u16
}

/// The 16-bit word of `s` that starts at index `at`.
pub open spec fn spec_u16_at(s: Seq<u8>, at: int) -> u16 {
    spec_u16_from_be(s[at], s[at + 1])
}

/// Splitting a word into octets and joining them again gives the word back.
pub proof fn lemma_u16_be_roundtrip(x: u16)
    ensures
        spec_u16_be(x).len() == 2,
        spec_u16_from_be(spec_u16_be(x)[0], spec_u16_be(x)[1]) == x,
        spec_u16_at(spec_u16_be(x), 0) == x,
{
}

/// The number whose four octets, most significant first, are the given ones.
pub open spec fn spec_pack4(a: u8, b: u8, c: u8, d: u8) -> int {
    ((a as int * 256 + b as int) * 256 + c as int) * 256 + d as int
}

/// Four octets make a number below 2^32, and different octets make different
/// numbers.
pub proof fn lemma_pack4(a: u8, b: u8, c: u8, d: u8)
    ensures
        0 <= spec_pack4(a, b, c, d) < 0x1_0000_0000,
        spec_pack4(a, b, c, d) % 256 == d,
        (spec_pack4(a, b, c, d) / 256) % 256 == c,
        (spec_pack4(a, b, c, d) / 65536) % 256 == b,
        spec_pack4(a, b, c, d) / 16777216 == a,
{
    let ab = a as int * 256 + b as int;
    let abc = ab * 256 + c as int;
    let n = abc * 256 + d as int;
    assert(n % 256 == d && n / 256 == abc);
    assert(abc % 256 == c && abc / 256 == ab);
    assert(ab % 256 == b && ab / 256 == a);
    assert(n / 65536 == ab);
    assert(n / 16777216 == a);
}

/// Appends `x` to `out`, most significant octet first.
pub fn push_u16_be(out: &mut Vec<u8>, x: u16)
    ensures
        final(out)@ == old(out)@ + spec_u16_be(x),
{
    out.push((x / 256) as u8);
    out.push((x % 256) as u8);
    assert(out@ =~= old(out)@ + spec_u16_be(x));
}

/// Reads the big-endian word at `data[at..at + 2]`.
pub fn read_u16_be(data: &[u8], at: usize) -> (x: u16)
    requires
        at + 2 <= data@.len(),
    ensures
        x == spec_u16_at(data@, at as int),
{
    let hi: u8 = data[at];
    let lo: u8 = data[at + 1];
    (hi as u16) * 256 + (lo as u16)
}

/// An owned copy of `data[from..to]`.
pub fn copy_range(data: &[u8], from: usize, to: usize) -> (out: Vec<u8>)
    requires
        from <= to <= data@.len(),
    ensures
        out@ == data@.subrange(from as int, to as int),
{
    vstd::slice::slice_to_vec(vstd::slice::slice_subrange(data, from, to))
}

/// Whether two byte strings hold the same octets.
pub fn bytes_eq(a: &[u8], b: &[u8]) -> (same: bool)
    ensures
        same == (a@ == b@),
{
    if a.len() != b.len() {
        return false;
    }
    let mut i: usize = 0;
    while i < a.len()
        invariant
            i <= a@.len(),
            a@.len() == b@.len(),
            forall|j: int| 0 <= j < i ==> a@[j] == b@[j],
        decreases a@.len() - i,
    {
        if a[i] != b[i] {
            return false;
        }
        i += 1;
    }
    assert(a@ =~= b@);
    true
}

} // verus!
