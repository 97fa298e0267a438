//! The Internet checksum: the one's-complement sum of 16-bit words.

use vstd::prelude::*;
use crate::bytes::{spec_u16_at, spec_u16_be};

verus! {

/// The sum of the big-endian 16-bit words of `s`, whose length is even.
pub open spec fn word_sum(s: Seq<u8>) -> nat
    decreases s.len(),
{
    if s.len() < 2 {
        0
    } else {
        word_sum(s.subrange(0, s.len() - 2)) + spec_u16_at(s, s.len() - 2) as nat
    }
}

/// Folds the high half of a 32-bit sum into its low half, carries included.
pub open spec fn fold16(n: nat) -> nat {
    let once = n % 65536 + n / 65536;
    once % 65536 + once / 65536
}

/// The checksum of `s`: the complement of the folded sum of its words.
pub open spec fn spec_checksum(s: Seq<u8>) -> u16 {
    (65535 - fold16(word_sum(s))) as u16
}

/// `s` with the word `w` written at index `at`.
pub open spec fn with_word(s: Seq<u8>, at: int, w: u16) -> Seq<u8> {
    s.update(at, spec_u16_be(w)[0]).update(at + 1, spec_u16_be(w)[1])
}

/// The sum of the words of `s` is at most 65535 for each word.
pub proof fn lemma_word_sum_bound(s: Seq<u8>)
    ensures
        word_sum(s) <= (s.len() / 2) * 65535,
    decreases s.len(),
{
    if s.len() >= 2 {
        lemma_word_sum_bound(s.subrange(0, s.len() - 2));
    }
}

/// Writing a word into `s` changes the sum of its words by the difference
/// between the new word and the old.
pub proof fn lemma_word_sum_with_word(s: Seq<u8>, at: int, w: u16)
    requires
        s.len() % 2 == 0,
        at % 2 == 0,
        0 <= at,
        at + 2 <= s.len(),
    ensures
        word_sum(with_word(s, at, w)) + spec_u16_at(s, at) == word_sum(s) + w,
    decreases s.len(),
{
    let t = with_word(s, at, w);
    let n = s.len() as int;
    crate::bytes::lemma_u16_be_roundtrip(w);
    if at + 2 == n {
        assert(t.subrange(0, n - 2) =~= s.subrange(0, n - 2));
    } else {
        let head = s.subrange(0, n - 2);
        lemma_word_sum_with_word(head, at, w);
        assert(t.subrange(0, n - 2) =~= with_word(head, at, w));
        assert(spec_u16_at(head, at) == spec_u16_at(s, at));
    }
}

/// The checksum of octets that hold their own checksum is zero: where the
/// word at `at` is the checksum computed with that word cleared, the octets
/// sum to the all-ones word.
#[verifier::rlimit(50)]
pub proof fn lemma_checksum_verifies(s: Seq<u8>, at: int)
    requires
        s.len() % 2 == 0,
        s.len() <= 65534,
        at % 2 == 0,
        0 <= at,
        at + 2 <= s.len(),
    ensures
        spec_checksum(with_word(s, at, spec_checksum(with_word(s, at, 0)))) == 0,
{
    let cleared = with_word(s, at, 0);
    let c = spec_checksum(cleared);
    let sealed = with_word(s, at, c);
    lemma_word_sum_with_word(s, at, 0);
    lemma_word_sum_with_word(s, at, c);
    lemma_word_sum_bound(cleared);
    let base = word_sum(cleared);
    assert(word_sum(sealed) == base + c);
    let q1 = base / 65536;
    let once = base % 65536 + q1;
    let q2 = once / 65536;
    let f = once % 65536 + q2;
    assert(f == fold16(base));
    assert(f == base - 65535 * (q1 + q2));
    assert(once < 65536 + 32767);
    assert(f <= 65535);
    let m = q1 + q2 + 1;
    let total = base + c;
    assert(total == 65535 * m);
    assert(1 <= m <= 65536);
    assert(total == 65536 * (m - 1) + (65536 - m));
    assert(total / 65536 == m - 1);
    assert(total % 65536 == 65536 - m);
}

/// Computes the checksum of `data`.
pub fn checksum(data: &[u8]) -> (c: u16)
    requires
        data@.len() % 2 == 0,
        data@.len() <= 65534,
    ensures
        c == spec_checksum(data@),
{
    let mut acc: u32 = 0;
    let mut i: usize = 0;
    while i < data.len()
        invariant
            i % 2 == 0,
            i <= data@.len(),
            data@.len() % 2 == 0,
            data@.len() <= 65534,
            acc == word_sum(data@.subrange(0, i as int)),
            acc <= (i / 2) * 65535,
        decreases data@.len() - i,
    {
        let hi: u32 = data[i] as u32;
        let lo: u32 = data[i + 1] as u32;
        proof {
            let next = data@.subrange(0, i + 2);
            assert(next.subrange(0, next.len() - 2) =~= data@.subrange(0, i as int));
        }
        acc = acc + hi * 256 + lo;
        i += 2;
    }
    assert(data@.subrange(0, i as int) =~= data@);
    let once: u32 = acc % 65536 + acc / 65536;
    let folded: u32 = once % 65536 + once / 65536;
    (65535 - folded) as u16
}

} // verus!
