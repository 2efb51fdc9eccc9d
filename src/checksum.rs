//! The Internet checksum (RFC 1071).
use vstd::arithmetic::div_mod::{lemma_fundamental_div_mod, lemma_mod_multiples_vanish};
use vstd::prelude::*;

verus! {

/// Sum of `s` read as big-endian 16-bit words; an odd final byte is the
/// high byte of a word whose low byte is zero.
pub open spec fn word_sum(s: Seq<u8>) -> nat
    decreases s.len(),
{
    if s.len() == 0 {
        0
    } else if s.len() % 2 == 1 {
        word_sum(s.drop_last()) + s.last() as nat * 256
    } else {
        word_sum(s.subrange(0, s.len() - 2)) + s[s.len() - 2] as nat * 256 + s[s.len() - 1] as nat
    }
}

/// Adds the part of `x` above bit 15 back into the low 16 bits until
/// nothing is left above bit 15.
pub open spec fn fold_carries(x: nat) -> nat
    decreases x,
{
    if x <= 0xFFFF {
        x
    } else {
        fold_carries(x % 0x10000 + x / 0x10000)
    }
}

/// The checksum of `s`: the one's complement of its folded word sum.
pub open spec fn internet_checksum(s: Seq<u8>) -> u16 {
    (0xFFFF - fold_carries(word_sum(s))) as u16
}

proof fn lemma_word_sum_zeros(s: Seq<u8>)
    requires
        forall|i: int| 0 <= i < s.len() ==> s[i] == 0,
    ensures
        word_sum(s) == 0,
    decreases s.len(),
{
    if s.len() == 0 {
    } else if s.len() % 2 == 1 {
        lemma_word_sum_zeros(s.drop_last());
    } else {
        lemma_word_sum_zeros(s.subrange(0, s.len() - 2));
    }
}

/// The checksum of a nonempty, even-length run of zero bytes is 0xFFFF,
/// never 0x0000.
pub proof fn lemma_checksum_of_zeros(s: Seq<u8>)
    requires
        s.len() > 0,
        s.len() % 2 == 0,
        forall|i: int| 0 <= i < s.len() ==> s[i] == 0,
    ensures
        internet_checksum(s) == 0xFFFF,
{
    lemma_word_sum_zeros(s);
}

/// The checksum of no bytes at all is 0xFFFF.
pub proof fn lemma_checksum_of_empty()
    ensures
        internet_checksum(Seq::<u8>::empty()) == 0xFFFF,
{
}

/// The one's-complement sum of a value, in closed form.
spec fn end_around(x: int) -> int {
    if x <= 0 {
        0
    } else {
        (x - 1) % 0xFFFF + 1
    }
}

proof fn lemma_end_around_congruent(x: int, y: int, q: int)
    requires
        x == y + 0xFFFF * q,
        y >= 1,
        q >= 0,
    ensures
        end_around(x) == end_around(y),
{
    assert(x - 1 == 0xFFFF * q + (y - 1)) by (nonlinear_arith)
        requires
            x == y + 0xFFFF * q,
    ;
    lemma_mod_multiples_vanish(q, y - 1, 0xFFFF);
}

proof fn lemma_end_around_small(x: int)
    requires
        0 <= x <= 0xFFFF,
    ensures
        end_around(x) == x,
{
}

proof fn lemma_fold_carries(x: nat)
    ensures
        fold_carries(x) == end_around(x as int),
        fold_carries(x) <= 0xFFFF,
    decreases x,
{
    if x <= 0xFFFF {
        lemma_end_around_small(x as int);
    } else {
        let q = x / 0x10000;
        let r = x % 0x10000;
        lemma_fundamental_div_mod(x as int, 0x10000);
        assert(x == 0x10000 * q + r);
        lemma_fold_carries((r + q) as nat);
        lemma_end_around_congruent(x as int, (r + q) as int, q as int);
    }
}

proof fn lemma_end_around_add(a: int, w: int)
    requires
        a >= 0,
        w >= 0,
    ensures
        end_around(end_around(a) + w) == end_around(a + w),
{
    if a != 0 {
        let q = (a - 1) / 0xFFFF;
        lemma_fundamental_div_mod(a - 1, 0xFFFF);
        lemma_end_around_congruent(a + w, end_around(a) + w, q);
    }
}

proof fn lemma_fold_step(x: u32)
    by (bit_vector)
    requires
        0xFFFF < x <= 0x1FFFE,
    ensures
        (x & 0xFFFF) + (x >> 16u32) == x - 0xFFFF,
        ((x - 0xFFFF) as u32) >> 16u32 == 0,
{
}

proof fn lemma_small_high_bits(x: u32)
    by (bit_vector)
    requires
        x <= 0xFFFF,
    ensures
        x >> 16u32 == 0,
        !(x as u16) == (0xFFFF - x) as u16,
{
}

/// Adds one word to a one's-complement running sum, folding the carry.
fn add_word(sum: u32, w: u32) -> (r: u32)
    requires
        sum <= 0xFFFF,
        w <= 0xFFFF,
    ensures
        r <= 0xFFFF,
        r == end_around(sum + w),
{
    let mut s = sum + w;
    if s > 0xFFFF {
        proof {
            lemma_fold_step(s);
            lemma_end_around_congruent(s as int, s - 0xFFFF, 1);
        }
        s = (s & 0xFFFF) + (s >> 16);
    }
    proof {
        lemma_end_around_small(s as int);
    }
    s
}

proof fn lemma_word_sum_pair(s: Seq<u8>, i: int)
    requires
        0 <= i,
        i % 2 == 0,
        i + 2 <= s.len(),
    ensures
        word_sum(s.subrange(0, i + 2)) == word_sum(s.subrange(0, i)) + s[i] as nat * 256
            + s[i + 1] as nat,
{
    let t = s.subrange(0, i + 2);
    assert(t.subrange(0, t.len() - 2) =~= s.subrange(0, i));
}

/// The Internet checksum of `bytes`.
pub fn checksum(bytes: &[u8]) -> (r: u16)
    ensures
        r == internet_checksum(bytes@),
{
    // Folding the carry after every word keeps the 32-bit accumulator below
    // 0x20000 for any input length, and gives the same folded sum as
    // folding once at the end.
    let n = bytes.len();
    let mut sum: u32 = 0;
    let mut i: usize = 0;
    while i + 1 < n
        invariant
            n == bytes@.len(),
            i <= n,
            i % 2 == 0,
            sum <= 0xFFFF,
            sum == end_around(word_sum(bytes@.subrange(0, i as int)) as int),
        decreases n - i,
    {
        let w = (bytes[i] as u32) * 256 + bytes[i + 1] as u32;
        proof {
            lemma_word_sum_pair(bytes@, i as int);
            lemma_end_around_add(word_sum(bytes@.subrange(0, i as int)) as int, w as int);
        }
        sum = add_word(sum, w);
        i = i + 2;
    }
    if i < n {
        let w = (bytes[i] as u32) * 256;
        proof {
            let t = bytes@.subrange(0, n as int);
            assert(t.drop_last() =~= bytes@.subrange(0, i as int));
            lemma_end_around_add(word_sum(bytes@.subrange(0, i as int)) as int, w as int);
        }
        sum = add_word(sum, w);
    }
    assert(sum == end_around(word_sum(bytes@.subrange(0, n as int)) as int));
    proof {
        assert(bytes@.subrange(0, n as int) =~= bytes@);
        lemma_fold_carries(word_sum(bytes@));
        lemma_small_high_bits(sum);
    }
    while (sum >> 16) != 0
        invariant
            sum <= 0xFFFF,
            sum == end_around(word_sum(bytes@) as int),
        decreases sum,
    {
        proof {
            lemma_small_high_bits(sum);
        }
        sum = (sum & 0xFFFF) + (sum >> 16);
    }
    proof {
        lemma_small_high_bits(sum);
    }
    !(sum as u16)
}

} // verus!
