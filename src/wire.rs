//! Big-endian integers on the wire, and padding to 32-bit words.
use vstd::prelude::*;

verus! {

/// `v` when `b` holds, else zero.
pub open spec fn bit_if(b: bool, v: u16) -> u16 {
    if b {
        v
    } else {
        0
    }
}

/// The two bytes of `v`, most significant first.
pub open spec fn be16(v: u16) -> Seq<u8> {
    seq![(v / 256) as u8, (v % 256) as u8]
}

/// The four bytes of `v`, most significant first.
pub open spec fn be32(v: u32) -> Seq<u8> {
    seq![(v / 0x100_0000) as u8, ((v / 0x1_0000) % 256) as u8, ((v / 256) % 256) as u8, (v % 256) as u8]
}

/// The 16-bit value of two bytes, the first being the most significant.
pub open spec fn from_be16(hi: u8, lo: u8) -> u16 {
    (hi * 256 + lo) as u16
}

/// The 32-bit value of four bytes, the first being the most significant.
pub open spec fn from_be32(b0: u8, b1: u8, b2: u8, b3: u8) -> u32 {
    (b0 * 0x100_0000 + b1 * 0x1_0000 + b2 * 256 + b3) as u32
}

/// How many zero bytes bring `n` bytes up to a multiple of four.
pub open spec fn padding_len(n: nat) -> nat {
    if n % 4 == 0 { 0 } else { (4 - n % 4) as nat }
}

/// `b` followed by the zero bytes that make its length a multiple of four.
pub open spec fn pad_to_word(b: Seq<u8>) -> Seq<u8> {
    b + Seq::new(padding_len(b.len()), |i: int| 0u8)
}

/// Padding brings a length to the next multiple of four.
pub proof fn lemma_padded_len(n: nat)
    ensures
        n + padding_len(n) == 4 * ((n + 3) / 4),
        (n + padding_len(n)) % 4 == 0,
{
}

/// Appends zero bytes until the length of `bytes` is a multiple of four.
pub fn pad_in_place(bytes: &mut Vec<u8>)
    ensures
        final(bytes)@ == pad_to_word(old(bytes)@),
{
    let ghost raw = bytes@;
    let remainder = bytes.len() % 4;
    if remainder != 0 {
        let padding_needed = 4 - remainder;
        let mut k: usize = 0;
        while k < padding_needed
            invariant
                padding_needed == padding_len(raw.len()),
                k <= padding_needed,
                bytes@ == raw + Seq::new(k as nat, |j: int| 0u8),
            decreases padding_needed - k,
        {
            bytes.push(0);
            k = k + 1;
            assert(bytes@ =~= raw + Seq::new(k as nat, |j: int| 0u8));
        }
    }
    assert(bytes@ =~= pad_to_word(raw));
}

proof fn lemma_u16_bytes(v: u16)
    by (bit_vector)
    ensures
        (v >> 8u16) as u8 == (v / 256) as u8,
        v as u8 == (v % 256) as u8,
{
}

proof fn lemma_u32_byte3(v: u32)
    by (bit_vector)
    ensures
        (v >> 24u32) as u8 == (v / 0x100_0000) as u8,
{
}

proof fn lemma_u32_byte2(v: u32)
    by (bit_vector)
    ensures
        (v >> 16u32) as u8 == ((v / 0x1_0000) % 256) as u8,
{
}

proof fn lemma_u32_byte1(v: u32)
    by (bit_vector)
    ensures
        (v >> 8u32) as u8 == ((v / 256) % 256) as u8,
{
}

proof fn lemma_u32_byte0(v: u32)
    by (bit_vector)
    ensures
        v as u8 == (v % 256) as u8,
{
}

proof fn lemma_join_u16(hi: u8, lo: u8)
    by (bit_vector)
    ensures
        ((hi as u16) << 8u16) | (lo as u16) == (hi * 256 + lo) as u16,
{
}

proof fn lemma_join_u32(b0: u8, b1: u8, b2: u8, b3: u8)
    by (bit_vector)
    ensures
        ((b0 as u32) << 24u32) | ((b1 as u32) << 16u32) | ((b2 as u32) << 8u32) | (b3 as u32)
            == (b0 * 0x100_0000 + b1 * 0x1_0000 + b2 * 256 + b3) as u32,
{
}

/// Setting a single bit above every bit already set adds its value.
pub proof fn lemma_or_higher_bit(x: u16, b: u16)
    by (bit_vector)
    requires
        x < b,
        b == 0x1 || b == 0x2 || b == 0x4 || b == 0x8 || b == 0x10 || b == 0x20 || b == 0x40
            || b == 0x80 || b == 0x100 || b == 0x200 || b == 0x400 || b == 0x800 || b == 0x1000
            || b == 0x2000 || b == 0x4000 || b == 0x8000,
    ensures
        x | b == x + b,
{
}

/// Testing one bit of `v` against a mask is reading that binary digit.
pub proof fn lemma_bit_tests(v: u16)
    by (bit_vector)
    ensures
        ((v & 0x1) != 0) == (v % 2 == 1),
        ((v & 0x2) != 0) == ((v / 0x2) % 2 == 1),
        ((v & 0x4) != 0) == ((v / 0x4) % 2 == 1),
        ((v & 0x8) != 0) == ((v / 0x8) % 2 == 1),
        ((v & 0x10) != 0) == ((v / 0x10) % 2 == 1),
        ((v & 0x20) != 0) == ((v / 0x20) % 2 == 1),
        ((v & 0x40) != 0) == ((v / 0x40) % 2 == 1),
        ((v & 0x80) != 0) == ((v / 0x80) % 2 == 1),
        ((v & 0x2000) != 0) == ((v / 0x2000) % 2 == 1),
        ((v & 0x4000) != 0) == ((v / 0x4000) % 2 == 1),
        ((v & 0x8000) != 0) == ((v / 0x8000) % 2 == 1),
        v & 0x1FFF == v % 0x2000,
{
}

/// Splitting a byte into its two nibbles and its low three bits.
pub proof fn lemma_byte_fields(x: u8)
    by (bit_vector)
    ensures
        (x & 0xF0) >> 4u8 == x / 16,
        (x >> 4u8) & 0x0F == x / 16,
        x & 0x0F == x % 16,
        x & 0x07 == x % 8,
{
}

/// Packing two fields into one byte: the high one shifted up by four bits,
/// the low one masked.
pub proof fn lemma_pack_byte(hi: u8, lo: u8)
    by (bit_vector)
    ensures
        (hi << 4u8) | (lo & 0x0F) == ((hi % 16) * 16 + lo % 16) as u8,
        (hi << 4u8) | (lo & 0x07) == ((hi % 16) * 16 + lo % 8) as u8,
{
}

/// Reading the bytes of a value back gives the value.
pub proof fn lemma_be16_round_trip(v: u16)
    ensures
        from_be16(be16(v)[0], be16(v)[1]) == v,
{
}

/// Reading the bytes of a value back gives the value.
pub proof fn lemma_be32_round_trip(v: u32)
    ensures
        from_be32(be32(v)[0], be32(v)[1], be32(v)[2], be32(v)[3]) == v,
{
    lemma_u32_digits(v);
}

proof fn lemma_u32_digits(v: u32)
    by (bit_vector)
    ensures
        v == (v / 0x100_0000) * 0x100_0000 + ((v / 0x1_0000) % 0x100) * 0x1_0000 + ((v / 0x100)
            % 0x100) * 0x100 + v % 0x100 && v / 0x100_0000 < 0x100,
{
}

/// The 16-bit big-endian value at `b[i]`, `b[i + 1]`.
pub fn read_be16(b: &[u8], i: usize) -> (r: u16)
    requires
        i + 2 <= b@.len(),
    ensures
        r == from_be16(b@[i as int], b@[i + 1]),
{
    proof {
        lemma_join_u16(b@[i as int], b@[i + 1]);
    }
    ((b[i] as u16) << 8) | (b[i + 1] as u16)
}

/// The 32-bit big-endian value at `b[i]` to `b[i + 3]`.
pub fn read_be32(b: &[u8], i: usize) -> (r: u32)
    requires
        i + 4 <= b@.len(),
    ensures
        r == from_be32(b@[i as int], b@[i + 1], b@[i + 2], b@[i + 3]),
{
    proof {
        lemma_join_u32(b@[i as int], b@[i + 1], b@[i + 2], b@[i + 3]);
    }
    ((b[i] as u32) << 24) | ((b[i + 1] as u32) << 16) | ((b[i + 2] as u32) << 8) | (b[i
        + 3] as u32)
}

/// Appends the four bytes of `v`, most significant first.
pub fn push_be32(out: &mut Vec<u8>, v: u32)
    ensures
        final(out)@ == old(out)@ + be32(v),
{
    proof {
        lemma_u32_byte3(v);
        lemma_u32_byte2(v);
        lemma_u32_byte1(v);
        lemma_u32_byte0(v);
    }
    out.push((v >> 24) as u8);
    out.push((v >> 16) as u8);
    out.push((v >> 8) as u8);
    out.push(v as u8);
    assert(out@ =~= old(out)@ + be32(v));
}

/// Appends the bytes of `s`.
pub fn extend_bytes(out: &mut Vec<u8>, s: &[u8])
    ensures
        final(out)@ == old(out)@ + s@,
{
    let mut copy = vstd::slice::slice_to_vec(s);
    out.append(&mut copy);
}

/// Appends the two bytes of `v`, most significant first.
pub fn push_be16(out: &mut Vec<u8>, v: u16)
    ensures
        final(out)@ == old(out)@ + be16(v),
{
    proof {
        lemma_u16_bytes(v);
    }
    out.push((v >> 8) as u8);
    out.push(v as u8);
    assert(out@ =~= old(out)@ + be16(v));
}

} // verus!
