//! 32-byte big-endian machine words, the fixed slot format of the call-data
//! head section and of every static scalar encoding, and the zero padding
//! that rounds dynamic payloads up to a whole number of words.
use vstd::prelude::*;

verus! {

/// The `k`-th byte, most significant first, of the 16-byte big-endian
/// representation of `v`.
pub open spec fn be_byte(v: u128, k: int) -> u8 {
    ((v >> (((15 - k) * 8) as u128)) & 0xff) as u8
}

/// A 32-byte word: 16 copies of `fill` followed by the 16-byte big-endian
/// representation of `v`.  Unsigned values are encoded with `fill == 0`;
/// negative signed values with `fill == 0xff` (sign extension).
pub open spec fn be_word(fill: u8, v: u128) -> Seq<u8> {
    Seq::new(16, |i: int| fill) + Seq::new(16, |i: int| be_byte(v, i))
}

/// The two's-complement bit pattern of `v`, as an unsigned 128-bit value.
pub open spec fn twos_complement(v: i128) -> u128 {
    if v >= 0 {
        v as u128
    } else {
        (0x1_0000_0000_0000_0000_0000_0000_0000_0000 + v) as u128
    }
}

/// The fill byte that sign-extends `v` to 32 bytes.
pub open spec fn sign_fill(v: i128) -> u8 {
    if v < 0 {
        0xff
    } else {
        0
    }
}

/// The 32-byte word encoding of a signed value: sign fill, then the
/// big-endian two's-complement bits.
pub open spec fn int_word(v: i128) -> Seq<u8> {
    be_word(sign_fill(v), twos_complement(v))
}

/// `data` followed by the zero bytes that round its length up to a multiple
/// of 32.
pub open spec fn zero_padded(data: Seq<u8>) -> Seq<u8> {
    data + Seq::new(pad_len(data.len() as int) as nat, |i: int| 0u8)
}

/// How many zero bytes round a length of `n` up to a multiple of 32.
pub open spec fn pad_len(n: int) -> int {
    if n % 32 == 0 {
        0
    } else {
        32 - n % 32
    }
}

/// Encodes `v` as the 32-byte word `be_word(fill, v)`.
pub fn encode_word(fill: u8, v: u128) -> (w: Vec<u8>)
    ensures
        w@ == be_word(fill, v),
{
    let mut w: Vec<u8> = Vec::new();
    let mut i: usize = 0;
    while i < 16
        invariant
            i <= 16,
            w@ == Seq::new(i as nat, |j: int| fill),
        decreases 16 - i,
    {
        w.push(fill);
        i = i + 1;
        assert(w@ =~= Seq::new(i as nat, |j: int| fill));
    }
    let mut k: usize = 0;
    while k < 16
        invariant
            k <= 16,
            w@ == Seq::new(16, |j: int| fill) + Seq::new(k as nat, |j: int| be_byte(v, j)),
        decreases 16 - k,
    {
        let sh: u128 = ((15 - k) * 8) as u128;
        let x: u128 = (v >> sh) & 0xff;
        proof {
            let y = v >> sh;
            assert((y & 0xff) < 256) by (bit_vector);
        }
        w.push(x as u8);
        k = k + 1;
        assert(w@ =~= Seq::new(16, |j: int| fill) + Seq::new(k as nat, |j: int| be_byte(v, j)));
    }
    w
}

/// Computes the two's-complement bit pattern of `v`.
pub fn to_twos_complement(v: i128) -> (u: u128)
    ensures
        u == twos_complement(v),
{
    if v >= 0 {
        v as u128
    } else {
        u128::MAX - ((-(v + 1)) as u128)
    }
}

/// Encodes a signed value as its sign-extended 32-byte word.
pub fn encode_int_word(v: i128) -> (w: Vec<u8>)
    ensures
        w@ == int_word(v),
{
    let fill: u8 = if v < 0 {
        0xff
    } else {
        0
    };
    let u = to_twos_complement(v);
    encode_word(fill, u)
}

/// Appends the zero bytes that round `data` up to a whole number of words.
pub fn pad_to_word(data: Vec<u8>) -> (r: Vec<u8>)
    ensures
        r@ == zero_padded(data@),
{
    let ghost orig = data@;
    let mut r = data;
    let pad: usize = (32 - r.len() % 32) % 32;
    assert(pad == pad_len(orig.len() as int));
    let mut i: usize = 0;
    while i < pad
        invariant
            i <= pad,
            pad == pad_len(orig.len() as int),
            r@ == orig + Seq::new(i as nat, |j: int| 0u8),
        decreases pad - i,
    {
        r.push(0);
        i = i + 1;
        assert(r@ =~= orig + Seq::new(i as nat, |j: int| 0u8));
    }
    proof {
        assert(r@ =~= zero_padded(orig));
    }
    r
}

} // verus!
