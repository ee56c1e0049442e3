use vstd::prelude::*;

verus! {

/// Byte `j` (0 = least significant) of a 32-bit word.
pub open spec fn word_byte(x: u32, j: int) -> u8 {
    if j == 0 {
        (x % 256) as u8
    } else if j == 1 {
        ((x / 256) % 256) as u8
    } else if j == 2 {
        ((x / 65536) % 256) as u8
    } else {
        (x / 16777216) as u8
    }
}

/// The little-endian layout of a sequence of 32-bit words: four bytes per
/// word, least significant first, in input order, with nothing in between.
pub open spec fn le_bytes(v: Seq<u32>) -> Seq<u8> {
    Seq::new(4 * v.len(), |i: int| word_byte(v[i / 4], i % 4))
}

/// The word whose little-endian bytes start at `4 * k` in `b`.
pub open spec fn le_word_at(b: Seq<u8>, k: int) -> u32 {
    (b[4 * k] as int + 256 * b[4 * k + 1] as int + 65536 * b[4 * k + 2] as int
        + 16777216 * b[4 * k + 3] as int) as u32
}

/// Reads `b` back as little-endian 32-bit words (a trailing partial word is
/// dropped).
pub open spec fn le_words(b: Seq<u8>) -> Seq<u32> {
    Seq::new(b.len() / 4, |k: int| le_word_at(b, k))
}

proof fn lemma_word_bytes_rebuild(x: u32)
    ensures
        word_byte(x, 0) as int + 256 * word_byte(x, 1) as int + 65536 * word_byte(x, 2) as int
            + 16777216 * word_byte(x, 3) as int == x as int,
{
    let v = x as int;
    assert(v == v % 256 + 256 * ((v / 256) % 256) + 65536 * ((v / 65536) % 256) + 16777216 * (v
        / 16777216)) by (nonlinear_arith)
        requires
            0 <= v < 0x1_0000_0000,
    ;
}

/// Encoding is exactly reversible: the output has four bytes per word, and
/// reading it back as little-endian words gives the input, word for word.
pub proof fn lemma_encode_round_trip(v: Seq<u32>)
    ensures
        le_bytes(v).len() == 4 * v.len(),
        le_words(le_bytes(v)) == v,
{
    let b = le_bytes(v);
    assert forall|k: int| 0 <= k < v.len() implies le_word_at(b, k) == v[k] by {
        assert((4 * k) / 4 == k && (4 * k) % 4 == 0);
        assert((4 * k + 1) / 4 == k && (4 * k + 1) % 4 == 1);
        assert((4 * k + 2) / 4 == k && (4 * k + 2) % 4 == 2);
        assert((4 * k + 3) / 4 == k && (4 * k + 3) % 4 == 3);
        lemma_word_bytes_rebuild(v[k]);
    }
    assert(le_words(b) =~= v);
}

/// Packs each word (the bit pattern of a single-precision float) as four
/// little-endian bytes, in input order.
pub fn encode(v: &Vec<u32>) -> (r: Vec<u8>)
    ensures
        r@ == le_bytes(v@),
        r@.len() == 4 * v@.len(),
{
    let mut out: Vec<u8> = Vec::new();
    let mut i: usize = 0;
    while i < v.len()
        invariant
            i <= v@.len(),
            out@ =~= le_bytes(v@.subrange(0, i as int)),
        decreases v@.len() - i,
    {
        let x = v[i];
        out.push((x % 256) as u8);
        out.push(((x / 256) % 256) as u8);
        out.push(((x / 65536) % 256) as u8);
        out.push((x / 16777216) as u8);
        proof {
            let next = le_bytes(v@.subrange(0, i + 1));
            assert forall|j: int| 0 <= j < 4 * (i + 1) implies out@[j] == next[j] by {
                if j < 4 * i {
                    assert(j / 4 < i);
                } else {
                    assert(j / 4 == i);
                }
            }
        }
        i = i + 1;
    }
    assert(v@.subrange(0, v@.len() as int) =~= v@);
    out
}

} // verus!
