//! The bit-level view of the word transport: how a 32-bit word is laid
//! out on the data line (most significant bit first) and how a word is
//! assembled back from sampled line levels, together with the round-trip
//! facts the transport's contracts rest on.

use vstd::arithmetic::power2::{lemma2_to64, lemma_pow2_strictly_increases, pow2};
use vstd::prelude::*;

verus! {

/// True when bit `i` of `w` is set, counting bit 0 as the most
/// significant: the order in which bits go out on the data line.
pub open spec fn bit_at(w: u32, i: int) -> bool {
    (w >> ((31 - i) as u32)) & 1 == 1
}

/// The 32 bits of `w`, most significant first.
pub open spec fn word_bits(w: u32) -> Seq<bool> {
    Seq::new(32, |i: int| bit_at(w, i))
}

/// The bits of a whole word sequence, word by word, each word most
/// significant bit first.
pub open spec fn words_bits(ws: Seq<u32>) -> Seq<bool>
    decreases ws.len(),
{
    if ws.len() == 0 {
        Seq::empty()
    } else {
        words_bits(ws.drop_last()) + word_bits(ws.last())
    }
}

/// The value assembled by shifting the first `n` of `bits` into an
/// accumulator, earliest bit ending up most significant.
pub open spec fn bits_value(bits: Seq<bool>, n: int) -> int
    decreases n,
{
    if n <= 0 {
        0
    } else {
        2 * bits_value(bits, n - 1) + (if bits[n - 1] {
            1int
        } else {
            0int
        })
    }
}

/// The word value assembled from the 32 bits of `bits` starting at `start`.
pub open spec fn word_at(bits: Seq<bool>, start: int) -> int {
    bits_value(bits.subrange(start, start + 32), 32)
}

/// An assembled value stays below `pow2(n)` after `n` bits.
pub proof fn lemma_bits_value_bound(bits: Seq<bool>, n: int)
    requires
        0 <= n,
    ensures
        0 <= bits_value(bits, n) < pow2(n as nat),
    decreases n,
{
    if n == 0 {
        assert(pow2(0) == 1) by {
            lemma2_to64();
        }
    } else {
        lemma_bits_value_bound(bits, n - 1);
        assert(pow2(n as nat) == 2 * pow2((n - 1) as nat)) by {
            vstd::arithmetic::power2::lemma_pow2_unfold(n as nat);
        }
    }
}

proof fn lemma_bv_shift_low_bit(w: u32)
    by (bit_vector)
    ensures
        (w >> 31u32) & 1 == w >> 31u32,
        w >> 0u32 == w,
{
}

proof fn lemma_bv_bit01(w: u32, k: u32)
    by (bit_vector)
    ensures
        (w >> k) & 1 == 0 || (w >> k) & 1 == 1,
{
}

proof fn lemma_bv_shift_step(w: u32, k: u32)
    by (bit_vector)
    requires
        k < 31,
    ensures
        (w >> k) as int == 2 * ((w >> (k + 1)) as int) + (((w >> k) & 1) as int),
{
}

/// Assembling the first `n` transmitted bits of `w` yields the top `n`
/// bits of `w`.
proof fn lemma_word_prefix_value(w: u32, n: int)
    requires
        1 <= n <= 32,
    ensures
        bits_value(word_bits(w), n) == (w >> ((32 - n) as u32)) as int,
    decreases n,
{
    let k: u32 = (32 - n) as u32;
    if n == 1 {
        assert(bits_value(word_bits(w), 0) == 0);
        assert(word_bits(w)[0] == bit_at(w, 0));
        lemma_bv_shift_low_bit(w);
        lemma_bv_bit01(w, 31);
    } else {
        lemma_word_prefix_value(w, n - 1);
        lemma_bv_shift_step(w, k);
        lemma_bv_bit01(w, k);
        assert(word_bits(w)[n - 1] == bit_at(w, n - 1));
        assert((31 - (n - 1)) as u32 == k);
        assert((32 - (n - 1)) as u32 == k + 1);
    }
}

/// Round trip for one word: reassembling the 32 bits that `w` puts on
/// the line, most significant first, gives back exactly `w`.
pub proof fn lemma_word_round_trip(w: u32)
    ensures
        bits_value(word_bits(w), 32) == w,
{
    lemma_word_prefix_value(w, 32);
    lemma_bv_shift_low_bit(w);
}

/// A word sequence occupies exactly 32 line bits per word.
pub proof fn lemma_words_bits_len(ws: Seq<u32>)
    ensures
        words_bits(ws).len() == 32 * ws.len(),
    decreases ws.len(),
{
    if ws.len() > 0 {
        lemma_words_bits_len(ws.drop_last());
    }
}

/// Within the bits of a word sequence, the 32-bit group starting at
/// `32 * i` is exactly the bit pattern of word `i`.
pub proof fn lemma_words_bits_word(ws: Seq<u32>, i: int)
    requires
        0 <= i < ws.len(),
    ensures
        words_bits(ws).subrange(32 * i, 32 * i + 32) == word_bits(ws[i]),
    decreases ws.len(),
{
    lemma_words_bits_len(ws.drop_last());
    if i == ws.len() - 1 {
        assert(words_bits(ws).subrange(32 * i, 32 * i + 32) =~= word_bits(ws[i]));
    } else {
        lemma_words_bits_word(ws.drop_last(), i);
        assert(words_bits(ws).subrange(32 * i, 32 * i + 32) =~= words_bits(
            ws.drop_last(),
        ).subrange(32 * i, 32 * i + 32));
    }
}

/// Round trip for a word sequence, word by word: the word assembled from
/// the 32-bit group at position `32 * i` of the transmitted bits is word
/// `i` of the written sequence.
pub proof fn lemma_word_at_round_trip(ws: Seq<u32>, i: int)
    requires
        0 <= i < ws.len(),
    ensures
        word_at(words_bits(ws), 32 * i) == ws[i] as int,
{
    lemma_words_bits_word(ws, i);
    lemma_word_round_trip(ws[i]);
}

/// Round trip for whole sequences: a sequence read back word-for-word
/// from the bits that writing `ws` put on the line is `ws` itself. The
/// premises are exactly what the transport's `write` and `read`
/// contracts state of a loopback-wired exchange.
pub proof fn lemma_loopback_round_trip(ws: Seq<u32>, rs: Seq<u32>)
    requires
        rs.len() == ws.len(),
        forall|i: int| 0 <= i < rs.len() ==> rs[i] as int == word_at(words_bits(ws), 32 * i),
    ensures
        rs == ws,
{
    assert forall|i: int| 0 <= i < ws.len() implies rs[i] == ws[i] by {
        lemma_word_at_round_trip(ws, i);
    }
    assert(rs =~= ws);
}

/// After at most 31 bits the assembled value is still below `2^31`, so
/// shifting one more bit into a `u32` accumulator cannot overflow.
pub proof fn lemma_accumulator_headroom(bits: Seq<bool>, j: int)
    requires
        0 <= j < 32,
    ensures
        0 <= bits_value(bits, j) < 0x8000_0000,
{
    lemma_bits_value_bound(bits, j);
    if j < 31 {
        lemma_pow2_strictly_increases(j as nat, 31);
    }
    assert(pow2(31) == 0x8000_0000) by {
        lemma2_to64();
    }
}

} // verus!
