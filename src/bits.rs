//! Bit-range extraction over registers held as little-endian word arrays.
//!
//! A register of `32 * n` bits arrives as `n` words, least significant word
//! first. Bit 0 is the least significant bit of the whole value, and a field
//! is named by its inclusive range `[hi:lo]` as in the register tables.
use vstd::arithmetic::div_mod::{
    lemma_div_denominator, lemma_mod_breakdown, lemma_mod_mod, lemma_div_multiples_vanish_fancy, lemma_hoist_over_denominator, lemma_mod_multiples_vanish,
    lemma_mod_pos_bound,
};
use vstd::arithmetic::mul::{lemma_mul_is_associative, lemma_mul_is_commutative};
use vstd::arithmetic::power2::{
    lemma2_to64, lemma_pow2_adds, lemma_pow2_pos, lemma_pow2_strictly_increases, pow2,
};
use vstd::bits::{
    lemma_u64_low_bits_mask_is_mod, lemma_u64_shl_is_mul, lemma_u64_shr_is_div, low_bits_mask,
};
use vstd::prelude::*;

verus! {

/// The number held by `words`, read as base-2^32 digits, least significant first.
pub open spec fn words_value(words: Seq<u32>) -> nat
    decreases words.len(),
{
    if words.len() == 0 {
        0
    } else {
        words[0] as nat + pow2(32) * words_value(words.drop_first())
    }
}

/// The bits `[hi:lo]` of `value`, as an unsigned number of `hi - lo + 1` bits.
pub open spec fn bit_field(value: nat, hi: nat, lo: nat) -> nat {
    (value / pow2(lo)) % pow2((hi + 1 - lo) as nat)
}

/// Whether bit `i` of `value` is set.
pub open spec fn bit_set(value: nat, i: nat) -> bool {
    bit_field(value, i, i) == 1
}

/// Dropping the lowest `q` words divides the value by `2^(32 q)`.
proof fn lemma_value_skip(words: Seq<u32>, q: nat)
    requires
        q <= words.len(),
    ensures
        words_value(words) / pow2(32 * q) == words_value(words.skip(q as int)),
    decreases q,
{
    lemma2_to64();
    if q == 0 {
        assert(words.skip(0) =~= words);
        assert(pow2(0) == 1);
        assert(words_value(words) / 1 == words_value(words));
    } else {
        let rest = words.drop_first();
        lemma_value_skip(rest, (q - 1) as nat);
        assert(rest.skip(q - 1) =~= words.skip(q as int));
        let v = words_value(words);
        let r = words_value(rest);
        let e: nat = 32 * (q - 1) as nat;
        // v = words[0] + 2^32 r, with words[0] < 2^32, so v / 2^32 == r.
        assert(v == pow2(32) * r + words[0]);
        lemma_div_multiples_vanish_fancy(r as int, words[0] as int, pow2(32) as int);
        assert(v / pow2(32) == r);
        lemma_pow2_pos(e);
        lemma_div_denominator(v as int, pow2(32) as int, pow2(e) as int);
        lemma_pow2_adds(32, e);
        assert(32 + e == 32 * q);
        assert(v / pow2(32 * q) == r / pow2(e));
        assert(r / pow2(e) == words_value(rest.skip(q - 1)));
    }
}

/// The low two words of a value, and what lies above them.
proof fn lemma_value_low_pair(words: Seq<u32>)
    requires
        words.len() >= 1,
    ensures
        words_value(words) == (words[0] + pow2(32) * (if words.len() >= 2 {
            words[1] as nat
        } else {
            0
        })) + pow2(64) * (if words.len() >= 2 {
            words_value(words.skip(2))
        } else {
            0
        }),
{
    lemma2_to64();
    let rest = words.drop_first();
    let v = words_value(words);
    assert(v == words[0] + pow2(32) * words_value(rest));
    if words.len() >= 2 {
        assert(rest.drop_first() =~= words.skip(2));
        let r2 = words_value(words.skip(2));
        assert(words_value(rest) == rest[0] + pow2(32) * words_value(rest.drop_first()));
        assert(words_value(rest) == words[1] + pow2(32) * r2);
        lemma_pow2_adds(32, 32);
        assert(pow2(32) * (words[1] + pow2(32) * r2) == pow2(32) * words[1] + pow2(64) * r2)
            by (nonlinear_arith)
            requires
                pow2(64) == pow2(32) * pow2(32),
        ;
    } else {
        assert(rest.len() == 0);
        assert(words_value(rest) == 0);
    }
}

/// Bits `[hi:lo]` of the value held by `words`, for a field of at most 32 bits.
///
/// The field may straddle a word boundary; the words are read as one number,
/// so the result does not depend on where the boundaries fall.
pub fn extract(words: &[u32], hi: usize, lo: usize) -> (r: u32)
    requires
        lo <= hi,
        hi < 32 * words@.len(),
        hi - lo < 32,
    ensures
        r as nat == bit_field(words_value(words@), hi as nat, lo as nat),
        r < pow2((hi + 1 - lo) as nat),
        hi - lo < 8 ==> r < 0x100,
        hi - lo < 16 ==> r < 0x1_0000,
{
    let q: usize = lo / 32;
    let s: usize = lo % 32;
    let width: usize = hi - lo + 1;
    let low: u64 = words[q] as u64;
    let high: u64 = if q + 1 < words.len() {
        words[q + 1] as u64
    } else {
        0
    };
    let pair: u64 = (high << 32u64) | low;
    proof {
        lemma2_to64();
        lemma_pow2_pos(width as nat);
        if width < 32 {
            lemma_pow2_strictly_increases(width as nat, 32);
        }
        lemma_u64_shl_is_mul(1, width as u64);
    }
    let mask: u64 = (1u64 << (width as u64)) - 1;
    let field: u64 = (pair >> (s as u64)) & mask;
    proof {
        lemma2_to64();
        let t = words@.skip(q as int);
        let rest: nat = if t.len() >= 2 {
            words_value(t.skip(2))
        } else {
            0
        };
        let w = width as nat;
        // The two words as one 64-bit number.
        assert(pair == high * 0x1_0000_0000 + low) by (bit_vector)
            requires
                high < 0x1_0000_0000,
                low < 0x1_0000_0000,
                pair == (high << 32u64) | low,
        ;
        lemma_value_skip(words@, q as nat);
        lemma_value_low_pair(t);
        assert(words_value(t) == pair + pow2(64) * rest);
        // Dividing by 2^lo is dividing by 2^(32 q) and then by 2^s.
        lemma_pow2_pos(32 * q as nat);
        lemma_pow2_pos(s as nat);
        lemma_pow2_adds(32 * q as nat, s as nat);
        lemma_div_denominator(
            words_value(words@) as int,
            pow2(32 * q as nat) as int,
            pow2(s as nat) as int,
        );
        assert(words_value(words@) / pow2(lo as nat) == words_value(t) / pow2(s as nat));
        // The part above the pair is a multiple of 2^(64 - s), hence of 2^w.
        let k: nat = pow2((64 - s - w) as nat) * rest;
        lemma_pow2_adds(s as nat, (64 - s) as nat);
        lemma_pow2_adds(w, (64 - s - w) as nat);
        lemma_pow2_pos(w);
        assert(pow2(64) * rest == pow2(s as nat) * (pow2(w) * k)) by {
            lemma_mul_is_associative(pow2(s as nat) as int, pow2(w) as int, k as int);
            lemma_mul_is_associative(
                pow2(w) as int,
                pow2((64 - s - w) as nat) as int,
                rest as int,
            );
            lemma_mul_is_associative(
                pow2(s as nat) as int,
                pow2((64 - s) as nat) as int,
                rest as int,
            );
        }
        lemma_hoist_over_denominator(pair as int, (pow2(w) * k) as int, pow2(s as nat));
        assert((pow2(w) * k) * pow2(s as nat) == pow2(64) * rest) by {
            lemma_mul_is_commutative((pow2(w) * k) as int, pow2(s as nat) as int);
        }
        assert(words_value(t) == pair + (pow2(w) * k) * pow2(s as nat));
        assert(words_value(t) / pow2(s as nat) == pair as nat / pow2(s as nat) + pow2(w) * k);
        lemma_mul_is_commutative(pow2(w) as int, k as int);
        lemma_mod_multiples_vanish(k as int, (pair as nat / pow2(s as nat)) as int, pow2(w) as int);
        // The machine operations compute exactly that.
        lemma_u64_shr_is_div(pair, s as u64);
        assert(mask == low_bits_mask(w) as u64);
        lemma_u64_low_bits_mask_is_mod(pair >> (s as u64), w);
        lemma_mod_pos_bound((pair >> (s as u64)) as int, pow2(w) as int);
        if w <= 8 {
            if w < 8 {
                lemma_pow2_strictly_increases(w, 8);
            }
        }
        if w <= 16 {
            if w < 16 {
                lemma_pow2_strictly_increases(w, 16);
            }
        }
    }
    field as u32
}

/// Bits `[hi:lo]` of a single 32-bit word.
pub fn extract_word(word: u32, hi: usize, lo: usize) -> (r: u32)
    requires
        lo <= hi < 32,
    ensures
        r as nat == bit_field(word as nat, hi as nat, lo as nat),
        hi - lo < 8 ==> r < 0x100,
        hi - lo < 16 ==> r < 0x1_0000,
{
    let words: [u32; 1] = [word];
    proof {
        lemma_single_word_value(words@);
    }
    extract(words.as_slice(), hi, lo)
}

/// A single word holds its own value.
pub proof fn lemma_single_word_value(words: Seq<u32>)
    requires
        words.len() == 1,
    ensures
        words_value(words) == words[0],
{
    assert(words.drop_first().len() == 0);
    assert(words_value(words.drop_first()) == 0);
    assert(words_value(words) == words[0] + pow2(32) * words_value(words.drop_first()));
}

/// Number of zero bits below the lowest set bit (zero for zero).
pub open spec fn trailing_zeros(x: nat) -> nat
    decreases x,
{
    if x == 0 || x % 2 == 1 {
        0
    } else {
        1 + trailing_zeros(x / 2)
    }
}

/// Number of bits up to and including the highest set bit (zero for zero).
pub open spec fn bit_length(x: nat) -> nat
    decreases x,
{
    if x == 0 {
        0
    } else {
        1 + bit_length(x / 2)
    }
}

/// A number below `2^n` has at most `n` significant bits.
pub proof fn lemma_bit_length_bound(x: nat, n: nat)
    requires
        x < pow2(n),
    ensures
        bit_length(x) <= n,
    decreases n,
{
    if x != 0 {
        if n == 0 {
            lemma2_to64();
        } else {
            vstd::arithmetic::power2::lemma_pow2_unfold(n);
            lemma_bit_length_bound(x / 2, (n - 1) as nat);
        }
    }
}

/// The lowest set bit of a nonzero number lies below its length, and is set.
pub proof fn lemma_trailing_zeros_is_set(x: nat)
    requires
        x != 0,
    ensures
        trailing_zeros(x) < bit_length(x),
        bit_set(x, trailing_zeros(x)),
    decreases x,
{
    lemma2_to64();
    if x % 2 == 1 {
        assert(x / pow2(0) == x);
    } else {
        let t = trailing_zeros(x / 2);
        lemma_trailing_zeros_is_set(x / 2);
        lemma_bit_of_half(x, t);
    }
}

/// Bit `i` of `x / 2` is bit `i + 1` of `x`.
pub proof fn lemma_bit_of_half(x: nat, i: nat)
    ensures
        bit_field(x / 2, i, i) == bit_field(x, i + 1, i + 1),
{
    lemma2_to64();
    lemma_pow2_pos(i);
    lemma_div_denominator(x as int, 2, pow2(i) as int);
    lemma_pow2_adds(1, i);
    assert((i + 1 + 1 - (i + 1)) as nat == (i + 1 - i) as nat);
}

/// Where bit `k` is the lowest set bit, it is the count of trailing zeros.
pub proof fn lemma_trailing_zeros_at(x: nat, k: nat)
    requires
        bit_set(x, k),
        forall|i: nat| i < k ==> !#[trigger] bit_set(x, i),
    ensures
        trailing_zeros(x) == k,
    decreases k,
{
    lemma2_to64();
    if x == 0 {
        lemma_pow2_pos(k);
        assert(0nat / pow2(k) == 0);
    }
    if k == 0 {
        assert(x / pow2(0) == x);
    } else {
        assert(!bit_set(x, 0));
        assert(x / pow2(0) == x);
        assert forall|i: nat| i < (k - 1) as nat implies !#[trigger] bit_set(x / 2, i) by {
            lemma_bit_of_half(x, i);
            assert(!bit_set(x, i + 1));
        }
        lemma_bit_of_half(x, (k - 1) as nat);
        lemma_trailing_zeros_at(x / 2, (k - 1) as nat);
    }
}

/// A bit of a field is the bit of the whole value at the field's offset.
pub proof fn lemma_bit_of_field(value: nat, hi: nat, lo: nat, j: nat)
    requires
        lo <= hi,
        j <= hi - lo,
    ensures
        bit_field(bit_field(value, hi, lo), j, j) == bit_field(value, lo + j, lo + j),
{
    let n = (hi + 1 - lo) as nat;
    let x = value / pow2(lo);
    lemma_pow2_pos(lo);
    lemma_pow2_pos(j);
    lemma_pow2_pos((n - j) as nat);
    lemma_pow2_adds(j, (n - j) as nat);
    // x % 2^n == 2^j ((x / 2^j) % 2^(n - j)) + x % 2^j
    lemma_mod_breakdown(x as int, pow2(j) as int, pow2((n - j) as nat) as int);
    let y = (x / pow2(j)) % pow2((n - j) as nat);
    lemma_mod_pos_bound(x as int, pow2(j) as int);
    lemma_div_multiples_vanish_fancy(y as int, (x % pow2(j)) as int, pow2(j) as int);
    assert((x % pow2(n)) / pow2(j) == y);
    // Taking the low bit of y is taking the low bit of x / 2^j.
    lemma2_to64();
    lemma_pow2_adds(1, (n - j - 1) as nat);
    lemma_mod_mod((x / pow2(j)) as int, 2, pow2((n - j - 1) as nat) as int);
    // x / 2^j == value / 2^(lo + j)
    lemma_div_denominator(value as int, pow2(lo) as int, pow2(j) as int);
    lemma_pow2_adds(lo, j);
}

/// The four little-endian words of a 128-bit value.
pub open spec fn u128_words(v: u128) -> Seq<u32> {
    seq![v as u32, (v >> 32u128) as u32, (v >> 64u128) as u32, (v >> 96u128) as u32]
}

/// Splitting a 128-bit value into words and reading them back gives the
/// value again, so a field of the words is the same field of the value.
pub proof fn lemma_u128_words_value(v: u128)
    ensures
        words_value(u128_words(v)) == v,
        forall|hi: nat, lo: nat|
            #![trigger bit_field(words_value(u128_words(v)), hi, lo)]
            bit_field(words_value(u128_words(v)), hi, lo) == bit_field(v as nat, hi, lo),
{
    let w = u128_words(v);
    let w0 = v as u32;
    let w1 = (v >> 32u128) as u32;
    let w2 = (v >> 64u128) as u32;
    let w3 = (v >> 96u128) as u32;
    assert(v == w0 + 0x1_0000_0000 * (w1 + 0x1_0000_0000 * (w2 + 0x1_0000_0000 * w3)))
        by (bit_vector)
        requires
            w0 == v as u32,
            w1 == (v >> 32u128) as u32,
            w2 == (v >> 64u128) as u32,
            w3 == (v >> 96u128) as u32,
    ;
    lemma2_to64();
    let t1 = w.drop_first();
    let t2 = t1.drop_first();
    let t3 = t2.drop_first();
    assert(t3.drop_first().len() == 0);
    assert(words_value(t3.drop_first()) == 0);
    assert(words_value(t3) == w3 + pow2(32) * words_value(t3.drop_first()));
    assert(words_value(t2) == w2 + pow2(32) * words_value(t3));
    assert(words_value(t1) == w1 + pow2(32) * words_value(t2));
    assert(words_value(w) == w0 + pow2(32) * words_value(t1));
}

/// The words of a 128-bit value, least significant first.
pub fn words_of_u128(v: u128) -> (r: [u32; 4])
    ensures
        r@ == u128_words(v),
{
    let r: [u32; 4] = [v as u32, (v >> 32u128) as u32, (v >> 64u128) as u32, (v >> 96u128) as u32];
    assert(r@ =~= u128_words(v));
    r
}

} // verus!
