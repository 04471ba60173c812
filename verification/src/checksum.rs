//! The Internet checksum engine: the one's-complement sum of big-endian
//! 16-bit words, with carries folded back in, then complemented.

use vstd::prelude::*;
use vstd::arithmetic::div_mod::{
    lemma_fundamental_div_mod, lemma_fundamental_div_mod_converse_mod,
    lemma_mod_division_less_than_divisor, lemma_mod_multiples_vanish, lemma_small_mod,
};

verus! {

/// The 16-bit words of a byte buffer, big-endian; an odd trailing byte is
/// padded with a zero low byte.
pub open spec fn words_of(bytes: Seq<u8>) -> Seq<u16> {
    Seq::new(
        (bytes.len() + 1) / 2,
        |i: int|
            if 2 * i + 1 < bytes.len() {
                ((bytes[2 * i] as u16) * 256 + bytes[2 * i + 1] as u16) as u16
            } else {
                ((bytes[2 * i] as u16) * 256) as u16
            },
    )
}

/// `words` with the word at index `k` treated as zero (the word skipped while
/// a checksum is computed); an out-of-range `k` skips nothing.
pub open spec fn skip_word(words: Seq<u16>, k: int) -> Seq<u16> {
    if 0 <= k < words.len() {
        words.update(k, 0u16)
    } else {
        words
    }
}

/// The plain (unbounded) sum of a sequence of 16-bit words.
pub open spec fn word_sum(words: Seq<u16>) -> nat
    decreases words.len(),
{
    if words.len() == 0 {
        0
    } else {
        (word_sum(words.drop_last()) + words.last()) as nat
    }
}

/// One step of end-around-carry folding: the carry above the low sixteen bits
/// is added back onto them.
pub open spec fn fold_once(s: nat) -> nat {
    s / 0x10000 + s % 0x10000
}

/// End-around-carry folding of a sum into sixteen bits: folding steps are
/// applied until no carry remains.
pub open spec fn folded_sum(s: nat) -> nat
    decreases s via folded_sum_decreases
{
    if s < 0x10000 {
        s
    } else {
        folded_sum(fold_once(s))
    }
}

#[via_fn]
proof fn folded_sum_decreases(s: nat) {
    if s >= 0x10000 {
        lemma_fold_once_decreases(s);
    }
}

proof fn lemma_fold_once_decreases(s: nat)
    requires
        s >= 0x10000,
    ensures
        1 <= fold_once(s) < s,
{
    lemma_fundamental_div_mod(s as int, 0x10000);
    lemma_mod_division_less_than_divisor(s as int, 0x10000);
    let q = s as int / 0x10000;
    assert(q >= 1) by {
        if q <= 0 {
            assert(0x10000 * q <= 0);
        }
    };
}

/// The Internet checksum of a word sequence: the one's complement of the
/// folded one's-complement sum.
pub open spec fn checksum_of(words: Seq<u16>) -> u16 {
    (0xFFFF - folded_sum(word_sum(words))) as u16
}

/// Folding computes the sum modulo 0xFFFF, in closed form: zero stays zero,
/// and a positive sum folds to a value in 1..=0xFFFF congruent to it.
pub proof fn lemma_folded_sum_closed(s: nat)
    ensures
        folded_sum(s) == if s == 0 {
            0nat
        } else {
            ((s - 1) % 0xFFFF + 1) as nat
        },
    decreases s,
{
    if s < 0x10000 {
        if s > 0 {
            lemma_small_mod((s - 1) as nat, 0xFFFF);
        }
    } else {
        lemma_fold_once_decreases(s);
        lemma_folded_sum_closed(fold_once(s));
        lemma_fundamental_div_mod(s as int, 0x10000);
        let q = s as int / 0x10000;
        // s == 0x10000 * q + s % 0x10000, so fold_once(s) == s - 0xFFFF * q
        assert(fold_once(s) as int == s - 0xFFFF * q);
        lemma_mod_multiples_vanish(q, fold_once(s) as int - 1, 0xFFFF);
    }
}

/// A folded sum fits in sixteen bits, and only a zero sum folds to zero.
pub proof fn lemma_folded_sum_range(s: nat)
    ensures
        folded_sum(s) <= 0xFFFF,
        s > 0 ==> 1 <= folded_sum(s),
{
    lemma_folded_sum_closed(s);
    if s > 0 {
        lemma_mod_division_less_than_divisor(s as int - 1, 0xFFFF);
    }
}

/// Extending the sum by one word folds in one end-around-carry step.
proof fn lemma_folded_sum_add(s: nat, w: u16)
    ensures
        folded_sum((s + w) as nat) == if folded_sum(s) + w > 0xFFFF {
            (folded_sum(s) + w - 0xFFFF) as nat
        } else {
            (folded_sum(s) + w) as nat
        },
{
    let m = 0xFFFF as int;
    lemma_folded_sum_closed(s);
    lemma_folded_sum_closed((s + w) as nat);
    if s == 0 {
        if w > 0 {
            lemma_small_mod((w - 1) as nat, 0xFFFF);
        }
    } else {
        lemma_fundamental_div_mod(s as int - 1, m);
        lemma_mod_division_less_than_divisor(s as int - 1, m);
        let q = (s as int - 1) / m;
        let r = (s as int - 1) % m;
        if r + 1 + w <= m {
            lemma_fundamental_div_mod_converse_mod(s as int + w - 1, m, q, r + w);
        } else {
            lemma_fundamental_div_mod_converse_mod(s as int + w - 1, m, q + 1, r + w - m);
        }
    }
}

/// Replacing one word changes the sum by exactly the difference.
pub proof fn lemma_word_sum_update(words: Seq<u16>, k: int, v: u16)
    requires
        0 <= k < words.len(),
    ensures
        word_sum(words.update(k, v)) == word_sum(words) - words[k] + v,
    decreases words.len(),
{
    let u = words.update(k, v);
    if k == words.len() - 1 {
        assert(u.drop_last() =~= words.drop_last());
    } else {
        assert(u.drop_last() =~= words.drop_last().update(k, v));
        lemma_word_sum_update(words.drop_last(), k, v);
    }
}

/// Checksum round trip: over a message whose checksum word is zero, compute
/// the checksum and write it into that word; the checksum of the completed
/// message, with the checksum word now included, is zero.
pub proof fn lemma_checksum_round_trip(words: Seq<u16>, k: int)
    requires
        0 <= k < words.len(),
        words[k] == 0,
    ensures
        checksum_of(words.update(k, checksum_of(words))) == 0,
{
    let m = 0xFFFF as int;
    let s = word_sum(words);
    let c = checksum_of(words);
    lemma_folded_sum_range(s);
    lemma_folded_sum_closed(s);
    lemma_word_sum_update(words, k, c);
    assert(word_sum(words.update(k, c)) == s + c);
    if s == 0 {
        assert(c == 0xFFFF);
        lemma_folded_sum_closed((s + c) as nat);
        lemma_small_mod(0xFFFE, 0xFFFF);
    } else {
        lemma_fundamental_div_mod(s as int - 1, m);
        lemma_mod_division_less_than_divisor(s as int - 1, m);
        let q = (s as int - 1) / m;
        let r = (s as int - 1) % m;
        // c == m - (r + 1), so s + c - 1 == m * (q + 1) + (m - 1)
        lemma_folded_sum_closed((s + c) as nat);
        lemma_fundamental_div_mod_converse_mod(s as int + c - 1, m, q, m - 1);
        assert(folded_sum((s + c) as nat) == 0xFFFF);
    }
}

/// Computes the Internet checksum of `data`, read as big-endian 16-bit words
/// (an odd trailing byte padded with a zero low byte), with the word at index
/// `skipword` treated as zero.
pub fn internet_checksum(data: &[u8], skipword: usize) -> (r: u16)
    ensures
        r == checksum_of(skip_word(words_of(data@), skipword as int)),
{
    let ghost ws = skip_word(words_of(data@), skipword as int);
    let len = data.len();
    let n = len / 2 + len % 2;
    assert(n == ws.len());
    let mut acc: u32 = 0;
    let mut i: usize = 0;
    while i < n
        invariant
            i <= n,
            n == ws.len(),
            ws == skip_word(words_of(data@), skipword as int),
            len == data@.len(),
            n == len / 2 + len % 2,
            acc == folded_sum(word_sum(ws.take(i as int))),
            acc <= 0xFFFF,
        decreases n - i,
    {
        let ghost prev = word_sum(ws.take(i as int));
        assert(2 * i < len);
        if i != skipword {
            let hi = data[2 * i];
            let w: u16 = if 2 * i + 1 < len {
                (hi as u16) * 256 + data[2 * i + 1] as u16
            } else {
                (hi as u16) * 256
            };
            assert(w == ws[i as int]);
            proof {
                lemma_folded_sum_add(prev, w);
            }
            acc = acc + w as u32;
            if acc > 0xFFFF {
                acc = acc - 0xFFFF;
            }
        } else {
            proof {
                lemma_folded_sum_add(prev, 0u16);
            }
        }
        proof {
            assert(ws.take(i as int + 1).drop_last() =~= ws.take(i as int));
            assert(word_sum(ws.take(i as int + 1)) == prev + ws[i as int]);
        }
        i = i + 1;
    }
    proof {
        assert(ws.take(n as int) =~= ws);
        lemma_folded_sum_range(word_sum(ws));
    }
    0xFFFF - (acc as u16)
}

} // verus!
