//! Reassembly of the immediate operand scattered over an instruction word, with
//! two's-complement sign extension.
use crate::bits::{
    bits_value, field, field_value, lemma_bits_value_bound, lemma_bits_value_concat,
    lemma_bits_value_leading, lemma_bits_value_single, lemma_pow2_monotone, lemma_pow2_values,
    pow2,
};
use vstd::prelude::*;

verus! {

/// The instruction layouts that carry an immediate.
#[derive(PartialEq, Eq, Structural, Debug, Clone, Copy)]
pub enum ImmFormat {
    I,
    S,
    B,
    U,
    J,
}

/// The immediate bits of `w` in the given format, concatenated most significant first.
/// B and J immediates end in a forced zero bit. The U immediate is the twenty-bit
/// field itself: it is rendered as written in the word, not shifted left by twelve.
pub open spec fn fragment(w: Seq<bool>, f: ImmFormat) -> Seq<bool> {
    match f {
        ImmFormat::I => w.subrange(0, 12),
        ImmFormat::S => w.subrange(0, 7) + w.subrange(20, 25),
        ImmFormat::B => seq![w[0], w[24]] + w.subrange(1, 7) + w.subrange(20, 24) + seq![false],
        ImmFormat::U => w.subrange(0, 20),
        ImmFormat::J => seq![w[0]] + w.subrange(12, 20) + seq![w[11]] + w.subrange(1, 11) + seq![
            false,
        ],
    }
}

/// Number of bits in an immediate of the given format.
pub open spec fn fragment_width(f: ImmFormat) -> nat {
    match f {
        ImmFormat::I => 12,
        ImmFormat::S => 12,
        ImmFormat::B => 13,
        ImmFormat::U => 20,
        ImmFormat::J => 21,
    }
}

/// Two's-complement value of a bit sequence: when the leading bit is set, the
/// unsigned value minus `2^n`.
pub open spec fn signed_value(s: Seq<bool>) -> int {
    if s.len() > 0 && s[0] {
        bits_value(s) - pow2(s.len())
    } else {
        bits_value(s) as int
    }
}

/// The immediate of `w` in the given format.
pub open spec fn immediate_of(w: Seq<bool>, f: ImmFormat) -> int {
    signed_value(fragment(w, f))
}

/// Sign extension of the low `width` bits of `value` on a closed form.
pub open spec fn sign_extended(value: nat, width: nat) -> int {
    if value >= pow2((width - 1) as nat) {
        value - pow2(width)
    } else {
        value as int
    }
}

/// The two's-complement value of a sequence is its unsigned value sign-extended
/// from its length.
pub proof fn lemma_signed_value(s: Seq<bool>)
    requires
        s.len() >= 1,
    ensures
        signed_value(s) == sign_extended(bits_value(s), s.len()),
{
    lemma_bits_value_leading(s);
    lemma_bits_value_bound(s.drop_first());
}

/// Sign extension, for every format: the immediate is the unsigned value of its
/// `n` bits (12 for I and S, 13 for B, 20 for U, 21 for J), less `2^n` exactly
/// when its highest bit, bit 31 of the word, is set. It lies in `[-2^(n-1), 2^(n-1))`.
pub proof fn lemma_immediate_sign_extension(w: Seq<bool>, f: ImmFormat)
    requires
        w.len() == 32,
    ensures
        fragment(w, f).len() == fragment_width(f),
        fragment(w, f)[0] == w[0],
        immediate_of(w, f) == if w[0] {
            bits_value(fragment(w, f)) - pow2(fragment_width(f))
        } else {
            bits_value(fragment(w, f)) as int
        },
        -pow2((fragment_width(f) - 1) as nat) <= immediate_of(w, f) < pow2(
            (fragment_width(f) - 1) as nat,
        ),
        f == ImmFormat::I ==> immediate_of(w, f) == if w[0] {
            field(w, 0, 12) - 4096
        } else {
            field(w, 0, 12) as int
        },
{
    let frag = fragment(w, f);
    lemma_pow2_values();
    assert(frag.len() == fragment_width(f));
    assert(frag[0] == w[0]);
    lemma_bits_value_leading(frag);
    lemma_bits_value_bound(frag.drop_first());
}

/// B-type and J-type immediates are always even: their lowest bit is forced to zero.
pub proof fn lemma_branch_and_jump_immediates_even(w: Seq<bool>)
    requires
        w.len() == 32,
    ensures
        immediate_of(w, ImmFormat::B) % 2 == 0,
        immediate_of(w, ImmFormat::J) % 2 == 0,
{
    lemma_pow2_values();
    lemma_bits_value_single(false);
    let b = fragment(w, ImmFormat::B);
    let j = fragment(w, ImmFormat::J);
    lemma_bits_value_concat(b.drop_last(), seq![false]);
    assert(b =~= b.drop_last() + seq![false]);
    lemma_bits_value_concat(j.drop_last(), seq![false]);
    assert(j =~= j.drop_last() + seq![false]);
}

/// Computes `2^n`.
fn power_of_two(n: u32) -> (r: u32)
    requires
        n <= 31,
    ensures
        r == pow2(n as nat),
{
    let mut r: u32 = 1;
    let mut i: u32 = 0;
    while i < n
        invariant
            i <= n <= 31,
            r == pow2(i as nat),
        decreases n - i,
    {
        proof {
            lemma_pow2_monotone((i + 1) as nat, 31);
            lemma_pow2_values();
        }
        r = r * 2;
        i = i + 1;
    }
    r
}

/// Reads `value` as a `width`-bit two's-complement number: when the highest of
/// those bits is set the result is `value - 2^width`, otherwise `value`.
pub fn sign_extend(value: u32, width: u32) -> (r: i32)
    requires
        1 <= width <= 31,
        value < pow2(width as nat),
    ensures
        r == sign_extended(value as nat, width as nat),
{
    let full = power_of_two(width);
    let half = full / 2;
    if value >= half {
        proof {
            lemma_pow2_monotone(width as nat, 31);
            lemma_pow2_values();
        }
        (value as i64 - full as i64) as i32
    } else {
        value as i32
    }
}

/// Reconstructs the immediate of `w` in format `f`, sign-extended.
pub fn immediate(w: &Vec<bool>, f: ImmFormat) -> (r: i32)
    requires
        w.len() == 32,
    ensures
        r == immediate_of(w@, f),
{
    let ghost s = w@;
    let ghost frag = fragment(s, f);
    proof {
        lemma_pow2_values();
    }
    let (value, width): (u32, u32) = match f {
        ImmFormat::I => {
            let v = field_value(w, 0, 12);
            proof {
                lemma_bits_value_bound(frag);
            }
            (v, 12)
        },
        ImmFormat::S => {
            let high = field_value(w, 0, 7);
            let low = field_value(w, 20, 25);
            proof {
                lemma_bits_value_concat(s.subrange(0, 7), s.subrange(20, 25));
                lemma_bits_value_bound(s.subrange(0, 7));
                lemma_bits_value_bound(s.subrange(20, 25));
                lemma_bits_value_bound(frag);
            }
            (high * 32 + low, 12)
        },
        ImmFormat::B => {
            let b12: u32 = if w[0] {
                1
            } else {
                0
            };
            let b11: u32 = if w[24] {
                1
            } else {
                0
            };
            let mid = field_value(w, 1, 7);
            let low = field_value(w, 20, 24);
            proof {
                let top = seq![s[0], s[24]];
                assert(top =~= seq![s[0]] + seq![s[24]]);
                lemma_bits_value_concat(seq![s[0]], seq![s[24]]);
                lemma_bits_value_single(s[0]);
                lemma_bits_value_single(s[24]);
                lemma_bits_value_concat(top, s.subrange(1, 7));
                lemma_bits_value_concat(top + s.subrange(1, 7), s.subrange(20, 24));
                lemma_bits_value_concat(
                    top + s.subrange(1, 7) + s.subrange(20, 24),
                    seq![false],
                );
                lemma_bits_value_single(false);
                lemma_bits_value_bound(s.subrange(1, 7));
                lemma_bits_value_bound(s.subrange(20, 24));
                lemma_bits_value_bound(frag);
            }
            ((((b12 * 2 + b11) * 64 + mid) * 16 + low) * 2, 13)
        },
        ImmFormat::U => {
            let v = field_value(w, 0, 20);
            proof {
                lemma_bits_value_bound(frag);
            }
            (v, 20)
        },
        ImmFormat::J => {
            let b20: u32 = if w[0] {
                1
            } else {
                0
            };
            let b11: u32 = if w[11] {
                1
            } else {
                0
            };
            let upper = field_value(w, 12, 20);
            let lower = field_value(w, 1, 11);
            proof {
                let lead = seq![s[0]];
                let with_high = lead + s.subrange(12, 20);
                let with_b11 = with_high + seq![s[11]];
                let with_low = with_b11 + s.subrange(1, 11);
                lemma_bits_value_single(s[0]);
                lemma_bits_value_single(s[11]);
                lemma_bits_value_single(false);
                lemma_bits_value_concat(lead, s.subrange(12, 20));
                lemma_bits_value_concat(with_high, seq![s[11]]);
                lemma_bits_value_concat(with_b11, s.subrange(1, 11));
                lemma_bits_value_concat(with_low, seq![false]);
                lemma_bits_value_bound(s.subrange(12, 20));
                lemma_bits_value_bound(s.subrange(1, 11));
                lemma_bits_value_bound(frag);
            }
            ((((b20 * 256 + upper) * 2 + b11) * 1024 + lower) * 2, 21)
        },
    };
    proof {
        lemma_signed_value(frag);
    }
    sign_extend(value, width)
}

} // verus!
