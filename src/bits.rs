//! Instruction words as bit sequences, and the unsigned value of a field.
use vstd::prelude::*;
use vstd::string::{StrSliceExecFns, StringExecFns};

verus! {

/// `2^n`.
pub open spec fn pow2(n: nat) -> nat
    decreases n,
{
    if n == 0 {
        1
    } else {
        2 * pow2((n - 1) as nat)
    }
}

/// `pow2` is monotone.
pub proof fn lemma_pow2_monotone(a: nat, b: nat)
    requires
        a <= b,
    ensures
        pow2(a) <= pow2(b),
    decreases b - a,
{
    if a < b {
        lemma_pow2_monotone(a, (b - 1) as nat);
    }
}

/// Unsigned value of a bit sequence read as a binary literal, most significant bit first.
pub open spec fn bits_value(s: Seq<bool>) -> nat
    decreases s.len(),
{
    if s.len() == 0 {
        0
    } else {
        2 * bits_value(s.drop_last()) + if s.last() {
            1nat
        } else {
            0nat
        }
    }
}

/// Unsigned value of the bits at indices `lo..hi` of an instruction word
/// (index 0 holds architectural bit 31).
pub open spec fn field(w: Seq<bool>, lo: int, hi: int) -> nat {
    bits_value(w.subrange(lo, hi))
}

/// The powers of two that the instruction formats use.
pub proof fn lemma_pow2_values()
    ensures
        pow2(1) == 2,
        pow2(4) == 16,
        pow2(5) == 32,
        pow2(6) == 64,
        pow2(7) == 128,
        pow2(8) == 256,
        pow2(10) == 1024,
        pow2(11) == 0x800,
        pow2(12) == 0x1000,
        pow2(13) == 0x2000,
        pow2(19) == 0x8_0000,
        pow2(20) == 0x10_0000,
        pow2(21) == 0x20_0000,
        pow2(31) == 0x8000_0000,
{
    reveal_with_fuel(pow2, 32);
}

/// A sequence of `n` bits has a value below `2^n`.
pub proof fn lemma_bits_value_bound(s: Seq<bool>)
    ensures
        bits_value(s) < pow2(s.len()),
    decreases s.len(),
{
    if s.len() > 0 {
        lemma_bits_value_bound(s.drop_last());
    }
}

/// The value of a concatenation: the first part is shifted left by the length of the second.
pub proof fn lemma_bits_value_concat(a: Seq<bool>, b: Seq<bool>)
    ensures
        bits_value(a + b) == bits_value(a) * pow2(b.len()) + bits_value(b),
    decreases b.len(),
{
    if b.len() == 0 {
        assert(a + b =~= a);
        assert(bits_value(b) == 0);
        assert(pow2(0) == 1);
    } else {
        assert((a + b).drop_last() =~= a + b.drop_last());
        assert((a + b).last() == b.last());
        lemma_bits_value_concat(a, b.drop_last());
        assert(pow2(b.len()) == 2 * pow2((b.len() - 1) as nat));
        assert(bits_value(a + b) == 2 * bits_value(a + b.drop_last()) + if b.last() {
            1nat
        } else {
            0nat
        });
        assert(bits_value(b) == 2 * bits_value(b.drop_last()) + if b.last() {
            1nat
        } else {
            0nat
        });
        assert(bits_value(a) * pow2(b.len()) == 2 * (bits_value(a) * pow2(
            (b.len() - 1) as nat,
        ))) by (nonlinear_arith)
            requires
                pow2(b.len()) == 2 * pow2((b.len() - 1) as nat),
        ;
    }
}

/// The value of a non-empty sequence splits into its leading bit and the rest.
pub proof fn lemma_bits_value_leading(s: Seq<bool>)
    requires
        s.len() > 0,
    ensures
        bits_value(s) == (if s[0] {
            pow2((s.len() - 1) as nat)
        } else {
            0
        }) + bits_value(s.drop_first()),
{
    let head = seq![s[0]];
    assert(s =~= head + s.drop_first());
    lemma_bits_value_concat(head, s.drop_first());
    assert(head.drop_last() =~= Seq::<bool>::empty());
    assert(bits_value(head.drop_last()) == 0);
    assert(s.drop_first().len() == (s.len() - 1) as nat);
    if s[0] {
        assert(bits_value(head) == 1);
    } else {
        assert(bits_value(head) == 0);
    }
}

/// The value of a single bit.
pub proof fn lemma_bits_value_single(b: bool)
    ensures
        bits_value(seq![b]) == if b {
            1nat
        } else {
            0nat
        },
{
    assert(seq![b].drop_last() =~= Seq::<bool>::empty());
    assert(bits_value(Seq::<bool>::empty()) == 0);
}

/// Reads the unsigned value of the bits at indices `lo..hi` of `w`.
pub fn field_value(w: &Vec<bool>, lo: usize, hi: usize) -> (r: u32)
    requires
        lo <= hi <= w.len(),
        hi - lo <= 31,
    ensures
        r == field(w@, lo as int, hi as int),
{
    let mut acc: u32 = 0;
    let mut i: usize = lo;
    while i < hi
        invariant
            lo <= i <= hi <= w.len(),
            hi - lo <= 31,
            acc == field(w@, lo as int, i as int),
            acc < pow2((i - lo) as nat),
        decreases hi - i,
    {
        proof {
            assert(w@.subrange(lo as int, i + 1).drop_last() =~= w@.subrange(lo as int, i as int));
            lemma_pow2_monotone((i + 1 - lo) as nat, 31);
            lemma_pow2_values();
        }
        acc = 2 * acc + if w[i] {
            1
        } else {
            0
        };
        i = i + 1;
    }
    acc
}

/// The bits that a sequence of one-bit texts spells, `"1"` read as set.
pub open spec fn word_of(texts: Seq<String>) -> Seq<bool> {
    texts.map_values(|t: String| t@ == "1"@)
}

/// Splits a string into one string per character, in order.
pub fn convert_binary_string_to_vector(binary_string: &str) -> (r: Vec<String>)
    ensures
        r.len() == binary_string@.len(),
        forall|i: int| 0 <= i < r.len() ==> #[trigger] r[i]@ == seq![binary_string@[i]],
{
    let n = binary_string.unicode_len();
    let mut out: Vec<String> = Vec::new();
    let mut i: usize = 0;
    while i < n
        invariant
            n == binary_string@.len(),
            i <= n,
            out.len() == i,
            forall|j: int| 0 <= j < i ==> #[trigger] out[j]@ == seq![binary_string@[j]],
        decreases n - i,
    {
        let piece = String::from_str(binary_string.substring_char(i, i + 1));
        assert(piece@ =~= seq![binary_string@[i as int]]);
        out.push(piece);
        i = i + 1;
    }
    out
}

/// Reads a sequence of one-bit texts as the bits of an instruction word.
pub fn bits_from_texts(texts: &Vec<String>) -> (r: Vec<bool>)
    ensures
        r@ == word_of(texts@),
{
    let one = String::from_str("1");
    let mut out: Vec<bool> = Vec::new();
    let mut i: usize = 0;
    while i < texts.len()
        invariant
            i <= texts.len(),
            one@ == "1"@,
            out@ =~= word_of(texts@).subrange(0, i as int),
        decreases texts.len() - i,
    {
        out.push(texts[i] == one);
        i = i + 1;
    }
    out
}

} // verus!
