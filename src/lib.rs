//! Decoding of 32-bit RISC-V instruction words (RV32I with the M, A, F and D
//! extensions) into assembly text.

pub mod bits;
pub mod decode;
pub mod immediate;
pub mod instruction;
pub mod render;
pub mod rounding;

pub use bits::convert_binary_string_to_vector;
pub use instruction::{DecodeError, Decoded, Mnemonic, Operand};
pub use rounding::rm_decoder;

use bits::{bits_from_texts, word_of};
use decode::{decode, decode_word};
use render::{instruction_text, render};
use vstd::prelude::*;

verus! {

/// The assembly text of the instruction in `w`, or why it has none.
pub open spec fn decode_text(w: Seq<bool>) -> Result<Seq<char>, DecodeError> {
    match decode_word(w) {
        Ok((m, ops)) => Ok(instruction_text(m, ops)),
        Err(e) => Err(e),
    }
}

/// Decodes an instruction given as 32 one-bit texts, most significant bit first,
/// into one line of assembly text such as `ADDI x15, x1, -50`. A text other than
/// `"1"` reads as a clear bit.
pub fn instruction_decoder(instr: Vec<String>) -> (r: Result<String, DecodeError>)
    requires
        instr.len() == 32,
    ensures
        match r {
            Ok(text) => decode_text(word_of(instr@)) == Ok::<Seq<char>, DecodeError>(text@),
            Err(e) => decode_text(word_of(instr@)) == Err::<Seq<char>, DecodeError>(e),
        },
{
    let w = bits_from_texts(&instr);
    match decode(&w) {
        Ok(d) => Ok(render(&d)),
        Err(e) => Err(e),
    }
}

/// Decoding depends on the word alone: equal words give equal results, both as
/// decoded instructions and as text.
pub proof fn lemma_decode_deterministic(a: Seq<bool>, b: Seq<bool>)
    requires
        a == b,
    ensures
        decode_word(a) == decode_word(b),
        decode_text(a) == decode_text(b),
{
}

} // verus!
