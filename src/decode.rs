//! The dispatch tree: the opcode selects a family, the discriminating fields select
//! the operation, and the operation's shape says which fields become its operands.
use crate::bits::{field, field_value};
use crate::immediate::{immediate, immediate_of, ImmFormat};
use crate::instruction::{
    result_view, DecodeError, Decoded, Discriminator, Family, FloatOp, Mnemonic, Operand,
    Precision,
};
use crate::rounding::{rm_decoder, rounding_mode_of};
use vstd::prelude::*;

verus! {

/// Bits 6:0.
pub open spec fn opcode_of(w: Seq<bool>) -> u32 {
    field(w, 25, 32) as u32
}

/// Bits 11:7.
pub open spec fn rd_of(w: Seq<bool>) -> u32 {
    field(w, 20, 25) as u32
}

/// Bits 14:12, which also hold `rm` and the width of floating-point loads and stores.
pub open spec fn funct3_of(w: Seq<bool>) -> u32 {
    field(w, 17, 20) as u32
}

/// Bits 19:15.
pub open spec fn rs1_of(w: Seq<bool>) -> u32 {
    field(w, 12, 17) as u32
}

/// Bits 24:20.
pub open spec fn rs2_of(w: Seq<bool>) -> u32 {
    field(w, 7, 12) as u32
}

/// Bits 31:25.
pub open spec fn funct7_of(w: Seq<bool>) -> u32 {
    field(w, 0, 7) as u32
}

/// Bits 31:27: `funct5` of atomics, `rs3` of fused operations, the sub-opcode of
/// the other floating-point operations.
pub open spec fn funct5_of(w: Seq<bool>) -> u32 {
    field(w, 0, 5) as u32
}

/// Bits 26:25: the precision of a floating-point operation.
pub open spec fn fmt_of(w: Seq<bool>) -> u32 {
    field(w, 5, 7) as u32
}

/// The error for a field value that a family does not define.
pub open spec fn unknown(family: Family, d: Discriminator, v: u32) -> DecodeError {
    DecodeError::UnknownFunct(family, d, v)
}

pub open spec fn load_op(funct3: u32) -> Result<Mnemonic, DecodeError> {
    if funct3 == 0 {
        Ok(Mnemonic::Lb)
    } else if funct3 == 1 {
        Ok(Mnemonic::Lh)
    } else if funct3 == 2 {
        Ok(Mnemonic::Lw)
    } else if funct3 == 4 {
        Ok(Mnemonic::Lbu)
    } else if funct3 == 5 {
        Ok(Mnemonic::Lhu)
    } else {
        Err(unknown(Family::Load, Discriminator::Funct3, funct3))
    }
}

fn select_load(funct3: u32) -> (r: Result<Mnemonic, DecodeError>)
    ensures
        r == load_op(funct3),
{
    match funct3 {
        0 => Ok(Mnemonic::Lb),
        1 => Ok(Mnemonic::Lh),
        2 => Ok(Mnemonic::Lw),
        4 => Ok(Mnemonic::Lbu),
        5 => Ok(Mnemonic::Lhu),
        _ => Err(DecodeError::UnknownFunct(Family::Load, Discriminator::Funct3, funct3)),
    }
}

pub open spec fn store_op(funct3: u32) -> Result<Mnemonic, DecodeError> {
    if funct3 == 0 {
        Ok(Mnemonic::Sb)
    } else if funct3 == 1 {
        Ok(Mnemonic::Sh)
    } else if funct3 == 2 {
        Ok(Mnemonic::Sw)
    } else {
        Err(unknown(Family::Store, Discriminator::Funct3, funct3))
    }
}

fn select_store(funct3: u32) -> (r: Result<Mnemonic, DecodeError>)
    ensures
        r == store_op(funct3),
{
    match funct3 {
        0 => Ok(Mnemonic::Sb),
        1 => Ok(Mnemonic::Sh),
        2 => Ok(Mnemonic::Sw),
        _ => Err(DecodeError::UnknownFunct(Family::Store, Discriminator::Funct3, funct3)),
    }
}

pub open spec fn branch_op(funct3: u32) -> Result<Mnemonic, DecodeError> {
    if funct3 == 0 {
        Ok(Mnemonic::Beq)
    } else if funct3 == 1 {
        Ok(Mnemonic::Bne)
    } else if funct3 == 4 {
        Ok(Mnemonic::Blt)
    } else if funct3 == 5 {
        Ok(Mnemonic::Bge)
    } else if funct3 == 6 {
        Ok(Mnemonic::Bltu)
    } else if funct3 == 7 {
        Ok(Mnemonic::Bgeu)
    } else {
        Err(unknown(Family::Branch, Discriminator::Funct3, funct3))
    }
}

fn select_branch(funct3: u32) -> (r: Result<Mnemonic, DecodeError>)
    ensures
        r == branch_op(funct3),
{
    match funct3 {
        0 => Ok(Mnemonic::Beq),
        1 => Ok(Mnemonic::Bne),
        4 => Ok(Mnemonic::Blt),
        5 => Ok(Mnemonic::Bge),
        6 => Ok(Mnemonic::Bltu),
        7 => Ok(Mnemonic::Bgeu),
        _ => Err(DecodeError::UnknownFunct(Family::Branch, Discriminator::Funct3, funct3)),
    }
}

pub open spec fn op_imm_op(funct3: u32) -> Result<Mnemonic, DecodeError> {
    if funct3 == 0 {
        Ok(Mnemonic::Addi)
    } else if funct3 == 2 {
        Ok(Mnemonic::Slti)
    } else if funct3 == 3 {
        Ok(Mnemonic::Sltiu)
    } else if funct3 == 4 {
        Ok(Mnemonic::Xori)
    } else if funct3 == 6 {
        Ok(Mnemonic::Ori)
    } else if funct3 == 7 {
        Ok(Mnemonic::Andi)
    } else {
        Err(unknown(Family::OpImm, Discriminator::Funct3, funct3))
    }
}

fn select_op_imm(funct3: u32) -> (r: Result<Mnemonic, DecodeError>)
    ensures
        r == op_imm_op(funct3),
{
    match funct3 {
        0 => Ok(Mnemonic::Addi),
        2 => Ok(Mnemonic::Slti),
        3 => Ok(Mnemonic::Sltiu),
        4 => Ok(Mnemonic::Xori),
        6 => Ok(Mnemonic::Ori),
        7 => Ok(Mnemonic::Andi),
        _ => Err(DecodeError::UnknownFunct(Family::OpImm, Discriminator::Funct3, funct3)),
    }
}

/// Register-register operations: `funct3` picks the slot, `funct7` the base
/// operation (`0000000`, `0100000`) or the multiply/divide one (`0000001`).
pub open spec fn op_op(funct3: u32, funct7: u32) -> Result<Mnemonic, DecodeError> {
    let base = if funct3 == 0 {
        Mnemonic::Add
    } else if funct3 == 1 {
        Mnemonic::Sll
    } else if funct3 == 2 {
        Mnemonic::Slt
    } else if funct3 == 3 {
        Mnemonic::Sltu
    } else if funct3 == 4 {
        Mnemonic::Xor
    } else if funct3 == 5 {
        Mnemonic::Srl
    } else if funct3 == 6 {
        Mnemonic::Or
    } else {
        Mnemonic::And
    };
    let muldiv = if funct3 == 0 {
        Mnemonic::Mul
    } else if funct3 == 1 {
        Mnemonic::Mulh
    } else if funct3 == 2 {
        Mnemonic::Mulhsu
    } else if funct3 == 3 {
        Mnemonic::Mulhu
    } else if funct3 == 4 {
        Mnemonic::Div
    } else if funct3 == 5 {
        Mnemonic::Divu
    } else if funct3 == 6 {
        Mnemonic::Rem
    } else {
        Mnemonic::Remu
    };
    if funct7 == 0 {
        Ok(base)
    } else if funct7 == 1 {
        Ok(muldiv)
    } else if funct7 == 0b0100000 && funct3 == 0 {
        Ok(Mnemonic::Sub)
    } else if funct7 == 0b0100000 && funct3 == 5 {
        Ok(Mnemonic::Sra)
    } else {
        Err(unknown(Family::Op, Discriminator::Funct7, funct7))
    }
}

fn select_op(funct3: u32, funct7: u32) -> (r: Result<Mnemonic, DecodeError>)
    requires
        funct3 < 8,
    ensures
        r == op_op(funct3, funct7),
{
    match (funct3, funct7) {
        (0, 0) => Ok(Mnemonic::Add),
        (0, 0b0100000) => Ok(Mnemonic::Sub),
        (0, 1) => Ok(Mnemonic::Mul),
        (1, 0) => Ok(Mnemonic::Sll),
        (1, 1) => Ok(Mnemonic::Mulh),
        (2, 0) => Ok(Mnemonic::Slt),
        (2, 1) => Ok(Mnemonic::Mulhsu),
        (3, 0) => Ok(Mnemonic::Sltu),
        (3, 1) => Ok(Mnemonic::Mulhu),
        (4, 0) => Ok(Mnemonic::Xor),
        (4, 1) => Ok(Mnemonic::Div),
        (5, 0) => Ok(Mnemonic::Srl),
        (5, 0b0100000) => Ok(Mnemonic::Sra),
        (5, 1) => Ok(Mnemonic::Divu),
        (6, 0) => Ok(Mnemonic::Or),
        (6, 1) => Ok(Mnemonic::Rem),
        (7, 0) => Ok(Mnemonic::And),
        (7, 1) => Ok(Mnemonic::Remu),
        _ => Err(DecodeError::UnknownFunct(Family::Op, Discriminator::Funct7, funct7)),
    }
}

pub open spec fn atomic_op(funct5: u32) -> Result<Mnemonic, DecodeError> {
    if funct5 == 0b00010 {
        Ok(Mnemonic::LrW)
    } else if funct5 == 0b00011 {
        Ok(Mnemonic::ScW)
    } else if funct5 == 0b00001 {
        Ok(Mnemonic::AmoswapW)
    } else if funct5 == 0b00000 {
        Ok(Mnemonic::AmoaddW)
    } else if funct5 == 0b00100 {
        Ok(Mnemonic::AmoxorW)
    } else if funct5 == 0b01100 {
        Ok(Mnemonic::AmoandW)
    } else if funct5 == 0b01000 {
        Ok(Mnemonic::AmoorW)
    } else if funct5 == 0b10000 {
        Ok(Mnemonic::AmominW)
    } else if funct5 == 0b10100 {
        Ok(Mnemonic::AmomaxW)
    } else if funct5 == 0b11000 {
        Ok(Mnemonic::AmominuW)
    } else if funct5 == 0b11100 {
        Ok(Mnemonic::AmomaxuW)
    } else {
        Err(unknown(Family::Atomic, Discriminator::Funct5, funct5))
    }
}

fn select_atomic(funct5: u32) -> (r: Result<Mnemonic, DecodeError>)
    ensures
        r == atomic_op(funct5),
{
    match funct5 {
        0b00010 => Ok(Mnemonic::LrW),
        0b00011 => Ok(Mnemonic::ScW),
        0b00001 => Ok(Mnemonic::AmoswapW),
        0b00000 => Ok(Mnemonic::AmoaddW),
        0b00100 => Ok(Mnemonic::AmoxorW),
        0b01100 => Ok(Mnemonic::AmoandW),
        0b01000 => Ok(Mnemonic::AmoorW),
        0b10000 => Ok(Mnemonic::AmominW),
        0b10100 => Ok(Mnemonic::AmomaxW),
        0b11000 => Ok(Mnemonic::AmominuW),
        0b11100 => Ok(Mnemonic::AmomaxuW),
        _ => Err(DecodeError::UnknownFunct(Family::Atomic, Discriminator::Funct5, funct5)),
    }
}

pub open spec fn precision_of(fmt: u32) -> Option<Precision> {
    if fmt == 0 {
        Some(Precision::Single)
    } else if fmt == 1 {
        Some(Precision::Double)
    } else {
        None
    }
}

/// A floating-point operation at the precision that `fmt` selects.
pub open spec fn float_op(family: Family, op: FloatOp, fmt: u32) -> Result<Mnemonic, DecodeError> {
    match precision_of(fmt) {
        Some(p) => Ok(Mnemonic::Float(op, p)),
        None => Err(unknown(family, Discriminator::Fmt, fmt)),
    }
}

fn select_float(family: Family, op: FloatOp, fmt: u32) -> (r: Result<Mnemonic, DecodeError>)
    ensures
        r == float_op(family, op, fmt),
{
    match fmt {
        0 => Ok(Mnemonic::Float(op, Precision::Single)),
        1 => Ok(Mnemonic::Float(op, Precision::Double)),
        _ => Err(DecodeError::UnknownFunct(family, Discriminator::Fmt, fmt)),
    }
}

/// Fused multiply-add family: the opcode picks the operation, `fmt` the precision.
pub open spec fn fused_op(opcode: u32, fmt: u32) -> Result<Mnemonic, DecodeError> {
    let op = if opcode == 0b1000011 {
        FloatOp::Fmadd
    } else if opcode == 0b1000111 {
        FloatOp::Fmsub
    } else if opcode == 0b1001011 {
        FloatOp::Fnmsub
    } else {
        FloatOp::Fnmadd
    };
    float_op(Family::FpFused, op, fmt)
}

fn select_fused(opcode: u32, fmt: u32) -> (r: Result<Mnemonic, DecodeError>)
    ensures
        r == fused_op(opcode, fmt),
{
    let op = if opcode == 0b1000011 {
        FloatOp::Fmadd
    } else if opcode == 0b1000111 {
        FloatOp::Fmsub
    } else if opcode == 0b1001011 {
        FloatOp::Fnmsub
    } else {
        FloatOp::Fnmadd
    };
    select_float(Family::FpFused, op, fmt)
}

/// Other floating-point computations: `funct5` picks the group; `rm` or `rs2`
/// then tells apart the members of a group, and `fmt` gives the precision.
pub open spec fn fp_op(funct5: u32, fmt: u32, rs2: u32, rm: u32) -> Result<Mnemonic, DecodeError> {
    let c = Family::FpCompute;
    if funct5 == 0b00000 {
        float_op(c, FloatOp::Fadd, fmt)
    } else if funct5 == 0b00001 {
        float_op(c, FloatOp::Fsub, fmt)
    } else if funct5 == 0b00010 {
        float_op(c, FloatOp::Fmul, fmt)
    } else if funct5 == 0b00011 {
        float_op(c, FloatOp::Fdiv, fmt)
    } else if funct5 == 0b01011 {
        float_op(c, FloatOp::Fsqrt, fmt)
    } else if funct5 == 0b01000 {
        if rs2 == 0 {
            Ok(Mnemonic::FcvtDS)
        } else if rs2 == 1 {
            Ok(Mnemonic::FcvtSD)
        } else {
            Err(unknown(c, Discriminator::Rs2, rs2))
        }
    } else if funct5 == 0b00100 {
        if rm == 0 {
            float_op(c, FloatOp::Fsgnj, fmt)
        } else if rm == 1 {
            float_op(c, FloatOp::Fsgnjn, fmt)
        } else if rm == 2 {
            float_op(c, FloatOp::Fsgnjx, fmt)
        } else {
            Err(unknown(c, Discriminator::Rm, rm))
        }
    } else if funct5 == 0b00101 {
        if rm == 0 {
            float_op(c, FloatOp::Fmin, fmt)
        } else if rm == 1 {
            float_op(c, FloatOp::Fmax, fmt)
        } else {
            Err(unknown(c, Discriminator::Rm, rm))
        }
    } else if funct5 == 0b11000 {
        if rs2 == 0 {
            float_op(c, FloatOp::FcvtToW, fmt)
        } else if rs2 == 1 {
            float_op(c, FloatOp::FcvtToWu, fmt)
        } else {
            Err(unknown(c, Discriminator::Rs2, rs2))
        }
    } else if funct5 == 0b11100 {
        if rm == 0 {
            Ok(Mnemonic::FmvXW)
        } else if rm == 1 {
            float_op(c, FloatOp::Fclass, fmt)
        } else {
            Err(unknown(c, Discriminator::Rm, rm))
        }
    } else if funct5 == 0b10100 {
        if rm == 0 {
            float_op(c, FloatOp::Fle, fmt)
        } else if rm == 1 {
            float_op(c, FloatOp::Flt, fmt)
        } else if rm == 2 {
            float_op(c, FloatOp::Feq, fmt)
        } else {
            Err(unknown(c, Discriminator::Rm, rm))
        }
    } else if funct5 == 0b11010 {
        if rs2 == 0 {
            float_op(c, FloatOp::FcvtFromW, fmt)
        } else if rs2 == 1 {
            float_op(c, FloatOp::FcvtFromWu, fmt)
        } else {
            Err(unknown(c, Discriminator::Rs2, rs2))
        }
    } else if funct5 == 0b11110 {
        Ok(Mnemonic::FmvWX)
    } else {
        Err(unknown(c, Discriminator::Funct5, funct5))
    }
}

fn select_fp(funct5: u32, fmt: u32, rs2: u32, rm: u32) -> (r: Result<Mnemonic, DecodeError>)
    ensures
        r == fp_op(funct5, fmt, rs2, rm),
{
    let c = Family::FpCompute;
    match funct5 {
        0b00000 => select_float(c, FloatOp::Fadd, fmt),
        0b00001 => select_float(c, FloatOp::Fsub, fmt),
        0b00010 => select_float(c, FloatOp::Fmul, fmt),
        0b00011 => select_float(c, FloatOp::Fdiv, fmt),
        0b01011 => select_float(c, FloatOp::Fsqrt, fmt),
        0b01000 => match rs2 {
            0 => Ok(Mnemonic::FcvtDS),
            1 => Ok(Mnemonic::FcvtSD),
            _ => Err(DecodeError::UnknownFunct(c, Discriminator::Rs2, rs2)),
        },
        0b00100 => match rm {
            0 => select_float(c, FloatOp::Fsgnj, fmt),
            1 => select_float(c, FloatOp::Fsgnjn, fmt),
            2 => select_float(c, FloatOp::Fsgnjx, fmt),
            _ => Err(DecodeError::UnknownFunct(c, Discriminator::Rm, rm)),
        },
        0b00101 => match rm {
            0 => select_float(c, FloatOp::Fmin, fmt),
            1 => select_float(c, FloatOp::Fmax, fmt),
            _ => Err(DecodeError::UnknownFunct(c, Discriminator::Rm, rm)),
        },
        0b11000 => match rs2 {
            0 => select_float(c, FloatOp::FcvtToW, fmt),
            1 => select_float(c, FloatOp::FcvtToWu, fmt),
            _ => Err(DecodeError::UnknownFunct(c, Discriminator::Rs2, rs2)),
        },
        0b11100 => match rm {
            0 => Ok(Mnemonic::FmvXW),
            1 => select_float(c, FloatOp::Fclass, fmt),
            _ => Err(DecodeError::UnknownFunct(c, Discriminator::Rm, rm)),
        },
        0b10100 => match rm {
            0 => select_float(c, FloatOp::Fle, fmt),
            1 => select_float(c, FloatOp::Flt, fmt),
            2 => select_float(c, FloatOp::Feq, fmt),
            _ => Err(DecodeError::UnknownFunct(c, Discriminator::Rm, rm)),
        },
        0b11010 => match rs2 {
            0 => select_float(c, FloatOp::FcvtFromW, fmt),
            1 => select_float(c, FloatOp::FcvtFromWu, fmt),
            _ => Err(DecodeError::UnknownFunct(c, Discriminator::Rs2, rs2)),
        },
        0b11110 => Ok(Mnemonic::FmvWX),
        _ => Err(DecodeError::UnknownFunct(c, Discriminator::Funct5, funct5)),
    }
}

/// Floating-point loads and stores: `funct3` gives the width.
pub open spec fn fp_memory_op(family: Family, funct3: u32) -> Result<Mnemonic, DecodeError> {
    let load = family == Family::FpLoad;
    if funct3 == 2 {
        Ok(if load { Mnemonic::Flw } else { Mnemonic::Fsw })
    } else if funct3 == 3 {
        Ok(if load { Mnemonic::Fld } else { Mnemonic::Fsd })
    } else {
        Err(unknown(family, Discriminator::Funct3, funct3))
    }
}

fn select_fp_memory(family: Family, funct3: u32) -> (r: Result<Mnemonic, DecodeError>)
    ensures
        r == fp_memory_op(family, funct3),
{
    let load = family == Family::FpLoad;
    match funct3 {
        2 => Ok(if load { Mnemonic::Flw } else { Mnemonic::Fsw }),
        3 => Ok(if load { Mnemonic::Fld } else { Mnemonic::Fsd }),
        _ => Err(DecodeError::UnknownFunct(family, Discriminator::Funct3, funct3)),
    }
}

/// The operation that `w` encodes: the opcode table, then the family's own table.
pub open spec fn mnemonic_of(w: Seq<bool>) -> Result<Mnemonic, DecodeError> {
    let op = opcode_of(w);
    let f3 = funct3_of(w);
    if op == 0b0000011 {
        load_op(f3)
    } else if op == 0b0100011 {
        store_op(f3)
    } else if op == 0b1100011 {
        branch_op(f3)
    } else if op == 0b0010011 {
        op_imm_op(f3)
    } else if op == 0b0110111 {
        Ok(Mnemonic::Lui)
    } else if op == 0b0010111 {
        Ok(Mnemonic::Auipc)
    } else if op == 0b1101111 {
        Ok(Mnemonic::Jal)
    } else if op == 0b1100111 {
        Ok(Mnemonic::Jalr)
    } else if op == 0b0110011 {
        op_op(f3, funct7_of(w))
    } else if op == 0b0101111 {
        atomic_op(funct5_of(w))
    } else if op == 0b1000011 || op == 0b1000111 || op == 0b1001011 || op == 0b1001111 {
        fused_op(op, fmt_of(w))
    } else if op == 0b1010011 {
        fp_op(funct5_of(w), fmt_of(w), rs2_of(w), f3)
    } else if op == 0b0000111 {
        fp_memory_op(Family::FpLoad, f3)
    } else if op == 0b0100111 {
        fp_memory_op(Family::FpStore, f3)
    } else {
        Err(DecodeError::UnknownOpcode(op))
    }
}

/// Whether `opcode` names one of the known instruction families.
pub open spec fn is_known_opcode(opcode: u32) -> bool {
    opcode == 0b0000011 || opcode == 0b0100011 || opcode == 0b1100011 || opcode == 0b0010011
        || opcode == 0b0110111 || opcode == 0b0010111 || opcode == 0b1101111 || opcode
        == 0b1100111 || opcode == 0b0110011 || opcode == 0b0101111 || opcode == 0b1000011
        || opcode == 0b1000111 || opcode == 0b1001011 || opcode == 0b1001111 || opcode
        == 0b1010011 || opcode == 0b0000111 || opcode == 0b0100111
}

/// Selects the operation that `w` encodes.
fn select_mnemonic(w: &Vec<bool>) -> (r: Result<Mnemonic, DecodeError>)
    requires
        w.len() == 32,
    ensures
        r == mnemonic_of(w@),
{
    let op = field_value(w, 25, 32);
    let f3 = field_value(w, 17, 20);
    proof {
        crate::bits::lemma_bits_value_bound(w@.subrange(17, 20));
        crate::bits::lemma_pow2_values();
    }
    match op {
        0b0000011 => select_load(f3),
        0b0100011 => select_store(f3),
        0b1100011 => select_branch(f3),
        0b0010011 => select_op_imm(f3),
        0b0110111 => Ok(Mnemonic::Lui),
        0b0010111 => Ok(Mnemonic::Auipc),
        0b1101111 => Ok(Mnemonic::Jal),
        0b1100111 => Ok(Mnemonic::Jalr),
        0b0110011 => select_op(f3, field_value(w, 0, 7)),
        0b0101111 => select_atomic(field_value(w, 0, 5)),
        0b1000011 | 0b1000111 | 0b1001011 | 0b1001111 => select_fused(op, field_value(w, 5, 7)),
        0b1010011 => {
            let funct5 = field_value(w, 0, 5);
            let fmt = field_value(w, 5, 7);
            let rs2 = field_value(w, 7, 12);
            select_fp(funct5, fmt, rs2, f3)
        },
        0b0000111 => select_fp_memory(Family::FpLoad, f3),
        0b0100111 => select_fp_memory(Family::FpStore, f3),
        _ => Err(DecodeError::UnknownOpcode(op)),
    }
}

/// Which fields of the word become an operation's operands, and in what order.
#[derive(PartialEq, Eq, Structural, Debug, Clone, Copy)]
pub enum Shape {
    /// `x<rd>, imm(x<rs1>)`, I-type immediate.
    IntLoad,
    /// `x<rs2>, imm(x<rs1>)`, S-type immediate.
    IntStore,
    /// `x<rs1>, x<rs2>, imm`, B-type immediate.
    Branch,
    /// `x<rd>, x<rs1>, imm`, I-type immediate.
    RegImm,
    /// `x<rd>, imm`, U-type immediate.
    Upper,
    /// `x<rd>, imm`, J-type immediate.
    Jump,
    /// `x<rd>, x<rs1>, x<rs2>`.
    RegReg,
    /// `x<rd>, x<rs1>`.
    Reserve,
    /// `x<rd>, x<rs2>, x<rs1>`.
    AtomicRmw,
    /// `f<rd>, f<rs1>, f<rs2>, f<rs3>, rm`.
    Fused,
    /// `f<rd>, f<rs1>, f<rs2>, rm`.
    FloatBinaryRounded,
    /// `f<rd>, f<rs1>, rm`.
    FloatUnaryRounded,
    /// `f<rd>, f<rs1>, f<rs2>`.
    FloatBinary,
    /// `x<rd>, f<rs1>, rm`.
    FloatToIntRounded,
    /// `x<rd>, f<rs1>`.
    FloatToInt,
    /// `x<rd>, f<rs1>, f<rs2>`.
    FloatCompare,
    /// `f<rd>, x<rs1>, rm`.
    IntToFloatRounded,
    /// `f<rd>, x<rs1>`.
    IntToFloat,
    /// `f<rd>, imm(x<rs1>)`, I-type immediate.
    FloatLoad,
    /// `f<rs2>, imm(x<rs1>)`, S-type immediate.
    FloatStore,
}

pub open spec fn float_shape(op: FloatOp) -> Shape {
    match op {
        FloatOp::Fmadd | FloatOp::Fmsub | FloatOp::Fnmsub | FloatOp::Fnmadd => Shape::Fused,
        FloatOp::Fadd | FloatOp::Fsub | FloatOp::Fmul | FloatOp::Fdiv => Shape::FloatBinaryRounded,
        FloatOp::Fsqrt => Shape::FloatUnaryRounded,
        FloatOp::Fsgnj | FloatOp::Fsgnjn | FloatOp::Fsgnjx | FloatOp::Fmin | FloatOp::Fmax => {
            Shape::FloatBinary
        },
        FloatOp::FcvtToW | FloatOp::FcvtToWu => Shape::FloatToIntRounded,
        FloatOp::Fclass => Shape::FloatToInt,
        FloatOp::Feq | FloatOp::Flt | FloatOp::Fle => Shape::FloatCompare,
        FloatOp::FcvtFromW | FloatOp::FcvtFromWu => Shape::IntToFloatRounded,
    }
}

/// The operand shape of each operation.
pub open spec fn shape_of(m: Mnemonic) -> Shape {
    match m {
        Mnemonic::Lb | Mnemonic::Lh | Mnemonic::Lw | Mnemonic::Lbu | Mnemonic::Lhu => {
            Shape::IntLoad
        },
        Mnemonic::Sb | Mnemonic::Sh | Mnemonic::Sw => Shape::IntStore,
        Mnemonic::Beq | Mnemonic::Bne | Mnemonic::Blt | Mnemonic::Bge | Mnemonic::Bltu
        | Mnemonic::Bgeu => Shape::Branch,
        Mnemonic::Addi | Mnemonic::Slti | Mnemonic::Sltiu | Mnemonic::Xori | Mnemonic::Ori
        | Mnemonic::Andi | Mnemonic::Jalr => Shape::RegImm,
        Mnemonic::Lui | Mnemonic::Auipc => Shape::Upper,
        Mnemonic::Jal => Shape::Jump,
        Mnemonic::LrW => Shape::Reserve,
        Mnemonic::ScW | Mnemonic::AmoswapW | Mnemonic::AmoaddW | Mnemonic::AmoxorW
        | Mnemonic::AmoandW | Mnemonic::AmoorW | Mnemonic::AmominW | Mnemonic::AmomaxW
        | Mnemonic::AmominuW | Mnemonic::AmomaxuW => Shape::AtomicRmw,
        Mnemonic::Float(op, _) => float_shape(op),
        Mnemonic::FmvXW => Shape::FloatToInt,
        Mnemonic::FmvWX => Shape::IntToFloat,
        Mnemonic::FcvtDS | Mnemonic::FcvtSD => Shape::FloatUnaryRounded,
        Mnemonic::Flw | Mnemonic::Fld => Shape::FloatLoad,
        Mnemonic::Fsw | Mnemonic::Fsd => Shape::FloatStore,
        _ => Shape::RegReg,
    }
}

fn shape(m: Mnemonic) -> (r: Shape)
    ensures
        r == shape_of(m),
{
    match m {
        Mnemonic::Lb | Mnemonic::Lh | Mnemonic::Lw | Mnemonic::Lbu | Mnemonic::Lhu => {
            Shape::IntLoad
        },
        Mnemonic::Sb | Mnemonic::Sh | Mnemonic::Sw => Shape::IntStore,
        Mnemonic::Beq | Mnemonic::Bne | Mnemonic::Blt | Mnemonic::Bge | Mnemonic::Bltu
        | Mnemonic::Bgeu => Shape::Branch,
        Mnemonic::Addi | Mnemonic::Slti | Mnemonic::Sltiu | Mnemonic::Xori | Mnemonic::Ori
        | Mnemonic::Andi | Mnemonic::Jalr => Shape::RegImm,
        Mnemonic::Lui | Mnemonic::Auipc => Shape::Upper,
        Mnemonic::Jal => Shape::Jump,
        Mnemonic::LrW => Shape::Reserve,
        Mnemonic::ScW | Mnemonic::AmoswapW | Mnemonic::AmoaddW | Mnemonic::AmoxorW
        | Mnemonic::AmoandW | Mnemonic::AmoorW | Mnemonic::AmominW | Mnemonic::AmomaxW
        | Mnemonic::AmominuW | Mnemonic::AmomaxuW => Shape::AtomicRmw,
        Mnemonic::Float(op, _) => match op {
            FloatOp::Fmadd | FloatOp::Fmsub | FloatOp::Fnmsub | FloatOp::Fnmadd => Shape::Fused,
            FloatOp::Fadd | FloatOp::Fsub | FloatOp::Fmul | FloatOp::Fdiv => {
                Shape::FloatBinaryRounded
            },
            FloatOp::Fsqrt => Shape::FloatUnaryRounded,
            FloatOp::Fsgnj | FloatOp::Fsgnjn | FloatOp::Fsgnjx | FloatOp::Fmin | FloatOp::Fmax => {
                Shape::FloatBinary
            },
            FloatOp::FcvtToW | FloatOp::FcvtToWu => Shape::FloatToIntRounded,
            FloatOp::Fclass => Shape::FloatToInt,
            FloatOp::Feq | FloatOp::Flt | FloatOp::Fle => Shape::FloatCompare,
            FloatOp::FcvtFromW | FloatOp::FcvtFromWu => Shape::IntToFloatRounded,
        },
        Mnemonic::FmvXW => Shape::FloatToInt,
        Mnemonic::FmvWX => Shape::IntToFloat,
        Mnemonic::FcvtDS | Mnemonic::FcvtSD => Shape::FloatUnaryRounded,
        Mnemonic::Flw | Mnemonic::Fld => Shape::FloatLoad,
        Mnemonic::Fsw | Mnemonic::Fsd => Shape::FloatStore,
        _ => Shape::RegReg,
    }
}

/// The operands without a rounding mode, and whether one follows them.
pub open spec fn base_operands(w: Seq<bool>, s: Shape) -> (Seq<Operand>, bool) {
    let rd = rd_of(w);
    let rs1 = rs1_of(w);
    let rs2 = rs2_of(w);
    let rs3 = funct5_of(w);
    let mem_i = Operand::Mem { offset: immediate_of(w, ImmFormat::I) as i32, base: rs1 };
    let mem_s = Operand::Mem { offset: immediate_of(w, ImmFormat::S) as i32, base: rs1 };
    let imm_i = Operand::Imm(immediate_of(w, ImmFormat::I) as i32);
    let imm_b = Operand::Imm(immediate_of(w, ImmFormat::B) as i32);
    let imm_u = Operand::Imm(immediate_of(w, ImmFormat::U) as i32);
    let imm_j = Operand::Imm(immediate_of(w, ImmFormat::J) as i32);
    match s {
        Shape::IntLoad => (seq![Operand::X(rd), mem_i], false),
        Shape::IntStore => (seq![Operand::X(rs2), mem_s], false),
        Shape::Branch => (seq![Operand::X(rs1), Operand::X(rs2), imm_b], false),
        Shape::RegImm => (seq![Operand::X(rd), Operand::X(rs1), imm_i], false),
        Shape::Upper => (seq![Operand::X(rd), imm_u], false),
        Shape::Jump => (seq![Operand::X(rd), imm_j], false),
        Shape::RegReg => (seq![Operand::X(rd), Operand::X(rs1), Operand::X(rs2)], false),
        Shape::Reserve => (seq![Operand::X(rd), Operand::X(rs1)], false),
        Shape::AtomicRmw => (seq![Operand::X(rd), Operand::X(rs2), Operand::X(rs1)], false),
        Shape::Fused => (seq![Operand::F(rd), Operand::F(rs1), Operand::F(rs2), Operand::F(rs3)], true),
        Shape::FloatBinaryRounded => (seq![Operand::F(rd), Operand::F(rs1), Operand::F(rs2)], true),
        Shape::FloatUnaryRounded => (seq![Operand::F(rd), Operand::F(rs1)], true),
        Shape::FloatBinary => (seq![Operand::F(rd), Operand::F(rs1), Operand::F(rs2)], false),
        Shape::FloatToIntRounded => (seq![Operand::X(rd), Operand::F(rs1)], true),
        Shape::FloatToInt => (seq![Operand::X(rd), Operand::F(rs1)], false),
        Shape::FloatCompare => (seq![Operand::X(rd), Operand::F(rs1), Operand::F(rs2)], false),
        Shape::IntToFloatRounded => (seq![Operand::F(rd), Operand::X(rs1)], true),
        Shape::IntToFloat => (seq![Operand::F(rd), Operand::X(rs1)], false),
        Shape::FloatLoad => (seq![Operand::F(rd), mem_i], false),
        Shape::FloatStore => (seq![Operand::F(rs2), mem_s], false),
    }
}

/// The operands of a word of the given shape; a rounding mode, where the shape
/// has one, comes last and must not be a reserved code.
pub open spec fn operands_of(w: Seq<bool>, s: Shape) -> Result<Seq<Operand>, DecodeError> {
    let (ops, rounded) = base_operands(w, s);
    if rounded {
        match rounding_mode_of(funct3_of(w)) {
            Ok(mode) => Ok(ops.push(Operand::Rm(mode))),
            Err(e) => Err(e),
        }
    } else {
        Ok(ops)
    }
}

/// The decoded instruction of `w`, or why there is none.
pub open spec fn decode_word(w: Seq<bool>) -> Result<(Mnemonic, Seq<Operand>), DecodeError> {
    match mnemonic_of(w) {
        Ok(m) => match operands_of(w, shape_of(m)) {
            Ok(ops) => Ok((m, ops)),
            Err(e) => Err(e),
        },
        Err(e) => Err(e),
    }
}

fn build_operands(w: &Vec<bool>, s: Shape) -> (r: Result<Vec<Operand>, DecodeError>)
    requires
        w.len() == 32,
    ensures
        match r {
            Ok(ops) => operands_of(w@, s) == Ok::<Seq<Operand>, DecodeError>(ops@),
            Err(e) => operands_of(w@, s) == Err::<Seq<Operand>, DecodeError>(e),
        },
{
    let rd = field_value(w, 20, 25);
    let rs1 = field_value(w, 12, 17);
    let rs2 = field_value(w, 7, 12);
    let rs3 = field_value(w, 0, 5);
    let mem_i = Operand::Mem { offset: immediate(w, ImmFormat::I), base: rs1 };
    let mem_s = Operand::Mem { offset: immediate(w, ImmFormat::S), base: rs1 };
    let imm_i = Operand::Imm(immediate(w, ImmFormat::I));
    let imm_b = Operand::Imm(immediate(w, ImmFormat::B));
    let imm_u = Operand::Imm(immediate(w, ImmFormat::U));
    let imm_j = Operand::Imm(immediate(w, ImmFormat::J));
    let (mut ops, rounded): (Vec<Operand>, bool) = match s {
        Shape::IntLoad => (vec![Operand::X(rd), mem_i], false),
        Shape::IntStore => (vec![Operand::X(rs2), mem_s], false),
        Shape::Branch => (vec![Operand::X(rs1), Operand::X(rs2), imm_b], false),
        Shape::RegImm => (vec![Operand::X(rd), Operand::X(rs1), imm_i], false),
        Shape::Upper => (vec![Operand::X(rd), imm_u], false),
        Shape::Jump => (vec![Operand::X(rd), imm_j], false),
        Shape::RegReg => (vec![Operand::X(rd), Operand::X(rs1), Operand::X(rs2)], false),
        Shape::Reserve => (vec![Operand::X(rd), Operand::X(rs1)], false),
        Shape::AtomicRmw => (vec![Operand::X(rd), Operand::X(rs2), Operand::X(rs1)], false),
        Shape::Fused => (vec![Operand::F(rd), Operand::F(rs1), Operand::F(rs2), Operand::F(rs3)], true),
        Shape::FloatBinaryRounded => (vec![Operand::F(rd), Operand::F(rs1), Operand::F(rs2)], true),
        Shape::FloatUnaryRounded => (vec![Operand::F(rd), Operand::F(rs1)], true),
        Shape::FloatBinary => (vec![Operand::F(rd), Operand::F(rs1), Operand::F(rs2)], false),
        Shape::FloatToIntRounded => (vec![Operand::X(rd), Operand::F(rs1)], true),
        Shape::FloatToInt => (vec![Operand::X(rd), Operand::F(rs1)], false),
        Shape::FloatCompare => (vec![Operand::X(rd), Operand::F(rs1), Operand::F(rs2)], false),
        Shape::IntToFloatRounded => (vec![Operand::F(rd), Operand::X(rs1)], true),
        Shape::IntToFloat => (vec![Operand::F(rd), Operand::X(rs1)], false),
        Shape::FloatLoad => (vec![Operand::F(rd), mem_i], false),
        Shape::FloatStore => (vec![Operand::F(rs2), mem_s], false),
    };
    assert(ops@ == base_operands(w@, s).0);
    if rounded {
        match rm_decoder(field_value(w, 17, 20)) {
            Ok(mode) => {
                ops.push(Operand::Rm(mode));
                Ok(ops)
            },
            Err(e) => Err(e),
        }
    } else {
        Ok(ops)
    }
}

/// Decodes an instruction word, index 0 holding bit 31: the opcode selects the
/// family, the family's fields the operation, and the operation's shape its operands.
pub fn decode(w: &Vec<bool>) -> (r: Result<Decoded, DecodeError>)
    requires
        w.len() == 32,
    ensures
        result_view(r) == decode_word(w@),
{
    match select_mnemonic(w) {
        Ok(m) => match build_operands(w, shape(m)) {
            Ok(operands) => Ok(Decoded { mnemonic: m, operands }),
            Err(e) => Err(e),
        },
        Err(e) => Err(e),
    }
}

/// An opcode outside the table is reported as `UnknownOpcode`, carrying that
/// opcode; a known opcode never is, whatever the other fields hold.
pub proof fn lemma_unknown_opcode(w: Seq<bool>)
    requires
        w.len() == 32,
    ensures
        !is_known_opcode(opcode_of(w)) ==> decode_word(w) == Err::<
            (Mnemonic, Seq<Operand>),
            DecodeError,
        >(DecodeError::UnknownOpcode(opcode_of(w))),
        is_known_opcode(opcode_of(w)) ==> match decode_word(w) {
            Err(DecodeError::UnknownOpcode(_)) => false,
            _ => true,
        },
{
}

} // verus!
