//! The decoded form of an instruction: its mnemonic, its operands, and the
//! ways a decode can fail.
use vstd::prelude::*;

verus! {

/// Operand width of a floating-point operation, from the two-bit `fmt` field.
#[derive(PartialEq, Eq, Structural, Debug, Clone, Copy)]
pub enum Precision {
    Single,
    Double,
}

/// Floating-point operations that exist in a single- and a double-precision form.
#[derive(PartialEq, Eq, Structural, Debug, Clone, Copy)]
pub enum FloatOp {
    Fmadd,
    Fmsub,
    Fnmsub,
    Fnmadd,
    Fadd,
    Fsub,
    Fmul,
    Fdiv,
    Fsqrt,
    Fsgnj,
    Fsgnjn,
    Fsgnjx,
    Fmin,
    Fmax,
    /// Float to signed word (`FCVT.W.<fmt>`).
    FcvtToW,
    /// Float to unsigned word (`FCVT.WU.<fmt>`).
    FcvtToWu,
    Fclass,
    Feq,
    Flt,
    Fle,
    /// Signed word to float (`FCVT.<fmt>.W`).
    FcvtFromW,
    /// Unsigned word to float (`FCVT.<fmt>.WU`).
    FcvtFromWu,
}

/// The operation an instruction word encodes.
#[derive(PartialEq, Eq, Structural, Debug, Clone, Copy)]
pub enum Mnemonic {
    Lb,
    Lh,
    Lw,
    Lbu,
    Lhu,
    Sb,
    Sh,
    Sw,
    Beq,
    Bne,
    Blt,
    Bge,
    Bltu,
    Bgeu,
    Addi,
    Slti,
    Sltiu,
    Xori,
    Ori,
    Andi,
    Lui,
    Auipc,
    Jal,
    Jalr,
    Add,
    Sub,
    Sll,
    Slt,
    Sltu,
    Xor,
    Srl,
    Sra,
    Or,
    And,
    Mul,
    Mulh,
    Mulhsu,
    Mulhu,
    Div,
    Divu,
    Rem,
    Remu,
    LrW,
    ScW,
    AmoswapW,
    AmoaddW,
    AmoxorW,
    AmoandW,
    AmoorW,
    AmominW,
    AmomaxW,
    AmominuW,
    AmomaxuW,
    Float(FloatOp, Precision),
    /// Float register bits to an integer register (`FMV.X.W`).
    FmvXW,
    /// Integer register bits to a float register (`FMV.W.X`).
    FmvWX,
    /// Single to double (`FCVT.D.S`).
    FcvtDS,
    /// Double to single (`FCVT.S.D`).
    FcvtSD,
    Flw,
    Fld,
    Fsw,
    Fsd,
}

/// IEEE-754 rounding modes selectable by the `rm` field.
#[derive(PartialEq, Eq, Structural, Debug, Clone, Copy)]
pub enum RoundingMode {
    /// Round to nearest, ties to even.
    Rne,
    /// Round towards zero.
    Rtz,
    /// Round down, towards negative infinity.
    Rdn,
    /// Round up, towards positive infinity.
    Rup,
    /// Round to nearest, ties to max magnitude.
    Rmm,
    /// Dynamic: the mode held in the `frm` register.
    Dyn,
}

/// One operand of a decoded instruction.
#[derive(PartialEq, Eq, Structural, Debug, Clone, Copy)]
pub enum Operand {
    /// Integer register `x<n>`.
    X(u32),
    /// Floating-point register `f<n>`.
    F(u32),
    /// Immediate value.
    Imm(i32),
    /// Memory reference `offset(x<base>)`.
    Mem { offset: i32, base: u32 },
    /// Rounding mode, given as a trailing operand.
    Rm(RoundingMode),
}

/// A fully classified instruction.
#[derive(PartialEq, Eq, Debug)]
pub struct Decoded {
    pub mnemonic: Mnemonic,
    pub operands: Vec<Operand>,
}

impl View for Decoded {
    type V = (Mnemonic, Seq<Operand>);

    open spec fn view(&self) -> (Mnemonic, Seq<Operand>) {
        (self.mnemonic, self.operands@)
    }
}

/// Instruction families selected by the opcode.
#[derive(PartialEq, Eq, Structural, Debug, Clone, Copy)]
pub enum Family {
    Load,
    Store,
    Branch,
    OpImm,
    Op,
    Atomic,
    FpFused,
    FpCompute,
    FpLoad,
    FpStore,
}

/// The field whose value selects an operation within a family.
#[derive(PartialEq, Eq, Structural, Debug, Clone, Copy)]
pub enum Discriminator {
    Funct3,
    Funct7,
    Funct5,
    Fmt,
    Rs2,
    Rm,
}

/// Why a word could not be decoded.
#[derive(PartialEq, Eq, Structural, Debug, Clone, Copy)]
pub enum DecodeError {
    /// The seven-bit opcode names no known family.
    UnknownOpcode(u32),
    /// The opcode is known but the value of the discriminating field is not.
    UnknownFunct(Family, Discriminator, u32),
    /// A reserved rounding-mode code (`101` or `110`) where a rounding mode is rendered.
    InvalidRoundingMode(u32),
}

/// The model of a decode result: a `Decoded` seen through its view.
pub open spec fn result_view(r: Result<Decoded, DecodeError>) -> Result<
    (Mnemonic, Seq<Operand>),
    DecodeError,
> {
    match r {
        Ok(d) => Ok(d@),
        Err(e) => Err(e),
    }
}

} // verus!
