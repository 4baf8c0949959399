//! Assembly text of a decoded instruction: `MNEM op1, op2, ...`.
use crate::instruction::{Decoded, FloatOp, Mnemonic, Operand, Precision, RoundingMode};
use vstd::prelude::*;
use vstd::string::StringExecFns;

verus! {

pub open spec fn digit_text(d: nat) -> Seq<char> {
    if d == 0 {
        "0"@
    } else if d == 1 {
        "1"@
    } else if d == 2 {
        "2"@
    } else if d == 3 {
        "3"@
    } else if d == 4 {
        "4"@
    } else if d == 5 {
        "5"@
    } else if d == 6 {
        "6"@
    } else if d == 7 {
        "7"@
    } else if d == 8 {
        "8"@
    } else {
        "9"@
    }
}

/// Decimal digits of `n`, without leading zeros.
pub open spec fn decimal(n: nat) -> Seq<char>
    decreases n,
{
    if n < 10 {
        digit_text(n)
    } else {
        decimal(n / 10) + digit_text(n % 10)
    }
}

/// Decimal text of a signed integer, with a leading `-` when negative.
pub open spec fn int_text(v: int) -> Seq<char> {
    if v < 0 {
        "-"@ + decimal((-v) as nat)
    } else {
        decimal(v as nat)
    }
}

pub open spec fn precision_suffix(p: Precision) -> Seq<char> {
    match p {
        Precision::Single => ".S"@,
        Precision::Double => ".D"@,
    }
}

/// Name of a floating-point operation before its precision suffix.
pub open spec fn float_stem(op: FloatOp) -> Seq<char> {
    match op {
        FloatOp::Fmadd => "FMADD"@,
        FloatOp::Fmsub => "FMSUB"@,
        FloatOp::Fnmsub => "FNMSUB"@,
        FloatOp::Fnmadd => "FNMADD"@,
        FloatOp::Fadd => "FADD"@,
        FloatOp::Fsub => "FSUB"@,
        FloatOp::Fmul => "FMUL"@,
        FloatOp::Fdiv => "FDIV"@,
        FloatOp::Fsqrt => "FSQRT"@,
        FloatOp::Fsgnj => "FSGNJ"@,
        FloatOp::Fsgnjn => "FSGNJN"@,
        FloatOp::Fsgnjx => "FSGNJX"@,
        FloatOp::Fmin => "FMIN"@,
        FloatOp::Fmax => "FMAX"@,
        FloatOp::FcvtToW => "FCVT.W"@,
        FloatOp::FcvtToWu => "FCVT.WU"@,
        FloatOp::Fclass => "FCLASS"@,
        FloatOp::Feq => "FEQ"@,
        FloatOp::Flt => "FLT"@,
        FloatOp::Fle => "FLE"@,
        FloatOp::FcvtFromW => "FCVT"@,
        FloatOp::FcvtFromWu => "FCVT"@,
    }
}

/// Name of a floating-point operation at a precision: `FADD.S`, `FCVT.W.D`;
/// conversions from an integer put the precision first (`FCVT.S.WU`).
pub open spec fn float_text(op: FloatOp, p: Precision) -> Seq<char> {
    match op {
        FloatOp::FcvtFromW => float_stem(op) + precision_suffix(p) + ".W"@,
        FloatOp::FcvtFromWu => float_stem(op) + precision_suffix(p) + ".WU"@,
        _ => float_stem(op) + precision_suffix(p),
    }
}

pub open spec fn mnemonic_text(m: Mnemonic) -> Seq<char> {
    match m {
        Mnemonic::Lb => "LB"@,
        Mnemonic::Lh => "LH"@,
        Mnemonic::Lw => "LW"@,
        Mnemonic::Lbu => "LBU"@,
        Mnemonic::Lhu => "LHU"@,
        Mnemonic::Sb => "SB"@,
        Mnemonic::Sh => "SH"@,
        Mnemonic::Sw => "SW"@,
        Mnemonic::Beq => "BEQ"@,
        Mnemonic::Bne => "BNE"@,
        Mnemonic::Blt => "BLT"@,
        Mnemonic::Bge => "BGE"@,
        Mnemonic::Bltu => "BLTU"@,
        Mnemonic::Bgeu => "BGEU"@,
        Mnemonic::Addi => "ADDI"@,
        Mnemonic::Slti => "SLTI"@,
        Mnemonic::Sltiu => "SLTIU"@,
        Mnemonic::Xori => "XORI"@,
        Mnemonic::Ori => "ORI"@,
        Mnemonic::Andi => "ANDI"@,
        Mnemonic::Lui => "LUI"@,
        Mnemonic::Auipc => "AUIPC"@,
        Mnemonic::Jal => "JAL"@,
        Mnemonic::Jalr => "JALR"@,
        Mnemonic::Add => "ADD"@,
        Mnemonic::Sub => "SUB"@,
        Mnemonic::Sll => "SLL"@,
        Mnemonic::Slt => "SLT"@,
        Mnemonic::Sltu => "SLTU"@,
        Mnemonic::Xor => "XOR"@,
        Mnemonic::Srl => "SRL"@,
        Mnemonic::Sra => "SRA"@,
        Mnemonic::Or => "OR"@,
        Mnemonic::And => "AND"@,
        Mnemonic::Mul => "MUL"@,
        Mnemonic::Mulh => "MULH"@,
        Mnemonic::Mulhsu => "MULHSU"@,
        Mnemonic::Mulhu => "MULHU"@,
        Mnemonic::Div => "DIV"@,
        Mnemonic::Divu => "DIVU"@,
        Mnemonic::Rem => "REM"@,
        Mnemonic::Remu => "REMU"@,
        Mnemonic::LrW => "LR.W"@,
        Mnemonic::ScW => "SC.W"@,
        Mnemonic::AmoswapW => "AMOSWAP.W"@,
        Mnemonic::AmoaddW => "AMOADD.W"@,
        Mnemonic::AmoxorW => "AMOXOR.W"@,
        Mnemonic::AmoandW => "AMOAND.W"@,
        Mnemonic::AmoorW => "AMOOR.W"@,
        Mnemonic::AmominW => "AMOMIN.W"@,
        Mnemonic::AmomaxW => "AMOMAX.W"@,
        Mnemonic::AmominuW => "AMOMINU.W"@,
        Mnemonic::AmomaxuW => "AMOMAXU.W"@,
        Mnemonic::Float(op, p) => float_text(op, p),
        Mnemonic::FmvXW => "FMV.X.W"@,
        Mnemonic::FmvWX => "FMV.W.X"@,
        Mnemonic::FcvtDS => "FCVT.D.S"@,
        Mnemonic::FcvtSD => "FCVT.S.D"@,
        Mnemonic::Flw => "FLW"@,
        Mnemonic::Fld => "FLD"@,
        Mnemonic::Fsw => "FSW"@,
        Mnemonic::Fsd => "FSD"@,
    }
}

pub open spec fn rounding_text(m: RoundingMode) -> Seq<char> {
    match m {
        RoundingMode::Rne => "RNE"@,
        RoundingMode::Rtz => "RTZ"@,
        RoundingMode::Rdn => "RDN"@,
        RoundingMode::Rup => "RUP"@,
        RoundingMode::Rmm => "RMM"@,
        RoundingMode::Dyn => "DYN"@,
    }
}

pub open spec fn operand_text(o: Operand) -> Seq<char> {
    match o {
        Operand::X(n) => "x"@ + decimal(n as nat),
        Operand::F(n) => "f"@ + decimal(n as nat),
        Operand::Imm(v) => int_text(v as int),
        Operand::Mem { offset, base } => int_text(offset as int) + "(x"@ + decimal(base as nat)
            + ")"@,
        Operand::Rm(m) => rounding_text(m),
    }
}

/// The operands' texts joined by `", "`.
pub open spec fn operands_text(ops: Seq<Operand>) -> Seq<char>
    decreases ops.len(),
{
    if ops.len() == 0 {
        Seq::empty()
    } else if ops.len() == 1 {
        operand_text(ops[0])
    } else {
        operands_text(ops.drop_last()) + ", "@ + operand_text(ops.last())
    }
}

/// `MNEM op1, op2, ...`: the mnemonic, then a space and the operands if there are any.
pub open spec fn instruction_text(m: Mnemonic, ops: Seq<Operand>) -> Seq<char> {
    if ops.len() == 0 {
        mnemonic_text(m)
    } else {
        mnemonic_text(m) + " "@ + operands_text(ops)
    }
}

fn digit_str(d: u32) -> (r: &'static str)
    requires
        d < 10,
    ensures
        r@ == digit_text(d as nat),
{
    match d {
        0 => "0",
        1 => "1",
        2 => "2",
        3 => "3",
        4 => "4",
        5 => "5",
        6 => "6",
        7 => "7",
        8 => "8",
        _ => "9",
    }
}

fn push_decimal(out: &mut String, n: u32)
    ensures
        final(out)@ == old(out)@ + decimal(n as nat),
    decreases n,
{
    if n >= 10 {
        push_decimal(out, n / 10);
    }
    out.append(digit_str(n % 10));
    proof {
        if n >= 10 {
            assert(final(out)@ =~= old(out)@ + decimal(n as nat));
        }
    }
}

fn push_int(out: &mut String, v: i32)
    ensures
        final(out)@ == old(out)@ + int_text(v as int),
{
    if v < 0 {
        out.append("-");
        push_decimal(out, (0 - v as i64) as u32);
        assert(final(out)@ =~= old(out)@ + int_text(v as int));
    } else {
        push_decimal(out, v as u32);
    }
}

fn precision_str(p: Precision) -> (r: &'static str)
    ensures
        r@ == precision_suffix(p),
{
    match p {
        Precision::Single => ".S",
        Precision::Double => ".D",
    }
}

fn float_stem_str(op: FloatOp) -> (r: &'static str)
    ensures
        r@ == float_stem(op),
{
    match op {
        FloatOp::Fmadd => "FMADD",
        FloatOp::Fmsub => "FMSUB",
        FloatOp::Fnmsub => "FNMSUB",
        FloatOp::Fnmadd => "FNMADD",
        FloatOp::Fadd => "FADD",
        FloatOp::Fsub => "FSUB",
        FloatOp::Fmul => "FMUL",
        FloatOp::Fdiv => "FDIV",
        FloatOp::Fsqrt => "FSQRT",
        FloatOp::Fsgnj => "FSGNJ",
        FloatOp::Fsgnjn => "FSGNJN",
        FloatOp::Fsgnjx => "FSGNJX",
        FloatOp::Fmin => "FMIN",
        FloatOp::Fmax => "FMAX",
        FloatOp::FcvtToW => "FCVT.W",
        FloatOp::FcvtToWu => "FCVT.WU",
        FloatOp::Fclass => "FCLASS",
        FloatOp::Feq => "FEQ",
        FloatOp::Flt => "FLT",
        FloatOp::Fle => "FLE",
        FloatOp::FcvtFromW => "FCVT",
        FloatOp::FcvtFromWu => "FCVT",
    }
}

fn rounding_str(m: RoundingMode) -> (r: &'static str)
    ensures
        r@ == rounding_text(m),
{
    match m {
        RoundingMode::Rne => "RNE",
        RoundingMode::Rtz => "RTZ",
        RoundingMode::Rdn => "RDN",
        RoundingMode::Rup => "RUP",
        RoundingMode::Rmm => "RMM",
        RoundingMode::Dyn => "DYN",
    }
}

fn push_mnemonic(out: &mut String, m: Mnemonic)
    ensures
        final(out)@ == old(out)@ + mnemonic_text(m),
{
    let name: &str = match m {
        Mnemonic::Float(op, p) => {
            out.append(float_stem_str(op));
            out.append(precision_str(p));
            match op {
                FloatOp::FcvtFromW => out.append(".W"),
                FloatOp::FcvtFromWu => out.append(".WU"),
                _ => {},
            }
            assert(final(out)@ =~= old(out)@ + mnemonic_text(m));
            return;
        },
        Mnemonic::Lb => "LB",
        Mnemonic::Lh => "LH",
        Mnemonic::Lw => "LW",
        Mnemonic::Lbu => "LBU",
        Mnemonic::Lhu => "LHU",
        Mnemonic::Sb => "SB",
        Mnemonic::Sh => "SH",
        Mnemonic::Sw => "SW",
        Mnemonic::Beq => "BEQ",
        Mnemonic::Bne => "BNE",
        Mnemonic::Blt => "BLT",
        Mnemonic::Bge => "BGE",
        Mnemonic::Bltu => "BLTU",
        Mnemonic::Bgeu => "BGEU",
        Mnemonic::Addi => "ADDI",
        Mnemonic::Slti => "SLTI",
        Mnemonic::Sltiu => "SLTIU",
        Mnemonic::Xori => "XORI",
        Mnemonic::Ori => "ORI",
        Mnemonic::Andi => "ANDI",
        Mnemonic::Lui => "LUI",
        Mnemonic::Auipc => "AUIPC",
        Mnemonic::Jal => "JAL",
        Mnemonic::Jalr => "JALR",
        Mnemonic::Add => "ADD",
        Mnemonic::Sub => "SUB",
        Mnemonic::Sll => "SLL",
        Mnemonic::Slt => "SLT",
        Mnemonic::Sltu => "SLTU",
        Mnemonic::Xor => "XOR",
        Mnemonic::Srl => "SRL",
        Mnemonic::Sra => "SRA",
        Mnemonic::Or => "OR",
        Mnemonic::And => "AND",
        Mnemonic::Mul => "MUL",
        Mnemonic::Mulh => "MULH",
        Mnemonic::Mulhsu => "MULHSU",
        Mnemonic::Mulhu => "MULHU",
        Mnemonic::Div => "DIV",
        Mnemonic::Divu => "DIVU",
        Mnemonic::Rem => "REM",
        Mnemonic::Remu => "REMU",
        Mnemonic::LrW => "LR.W",
        Mnemonic::ScW => "SC.W",
        Mnemonic::AmoswapW => "AMOSWAP.W",
        Mnemonic::AmoaddW => "AMOADD.W",
        Mnemonic::AmoxorW => "AMOXOR.W",
        Mnemonic::AmoandW => "AMOAND.W",
        Mnemonic::AmoorW => "AMOOR.W",
        Mnemonic::AmominW => "AMOMIN.W",
        Mnemonic::AmomaxW => "AMOMAX.W",
        Mnemonic::AmominuW => "AMOMINU.W",
        Mnemonic::AmomaxuW => "AMOMAXU.W",
        Mnemonic::FmvXW => "FMV.X.W",
        Mnemonic::FmvWX => "FMV.W.X",
        Mnemonic::FcvtDS => "FCVT.D.S",
        Mnemonic::FcvtSD => "FCVT.S.D",
        Mnemonic::Flw => "FLW",
        Mnemonic::Fld => "FLD",
        Mnemonic::Fsw => "FSW",
        Mnemonic::Fsd => "FSD",
    };
    out.append(name);
}

fn push_operand(out: &mut String, o: Operand)
    ensures
        final(out)@ == old(out)@ + operand_text(o),
{
    match o {
        Operand::X(n) => {
            out.append("x");
            push_decimal(out, n);
        },
        Operand::F(n) => {
            out.append("f");
            push_decimal(out, n);
        },
        Operand::Imm(v) => push_int(out, v),
        Operand::Mem { offset, base } => {
            push_int(out, offset);
            out.append("(x");
            push_decimal(out, base);
            out.append(")");
        },
        Operand::Rm(m) => out.append(rounding_str(m)),
    }
    assert(final(out)@ =~= old(out)@ + operand_text(o));
}

/// Renders a decoded instruction as one line of assembly text.
pub fn render(d: &Decoded) -> (r: String)
    ensures
        r@ == instruction_text(d@.0, d@.1),
{
    let mut out = String::new();
    push_mnemonic(&mut out, d.mnemonic);
    let ghost head = out@;
    let n = d.operands.len();
    let mut i: usize = 0;
    while i < n
        invariant
            n == d.operands.len(),
            i <= n,
            head == mnemonic_text(d.mnemonic),
            out@ == if i == 0 {
                head
            } else {
                head + " "@ + operands_text(d.operands@.subrange(0, i as int))
            },
        decreases n - i,
    {
        let ghost before = out@;
        if i == 0 {
            out.append(" ");
        } else {
            out.append(", ");
        }
        push_operand(&mut out, d.operands[i]);
        proof {
            let ops = d.operands@.subrange(0, i + 1);
            assert(ops.drop_last() =~= d.operands@.subrange(0, i as int));
            assert(ops.last() == d.operands@[i as int]);
            if i == 0 {
                assert(operands_text(ops) == operand_text(d.operands@[0]));
            }
            assert(out@ =~= head + " "@ + operands_text(ops));
        }
        i = i + 1;
    }
    assert(d.operands@.subrange(0, n as int) =~= d.operands@);
    out
}

} // verus!
