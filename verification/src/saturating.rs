//! Saturating integer intrinsics, and their lowering to plain instructions.
//!
//! libNVVM with typed pointers does not know `llvm.sadd.sat` and its kin. A
//! call of one of them is exported as the instructions that compute the same
//! value.
use std::collections::HashMap;
use vstd::arithmetic::power2::pow2;
use vstd::prelude::*;
use vstd::string::StringExecFns;

use crate::ir::{Operation, TypeKind};
use crate::state::{failure, temp_name, value_text, ModuleExportState, Printer};
use crate::text::{all_digits, begins_with, characters, decimal, digits_end, has_prefix};
use crate::text::{push_decimal, signed_decimal, texts};

verus! {

broadcast use {
    vstd::std_specs::hash::group_hash_axioms,
    crate::text::lemma_texts_insert,
    crate::text::lemma_texts,
};

/// The saturating intrinsics.
#[derive(Clone, Copy, Debug, PartialEq, Eq, Structural)]
pub enum SaturatingIntrinsic {
    /// `llvm.sadd.sat`.
    SignedAdd,
    /// `llvm.ssub.sat`.
    SignedSub,
    /// `llvm.uadd.sat`.
    UnsignedAdd,
    /// `llvm.usub.sat`.
    UnsignedSub,
}

impl SaturatingIntrinsic {
    /// What the names of the intrinsic begin with.
    pub open spec fn prefix(self) -> Seq<char> {
        match self {
            SaturatingIntrinsic::SignedAdd => "llvm.sadd.sat.i"@,
            SaturatingIntrinsic::SignedSub => "llvm.ssub.sat.i"@,
            SaturatingIntrinsic::UnsignedAdd => "llvm.uadd.sat.i"@,
            SaturatingIntrinsic::UnsignedSub => "llvm.usub.sat.i"@,
        }
    }

    /// Whether `name` is the prefix of the intrinsic and, behind it, digits
    /// only, at least one.
    pub open spec fn is_named(self, name: Seq<char>) -> bool {
        let suffix = name.skip(self.prefix().len() as int);
        begins_with(name, self.prefix()) && suffix.len() > 0 && all_digits(suffix)
    }

    /// The intrinsic of a name, if it has one.
    pub open spec fn named(name: Seq<char>) -> Option<SaturatingIntrinsic> {
        if SaturatingIntrinsic::SignedAdd.is_named(name) {
            Some(SaturatingIntrinsic::SignedAdd)
        } else if SaturatingIntrinsic::SignedSub.is_named(name) {
            Some(SaturatingIntrinsic::SignedSub)
        } else if SaturatingIntrinsic::UnsignedAdd.is_named(name) {
            Some(SaturatingIntrinsic::UnsignedAdd)
        } else if SaturatingIntrinsic::UnsignedSub.is_named(name) {
            Some(SaturatingIntrinsic::UnsignedSub)
        } else {
            None
        }
    }

    /// The intrinsic of a name such as `llvm.sadd.sat.i8`.
    pub fn from_name(name: &str) -> (r: Option<Self>)
        ensures
            r == Self::named(name@),
    {
        let chars = characters(name);
        if Self::names(&chars, "llvm.sadd.sat.i") {
            Some(SaturatingIntrinsic::SignedAdd)
        } else if Self::names(&chars, "llvm.ssub.sat.i") {
            Some(SaturatingIntrinsic::SignedSub)
        } else if Self::names(&chars, "llvm.uadd.sat.i") {
            Some(SaturatingIntrinsic::UnsignedAdd)
        } else if Self::names(&chars, "llvm.usub.sat.i") {
            Some(SaturatingIntrinsic::UnsignedSub)
        } else {
            None
        }
    }

    /// Whether `name` is `prefix` and, behind it, digits only, at least one.
    fn names(name: &Vec<char>, prefix: &str) -> (r: bool)
        ensures
            r == ({
                let suffix = name@.skip(prefix@.len() as int);
                begins_with(name@, prefix@) && suffix.len() > 0 && all_digits(suffix)
            }),
    {
        let head = characters(prefix);
        if !has_prefix(name, &head) {
            return false;
        }
        let start = head.len();
        let end = digits_end(name, start);
        proof {
            let suffix = name@.skip(start as int);
            crate::text::lemma_digit_run_whole(suffix);
            assert(name@.subrange(start as int, name@.len() as int) =~= suffix);
        }
        start < name.len() && end == name.len()
    }

    /// Whether the operands are signed.
    pub open spec fn signed(self) -> bool {
        self is SignedAdd || self is SignedSub
    }

    /// The operation before saturation.
    pub open spec fn arithmetic(self) -> BinaryOp {
        if self is SignedAdd || self is UnsignedAdd {
            BinaryOp::Add
        } else {
            BinaryOp::Sub
        }
    }

    /// The opcode of the operation before saturation.
    pub fn arithmetic_opcode(self) -> (r: &'static str)
        ensures
            r@ == self.arithmetic().keyword(),
    {
        match self {
            SaturatingIntrinsic::SignedAdd | SaturatingIntrinsic::UnsignedAdd => "add",
            SaturatingIntrinsic::SignedSub | SaturatingIntrinsic::UnsignedSub => "sub",
        }
    }

    /// Number of temporaries that the lowering defines.
    pub open spec fn temporaries(self) -> nat {
        if self.signed() {
            8
        } else {
            2
        }
    }
}

/// A name belongs to one intrinsic at most: to the one whose name it is.
pub proof fn law_intrinsic_of_name(intrinsic: SaturatingIntrinsic, name: Seq<char>)
    ensures
        SaturatingIntrinsic::named(name) == Some(intrinsic) <==> intrinsic.is_named(name),
{
    assert forall|x: SaturatingIntrinsic| #[trigger] x.is_named(name) implies name[5]
        == x.prefix()[5] && name[6] == x.prefix()[6] && x.prefix().len() == 15 by {
        lemma_prefixes(x);
        assert(name.take(15)[5] == x.prefix()[5]);
        assert(name.take(15)[6] == x.prefix()[6]);
    }
    assert forall|x: SaturatingIntrinsic, y: SaturatingIntrinsic| #[trigger]
        x.is_named(name) && #[trigger] y.is_named(name) implies x == y by {
        lemma_prefixes(x);
        lemma_prefixes(y);
    }
}

/// The prefixes have the same length and differ in two characters.
proof fn lemma_prefixes(x: SaturatingIntrinsic)
    ensures
        x.prefix().len() == 15,
        x.prefix()[5] == (if x.signed() {
            's'
        } else {
            'u'
        }),
        x.prefix()[6] == (if x is SignedAdd || x is UnsignedAdd {
            'a'
        } else {
            's'
        }),
{
    reveal_strlit("llvm.sadd.sat.i");
    reveal_strlit("llvm.ssub.sat.i");
    reveal_strlit("llvm.uadd.sat.i");
    reveal_strlit("llvm.usub.sat.i");
}

/// The smallest number of a signed integer of `width` bits.
pub open spec fn least_signed(width: nat) -> int {
    -(pow2((width - 1) as nat) as int)
}

/// The largest number of a signed integer of `width` bits.
pub open spec fn greatest_signed(width: nat) -> int {
    pow2((width - 1) as nat) - 1
}

/// The message for a width that has no signed limits.
pub open spec fn no_limits(width: u32) -> Seq<char> {
    "cannot lower signed saturating intrinsic for i"@ + decimal(width as nat)
}

/// The decimal spellings of the smallest and of the largest signed integer of
/// `width` bits.
pub fn signed_integer_limits(width: u32) -> (r: Result<(String, String), String>)
    ensures
        if 1 <= width <= 128 {
            &&& r is Ok
            &&& r->Ok_0.0@ == signed_decimal(least_signed(width as nat))
            &&& r->Ok_0.1@ == signed_decimal(greatest_signed(width as nat))
        } else {
            r is Err && r->Err_0@ == no_limits(width)
        },
{
    if !(1 <= width && width <= 128) {
        let mut message = String::new();
        message.append("cannot lower signed saturating intrinsic for i");
        push_decimal(&mut message, width as u128);
        assert(message@ =~= no_limits(width));
        return Err(message);
    }
    let half: u128 = 1u128 << (width - 1);
    proof {
        lemma_one_shifted((width - 1) as u32);
        vstd::arithmetic::power2::lemma_pow2_pos((width - 1) as nat);
    }
    let mut max = String::new();
    push_decimal(&mut max, half - 1);
    let mut min = String::new();
    min.append("-");
    push_decimal(&mut min, half);
    assert(min@ =~= signed_decimal(least_signed(width as nat)));
    assert(max@ =~= signed_decimal(greatest_signed(width as nat)));
    Ok((min, max))
}

/// A one that is shifted to the left is a power of two.
proof fn lemma_one_shifted(e: u32)
    requires
        e < 128,
    ensures
        1u128 << e == pow2(e as nat),
    decreases e,
{
    if e == 0 {
        assert(1u128 << 0u32 == 1u128) by (bit_vector);
        vstd::arithmetic::power2::lemma2_to64();
    } else {
        let d = (e - 1) as u32;
        lemma_one_shifted(d);
        assert(1u128 << e == 2 * (1u128 << d)) by (bit_vector)
            requires
                0 < e < 128,
                d == e - 1,
        ;
        vstd::arithmetic::power2::lemma_pow2_unfold(e as nat);
    }
}

/// An integer type: its spelling and its number of bits.
pub struct IntType {
    /// The spelling.
    pub text: Seq<char>,
    /// Number of bits.
    pub width: nat,
}

/// The type of truth values.
pub open spec fn bit_type() -> IntType {
    IntType { text: "i1"@, width: 1 }
}

/// Instructions with two operands.
pub enum BinaryOp {
    /// `add`.
    Add,
    /// `sub`.
    Sub,
    /// `and`.
    And,
    /// `icmp ult`.
    Ult,
    /// `icmp slt`.
    Slt,
    /// `icmp eq`.
    Eq,
    /// `icmp ne`.
    Ne,
}

impl BinaryOp {
    /// The keywords of the instruction.
    pub open spec fn keyword(self) -> Seq<char> {
        match self {
            BinaryOp::Add => "add"@,
            BinaryOp::Sub => "sub"@,
            BinaryOp::And => "and"@,
            BinaryOp::Ult => "icmp ult"@,
            BinaryOp::Slt => "icmp slt"@,
            BinaryOp::Eq => "icmp eq"@,
            BinaryOp::Ne => "icmp ne"@,
        }
    }
}

/// An operand of an instruction.
pub enum Operand {
    /// A value, by the text that refers to it.
    Name(Seq<char>),
    /// A number.
    Number(int),
}

impl Operand {
    /// The text of the operand.
    pub open spec fn text(self) -> Seq<char> {
        match self {
            Operand::Name(s) => s,
            Operand::Number(n) => signed_decimal(n),
        }
    }
}

/// The instructions that a saturating intrinsic is lowered to.
pub enum Instruction {
    /// An instruction with two operands.
    Binary {
        /// What it defines.
        dest: Seq<char>,
        /// What it does.
        op: BinaryOp,
        /// The type of its operands.
        ty: IntType,
        /// The left operand.
        lhs: Operand,
        /// The right operand.
        rhs: Operand,
    },
    /// A choice by a truth value.
    Select {
        /// What it defines.
        dest: Seq<char>,
        /// The truth value.
        cond: Operand,
        /// The type of the choices.
        ty: IntType,
        /// The choice for true.
        on_true: Operand,
        /// The choice for false.
        on_false: Operand,
    },
}

/// The line of an instruction with two operands.
#[verifier::opaque]
pub open spec fn binary_line(
    dest: Seq<char>,
    op: Seq<char>,
    ty: Seq<char>,
    lhs: Seq<char>,
    rhs: Seq<char>,
) -> Seq<char> {
    "  "@ + dest + " = "@ + op + " "@ + ty + " "@ + lhs + ", "@ + rhs + "\n"@
}

/// The line of a choice.
#[verifier::opaque]
pub open spec fn select_line(
    dest: Seq<char>,
    cond: Seq<char>,
    ty: Seq<char>,
    on_true: Seq<char>,
    on_false: Seq<char>,
) -> Seq<char> {
    "  "@ + dest + " = select i1 "@ + cond + ", "@ + ty + " "@ + on_true + ", "@ + ty + " "@
        + on_false + "\n"@
}

impl Instruction {
    /// The line of the instruction.
    pub open spec fn line(self) -> Seq<char> {
        match self {
            Instruction::Binary { dest, op, ty, lhs, rhs } => binary_line(
                dest,
                op.keyword(),
                ty.text,
                lhs.text(),
                rhs.text(),
            ),
            Instruction::Select { dest, cond, ty, on_true, on_false } => select_line(
                dest,
                cond.text(),
                ty.text,
                on_true.text(),
                on_false.text(),
            ),
        }
    }
}

/// The instructions for an intrinsic of the integer type `ty` on `lhs` and
/// `rhs`, with temporaries from number `n` on. The last one defines `result`.
pub open spec fn lowering(
    intrinsic: SaturatingIntrinsic,
    ty: IntType,
    lhs: Seq<char>,
    rhs: Seq<char>,
    result: Seq<char>,
    n: nat,
) -> Seq<Instruction> {
    let plain = Operand::Name(temp_name(n));
    let arithmetic = Instruction::Binary {
        dest: temp_name(n),
        op: intrinsic.arithmetic(),
        ty,
        lhs: Operand::Name(lhs),
        rhs: Operand::Name(rhs),
    };
    match intrinsic {
        SaturatingIntrinsic::UnsignedAdd => seq![
            arithmetic,
            Instruction::Binary {
                dest: temp_name(n + 1),
                op: BinaryOp::Ult,
                ty,
                lhs: plain,
                rhs: Operand::Name(lhs),
            },
            Instruction::Select {
                dest: result,
                cond: Operand::Name(temp_name(n + 1)),
                ty,
                on_true: Operand::Number(-1),
                on_false: plain,
            },
        ],
        SaturatingIntrinsic::UnsignedSub => seq![
            arithmetic,
            Instruction::Binary {
                dest: temp_name(n + 1),
                op: BinaryOp::Ult,
                ty,
                lhs: Operand::Name(lhs),
                rhs: Operand::Name(rhs),
            },
            Instruction::Select {
                dest: result,
                cond: Operand::Name(temp_name(n + 1)),
                ty,
                on_true: Operand::Number(0),
                on_false: plain,
            },
        ],
        _ => seq![
            arithmetic,
            Instruction::Binary {
                dest: temp_name(n + 1),
                op: BinaryOp::Slt,
                ty,
                lhs: Operand::Name(lhs),
                rhs: Operand::Number(0),
            },
            Instruction::Binary {
                dest: temp_name(n + 2),
                op: BinaryOp::Slt,
                ty,
                lhs: Operand::Name(rhs),
                rhs: Operand::Number(0),
            },
            Instruction::Binary {
                dest: temp_name(n + 3),
                op: BinaryOp::Slt,
                ty,
                lhs: plain,
                rhs: Operand::Number(0),
            },
            Instruction::Binary {
                dest: temp_name(n + 4),
                op: if intrinsic is SignedAdd {
                    BinaryOp::Eq
                } else {
                    BinaryOp::Ne
                },
                ty: bit_type(),
                lhs: Operand::Name(temp_name(n + 1)),
                rhs: Operand::Name(temp_name(n + 2)),
            },
            Instruction::Binary {
                dest: temp_name(n + 5),
                op: BinaryOp::Ne,
                ty: bit_type(),
                lhs: Operand::Name(temp_name(n + 1)),
                rhs: Operand::Name(temp_name(n + 3)),
            },
            Instruction::Binary {
                dest: temp_name(n + 6),
                op: BinaryOp::And,
                ty: bit_type(),
                lhs: Operand::Name(temp_name(n + 4)),
                rhs: Operand::Name(temp_name(n + 5)),
            },
            Instruction::Select {
                dest: temp_name(n + 7),
                cond: Operand::Name(temp_name(n + 1)),
                ty,
                on_true: Operand::Number(least_signed(ty.width)),
                on_false: Operand::Number(greatest_signed(ty.width)),
            },
            Instruction::Select {
                dest: result,
                cond: Operand::Name(temp_name(n + 6)),
                ty,
                on_true: Operand::Name(temp_name(n + 7)),
                on_false: plain,
            },
        ],
    }
}

impl Printer {
    /// Prints the first `k` of a list of instructions.
    pub open spec fn instructions(self, list: Seq<Instruction>, k: nat) -> Printer
        decreases k,
    {
        if k == 0 {
            self
        } else {
            self.instructions(list, (k - 1) as nat).text(list[k - 1].line())
        }
    }

    /// Prints the lowering of a call of a saturating intrinsic, with
    /// temporaries from number `n` on.
    pub open spec fn saturating(
        self,
        op: Operation,
        intrinsic: SaturatingIntrinsic,
        names: Map<u64, Seq<char>>,
        n: nat,
    ) -> Printer {
        if op.results@.len() != 1 || op.operands@.len() != 2 {
            self.fail("saturating intrinsic calls must have one result and two operands"@)
        } else if !names.contains_key(op.results@[0].id) {
            self.fail("saturating intrinsic result was not named"@)
        } else {
            match (op.results@[0].ty.kind, op.results@[0].ty.spelled()) {
                (TypeKind::Integer { width }, Ok(text)) => {
                    let list = lowering(
                        intrinsic,
                        IntType { text, width: width as nat },
                        value_text(names, op.operands@[0]),
                        value_text(names, op.operands@[1]),
                        names[op.results@[0].id],
                        n,
                    );
                    if intrinsic.signed() && !(1 <= width <= 128) {
                        self.instructions(list, 1).fail(no_limits(width))
                    } else {
                        self.instructions(list, list.len())
                    }
                },
                (TypeKind::Integer { width }, Err(e)) => self.fail(e),
                _ => self.fail("saturating intrinsic result must be an integer"@),
            }
        }
    }
}

/// Whether the call of a saturating intrinsic is one that temporaries are used
/// for: it has one named integer result, whose type can be spelled, and two
/// operands.
pub open spec fn uses_temporaries(op: Operation, names: Map<u64, Seq<char>>) -> bool {
    op.results@.len() == 1 && op.operands@.len() == 2 && names.contains_key(op.results@[0].id)
        && op.results@[0].ty.kind is Integer && op.results@[0].ty.spelled() is Ok
}

/// Appends the line of an instruction with two operands.
fn emit_binary(output: &mut String, dest: &str, op: &str, ty: &str, lhs: &str, rhs: &str)
    ensures
        final(output)@ == old(output)@ + binary_line(dest@, op@, ty@, lhs@, rhs@),
{
    let mut line = String::new();
    line.append("  ");
    line.append(dest);
    line.append(" = ");
    line.append(op);
    line.append(" ");
    line.append(ty);
    line.append(" ");
    line.append(lhs);
    line.append(", ");
    line.append(rhs);
    line.append("\n");
    reveal(binary_line);
    assert(line@ =~= binary_line(dest@, op@, ty@, lhs@, rhs@));
    output.append(line.as_str());
}

/// Appends the line of a choice.
fn emit_choice(
    output: &mut String,
    dest: &str,
    cond: &str,
    ty: &str,
    on_true: &str,
    on_false: &str,
)
    ensures
        final(output)@ == old(output)@ + select_line(dest@, cond@, ty@, on_true@, on_false@),
{
    let mut line = String::new();
    line.append("  ");
    line.append(dest);
    line.append(" = select i1 ");
    line.append(cond);
    line.append(", ");
    line.append(ty);
    line.append(" ");
    line.append(on_true);
    line.append(", ");
    line.append(ty);
    line.append(" ");
    line.append(on_false);
    line.append("\n");
    reveal(select_line);
    assert(line@ =~= select_line(dest@, cond@, ty@, on_true@, on_false@));
    output.append(line.as_str());
}

/// Printing one instruction.
pub(crate) proof fn lemma_one_instruction(p: Printer, list: Seq<Instruction>)
    ensures
        p.instructions(list, 1) == p.text(list[0].line()),
{
    reveal_with_fuel(Printer::instructions, 2);
}

/// Printing three instructions.
pub(crate) proof fn lemma_three_instructions(p: Printer, list: Seq<Instruction>)
    ensures
        p.instructions(list, 3) == p.text(list[0].line()).text(list[1].line()).text(
            list[2].line(),
        ),
{
    reveal_with_fuel(Printer::instructions, 4);
}

/// Printing nine instructions.
pub(crate) proof fn lemma_nine_instructions(p: Printer, list: Seq<Instruction>)
    ensures
        p.instructions(list, 9) == p.text(list[0].line()).text(list[1].line()).text(
            list[2].line(),
        ).text(list[3].line()).text(list[4].line()).text(list[5].line()).text(list[6].line()).text(
            list[7].line(),
        ).text(list[8].line()),
{
    reveal_with_fuel(Printer::instructions, 10);
}

/// The spellings of the numbers that the lowering mentions.
pub(crate) proof fn lemma_number_spellings()
    ensures
        signed_decimal(-1) == "-1"@,
        signed_decimal(0) == "0"@,
{
    reveal_strlit("-1");
    reveal_strlit("-");
    reveal_strlit("0");
    assert(signed_decimal(-1) =~= "-1"@);
    assert(signed_decimal(0) =~= "0"@);
}

impl ModuleExportState {
    /// Exports a call of a saturating intrinsic as the instructions that
    /// compute its value.
    #[verifier::rlimit(40)]
    pub fn emit_typed_nvvm_saturating_intrinsic(
        &mut self,
        op: &Operation,
        intrinsic: SaturatingIntrinsic,
        value_names: &HashMap<u64, String>,
        next_value_id: &mut usize,
        output: &mut String,
    ) -> (r: Result<(), String>)
        requires
            uses_temporaries(*op, texts(value_names@)) ==> *old(next_value_id)
                + intrinsic.temporaries() <= usize::MAX,
        ensures
            final(self).printer(final(output)@, failure(r)) == old(self).printer(
                old(output)@,
                None,
            ).saturating(*op, intrinsic, texts(value_names@), *old(next_value_id) as nat),
            *final(next_value_id) == *old(next_value_id) + if uses_temporaries(
                *op,
                texts(value_names@),
            ) {
                intrinsic.temporaries()
            } else {
                0
            },
    {
        if op.results.len() != 1 || op.operands.len() != 2 {
            return Err(
                "saturating intrinsic calls must have one result and two operands".to_string(),
            );
        }
        let result = &op.results[0];
        let result_name = match value_names.get(&result.id) {
            Some(name) => name,
            None => {
                return Err("saturating intrinsic result was not named".to_string());
            },
        };
        let width = match result.ty.kind {
            TypeKind::Integer { width } => width,
            _ => {
                return Err("saturating intrinsic result must be an integer".to_string());
            },
        };
        let ty_text = self.type_to_string(&result.ty)?;
        let ty = ty_text.as_str();
        let lhs_text = self.value_to_string(&op.operands[0], value_names)?;
        let rhs_text = self.value_to_string(&op.operands[1], value_names)?;
        let lhs = lhs_text.as_str();
        let rhs = rhs_text.as_str();
        let ghost n = *next_value_id as nat;
        let ghost list = lowering(
            intrinsic,
            IntType { text: ty@, width: width as nat },
            lhs@,
            rhs@,
            result_name@,
            n,
        );
        proof {
            let p = self.printer(output@, None);
            lemma_number_spellings();
            lemma_one_instruction(p, list);
            lemma_three_instructions(p, list);
            lemma_nine_instructions(p, list);
        }
        let arithmetic = Self::next_ssa_name(next_value_id);
        emit_binary(output, arithmetic.as_str(), intrinsic.arithmetic_opcode(), ty, lhs, rhs);
        match intrinsic {
            SaturatingIntrinsic::UnsignedAdd => {
                let overflow = Self::next_ssa_name(next_value_id);
                emit_binary(output, overflow.as_str(), "icmp ult", ty, arithmetic.as_str(), lhs);
                emit_choice(
                    output,
                    result_name.as_str(),
                    overflow.as_str(),
                    ty,
                    "-1",
                    arithmetic.as_str(),
                );
            },
            SaturatingIntrinsic::UnsignedSub => {
                let underflow = Self::next_ssa_name(next_value_id);
                emit_binary(output, underflow.as_str(), "icmp ult", ty, lhs, rhs);
                emit_choice(
                    output,
                    result_name.as_str(),
                    underflow.as_str(),
                    ty,
                    "0",
                    arithmetic.as_str(),
                );
            },
            SaturatingIntrinsic::SignedAdd | SaturatingIntrinsic::SignedSub => {
                let lhs_negative = Self::next_ssa_name(next_value_id);
                let rhs_negative = Self::next_ssa_name(next_value_id);
                let result_negative = Self::next_ssa_name(next_value_id);
                let sign_relationship = Self::next_ssa_name(next_value_id);
                let result_sign_changed = Self::next_ssa_name(next_value_id);
                let overflow = Self::next_ssa_name(next_value_id);
                let saturated_value = Self::next_ssa_name(next_value_id);
                let (min_value, max_value) = signed_integer_limits(width)?;
                let predicate = match intrinsic {
                    SaturatingIntrinsic::SignedAdd => "icmp eq",
                    _ => "icmp ne",
                };
                emit_binary(output, lhs_negative.as_str(), "icmp slt", ty, lhs, "0");
                emit_binary(output, rhs_negative.as_str(), "icmp slt", ty, rhs, "0");
                emit_binary(
                    output,
                    result_negative.as_str(),
                    "icmp slt",
                    ty,
                    arithmetic.as_str(),
                    "0",
                );
                emit_binary(
                    output,
                    sign_relationship.as_str(),
                    predicate,
                    "i1",
                    lhs_negative.as_str(),
                    rhs_negative.as_str(),
                );
                emit_binary(
                    output,
                    result_sign_changed.as_str(),
                    "icmp ne",
                    "i1",
                    lhs_negative.as_str(),
                    result_negative.as_str(),
                );
                emit_binary(
                    output,
                    overflow.as_str(),
                    "and",
                    "i1",
                    sign_relationship.as_str(),
                    result_sign_changed.as_str(),
                );
                emit_choice(
                    output,
                    saturated_value.as_str(),
                    lhs_negative.as_str(),
                    ty,
                    min_value.as_str(),
                    max_value.as_str(),
                );
                emit_choice(
                    output,
                    result_name.as_str(),
                    overflow.as_str(),
                    ty,
                    saturated_value.as_str(),
                    arithmetic.as_str(),
                );
            },
        }
        Ok(())
    }
}

} // verus!
