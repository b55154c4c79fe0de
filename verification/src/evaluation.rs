//! What the instructions that a saturating intrinsic is lowered to compute.
//!
//! A value of an integer type of `w` bits is a number below two to the power
//! of `w`; whether it is signed is up to the instruction that reads it.
use vstd::arithmetic::power2::{lemma_pow2_pos, lemma_pow2_unfold, pow2};
use vstd::prelude::*;

use crate::saturating::{
    greatest_signed, least_signed, lowering, BinaryOp, Instruction, IntType, Operand,
    SaturatingIntrinsic,
};
use crate::state::temp_name;

verus! {

/// The value of `width` bits that `v` wraps around to.
pub open spec fn wrapped(v: int, width: nat) -> int {
    v % (pow2(width) as int)
}

/// The number that a value stands for where it is read as signed.
pub open spec fn as_signed(v: int, width: nat) -> int {
    if v <= greatest_signed(width) {
        v
    } else {
        v - pow2(width)
    }
}

/// `v`, or the limit that it exceeds.
pub open spec fn clamped(v: int, low: int, high: int) -> int {
    if v < low {
        low
    } else if v > high {
        high
    } else {
        v
    }
}

/// A truth value.
pub open spec fn bit(b: bool) -> int {
    if b {
        1
    } else {
        0
    }
}

impl Operand {
    /// The value of an operand of `width` bits, where `env` gives the value of
    /// each text that refers to one.
    pub open spec fn evaluated(self, env: Map<Seq<char>, int>, width: nat) -> int {
        match self {
            Operand::Name(s) => env[s],
            Operand::Number(n) => wrapped(n, width),
        }
    }
}

impl BinaryOp {
    /// The value of the instruction on operands of `width` bits. `and` is meant
    /// for truth values.
    pub open spec fn applied(self, a: int, b: int, width: nat) -> int {
        match self {
            BinaryOp::Add => wrapped(a + b, width),
            BinaryOp::Sub => wrapped(a - b, width),
            BinaryOp::And => bit(a == 1 && b == 1),
            BinaryOp::Ult => bit(a < b),
            BinaryOp::Slt => bit(as_signed(a, width) < as_signed(b, width)),
            BinaryOp::Eq => bit(a == b),
            BinaryOp::Ne => bit(a != b),
        }
    }
}

impl Instruction {
    /// The values behind the instruction.
    pub open spec fn executed(self, env: Map<Seq<char>, int>) -> Map<Seq<char>, int> {
        match self {
            Instruction::Binary { dest, op, ty, lhs, rhs } => env.insert(
                dest,
                op.applied(lhs.evaluated(env, ty.width), rhs.evaluated(env, ty.width), ty.width),
            ),
            Instruction::Select { dest, cond, ty, on_true, on_false } => env.insert(
                dest,
                if cond.evaluated(env, 1) == 1 {
                    on_true.evaluated(env, ty.width)
                } else {
                    on_false.evaluated(env, ty.width)
                },
            ),
        }
    }
}

/// The values behind the first `k` of a list of instructions.
pub open spec fn run(list: Seq<Instruction>, k: nat, env: Map<Seq<char>, int>) -> Map<
    Seq<char>,
    int,
>
    decreases k,
{
    if k == 0 {
        env
    } else {
        list[k - 1].executed(run(list, (k - 1) as nat, env))
    }
}

/// What a saturating intrinsic of `width` bits returns for `a` and `b`: their
/// sum or difference, or the limit of the type that it exceeds.
pub open spec fn saturated(intrinsic: SaturatingIntrinsic, width: nat, a: int, b: int) -> int {
    let low = least_signed(width);
    let high = greatest_signed(width);
    match intrinsic {
        SaturatingIntrinsic::SignedAdd => wrapped(
            clamped(as_signed(a, width) + as_signed(b, width), low, high),
            width,
        ),
        SaturatingIntrinsic::SignedSub => wrapped(
            clamped(as_signed(a, width) - as_signed(b, width), low, high),
            width,
        ),
        SaturatingIntrinsic::UnsignedAdd => clamped(a + b, 0, pow2(width) - 1),
        SaturatingIntrinsic::UnsignedSub => clamped(a - b, 0, pow2(width) - 1),
    }
}

/// Temporaries with different numbers have different names.
pub proof fn law_temporaries_differ(m: nat, n: nat)
    requires
        m != n,
    ensures
        temp_name(m) != temp_name(n),
{
    reveal_strlit("%v");
    assert(temp_name(m).skip(2) =~= crate::text::decimal(m));
    assert(temp_name(n).skip(2) =~= crate::text::decimal(n));
    if temp_name(m) == temp_name(n) {
        crate::text::lemma_decimal_injective(m, n);
    }
}

/// The instructions that a saturating intrinsic is lowered to leave in the
/// result what the intrinsic returns, whatever the width and the values of the
/// operands, as long as no operand has the name of one of the temporaries.
pub proof fn law_lowering_saturates(
    intrinsic: SaturatingIntrinsic,
    ty: IntType,
    lhs: Seq<char>,
    rhs: Seq<char>,
    result: Seq<char>,
    n: nat,
    env: Map<Seq<char>, int>,
)
    requires
        ty.width >= 1,
        0 <= env[lhs] < pow2(ty.width),
        0 <= env[rhs] < pow2(ty.width),
        forall|i: nat| n <= i < n + intrinsic.temporaries() ==> lhs != #[trigger] temp_name(i),
        forall|i: nat| n <= i < n + intrinsic.temporaries() ==> rhs != #[trigger] temp_name(i),
    ensures
        ({
            let list = lowering(intrinsic, ty, lhs, rhs, result, n);
            run(list, list.len(), env)[result] == saturated(
                intrinsic,
                ty.width,
                env[lhs],
                env[rhs],
            )
        }),
{
    let list = lowering(intrinsic, ty, lhs, rhs, result, n);
    let w = ty.width;
    let a = env[lhs];
    let b = env[rhs];
    assert(temp_name(n) != lhs && temp_name(n) != rhs);
    assert(temp_name(n + 1) != lhs && temp_name(n + 1) != rhs);
    law_temporaries_differ(n, n + 1);
    lemma_widths(w);
    match intrinsic {
        SaturatingIntrinsic::UnsignedAdd => {
            lemma_run_three(list, env);
            lemma_wrap_sum(a + b, w);
            lemma_wrap_sum(-1, w);
        },
        SaturatingIntrinsic::UnsignedSub => {
            lemma_run_three(list, env);
            lemma_wrap_sum(a - b, w);
            lemma_wrap_sum(0, w);
        },
        _ => {
            lemma_run_nine(list, env);
            lemma_signed_steps(intrinsic, ty, lhs, rhs, result, n, env);
            lemma_signed_overflow(intrinsic, w, a, b);
        },
    }
}

/// A power of two is twice the one before it.
proof fn lemma_widths(w: nat)
    requires
        w >= 1,
    ensures
        pow2(w) == 2 * pow2((w - 1) as nat),
        pow2((w - 1) as nat) >= 1,
{
    lemma_pow2_unfold(w);
    lemma_pow2_pos((w - 1) as nat);
}

/// How a number that is at most once too large or too small wraps around.
proof fn lemma_wrap_sum(v: int, w: nat)
    requires
        -pow2(w) <= v < 2 * pow2(w),
    ensures
        wrapped(v, w) == (if v < 0 {
            v + pow2(w)
        } else if v < pow2(w) {
            v
        } else {
            v - pow2(w)
        }),
{
    let p = pow2(w) as int;
    lemma_pow2_pos(w);
    let q: int = if v < 0 {
        -1
    } else if v < p {
        0
    } else {
        1
    };
    vstd::arithmetic::div_mod::lemma_fundamental_div_mod_converse(v, p, q, v - q * p);
}

/// Three instructions run one by one.
proof fn lemma_run_three(list: Seq<Instruction>, env: Map<Seq<char>, int>)
    ensures
        run(list, 3, env) == list[2].executed(list[1].executed(list[0].executed(env))),
{
    reveal_with_fuel(run, 4);
}

/// Nine instructions run one by one.
proof fn lemma_run_nine(list: Seq<Instruction>, env: Map<Seq<char>, int>)
    ensures
        run(list, 9, env) == list[8].executed(
            list[7].executed(
                list[6].executed(
                    list[5].executed(
                        list[4].executed(
                            list[3].executed(
                                list[2].executed(list[1].executed(list[0].executed(env))),
                            ),
                        ),
                    ),
                ),
            ),
        ),
{
    reveal_with_fuel(run, 10);
}

/// Whether the sign of the result shows that a signed sum or difference left
/// its type.
spec fn overflows(intrinsic: SaturatingIntrinsic, w: nat, a: int, b: int) -> bool {
    let zero = wrapped(0, w);
    let plain = intrinsic.arithmetic().applied(a, b, w);
    let a_negative = as_signed(a, w) < as_signed(zero, w);
    let b_negative = as_signed(b, w) < as_signed(zero, w);
    let plain_negative = as_signed(plain, w) < as_signed(zero, w);
    (if intrinsic is SignedAdd {
        a_negative == b_negative
    } else {
        a_negative != b_negative
    }) && a_negative != plain_negative
}

/// What the signed instructions leave in the result.
proof fn lemma_signed_steps(
    intrinsic: SaturatingIntrinsic,
    ty: IntType,
    lhs: Seq<char>,
    rhs: Seq<char>,
    result: Seq<char>,
    n: nat,
    env: Map<Seq<char>, int>,
)
    requires
        intrinsic.signed(),
        forall|i: nat| n <= i < n + 8 ==> lhs != #[trigger] temp_name(i),
        forall|i: nat| n <= i < n + 8 ==> rhs != #[trigger] temp_name(i),
    ensures
        ({
            let list = lowering(intrinsic, ty, lhs, rhs, result, n);
            let (w, a, b) = (ty.width, env[lhs], env[rhs]);
            list.len() == 9 && list[8].executed(
                list[7].executed(
                    list[6].executed(
                        list[5].executed(
                            list[4].executed(
                                list[3].executed(
                                    list[2].executed(list[1].executed(list[0].executed(env))),
                                ),
                            ),
                        ),
                    ),
                ),
            )[result] == (if overflows(intrinsic, w, a, b) {
                if as_signed(a, w) < as_signed(wrapped(0, w), w) {
                    wrapped(least_signed(w), w)
                } else {
                    wrapped(greatest_signed(w), w)
                }
            } else {
                intrinsic.arithmetic().applied(a, b, w)
            })
        }),
{
    let list = lowering(intrinsic, ty, lhs, rhs, result, n);
    let (w, a, b) = (ty.width, env[lhs], env[rhs]);
    let zero = wrapped(0, w);
    let plain = intrinsic.arithmetic().applied(a, b, w);
    assert forall|i: nat, j: nat| i < j implies #[trigger] temp_name(i) != #[trigger] temp_name(
        j,
    ) by {
        law_temporaries_differ(i, j);
    }
    let e1 = list[0].executed(env);
    assert(e1[temp_name(n)] == plain && e1[lhs] == a && e1[rhs] == b);
    let e2 = list[1].executed(e1);
    let a_negative = bit(as_signed(a, w) < as_signed(zero, w));
    assert(e2[temp_name(n + 1)] == a_negative && e2[temp_name(n)] == plain && e2[rhs] == b);
    let e3 = list[2].executed(e2);
    let b_negative = bit(as_signed(b, w) < as_signed(zero, w));
    assert(e3[temp_name(n + 2)] == b_negative && e3[temp_name(n + 1)] == a_negative
        && e3[temp_name(n)] == plain);
    let e4 = list[3].executed(e3);
    let plain_negative = bit(as_signed(plain, w) < as_signed(zero, w));
    assert(e4[temp_name(n + 3)] == plain_negative && e4[temp_name(n + 2)] == b_negative
        && e4[temp_name(n + 1)] == a_negative && e4[temp_name(n)] == plain);
    let e5 = list[4].executed(e4);
    let related = bit(
        if intrinsic is SignedAdd {
            a_negative == b_negative
        } else {
            a_negative != b_negative
        },
    );
    assert(e5[temp_name(n + 4)] == related && e5[temp_name(n + 3)] == plain_negative
        && e5[temp_name(n + 1)] == a_negative && e5[temp_name(n)] == plain);
    let e6 = list[5].executed(e5);
    let changed = bit(a_negative != plain_negative);
    assert(e6[temp_name(n + 5)] == changed && e6[temp_name(n + 4)] == related && e6[temp_name(
        n + 1,
    )] == a_negative && e6[temp_name(n)] == plain);
    let e7 = list[6].executed(e6);
    assert(e7[temp_name(n + 6)] == bit(overflows(intrinsic, w, a, b)) && e7[temp_name(n + 1)]
        == a_negative && e7[temp_name(n)] == plain);
    let e8 = list[7].executed(e7);
    assert(e8[temp_name(n + 6)] == bit(overflows(intrinsic, w, a, b)) && e8[temp_name(n)]
        == plain);
}

/// Signed overflow is what the signs say, and it is on the side of the left
/// operand's sign.
proof fn lemma_signed_overflow(intrinsic: SaturatingIntrinsic, w: nat, a: int, b: int)
    requires
        intrinsic.signed(),
        w >= 1,
        0 <= a < pow2(w),
        0 <= b < pow2(w),
    ensures
        saturated(intrinsic, w, a, b) == (if overflows(intrinsic, w, a, b) {
            if as_signed(a, w) < as_signed(wrapped(0, w), w) {
                wrapped(least_signed(w), w)
            } else {
                wrapped(greatest_signed(w), w)
            }
        } else {
            intrinsic.arithmetic().applied(a, b, w)
        }),
{
    lemma_widths(w);
    lemma_wrap_sum(0, w);
    let (x, y) = (as_signed(a, w), as_signed(b, w));
    if intrinsic is SignedAdd {
        lemma_wrap_sum(a + b, w);
        lemma_wrap_sum(clamped(x + y, least_signed(w), greatest_signed(w)), w);
    } else {
        lemma_wrap_sum(a - b, w);
        lemma_wrap_sum(clamped(x - y, least_signed(w), greatest_signed(w)), w);
    }
}

} // verus!
