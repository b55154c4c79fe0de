//! What holds of the names of values.
use vstd::arithmetic::power2::{lemma_pow2_pos, pow2};
use vstd::prelude::*;

use crate::calls::lowered_intrinsic;
use crate::config::NvvmIrDialect;
use crate::constants::{constant_text, little_endian, names_symbol};
use crate::evaluation::{law_lowering_saturates, law_temporaries_differ, run, saturated};
use crate::ir::{ConstantAttr, Operation, TypeKind, Value};
use crate::llvm_op::LlvmOp;
use crate::ops::{named_results, names_behind, registered, temporaries};
use crate::saturating::{lowering, IntType, SaturatingIntrinsic};
use crate::state::{cast_name, temp_name, value_text, Printer};
use crate::text::{decimal, is_digit, lemma_decimal_injective, lemma_decimal_number};

verus! {

/// Whether no name is that of a temporary with number `n` or more.
pub open spec fn fresh_from(names: Map<u64, Seq<char>>, n: nat) -> bool {
    forall|id: u64, i: nat|
        #![trigger names[id], temp_name(i)]
        names.contains_key(id) && n <= i ==> names[id] != temp_name(i)
}

/// Whether no two values share a temporary.
pub open spec fn unshared(names: Map<u64, Seq<char>>) -> bool {
    forall|a: u64, b: u64, i: nat|
        #![trigger names[a], names[b], temp_name(i)]
        names.contains_key(a) && names.contains_key(b) && names[a] == temp_name(i) && names[b]
            == temp_name(i) ==> a == b
}

/// Whether the literal of a constant is not the name of a temporary. Integer
/// literals never are.
pub open spec fn plain_literal(value: ConstantAttr) -> bool {
    match value {
        ConstantAttr::Half { literal } => forall|i: nat| literal@ != #[trigger] temp_name(i),
        ConstantAttr::Single { literal } => forall|i: nat| literal@ != #[trigger] temp_name(i),
        ConstantAttr::Double { literal } => forall|i: nat| literal@ != #[trigger] temp_name(i),
        _ => true,
    }
}

/// Whether an operation is no constant with a literal that could be taken for a
/// temporary.
pub open spec fn names_plainly(op: Operation) -> bool {
    LlvmOp::of_type(op.op_type@) == Some(LlvmOp::Constant) ==> plain_literal(op.attrs->Constant_0)
}

/// Pointer casts with different numbers have different names.
pub proof fn law_casts_differ(m: nat, n: nat)
    requires
        m != n,
    ensures
        cast_name(m) != cast_name(n),
{
    reveal_strlit("%ptrcast");
    assert(cast_name(m).skip(8) =~= decimal(m));
    assert(cast_name(n).skip(8) =~= decimal(n));
    if cast_name(m) == cast_name(n) {
        lemma_decimal_injective(m, n);
    }
}

/// No pointer cast has the name of a temporary.
pub proof fn law_casts_are_no_temporaries(m: nat, n: nat)
    ensures
        cast_name(m) != temp_name(n),
{
    reveal_strlit("%ptrcast");
    reveal_strlit("%v");
    assert(cast_name(m)[1] == 'p');
    assert(temp_name(n)[1] == 'v');
}

/// The name of a temporary begins with `%`, which no digit and no keyword is.
pub(crate) proof fn lemma_plain_texts(i: nat)
    ensures
        temp_name(i).len() > 2,
        temp_name(i)[0] == '%',
        "undef"@ != temp_name(i),
        "0"@ != temp_name(i),
{
    reveal_strlit("%v");
    reveal_strlit("undef");
    reveal_strlit("0");
    lemma_decimal_number(i);
    assert("undef"@[0] == 'u');
    assert("0"@[0] == '0');
}

/// The literal of a constant is not the name of a temporary.
proof fn lemma_constant_is_plain(value: ConstantAttr, i: nat)
    requires
        plain_literal(value),
    ensures
        constant_text(value) != temp_name(i),
{
    lemma_plain_texts(i);
    if let ConstantAttr::Integer { bytes, width } = value {
        let text = constant_text(value);
        lemma_decimal_number(
            little_endian(bytes@) % pow2(width as nat),
        );
        assert(is_digit(text[0]));
    }
}

/// Naming results keeps names fresh and unshared, keeps the names that there
/// were, and names nothing else.
proof fn lemma_named_results(
    names: Map<u64, Seq<char>>,
    results: Seq<Value>,
    n: nat,
    k: nat,
)
    requires
        k <= results.len(),
        fresh_from(names, n),
        unshared(names),
    ensures
        ({
            let (after, next) = named_results(names, results, n, k);
            &&& n <= next <= n + k
            &&& fresh_from(after, next)
            &&& unshared(after)
            &&& names.submap_of(after)
            &&& forall|id: u64| #[trigger]
                after.contains_key(id) && !names.contains_key(id) ==> exists|i: int|
                    0 <= i < k && (#[trigger] results[i]).id == id
        }),
    decreases k,
{
    if k > 0 {
        lemma_named_results(names, results, n, (k - 1) as nat);
        let (before, next) = named_results(names, results, n, (k - 1) as nat);
        let id = results[k - 1].id;
        if !before.contains_key(id) {
            let after = before.insert(id, temp_name(next));
            assert forall|x: u64, i: nat|
                #![trigger after[x], temp_name(i)]
                after.contains_key(x) && next + 1 <= i implies after[x] != temp_name(i) by {
                if x == id {
                    law_temporaries_differ(next, i);
                } else {
                    assert(before[x] == after[x]);
                }
            }
            assert forall|a: u64, b: u64, i: nat|
                #![trigger after[a], after[b], temp_name(i)]
                after.contains_key(a) && after.contains_key(b) && after[a] == temp_name(i)
                    && after[b] == temp_name(i) implies a == b by {
                if a == id && b != id {
                    assert(before[b] != temp_name(next));
                } else if b == id && a != id {
                    assert(before[a] != temp_name(next));
                } else if a != id {
                    assert(before[a] == after[a] && before[b] == after[b]);
                }
            }
            assert(results[k - 1].id == id);
        }
    }
}

/// Exporting operations never reuses the name of a temporary: names stay fresh
/// from the number that is next, and no two values come to share one.
pub proof fn law_temporaries_stay_fresh(
    names: Map<u64, Seq<char>>,
    op: Operation,
    n: usize,
    dialect: Option<NvvmIrDialect>,
)
    requires
        fresh_from(names, n as nat),
        unshared(names),
        names_plainly(op),
    ensures
        ({
            let (named, next) = registered(names, op, n);
            &&& fresh_from(
                names_behind(op, named),
                next + temporaries(dialect, op, named),
            )
            &&& unshared(names_behind(op, named))
        }),
{
    lemma_named_results(names, op.results@, n as nat, op.results@.len());
    let (named, next) = registered(names, op, n);
    let behind = names_behind(op, named);
    let id = op.results@[0].id;
    assert forall|i: nat| behind[id] == named[id] || behind[id] != #[trigger] temp_name(i) by {
        lemma_plain_texts(i);
        if LlvmOp::of_type(op.op_type@) == Some(LlvmOp::Constant) {
            lemma_constant_is_plain(op.attrs->Constant_0, i);
        }
    }
    assert forall|x: u64, i: nat|
        #![trigger behind[x], temp_name(i)]
        behind.contains_key(x) && next <= i implies behind[x] != temp_name(i) by {
        if behind[x] == named[x] && named.contains_key(x) {
        } else {
            lemma_plain_texts(i);
            if LlvmOp::of_type(op.op_type@) == Some(LlvmOp::Constant) {
                lemma_constant_is_plain(op.attrs->Constant_0, i);
            }
        }
    }
    assert forall|a: u64, b: u64, i: nat|
        #![trigger behind[a], behind[b], temp_name(i)]
        behind.contains_key(a) && behind.contains_key(b) && behind[a] == temp_name(i)
            && behind[b] == temp_name(i) implies a == b by {
        lemma_plain_texts(i);
        if LlvmOp::of_type(op.op_type@) == Some(LlvmOp::Constant) {
            lemma_constant_is_plain(op.attrs->Constant_0, i);
        }
        assert(named.contains_key(a) && named[a] == behind[a]);
        assert(named.contains_key(b) && named[b] == behind[b]);
    }
}

/// Exporting an operation keeps the name of every other value, and that of a
/// result which had one already, unless the operation is an undefined value or
/// a constant.
pub proof fn law_names_are_kept(names: Map<u64, Seq<char>>, op: Operation, n: usize, id: u64)
    requires
        names.contains_key(id),
        match LlvmOp::of_type(op.op_type@) {
            Some(LlvmOp::Undef) => op.results@[0].id != id,
            Some(LlvmOp::Constant) => op.results@[0].id != id,
            _ => true,
        },
    ensures
        ({
            let behind = names_behind(op, registered(names, op, n).0);
            behind.contains_key(id) && behind[id] == names[id]
        }),
{
    lemma_kept(names, op.results@, n as nat, op.results@.len(), id);
}

/// Naming results keeps the names that there were.
pub(crate) proof fn lemma_kept(
    names: Map<u64, Seq<char>>,
    results: Seq<Value>,
    n: nat,
    k: nat,
    id: u64,
)
    requires
        names.contains_key(id),
    ensures
        named_results(names, results, n, k).0.contains_key(id),
        named_results(names, results, n, k).0[id] == names[id],
    decreases k,
{
    if k > 0 {
        lemma_kept(names, results, n, (k - 1) as nat, id);
    }
}

/// No use of a virtual operation's result is a use of a temporary: undefined
/// values and constants stand for themselves, and addresses of globals have the
/// symbols that they were named by.
pub proof fn law_virtual_results_are_no_temporaries(
    names: Map<u64, Seq<char>>,
    op: Operation,
    i: nat,
)
    requires
        LlvmOp::of_type(op.op_type@) matches Some(kind) && kind.is_virtual(),
        LlvmOp::of_type(op.op_type@) == Some(LlvmOp::AddressOf)
            ==> names_symbol(names, op.results@[0].id),
        names_plainly(op),
    ensures
        names_behind(op, names)[op.results@[0].id] != temp_name(i),
{
    lemma_plain_texts(i);
    if LlvmOp::of_type(op.op_type@) == Some(LlvmOp::Constant) {
        lemma_constant_is_plain(op.attrs->Constant_0, i);
    }
    if LlvmOp::of_type(op.op_type@) == Some(LlvmOp::AddressOf) {
        reveal_strlit("@");
        let name = names[op.results@[0].id];
        assert(name.take(1)[0] == '@');
    }
}

/// With typed pointers, what is printed for a call of a saturating intrinsic
/// is a list of plain instructions, and these leave in the result what the
/// intrinsic returns, whatever the values of its operands. This holds of every
/// width for which the export succeeds, as long as no name is that of a
/// temporary which is still to come.
pub proof fn law_saturating_calls_saturate(
    p: Printer,
    op: Operation,
    intrinsic: SaturatingIntrinsic,
    names: Map<u64, Seq<char>>,
    n: nat,
    env: Map<Seq<char>, int>,
)
    requires
        fresh_from(names, n),
        lowered_intrinsic(p.dialect, op.attrs) == Some(intrinsic),
        p.error is None,
        p.call(op, names, n).error is None,
        op.results@[0].ty.kind matches TypeKind::Integer { width } && width >= 1 && {
            let lhs = env[value_text(names, op.operands@[0])];
            let rhs = env[value_text(names, op.operands@[1])];
            let limit = pow2(width as nat);
            0 <= lhs < limit && 0 <= rhs < limit
        },
    ensures
        ({
            let width = op.results@[0].ty.kind->width as nat;
            let lhs = value_text(names, op.operands@[0]);
            let rhs = value_text(names, op.operands@[1]);
            let result = names[op.results@[0].id];
            let list = lowering(
                intrinsic,
                IntType { text: op.results@[0].ty.spelled()->Ok_0, width },
                lhs,
                rhs,
                result,
                n,
            );
            &&& p.call(op, names, n) == p.instructions(list, list.len())
            &&& run(list, list.len(), env)[result] == saturated(
                intrinsic,
                width,
                env[lhs],
                env[rhs],
            )
        }),
{
    let width = op.results@[0].ty.kind->width as nat;
    let lhs = value_text(names, op.operands@[0]);
    let rhs = value_text(names, op.operands@[1]);
    assert forall|i: nat| n <= i implies lhs != #[trigger] temp_name(i) && rhs != temp_name(
        i,
    ) by {
        lemma_plain_texts(i);
        if names.contains_key(op.operands@[0].id) {
            assert(names[op.operands@[0].id] != temp_name(i));
        }
        if names.contains_key(op.operands@[1].id) {
            assert(names[op.operands@[1].id] != temp_name(i));
        }
    }
    law_lowering_saturates(
        intrinsic,
        IntType { text: op.results@[0].ty.spelled()->Ok_0, width },
        lhs,
        rhs,
        names[op.results@[0].id],
        n,
        env,
    );
}

/// The literal of an integer constant reads back as its value, which is below
/// two to the power of its width.
pub proof fn law_integer_literals_read_back(bytes: Vec<u8>, width: u32)
    ensures
        ({
            let text = constant_text(ConstantAttr::Integer { bytes, width });
            let value = little_endian(bytes@)
                % pow2(width as nat);
            &&& crate::text::all_digits(text)
            &&& crate::text::number(text) == value
            &&& value < pow2(width as nat)
        }),
{
    lemma_pow2_pos(width as nat);
    lemma_decimal_number(
        little_endian(bytes@) % pow2(width as nat),
    );
}

} // verus!
