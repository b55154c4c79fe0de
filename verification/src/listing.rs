//! What holds of operations that are exported in turn.
use vstd::prelude::*;

use crate::constants::names_symbol;
use crate::definitions::{defined_at, defines, is_defined, law_results_are_defined};
use crate::ir::{Operation, Value};
use crate::laws::law_operations_extend;
use crate::llvm_op::LlvmOp;
use crate::naming::{lemma_kept, lemma_plain_texts};
use crate::naming::{law_virtual_results_are_no_temporaries, names_plainly};
use crate::ops::{lemma_results_named, named_results, names_behind, temporaries};
use crate::progress::{extends, lemma_extends_chain, lemma_extends_self};
use crate::saturating::{lowering, Instruction, IntType, Operand, SaturatingIntrinsic};
use crate::state::{temp_name, value_text, Printer};

verus! {

/// An export in progress: the printer, the names of values, and the number of
/// the next temporary.
pub struct Progress {
    /// The printer.
    pub p: Printer,
    /// The names of values.
    pub names: Map<u64, Seq<char>>,
    /// Number of the next temporary.
    pub next: nat,
}

/// The export behind the first `k` of a list of operations, exported in turn.
pub open spec fn exported(
    start: Progress,
    ops: Seq<Operation>,
    labels: Map<u64, Seq<char>>,
    k: nat,
) -> Progress
    decreases k,
{
    if k == 0 {
        start
    } else {
        let e = exported(start, ops, labels, (k - 1) as nat);
        let op = ops[k - 1];
        let (names, n) = named_results(e.names, op.results@, e.next, op.results@.len());
        Progress {
            p: e.p.operation(op, names, labels, n),
            names: names_behind(op, names),
            next: n + temporaries(e.p.dialect, op, names),
        }
    }
}

/// The names by which the operation with index `k` is printed.
pub open spec fn names_at(
    start: Progress,
    ops: Seq<Operation>,
    labels: Map<u64, Seq<char>>,
    k: nat,
) -> Map<u64, Seq<char>> {
    let e = exported(start, ops, labels, k);
    named_results(e.names, ops[k as int].results@, e.next, ops[k as int].results@.len()).0
}

/// Whether no value is a result twice, and undefined values and constants give
/// one.
pub open spec fn single_assignment(ops: Seq<Operation>) -> bool {
    &&& forall|a: int, x: int, b: int, y: int|
        #![trigger ops[a].results@[x], ops[b].results@[y]]
        0 <= a < ops.len() && 0 <= b < ops.len() && 0 <= x < ops[a].results@.len() && 0 <= y
            < ops[b].results@.len() && (a != b || x != y) ==> ops[a].results@[x].id
            != ops[b].results@[y].id
    &&& forall|a: int|
        0 <= a < ops.len() && renames(#[trigger] ops[a]) ==> ops[a].results@.len() >= 1
}

/// Whether an operation names its result by what stands for it.
pub open spec fn renames(op: Operation) -> bool {
    LlvmOp::of_type(op.op_type@) == Some(LlvmOp::Undef) || LlvmOp::of_type(op.op_type@) == Some(
        LlvmOp::Constant,
    )
}

/// Whether the result of a virtual operation is not named by a temporary
/// beforehand: that of an address is named by its symbol, and those of undefined
/// values and constants have no name, or one that is no temporary.
pub open spec fn named_virtually(names: Map<u64, Seq<char>>, op: Operation) -> bool {
    let id = op.results@[0].id;
    &&& names_plainly(op)
    &&& if renames(op) {
        names.contains_key(id) ==> forall|m: nat| names[id] != #[trigger] temp_name(m)
    } else {
        names_symbol(names, id)
    }
}

/// Whether a result is defined by the text of its operation, or stands for
/// itself.
pub open spec fn is_accounted_for(start: Progress, op: Operation, r: int) -> bool {
    LlvmOp::of_type(op.op_type@) matches Some(kind) && if kind.is_virtual() {
        r == 0 && op.results@.len() >= 1 && named_virtually(start.names, op)
    } else {
        is_defined(kind, op, r)
    }
}

/// Exports that go on come behind each other, and had no error before.
proof fn lemma_exported_extends(
    start: Progress,
    ops: Seq<Operation>,
    labels: Map<u64, Seq<char>>,
    a: nat,
    b: nat,
)
    requires
        a <= b,
    ensures
        extends(exported(start, ops, labels, a).p, exported(start, ops, labels, b).p),
        exported(start, ops, labels, b).p.error is None ==> exported(
            start,
            ops,
            labels,
            a,
        ).p.error is None,
    decreases b,
{
    let at = exported(start, ops, labels, a);
    if a == b {
        lemma_extends_self(at.p);
    } else {
        lemma_exported_extends(start, ops, labels, a, (b - 1) as nat);
        let e = exported(start, ops, labels, (b - 1) as nat);
        let op = ops[b - 1];
        let (names, n) = named_results(e.names, op.results@, e.next, op.results@.len());
        law_operations_extend(e.p, op, names, labels, n);
        lemma_extends_chain(at.p, e.p, exported(start, ops, labels, b).p);
    }
    reveal(extends);
}

/// Naming results does nothing to other values.
proof fn lemma_others(
    names: Map<u64, Seq<char>>,
    results: Seq<Value>,
    n: nat,
    k: nat,
    id: u64,
)
    requires
        k <= results.len(),
        forall|x: int| 0 <= x < k ==> (#[trigger] results[x]).id != id,
    ensures
        named_results(names, results, n, k).0.contains_key(id) == names.contains_key(id),
        named_results(names, results, n, k).0[id] == names[id],
    decreases k,
{
    if k > 0 {
        lemma_others(names, results, n, (k - 1) as nat, id);
        assert(results[k - 1].id != id);
    }
}

/// A name stays as long as no undefined value or constant takes it.
proof fn lemma_name_stays(
    start: Progress,
    ops: Seq<Operation>,
    labels: Map<u64, Seq<char>>,
    a: nat,
    b: nat,
    id: u64,
)
    requires
        a <= b <= ops.len(),
        exported(start, ops, labels, a).names.contains_key(id),
        forall|t: int|
            a <= t < b && renames(#[trigger] ops[t]) ==> ops[t].results@[0].id != id,
    ensures
        exported(start, ops, labels, b).names.contains_key(id),
        exported(start, ops, labels, b).names[id] == exported(start, ops, labels, a).names[id],
    decreases b,
{
    if a < b {
        lemma_name_stays(start, ops, labels, a, (b - 1) as nat, id);
        let e = exported(start, ops, labels, (b - 1) as nat);
        let op = ops[b - 1];
        lemma_kept(e.names, op.results@, e.next, op.results@.len(), id);
        assert(renames(ops[b - 1]) ==> ops[b - 1].results@[0].id != id);
    }
}

/// A value that no operation so far has given has the name that it had at the
/// start.
proof fn lemma_name_from_start(
    start: Progress,
    ops: Seq<Operation>,
    labels: Map<u64, Seq<char>>,
    k: nat,
    id: u64,
)
    requires
        k <= ops.len(),
        single_assignment(ops),
        forall|t: int, x: int|
            0 <= t < k && 0 <= x < ops[t].results@.len() ==> (#[trigger] ops[t].results@[x]).id
                != id,
    ensures
        exported(start, ops, labels, k).names.contains_key(id) == start.names.contains_key(id),
        exported(start, ops, labels, k).names[id] == start.names[id],
    decreases k,
{
    if k > 0 {
        lemma_name_from_start(start, ops, labels, (k - 1) as nat, id);
        let e = exported(start, ops, labels, (k - 1) as nat);
        let op = ops[k - 1];
        assert forall|x: int| 0 <= x < op.results@.len() implies (#[trigger] op.results@[x]).id
            != id by {
            assert(ops[k - 1].results@[x].id != id);
        }
        lemma_others(e.names, op.results@, e.next, op.results@.len(), id);
        if renames(ops[k - 1]) {
            assert(ops[k - 1].results@[0].id != id);
        }
    }
}

/// What is defined between two printers is defined between printers around them.
proof fn lemma_defined_around(
    p: Printer,
    q: Printer,
    r: Printer,
    s: Printer,
    name: Seq<char>,
)
    requires
        extends(p, q),
        defines(q, r, name),
        extends(r, s),
    ensures
        defines(p, s, name),
{
    reveal(extends);
    let i = choose|i: int| #[trigger] defined_at(q, r, name, i);
    let text = "  "@ + name + " = "@;
    assert forall|j: int| 0 <= j < text.len() implies s.out[i + j] == text[j] by {
        assert(r.out[i + j] == s.out.subrange(0, r.out.len() as int)[i + j]);
        assert(r.out.subrange(i, i + text.len())[j] == text[j]);
    }
    assert(s.out.subrange(i, i + text.len()) =~= text);
    assert(defined_at(p, s, name, i));
}

/// The name that an operation which is not virtual defines its result by.
proof fn lemma_defined_in_list(
    start: Progress,
    ops: Seq<Operation>,
    labels: Map<u64, Seq<char>>,
    i: int,
    r: int,
)
    requires
        exported(start, ops, labels, ops.len()).p.error is None,
        0 <= i < ops.len(),
        LlvmOp::of_type(ops[i].op_type@) matches Some(kind) && is_defined(kind, ops[i], r),
    ensures
        defines(
            start.p,
            exported(start, ops, labels, ops.len()).p,
            names_at(start, ops, labels, i as nat)[ops[i].results@[r].id],
        ),
{
    let e = exported(start, ops, labels, i as nat);
    let behind = exported(start, ops, labels, (i + 1) as nat);
    let end = exported(start, ops, labels, ops.len());
    let op = ops[i];
    let (names, n) = named_results(e.names, op.results@, e.next, op.results@.len());
    lemma_exported_extends(start, ops, labels, 0, i as nat);
    lemma_exported_extends(start, ops, labels, (i + 1) as nat, ops.len());
    law_results_are_defined(e.p, op, names, labels, n, r);
    lemma_defined_around(start.p, e.p, behind.p, end.p, names[op.results@[r].id]);
}

/// The name of the result of an operation is the same wherever it is printed, if
/// the operation is not virtual.
proof fn lemma_same_name(
    start: Progress,
    ops: Seq<Operation>,
    labels: Map<u64, Seq<char>>,
    i: int,
    r: int,
    j: int,
)
    requires
        single_assignment(ops),
        0 <= i < ops.len(),
        0 <= r < ops[i].results@.len(),
        LlvmOp::of_type(ops[i].op_type@) matches Some(kind) && !kind.is_virtual(),
        0 <= j < ops.len(),
        names_at(start, ops, labels, j as nat).contains_key(ops[i].results@[r].id),
    ensures
        names_at(start, ops, labels, j as nat)[ops[i].results@[r].id] == names_at(
            start,
            ops,
            labels,
            i as nat,
        )[ops[i].results@[r].id],
{
    let id = ops[i].results@[r].id;
    assert forall|t: int| 0 <= t < ops.len() && renames(#[trigger] ops[t]) implies
        ops[t].results@[0].id != id by {
        assert(ops[t].results@[0].id != ops[i].results@[r].id);
    }
    if j != i {
        let (first, last) = if i < j {
            (i, j)
        } else {
            (j, i)
        };
        let e = exported(start, ops, labels, first as nat);
        let f = exported(start, ops, labels, last as nat);
        if i < j {
            lemma_results_named(
                e.names,
                ops[i].results@,
                e.next,
                ops[i].results@.len(),
            );
        }
        lemma_name_stays(start, ops, labels, (first + 1) as nat, last as nat, id);
        lemma_kept(f.names, ops[last].results@, f.next, ops[last].results@.len(), id);
    }
}

/// The result of a virtual operation is nowhere printed as a temporary.
proof fn lemma_virtual_names(
    start: Progress,
    ops: Seq<Operation>,
    labels: Map<u64, Seq<char>>,
    i: int,
    j: int,
    m: nat,
)
    requires
        single_assignment(ops),
        0 <= i < ops.len(),
        ops[i].results@.len() >= 1,
        LlvmOp::of_type(ops[i].op_type@) matches Some(kind) && kind.is_virtual(),
        named_virtually(start.names, ops[i]),
        0 <= j < ops.len(),
        j != i,
        names_at(start, ops, labels, j as nat).contains_key(ops[i].results@[0].id),
    ensures
        names_at(start, ops, labels, j as nat)[ops[i].results@[0].id] != temp_name(m),
{
    let id = ops[i].results@[0].id;
    let f = exported(start, ops, labels, j as nat);
    assert forall|t: int, x: int|
        0 <= t < ops.len() && t != i && 0 <= x < ops[t].results@.len() implies (
    #[trigger] ops[t].results@[x]).id != id by {
        assert(ops[t].results@[x].id != ops[i].results@[0].id);
    }
    assert forall|t: int| 0 <= t < ops.len() && t != i && renames(#[trigger] ops[t]) implies
        ops[t].results@[0].id != id by {
        assert(ops[t].results@[0].id != id);
    }
    assert forall|x: int| 0 <= x < ops[j].results@.len() implies (
    #[trigger] ops[j].results@[x]).id != id by {}
    lemma_others(f.names, ops[j].results@, f.next, ops[j].results@.len(), id);
    if j < i {
        lemma_name_from_start(start, ops, labels, j as nat, id);
        if !renames(ops[i]) {
            lemma_symbol_is_plain(start.names, id, m);
        }
    } else {
        let e = exported(start, ops, labels, i as nat);
        let named = names_at(start, ops, labels, i as nat);
        lemma_name_from_start(start, ops, labels, i as nat, id);
        lemma_results_named(e.names, ops[i].results@, e.next, ops[i].results@.len());
        if !renames(ops[i]) {
            lemma_kept(e.names, ops[i].results@, e.next, ops[i].results@.len(), id);
        }
        law_virtual_results_are_no_temporaries(named, ops[i], m);
        lemma_name_stays(start, ops, labels, (i + 1) as nat, j as nat, id);
    }
}

/// A symbol is not the name of a temporary.
proof fn lemma_symbol_is_plain(names: Map<u64, Seq<char>>, id: u64, m: nat)
    requires
        names_symbol(names, id),
    ensures
        names[id] != temp_name(m),
{
    lemma_plain_texts(m);
    reveal_strlit("@");
    assert(names[id].take(1)[0] == '@');
}

/// No temporary is used without a definition: where operations are exported in
/// turn without an error, and one of them that prints anything, with index `j`,
/// refers to a result of one of them, with index `i`, by the name of a
/// temporary, then that temporary is defined in the output. The use may come
/// before the definition.
pub proof fn law_no_temporary_is_dangling(
    start: Progress,
    ops: Seq<Operation>,
    labels: Map<u64, Seq<char>>,
    i: int,
    r: int,
    j: int,
    used: Value,
    m: nat,
)
    requires
        single_assignment(ops),
        exported(start, ops, labels, ops.len()).p.error is None,
        0 <= i < ops.len(),
        0 <= r < ops[i].results@.len(),
        is_accounted_for(start, ops[i], r),
        0 <= j < ops.len(),
        LlvmOp::of_type(ops[j].op_type@) matches Some(kind) ==> !kind.is_virtual(),
        used.id == ops[i].results@[r].id,
        value_text(names_at(start, ops, labels, j as nat), used) == temp_name(m),
    ensures
        defines(start.p, exported(start, ops, labels, ops.len()).p, temp_name(m)),
{
    lemma_plain_texts(m);
    assert(names_at(start, ops, labels, j as nat).contains_key(used.id));
    let kind = LlvmOp::of_type(ops[i].op_type@).unwrap();
    if kind.is_virtual() {
        lemma_virtual_names(start, ops, labels, i, j, m);
    } else {
        lemma_same_name(start, ops, labels, i, r, j);
        lemma_defined_in_list(start, ops, labels, i, r);
    }
}

/// The text that an instruction defines.
pub open spec fn destination(i: Instruction) -> Seq<char> {
    match i {
        Instruction::Binary { dest, op: _, ty: _, lhs: _, rhs: _ } => dest,
        Instruction::Select { dest, cond: _, ty: _, on_true: _, on_false: _ } => dest,
    }
}

/// Whether an instruction refers to `name`.
pub open spec fn refers_to(i: Instruction, name: Seq<char>) -> bool {
    match i {
        Instruction::Binary { dest: _, op: _, ty: _, lhs, rhs } => lhs == Operand::Name(name)
            || rhs == Operand::Name(name),
        Instruction::Select { dest: _, cond, ty: _, on_true, on_false } => cond == Operand::Name(
            name,
        ) || on_true == Operand::Name(name) || on_false == Operand::Name(name),
    }
}

/// The instructions that a saturating intrinsic is lowered to refer to nothing
/// but its operands and what earlier ones of them have defined.
pub proof fn law_lowering_defines_before_use(
    intrinsic: SaturatingIntrinsic,
    ty: IntType,
    lhs: Seq<char>,
    rhs: Seq<char>,
    result: Seq<char>,
    n: nat,
    k: int,
    name: Seq<char>,
)
    requires
        0 <= k < lowering(intrinsic, ty, lhs, rhs, result, n).len(),
        refers_to(lowering(intrinsic, ty, lhs, rhs, result, n)[k], name),
        name != lhs,
        name != rhs,
    ensures
        exists|j: int|
            0 <= j < k && #[trigger] destination(
                lowering(intrinsic, ty, lhs, rhs, result, n)[j],
            ) == name,
{
    let list = lowering(intrinsic, ty, lhs, rhs, result, n);
    assert(destination(list[0]) == temp_name(n));
    assert(destination(list[1]) == temp_name(n + 1));
    if intrinsic.signed() {
        assert(destination(list[2]) == temp_name(n + 2));
        assert(destination(list[3]) == temp_name(n + 3));
        assert(destination(list[4]) == temp_name(n + 4));
        assert(destination(list[5]) == temp_name(n + 5));
        assert(destination(list[6]) == temp_name(n + 6));
        assert(destination(list[7]) == temp_name(n + 7));
    }
}

} // verus!
