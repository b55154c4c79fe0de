//! Every result is defined by the text of its operation.
use vstd::prelude::*;

use crate::calls::{lowered_intrinsic, struct_type};
use crate::ir::{Operation, Value};
use crate::llvm_op::LlvmOp;
use crate::progress::{extends, group_progress, lemma_extends_self};
use crate::saturating::Instruction;
use crate::state::Printer;

verus! {

/// Whether what was printed between `p` and `q` defines `name`.
pub open spec fn defines(p: Printer, q: Printer, name: Seq<char>) -> bool {
    exists|i: int| #[trigger] defined_at(p, q, name, i)
}

/// Whether `name` is defined at position `i` of what was printed between `p`
/// and `q`: it stands there behind the indentation of a line and in front of an
/// equals sign.
pub open spec fn defined_at(p: Printer, q: Printer, name: Seq<char>, i: int) -> bool {
    let text = "  "@ + name + " = "@;
    p.out.len() <= i && i + text.len() <= q.out.len() && q.out.subrange(i, i + text.len()) == text
}

/// Whether the text of an operation defines its result with number `i`: all of
/// those of an assembly with several results, and the first one of every other
/// operation that gives one.
pub open spec fn is_defined(kind: LlvmOp, op: Operation, i: int) -> bool {
    &&& 0 <= i < op.results@.len()
    &&& match kind {
        LlvmOp::InlineAsmMulti => true,
        LlvmOp::Return | LlvmOp::Unreachable | LlvmOp::Br | LlvmOp::CondBr => false,
        LlvmOp::Store | LlvmOp::AtomicStore | LlvmOp::Fence => false,
        LlvmOp::Call => i == 0 && !(op.attrs->Call_result_type.kind is Void),
        _ => i == 0 && !kind.is_virtual(),
    }
}

/// Whether `name` is defined between `p` and `q`, unless `q` was stopped.
#[verifier::opaque]
pub open spec fn gives(p: Printer, q: Printer, name: Seq<char>) -> bool {
    q.error is None ==> defines(p, q, name)
}

/// A text that begins with a definition defines its name.
proof fn lemma_text_gives(
    p: Printer,
    at: Printer,
    name: Seq<char>,
    rest: Seq<char>,
    q: Printer,
)
    requires
        extends(p, at),
        extends(at.text("  "@ + name + " = "@ + rest), q),
    ensures
        gives(p, q, name),
{
    reveal(extends);
    reveal(gives);
    if q.error is None {
        let text = "  "@ + name + " = "@;
        let begun = at.text(text + rest);
        let i = at.out.len() as int;
        assert(begun.out =~= at.out + text + rest);
        assert forall|j: int| 0 <= j < text.len() implies q.out[i + j] == text[j] by {
            assert(begun.out[i + j] == q.out.subrange(0, begun.out.len() as int)[i + j]);
        }
        assert(q.out.subrange(i, i + text.len()) =~= text);
        assert(defined_at(p, q, name, i));
    }
}

/// A definition that was begun on the way from `p` to `q` defines its result.
broadcast proof fn lemma_definition_gives(
    p: Printer,
    at: Printer,
    names: Map<u64, Seq<char>>,
    result: Value,
    head: Seq<char>,
    q: Printer,
)
    requires
        #[trigger] extends(p, at),
        #[trigger] extends(at.definition(names, result, head), q),
    ensures
        gives(p, q, names[result.id]),
{
    let name = names[result.id];
    let rest = head + " "@;
    assert(at.definition(names, result, head) == at.text("  "@ + name + " = "@ + rest)) by {
        assert(at.out + "  "@ + name + " = "@ + head + " "@ =~= at.out + ("  "@ + name + " = "@
            + rest));
    }
    lemma_text_gives(p, at, name, rest, q);
}

/// What is behind the beginning of a definition comes behind it.
broadcast proof fn lemma_definition_begun(
    at: Printer,
    names: Map<u64, Seq<char>>,
    result: Value,
    head: Seq<char>,
)
    ensures
        extends(
            #[trigger] at.definition(names, result, head),
            at.definition(names, result, head),
        ),
{
    lemma_extends_self(at.definition(names, result, head));
}

/// Arithmetic, comparisons, casts and aggregates define their results.
proof fn lemma_scalars_define(
    p: Printer,
    kind: LlvmOp,
    op: Operation,
    names: Map<u64, Seq<char>>,
    labels: Map<u64, Seq<char>>,
    n: nat,
)
    requires
        LlvmOp::of_type(op.op_type@) == Some(kind),
        is_defined(kind, op, 0),
        !kind.is_memory() && !kind.is_atomic() && !kind.is_call(),
    ensures
        gives(p, p.operation(op, names, labels, n), names[op.results@[0].id]),
{
    broadcast use {group_progress, lemma_definition_gives, lemma_definition_begun};

    reveal(Printer::operation);
    lemma_extends_self(p);
    if kind is InsertValue && op.operands@[1].ty.spelled() is Err {
        reveal(gives);
    }
}

/// Memory operations define their results.
proof fn lemma_memory_defines(
    p: Printer,
    kind: LlvmOp,
    op: Operation,
    names: Map<u64, Seq<char>>,
    labels: Map<u64, Seq<char>>,
    n: nat,
)
    requires
        LlvmOp::of_type(op.op_type@) == Some(kind),
        is_defined(kind, op, 0),
        kind.is_memory(),
    ensures
        gives(p, p.operation(op, names, labels, n), names[op.results@[0].id]),
{
    broadcast use {group_progress, lemma_definition_gives, lemma_definition_begun};

    reveal(Printer::operation);
    lemma_extends_self(p);
}

/// Atomic operations define their results.
proof fn lemma_atomics_define(
    p: Printer,
    kind: LlvmOp,
    op: Operation,
    names: Map<u64, Seq<char>>,
    labels: Map<u64, Seq<char>>,
    n: nat,
)
    requires
        LlvmOp::of_type(op.op_type@) == Some(kind),
        is_defined(kind, op, 0),
        kind.is_atomic(),
    ensures
        gives(p, p.operation(op, names, labels, n), names[op.results@[0].id]),
{
    broadcast use {group_progress, lemma_definition_gives, lemma_definition_begun};

    reveal(Printer::operation);
    lemma_extends_self(p);
}

/// The last of some instructions defines its destination.
proof fn lemma_instructions_define(p: Printer, list: Seq<Instruction>, k: nat)
    requires
        k > 0,
    ensures
        gives(
            p,
            p.instructions(list, k),
            match list[k - 1] {
                Instruction::Binary { dest, op: _, ty: _, lhs: _, rhs: _ } => dest,
                Instruction::Select { dest, cond: _, ty: _, on_true: _, on_false: _ } => dest,
            },
        ),
{
    broadcast use group_progress;

    let at = p.instructions(list, (k - 1) as nat);
    let q = p.instructions(list, k);
    lemma_extends_self(p);
    lemma_extends_self(q);
    match list[k - 1] {
        Instruction::Binary { dest, op, ty, lhs, rhs } => {
            reveal(crate::saturating::binary_line);
            let rest = op.keyword() + " "@ + ty.text + " "@ + lhs.text() + ", "@ + rhs.text()
                + "\n"@;
            assert(list[k - 1].line() =~= "  "@ + dest + " = "@ + rest);
            lemma_text_gives(p, at, dest, rest, q);
        },
        Instruction::Select { dest, cond, ty, on_true, on_false } => {
            reveal(crate::saturating::select_line);
            reveal_strlit(" = select i1 ");
            reveal_strlit(" = ");
            reveal_strlit("select i1 ");
            assert(" = select i1 "@ =~= " = "@ + "select i1 "@);
            let rest = "select i1 "@ + cond.text() + ", "@ + ty.text + " "@ + on_true.text()
                + ", "@ + ty.text + " "@ + on_false.text() + "\n"@;
            assert(list[k - 1].line() =~= "  "@ + dest + " = "@ + rest);
            lemma_text_gives(p, at, dest, rest, q);
        },
    }
}

/// A lowered intrinsic defines its result.
proof fn lemma_saturating_defines(
    p: Printer,
    op: Operation,
    intrinsic: crate::saturating::SaturatingIntrinsic,
    names: Map<u64, Seq<char>>,
    n: nat,
)
    ensures
        gives(p, p.saturating(op, intrinsic, names, n), names[op.results@[0].id]),
{
    reveal(gives);
    if let (crate::ir::TypeKind::Integer { width }, Ok(text)) = (
        op.results@[0].ty.kind,
        op.results@[0].ty.spelled(),
    ) {
        let list = crate::saturating::lowering(
            intrinsic,
            crate::saturating::IntType { text, width: width as nat },
            crate::state::value_text(names, op.operands@[0]),
            crate::state::value_text(names, op.operands@[1]),
            names[op.results@[0].id],
            n,
        );
        lemma_instructions_define(p, list, list.len());
    }
}

/// Calls define their results.
proof fn lemma_calls_define(p: Printer, op: Operation, names: Map<u64, Seq<char>>, n: nat)
    ensures
        !(op.attrs->Call_result_type.kind is Void) ==> gives(
            p,
            p.call(op, names, n),
            names[op.results@[0].id],
        ),
        op.results@.len() > 0 ==> gives(p, p.inline_asm(op, names), names[op.results@[0].id]),
{
    broadcast use {group_progress, lemma_definition_gives, lemma_definition_begun};

    lemma_extends_self(p);
    if let Some(intrinsic) = lowered_intrinsic(p.dialect, op.attrs) {
        lemma_saturating_defines(p, op, intrinsic, names, n);
    }
}

/// Extractions define the results that they extract.
proof fn lemma_extractions_define(
    root: Printer,
    p: Printer,
    results: Seq<Value>,
    names: Map<u64, Seq<char>>,
    ty: Seq<char>,
    source: Seq<char>,
    i: nat,
    k: nat,
)
    requires
        i < k,
        extends(root, p),
    ensures
        gives(root, p.extractions(results, names, ty, source, k), names[results[i as int].id]),
    decreases k,
{
    broadcast use {group_progress, lemma_definition_gives, lemma_definition_begun};

    if i + 1 < k {
        lemma_extractions_define(root, p, results, names, ty, source, i, (k - 1) as nat);
        let before = p.extractions(results, names, ty, source, (k - 1) as nat);
        lemma_extends_self(before);
        lemma_gives_kept(
            root,
            before,
            p.extractions(results, names, ty, source, k),
            names[results[i as int].id],
        );
    }
}

/// What is defined stays defined.
proof fn lemma_gives_kept(p: Printer, q: Printer, r: Printer, name: Seq<char>)
    requires
        gives(p, q, name),
        extends(q, r),
    ensures
        gives(p, r, name),
{
    reveal(extends);
    reveal(gives);
    if r.error is None {
        let i = choose|i: int| #[trigger] defined_at(p, q, name, i);
        let text = "  "@ + name + " = "@;
        assert forall|j: int| 0 <= j < text.len() implies r.out[i + j] == text[j] by {
            assert(q.out[i + j] == r.out.subrange(0, q.out.len() as int)[i + j]);
            assert(q.out.subrange(i, i + text.len())[j] == text[j]);
        }
        assert(r.out.subrange(i, i + text.len()) =~= text);
        assert(defined_at(p, r, name, i));
    }
}

/// An assembly with several results defines all of them.
proof fn lemma_assembly_defines(p: Printer, op: Operation, names: Map<u64, Seq<char>>, i: nat)
    requires
        i < op.results@.len(),
    ensures
        gives(p, p.inline_asm_multi(op, names), names[op.results@[i as int].id]),
{
    broadcast use group_progress;

    lemma_extends_self(p);
    match struct_type(op.results@) {
        Err(_) => {
            reveal(gives);
        },
        Ok(ty) => {
            let source = names[op.results@[0].id] + "_struct"@;
            lemma_extractions_define(
                p,
                p.text("  "@).text(source).text(" = call "@).text(ty).assembly(op, names),
                op.results@,
                names,
                ty,
                source,
                i,
                op.results@.len(),
            );
        },
    }
}

/// Calls and assembly define their results.
proof fn lemma_calls_give(
    p: Printer,
    kind: LlvmOp,
    op: Operation,
    names: Map<u64, Seq<char>>,
    labels: Map<u64, Seq<char>>,
    n: nat,
    i: int,
)
    requires
        LlvmOp::of_type(op.op_type@) == Some(kind),
        is_defined(kind, op, i),
        kind.is_call(),
    ensures
        gives(p, p.operation(op, names, labels, n), names[op.results@[i].id]),
{
    reveal(Printer::operation);
    if kind is InlineAsmMulti {
        lemma_assembly_defines(p, op, names, i as nat);
    } else {
        lemma_calls_define(p, op, names, n);
    }
}

/// An operation that is exported without an error defines its results under
/// their names: what was printed holds the name, indented, in front of an
/// equals sign.
pub proof fn law_results_are_defined(
    p: Printer,
    op: Operation,
    names: Map<u64, Seq<char>>,
    labels: Map<u64, Seq<char>>,
    n: nat,
    i: int,
)
    requires
        LlvmOp::of_type(op.op_type@) matches Some(kind) && is_defined(kind, op, i),
        p.operation(op, names, labels, n).error is None,
    ensures
        defines(p, p.operation(op, names, labels, n), names[op.results@[i].id]),
{
    let kind = LlvmOp::of_type(op.op_type@).unwrap();
    if kind.is_memory() {
        lemma_memory_defines(p, kind, op, names, labels, n);
    } else if kind.is_atomic() {
        lemma_atomics_define(p, kind, op, names, labels, n);
    } else if kind.is_call() {
        lemma_calls_give(p, kind, op, names, labels, n, i);
    } else {
        lemma_scalars_define(p, kind, op, names, labels, n);
    }
    reveal(gives);
}

} // verus!
