//! What holds of the text of every operation.
use vstd::prelude::*;

use crate::ir::{Operation, Value};
use crate::llvm_op::LlvmOp;
use crate::progress::{extends, group_progress, lemma_extends_self};
use crate::saturating::Instruction;
use crate::state::Printer;

verus! {

/// Whether something was printed between `p` and `q` and its last line is
/// complete, unless `q` was stopped.
#[verifier::opaque]
pub open spec fn prints_lines(p: Printer, q: Printer) -> bool {
    q.error is None ==> p.out.len() < q.out.len() && q.out.last() == '\n'
}

/// A text that ends in a line break ends a line.
broadcast proof fn lemma_ends_line(root: Printer, p: Printer, s: Seq<char>)
    requires
        #[trigger] extends(root, p),
        s.len() > 0,
        s.last() == '\n',
    ensures
        prints_lines(root, #[trigger] p.text(s)),
{
    reveal(extends);
    reveal(prints_lines);
    let out = p.out + s;
    assert(out.last() == s.last());
}

/// A printer that was stopped owes no line.
broadcast proof fn lemma_stopped_ends_line(root: Printer, p: Printer, message: Seq<char>)
    ensures
        #[trigger] prints_lines(root, p.fail(message)),
{
    reveal(prints_lines);
}

/// The end of a call ends a line.
broadcast proof fn lemma_call_ends_line(root: Printer, p: Printer, convergent: bool)
    requires
        #[trigger] extends(root, p),
    ensures
        prints_lines(root, #[trigger] p.end_call(convergent)),
{
    reveal_strlit(") #0\n");
    reveal_strlit(")\n");
    lemma_ends_line(root, p, ") #0\n"@);
    lemma_ends_line(root, p, ")\n"@);
    reveal(prints_lines);
}

/// Recording a pointer type prints nothing.
broadcast proof fn lemma_record_ends_line(
    root: Printer,
    p: Printer,
    id: u64,
    r: Result<Seq<char>, Seq<char>>,
)
    requires
        #[trigger] prints_lines(root, p),
    ensures
        prints_lines(root, #[trigger] p.record_pointer(id, r)),
{
    reveal(prints_lines);
}

/// The line of an instruction ends a line.
proof fn lemma_instruction_ends_line(i: Instruction)
    ensures
        i.line().len() > 0,
        i.line().last() == '\n',
{
    reveal(crate::saturating::binary_line);
    reveal(crate::saturating::select_line);
    reveal_strlit("\n");
}

/// Instructions end a line.
broadcast proof fn lemma_instructions_end_line(
    root: Printer,
    p: Printer,
    list: Seq<Instruction>,
    k: nat,
)
    requires
        #[trigger] extends(root, p),
        k > 0,
    ensures
        prints_lines(root, #[trigger] p.instructions(list, k)),
{
    broadcast use group_progress;

    lemma_instruction_ends_line(list[k - 1]);
    lemma_ends_line(root, p.instructions(list, (k - 1) as nat), list[k - 1].line());
}

/// Extractions end a line.
broadcast proof fn lemma_extractions_end_line(
    root: Printer,
    p: Printer,
    results: Seq<Value>,
    names: Map<u64, Seq<char>>,
    struct_type: Seq<char>,
    source: Seq<char>,
    k: nat,
)
    requires
        #[trigger] extends(root, p),
        k > 0,
    ensures
        prints_lines(root, #[trigger] p.extractions(results, names, struct_type, source, k)),
{
    broadcast use {group_progress, lemma_ends_line};

    reveal_strlit("\n");
    let before = p.extractions(results, names, struct_type, source, (k - 1) as nat);
    assert(extends(root, before));
    let last = before.definition(names, results[k - 1], "extractvalue"@).text(struct_type).text(
        " "@,
    ).text(source).text(", "@).text(crate::text::decimal((k - 1) as nat));
    assert(extends(root, last));
    lemma_ends_line(root, last, "\n"@);
}

/// Terminators move on.
proof fn lemma_terminators_extend(
    p: Printer,
    kind: LlvmOp,
    op: Operation,
    names: Map<u64, Seq<char>>,
    labels: Map<u64, Seq<char>>,
    n: nat,
)
    requires
        LlvmOp::of_type(op.op_type@) == Some(kind),
        kind.is_terminator(),
    ensures
        extends(p, p.operation(op, names, labels, n)),
{
    broadcast use group_progress;

    reveal(Printer::operation);
    lemma_extends_self(p);
}

/// Memory operations move on.
proof fn lemma_memory_extends(
    p: Printer,
    kind: LlvmOp,
    op: Operation,
    names: Map<u64, Seq<char>>,
    labels: Map<u64, Seq<char>>,
    n: nat,
)
    requires
        LlvmOp::of_type(op.op_type@) == Some(kind),
        kind.is_memory(),
    ensures
        extends(p, p.operation(op, names, labels, n)),
{
    broadcast use group_progress;

    reveal(Printer::operation);
    lemma_extends_self(p);
}

/// Atomic operations move on.
proof fn lemma_atomics_extend(
    p: Printer,
    kind: LlvmOp,
    op: Operation,
    names: Map<u64, Seq<char>>,
    labels: Map<u64, Seq<char>>,
    n: nat,
)
    requires
        LlvmOp::of_type(op.op_type@) == Some(kind),
        kind.is_atomic(),
    ensures
        extends(p, p.operation(op, names, labels, n)),
{
    broadcast use group_progress;

    reveal(Printer::operation);
    lemma_extends_self(p);
}

/// Calls and inline assembly move on.
proof fn lemma_calls_extend(
    p: Printer,
    kind: LlvmOp,
    op: Operation,
    names: Map<u64, Seq<char>>,
    labels: Map<u64, Seq<char>>,
    n: nat,
)
    requires
        LlvmOp::of_type(op.op_type@) == Some(kind),
        kind.is_call(),
    ensures
        extends(p, p.operation(op, names, labels, n)),
{
    broadcast use group_progress;

    reveal(Printer::operation);
    lemma_extends_self(p);
}

/// All other operations move on.
proof fn lemma_scalars_extend(
    p: Printer,
    kind: LlvmOp,
    op: Operation,
    names: Map<u64, Seq<char>>,
    labels: Map<u64, Seq<char>>,
    n: nat,
)
    requires
        LlvmOp::of_type(op.op_type@) == Some(kind),
        !kind.is_terminator() && !kind.is_memory() && !kind.is_atomic() && !kind.is_call(),
    ensures
        extends(p, p.operation(op, names, labels, n)),
{
    broadcast use group_progress;

    reveal(Printer::operation);
    lemma_extends_self(p);
}

/// Terminators end a line.
proof fn lemma_terminators_end_lines(
    p: Printer,
    kind: LlvmOp,
    op: Operation,
    names: Map<u64, Seq<char>>,
    labels: Map<u64, Seq<char>>,
    n: nat,
)
    requires
        LlvmOp::of_type(op.op_type@) == Some(kind),
        kind.is_terminator(),
    ensures
        prints_lines(p, p.operation(op, names, labels, n)),
{
    broadcast use {group_progress, lemma_ends_line, lemma_stopped_ends_line};

    lemma_extends_self(p);
    reveal(Printer::operation);
    reveal_strlit("\n");
    reveal_strlit("  unreachable\n");
}

/// Memory operations end a line.
proof fn lemma_memory_ends_lines(
    p: Printer,
    kind: LlvmOp,
    op: Operation,
    names: Map<u64, Seq<char>>,
    labels: Map<u64, Seq<char>>,
    n: nat,
)
    requires
        LlvmOp::of_type(op.op_type@) == Some(kind),
        kind.is_memory(),
    ensures
        prints_lines(p, p.operation(op, names, labels, n)),
{
    broadcast use {group_progress, lemma_ends_line, lemma_record_ends_line};

    lemma_extends_self(p);
    reveal(Printer::operation);
    reveal_strlit("\n");
}

/// Atomic operations end a line.
proof fn lemma_atomics_end_lines(
    p: Printer,
    kind: LlvmOp,
    op: Operation,
    names: Map<u64, Seq<char>>,
    labels: Map<u64, Seq<char>>,
    n: nat,
)
    requires
        LlvmOp::of_type(op.op_type@) == Some(kind),
        kind.is_atomic(),
    ensures
        prints_lines(p, p.operation(op, names, labels, n)),
{
    broadcast use {group_progress, lemma_ends_line};

    lemma_extends_self(p);
    reveal(Printer::operation);
    reveal_strlit("\n");
    reveal_strlit(", 0\n");
}

/// What is printed for a call ends a line.
proof fn lemma_whole_call_ends_line(p: Printer, op: Operation, names: Map<u64, Seq<char>>, n: nat)
    ensures
        prints_lines(p, p.call(op, names, n)),
{
    broadcast use {
        group_progress,
        lemma_stopped_ends_line,
        lemma_call_ends_line,
        lemma_instructions_end_line,
    };

    lemma_extends_self(p);
}

/// What is printed for inline assembly ends a line.
proof fn lemma_assembly_ends_line(p: Printer, op: Operation, names: Map<u64, Seq<char>>)
    ensures
        prints_lines(p, p.inline_asm(op, names)),
        prints_lines(p, p.inline_asm_multi(op, names)),
{
    broadcast use {
        group_progress,
        lemma_stopped_ends_line,
        lemma_call_ends_line,
        lemma_extractions_end_line,
    };

    lemma_extends_self(p);
}

/// Calls and inline assembly end a line.
proof fn lemma_calls_end_lines(
    p: Printer,
    kind: LlvmOp,
    op: Operation,
    names: Map<u64, Seq<char>>,
    labels: Map<u64, Seq<char>>,
    n: nat,
)
    requires
        LlvmOp::of_type(op.op_type@) == Some(kind),
        kind.is_call(),
    ensures
        prints_lines(p, p.operation(op, names, labels, n)),
{
    reveal(Printer::operation);
    if kind is Call {
        lemma_whole_call_ends_line(p, op, names, n);
    } else {
        lemma_assembly_ends_line(p, op, names);
    }
}

/// All other operations end a line, unless they are virtual.
proof fn lemma_scalars_end_lines(
    p: Printer,
    kind: LlvmOp,
    op: Operation,
    names: Map<u64, Seq<char>>,
    labels: Map<u64, Seq<char>>,
    n: nat,
)
    requires
        LlvmOp::of_type(op.op_type@) == Some(kind),
        !kind.is_terminator() && !kind.is_memory() && !kind.is_atomic() && !kind.is_call(),
        !kind.is_virtual(),
    ensures
        prints_lines(p, p.operation(op, names, labels, n)),
{
    broadcast use {group_progress, lemma_ends_line, lemma_stopped_ends_line};

    lemma_extends_self(p);
    reveal(Printer::operation);
    reveal_strlit("\n");
}

/// What was printed stays, and so does the dialect; the attribute group `#0`
/// stays needed; numbers of pointer casts are never used again, and none is
/// used where pointers are opaque. An error stops everything.
pub proof fn law_operations_extend(
    p: Printer,
    op: Operation,
    names: Map<u64, Seq<char>>,
    labels: Map<u64, Seq<char>>,
    n: nat,
)
    ensures
        extends(p, p.operation(op, names, labels, n)),
{
    match LlvmOp::of_type(op.op_type@) {
        Some(kind) => {
            if kind.is_terminator() {
                lemma_terminators_extend(p, kind, op, names, labels, n);
            } else if kind.is_memory() {
                lemma_memory_extends(p, kind, op, names, labels, n);
            } else if kind.is_atomic() {
                lemma_atomics_extend(p, kind, op, names, labels, n);
            } else if kind.is_call() {
                lemma_calls_extend(p, kind, op, names, labels, n);
            } else {
                lemma_scalars_extend(p, kind, op, names, labels, n);
            }
        },
        None => {
            broadcast use group_progress;

            reveal(Printer::operation);
            lemma_extends_self(p);
        },
    }
}

/// Operations that are exported without an error print something and end a line,
/// unless they are virtual: those print nothing.
pub proof fn law_operations_end_lines(
    p: Printer,
    op: Operation,
    names: Map<u64, Seq<char>>,
    labels: Map<u64, Seq<char>>,
    n: nat,
)
    ensures
        match LlvmOp::of_type(op.op_type@) {
            Some(kind) => if kind.is_virtual() {
                p.operation(op, names, labels, n) == p
            } else {
                prints_lines(p, p.operation(op, names, labels, n))
            },
            None => prints_lines(p, p.operation(op, names, labels, n)),
        },
{
    match LlvmOp::of_type(op.op_type@) {
        Some(kind) => {
            if kind.is_terminator() {
                lemma_terminators_end_lines(p, kind, op, names, labels, n);
            } else if kind.is_memory() {
                lemma_memory_ends_lines(p, kind, op, names, labels, n);
            } else if kind.is_atomic() {
                lemma_atomics_end_lines(p, kind, op, names, labels, n);
            } else if kind.is_call() {
                lemma_calls_end_lines(p, kind, op, names, labels, n);
            } else if kind.is_virtual() {
                reveal(Printer::operation);
            } else {
                lemma_scalars_end_lines(p, kind, op, names, labels, n);
            }
        },
        None => {
            broadcast use {group_progress, lemma_ends_line};

            reveal(Printer::operation);
            reveal_strlit("\n");
            lemma_extends_self(p);
        },
    }
}

} // verus!
