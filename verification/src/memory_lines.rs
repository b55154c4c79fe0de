//! The lines that operations on memory are printed as, and how these refer to
//! the pointer that they go through.
use vstd::prelude::*;

use crate::dispatch::{law_atomic_operations, law_memory_operations};
use crate::ir::{GepIndexAttr, Operation, Type, Value};
use crate::lists::{each_behind, index_texts, indices_spelled};
use crate::lists::{law_indices_are_listed, law_indices_are_separated};
use crate::memory::lemma_gep_indices_kept;
use crate::state::{opaque_qualifier, typed_pointers, value_text, Printer};
use crate::text::{begins_with, decimal};

verus! {

/// How an operation goes through a pointer.
pub struct Access {
    /// What is printed in front of the line of the operation.
    pub line: Seq<char>,
    /// The number of casts in front of the line of the operation.
    pub casts: nat,
    /// The type that the operation uses the pointer with.
    pub ty: Seq<char>,
    /// The name by which the operation refers to the pointer.
    pub name: Seq<char>,
}

/// How an operation goes through a pointer to a value whose type is spelled `t`.
///
/// Opaque pointers are used as they are. With typed pointers, a pointer that is
/// defined with the type that it is used with is referred to by its own name, and
/// any other by the name of a cast from the one type to the other.
pub open spec fn access(
    p: Printer,
    names: Map<u64, Seq<char>>,
    ptr: Value,
    t: Seq<char>,
) -> Access {
    let space = ptr.ty.address_space();
    let name = value_text(names, ptr);
    if !typed_pointers(p.dialect) {
        Access {
            line: Seq::empty(),
            casts: 0,
            ty: if space == 0 {
                "ptr"@
            } else {
                "ptr addrspace("@ + decimal(space as nat) + ")"@
            },
            name,
        }
    } else {
        let defined = if p.pointer_types.contains_key(ptr.id) {
            p.pointer_types[ptr.id]
        } else {
            ptr.ty.spelled()->Ok_0
        };
        let used = if space == 0 {
            t + "*"@
        } else {
            t + " addrspace("@ + decimal(space as nat) + ")*"@
        };
        let cast = "%ptrcast"@ + decimal(p.next_cast);
        if defined == used {
            Access { line: Seq::empty(), casts: 0, ty: used, name }
        } else {
            Access {
                line: "  "@ + cast + " = bitcast "@ + defined + " "@ + name + " to "@ + used
                    + "\n"@,
                casts: 1,
                ty: used,
                name: cast,
            }
        }
    }
}

/// The error that keeps an operation from going through a pointer before its line
/// is begun: with typed pointers, the type of the pointee or the one that the
/// pointer is defined with cannot be spelled.
pub open spec fn refused(p: Printer, ptr: Value, pointee: Type) -> Option<Seq<char>> {
    if !typed_pointers(p.dialect) {
        None
    } else if pointee.spelled() is Err {
        Some(pointee.spelled()->Err_0)
    } else if !p.pointer_types.contains_key(ptr.id) && ptr.ty.spelled() is Err {
        Some(ptr.ty.spelled()->Err_0)
    } else {
        None
    }
}

/// Texts can be put together in any order.
proof fn lemma_plus(a: Seq<char>, b: Seq<char>, c: Seq<char>)
    ensures
        a + (b + c) == a + b + c,
{
    assert(a + (b + c) =~= a + b + c);
}

/// What the printer does for a pointer is how an operation goes through it.
proof fn lemma_access(
    p: Printer,
    names: Map<u64, Seq<char>>,
    ptr: Value,
    pointee: Type,
    t: Seq<char>,
)
    requires
        p.error is None,
    ensures
        ({
            let space = ptr.ty.address_space();
            let a = access(p, names, ptr, t);
            let q = p.pointer_operand(names, ptr, pointee, space);
            match refused(p, ptr, pointee) {
                Some(e) => q == (Printer { error: Some(e), ..p }),
                None => {
                    &&& pointee.spelled() == Ok::<Seq<char>, Seq<char>>(t) ==> {
                        &&& q == (Printer {
                            out: p.out + a.line,
                            next_cast: p.next_cast + a.casts,
                            ..p
                        })
                        &&& p.pointer_operand_name(names, ptr, pointee, space) == a.name
                    }
                    &&& pointee.spelled() is Err ==> q == p
                },
            }
        }),
        pointee.spelled() == Ok::<Seq<char>, Seq<char>>(t) ==> p.ptr_operand_type(
            pointee,
            ptr.ty.address_space(),
        ) == Ok::<Seq<char>, Seq<char>>(access(p, names, ptr, t).ty + " "@),
{
    let space = ptr.ty.address_space();
    let a = access(p, names, ptr, t);
    let q = p.pointer_operand(names, ptr, pointee, space);
    let name = value_text(names, ptr);
    assert(p.out + Seq::<char>::empty() =~= p.out);
    reveal_strlit(")");
    reveal_strlit(") ");
    reveal_strlit("ptr");
    reveal_strlit("ptr ");
    reveal_strlit(" ");
    assert("ptr "@ =~= "ptr"@ + " "@);
    let d = decimal(space as nat);
    assert("ptr addrspace("@ + d + ") "@ =~= "ptr addrspace("@ + d + ")"@ + " "@);
    if a.casts == 1 && pointee.spelled() == Ok::<Seq<char>, Seq<char>>(t) && refused(
        p,
        ptr,
        pointee,
    ) is None {
        let cast = "%ptrcast"@ + decimal(p.next_cast);
        let defined = p.pointer_value_type(ptr)->Ok_0;
        let used = a.ty;
        reveal_strlit(" = ");
        reveal_strlit("bitcast");
        reveal_strlit(" = bitcast ");
        assert(" = "@ + "bitcast"@ + " "@ =~= " = bitcast "@);
        assert(p.out + "  "@ + cast + " = "@ + "bitcast"@ + " "@ + defined + " "@ + name + " to "@
            + used + "\n"@ =~= p.out + ("  "@ + cast + (" = "@ + "bitcast"@ + " "@) + defined
            + " "@ + name + " to "@ + used + "\n"@));
    }
}

/// A pointer behind its type is its type, a space and its name.
proof fn lemma_typed_pointer(q: Printer, pointee: Type, space: u32, ty: Seq<char>, name: Seq<char>)
    requires
        q.error is None,
        q.ptr_operand_type(pointee, space) == Ok::<Seq<char>, Seq<char>>(ty + " "@),
    ensures
        q.typed_pointer(pointee, space, name) == (Printer { out: q.out + ty + " "@ + name, ..q }),
        q.next_typed_pointer(pointee, space, name) == (Printer {
            out: q.out + ", "@ + ty + " "@ + name,
            ..q
        }),
{
    lemma_plus(q.out, ty, " "@);
    lemma_plus(q.out + ", "@, ty, " "@);
}

/// An opaque pointer, and one that is defined with the type that it is used with,
/// is referred to by its own name; with typed pointers, one that is defined with
/// another type is cast from that to the type that it is used with, and referred
/// to by the name of the cast.
pub proof fn law_pointers_are_used_as_defined(
    p: Printer,
    names: Map<u64, Seq<char>>,
    ptr: Value,
    t: Seq<char>,
    defined: Seq<char>,
)
    requires
        p.pointer_value_type(ptr) == Ok::<Seq<char>, Seq<char>>(defined),
    ensures
        ({
            let a = access(p, names, ptr, t);
            let used = if ptr.ty.address_space() == 0 {
                t + "*"@
            } else {
                t + " addrspace("@ + decimal(ptr.ty.address_space() as nat) + ")*"@
            };
            if typed_pointers(p.dialect) {
                &&& a.ty == used
                &&& defined == used ==> a.name == value_text(names, ptr) && a.line
                    == Seq::<char>::empty() && a.casts == 0
                &&& defined != used ==> a.name == "%ptrcast"@ + decimal(p.next_cast) && a.line
                    == "  "@ + a.name + " = bitcast "@ + defined + " "@ + value_text(names, ptr)
                    + " to "@ + used + "\n"@ && a.casts == 1
            } else {
                &&& a.ty == (if ptr.ty.address_space() == 0 {
                    "ptr"@
                } else {
                    "ptr addrspace("@ + decimal(ptr.ty.address_space() as nat) + ")"@
                })
                &&& a.name == value_text(names, ptr) && a.line == Seq::<char>::empty() && a.casts
                    == 0
            }
        }),
{
}

/// A load: the type that is loaded, and the pointer that it is loaded through.
pub proof fn law_load_line(p: Printer, op: Operation, names: Map<u64, Seq<char>>)
    requires
        p.error is None,
    ensures
        ({
            let q = p.load(op, names);
            let (ptr, r) = (op.operands@[0], op.results@[0]);
            let head = "  "@ + names[r.id] + " = "@ + "load"@ + " "@;
            match (refused(p, ptr, r.ty), r.ty.spelled()) {
                (Some(e), _) => q == (Printer { error: Some(e), ..p }),
                (None, Err(e)) => q == (Printer { out: p.out + head, error: Some(e), ..p }),
                (None, Ok(t)) => {
                    let a = access(p, names, ptr, t);
                    q == (Printer {
                        out: p.out + a.line + head + t + ", "@ + a.ty + " "@ + a.name + "\n"@,
                        next_cast: p.next_cast + a.casts,
                        ..p
                    })
                },
            }
        }),
{
    let (ptr, r) = (op.operands@[0], op.results@[0]);
    let t = r.ty.spelled()->Ok_0;
    let space = ptr.ty.address_space();
    lemma_access(p, names, ptr, r.ty, t);
    let moved = p.pointer_operand(names, ptr, r.ty, space);
    let begun = moved.definition(names, r, "load"@);
    lemma_head(moved.out, names[r.id], "load"@);
    if r.ty.spelled() is Ok && moved.error is None {
        let a = access(p, names, ptr, t);
        lemma_typed_pointer(begun.ty(r.ty), r.ty, space, a.ty, a.name);
    }
}

/// The head of a definition can be put behind the output as a whole.
proof fn lemma_head(out: Seq<char>, name: Seq<char>, mnemonic: Seq<char>)
    ensures
        out + "  "@ + name + " = "@ + mnemonic + " "@ == out + ("  "@ + name + " = "@ + mnemonic
            + " "@),
{
    assert(out + "  "@ + name + " = "@ + mnemonic + " "@ =~= out + ("  "@ + name + " = "@
        + mnemonic + " "@));
}

/// A store: the value behind its type, and the pointer that it is stored through.
pub proof fn law_store_line(p: Printer, op: Operation, names: Map<u64, Seq<char>>)
    requires
        p.error is None,
    ensures
        ({
            let q = p.store(op, names);
            let (v, ptr) = (op.operands@[0], op.operands@[1]);
            match (refused(p, ptr, v.ty), v.ty.spelled()) {
                (Some(e), _) => q == (Printer { error: Some(e), ..p }),
                (None, Err(e)) => q == (Printer {
                    out: p.out + "  store "@,
                    error: Some(e),
                    ..p
                }),
                (None, Ok(t)) => {
                    let a = access(p, names, ptr, t);
                    q == (Printer {
                        out: p.out + a.line + "  store "@ + t + " "@ + value_text(names, v) + ", "@
                            + a.ty + " "@ + a.name + "\n"@,
                        next_cast: p.next_cast + a.casts,
                        ..p
                    })
                },
            }
        }),
{
    let (v, ptr) = (op.operands@[0], op.operands@[1]);
    let t = v.ty.spelled()->Ok_0;
    let space = ptr.ty.address_space();
    lemma_access(p, names, ptr, v.ty, t);
    let moved = p.pointer_operand(names, ptr, v.ty, space);
    let begun = moved.text("  store "@).typed_value(names, v);
    if v.ty.spelled() is Ok && moved.error is None {
        let a = access(p, names, ptr, t);
        lemma_typed_pointer(begun, v.ty, space, a.ty, a.name);
    }
}

/// An address computation: the type that the pointer is indexed by, the pointer,
/// and the indices in order. Its result is then known to point to the type that
/// the indices lead to.
pub proof fn law_address_line(p: Printer, op: Operation, names: Map<u64, Seq<char>>)
    requires
        p.error is None,
        op.attrs is GetElementPtr,
        indices_spelled(op.attrs->GetElementPtr_indices@, op.operands@),
    ensures
        ({
            let q = p.gep(op, names);
            let (ptr, r) = (op.operands@[0], op.results@[0]);
            let source = op.attrs->GetElementPtr_source_type;
            let pointee = match op.attrs->GetElementPtr_indexed_type {
                Some(ty) => ty,
                None => source,
            };
            let head = "  "@ + names[r.id] + " = "@ + "getelementptr inbounds"@ + " "@;
            match (refused(p, ptr, source), source.spelled()) {
                (Some(e), _) => q == (Printer { error: Some(e), ..p }),
                (None, Err(e)) => q == (Printer { out: p.out + head, error: Some(e), ..p }),
                (None, Ok(t)) => {
                    let a = access(p, names, ptr, t);
                    let out = p.out + a.line + head + t + ", "@ + a.ty + " "@ + a.name
                        + each_behind(
                        ", "@,
                        index_texts(op.attrs->GetElementPtr_indices@, op.operands@, names),
                    ) + "\n"@;
                    let next_cast = p.next_cast + a.casts;
                    match (pointee.spelled(), ptr.ty.address_space()) {
                        (Ok(to), 0) => q == (Printer {
                            out,
                            next_cast,
                            pointer_types: p.pointer_types.insert(r.id, to + "*"@),
                            ..p
                        }),
                        (Ok(to), space) => q == (Printer {
                            out,
                            next_cast,
                            pointer_types: p.pointer_types.insert(
                                r.id,
                                to + " addrspace("@ + decimal(space as nat) + ")*"@,
                            ),
                            ..p
                        }),
                        (Err(e), _) => q == (Printer { out, next_cast, error: Some(e), ..p }),
                    }
                },
            }
        }),
{
    broadcast use crate::memory::lemma_gep_indices_stopped;

    let (ptr, r) = (op.operands@[0], op.results@[0]);
    let source = op.attrs->GetElementPtr_source_type;
    let indices = op.attrs->GetElementPtr_indices@;
    let t = source.spelled()->Ok_0;
    let space = ptr.ty.address_space();
    lemma_access(p, names, ptr, source, t);
    let moved = p.pointer_operand(names, ptr, source, space);
    let begun = moved.definition(names, r, "getelementptr inbounds"@);
    lemma_head(moved.out, names[r.id], "getelementptr inbounds"@);
    if source.spelled() is Ok && moved.error is None {
        let a = access(p, names, ptr, t);
        lemma_typed_pointer(begun.ty(source), source, space, a.ty, a.name);
        let reached = begun.ty(source).next_typed_pointer(source, space, a.name);
        assert(indices.take(indices.len() as int) =~= indices);
        law_indices_are_listed(reached, indices, op.operands@, names, indices.len());
    }
}

/// The text of an address computation that is exported without an error ends, in
/// front of the line break, with its indices in order.
pub proof fn law_addresses_end_with_indices(p: Printer, op: Operation, names: Map<u64, Seq<char>>)
    requires
        p.error is None,
        op.attrs is GetElementPtr,
        p.gep(op, names).error is None,
    ensures
        indices_spelled(op.attrs->GetElementPtr_indices@, op.operands@),
        exists|start: Seq<char>| #[trigger]
            (start + each_behind(
                ", "@,
                index_texts(op.attrs->GetElementPtr_indices@, op.operands@, names),
            ) + "\n"@) == p.gep(op, names).out,
{
    broadcast use crate::memory::lemma_gep_indices_stopped;

    let (ptr, r) = (op.operands@[0], op.results@[0]);
    let source = op.attrs->GetElementPtr_source_type;
    let indices = op.attrs->GetElementPtr_indices@;
    let space = ptr.ty.address_space();
    let t = source.spelled()->Ok_0;
    lemma_access(p, names, ptr, source, t);
    let a = access(p, names, ptr, t);
    let reached = p.pointer_operand(names, ptr, source, space).definition(
        names,
        r,
        "getelementptr inbounds"@,
    ).ty(source).next_typed_pointer(source, space, a.name);
    assert(reached.gep_indices(indices, op.operands@, names, indices.len()).error is None);
    assert forall|i: int|
        0 <= i < indices.len() implies (#[trigger] indices[i] matches GepIndexAttr::OperandIdx(k)
        ==> op.operands@[k as int].ty.spelled() is Ok) by {
        lemma_printed_indices_are_spelled(reached, indices, op.operands@, names, i, indices.len());
    }
    law_address_line(p, op, names);
    let start = p.out + a.line + ("  "@ + names[r.id] + " = "@ + "getelementptr inbounds"@ + " "@)
        + t + ", "@ + a.ty + " "@ + a.name;
    assert(start + each_behind(", "@, index_texts(indices, op.operands@, names)) + "\n"@ == p.gep(
        op,
        names,
    ).out);
}

/// An address computation stops behind the comma of the first index whose type
/// cannot be spelled.
pub proof fn law_addresses_stop(
    p: Printer,
    op: Operation,
    names: Map<u64, Seq<char>>,
    t: Seq<char>,
    k: int,
    o: usize,
    e: Seq<char>,
)
    requires
        p.error is None,
        op.attrs is GetElementPtr,
        op.attrs->GetElementPtr_source_type.spelled() == Ok::<Seq<char>, Seq<char>>(t),
        refused(p, op.operands@[0], op.attrs->GetElementPtr_source_type) is None,
        0 <= k < op.attrs->GetElementPtr_indices@.len(),
        indices_spelled(op.attrs->GetElementPtr_indices@.take(k), op.operands@),
        op.attrs->GetElementPtr_indices@[k] == GepIndexAttr::OperandIdx(o),
        op.operands@[o as int].ty.spelled() == Err::<Seq<char>, Seq<char>>(e),
    ensures
        ({
            let a = access(p, names, op.operands@[0], t);
            p.gep(op, names) == (Printer {
                out: p.out + a.line + ("  "@ + names[op.results@[0].id] + " = "@
                    + "getelementptr inbounds"@ + " "@) + t + ", "@ + a.ty + " "@ + a.name
                    + each_behind(
                    ", "@,
                    index_texts(op.attrs->GetElementPtr_indices@.take(k), op.operands@, names),
                ) + ", "@,
                next_cast: p.next_cast + a.casts,
                error: Some(e),
                ..p
            })
        }),
{
    let (ptr, r) = (op.operands@[0], op.results@[0]);
    let source = op.attrs->GetElementPtr_source_type;
    let indices = op.attrs->GetElementPtr_indices@;
    let space = ptr.ty.address_space();
    lemma_access(p, names, ptr, source, t);
    let moved = p.pointer_operand(names, ptr, source, space);
    let begun = moved.definition(names, r, "getelementptr inbounds"@);
    lemma_head(moved.out, names[r.id], "getelementptr inbounds"@);
    let a = access(p, names, ptr, t);
    lemma_typed_pointer(begun.ty(source), source, space, a.ty, a.name);
    let reached = begun.ty(source).next_typed_pointer(source, space, a.name);
    law_indices_are_listed(reached, indices, op.operands@, names, k as nat);
    law_indices_are_separated(reached, indices, op.operands@, names, k as nat);
    lemma_gep_indices_kept(
        reached,
        indices,
        op.operands@,
        names,
        (k + 1) as nat,
        indices.len(),
    );
}

/// Indices that were printed without an error have types that can be spelled.
proof fn lemma_printed_indices_are_spelled(
    p: Printer,
    indices: Seq<GepIndexAttr>,
    operands: Seq<Value>,
    names: Map<u64, Seq<char>>,
    i: int,
    k: nat,
)
    requires
        0 <= i < k,
        p.gep_indices(indices, operands, names, k).error is None,
    ensures
        indices[i] matches GepIndexAttr::OperandIdx(o) ==> operands[o as int].ty.spelled() is Ok,
    decreases k,
{
    if i < k - 1 {
        lemma_printed_indices_are_spelled(p, indices, operands, names, i, (k - 1) as nat);
    }
}

/// An atomic load: the type that is loaded, the pointer, the synchronization
/// scope, a space, the ordering, and the natural alignment of the type.
pub proof fn law_atomic_load_line(p: Printer, op: Operation, names: Map<u64, Seq<char>>)
    requires
        p.error is None,
    ensures
        ({
            let q = p.atomic_load(op, names);
            let (ptr, r) = (op.operands@[0], op.results@[0]);
            let head = "  "@ + names[r.id] + " = "@ + "load atomic"@ + " "@;
            match (refused(p, ptr, r.ty), r.ty.spelled()) {
                (Some(e), _) => q == (Printer { error: Some(e), ..p }),
                (None, Err(e)) => q == (Printer { out: p.out + head, error: Some(e), ..p }),
                (None, Ok(t)) => {
                    let a = access(p, names, ptr, t);
                    q == (Printer {
                        out: p.out + a.line + head + t + ", "@ + a.ty + " "@ + a.name
                            + op.attrs->Atomic_syncscope@ + " "@ + op.attrs->Atomic_ordering@
                            + ", align "@ + decimal(r.ty.natural_alignment as nat) + "\n"@,
                        next_cast: p.next_cast + a.casts,
                        ..p
                    })
                },
            }
        }),
{
    let (ptr, r) = (op.operands@[0], op.results@[0]);
    let t = r.ty.spelled()->Ok_0;
    let space = ptr.ty.address_space();
    lemma_access(p, names, ptr, r.ty, t);
    let moved = p.pointer_operand(names, ptr, r.ty, space);
    let begun = moved.definition(names, r, "load atomic"@);
    lemma_head(moved.out, names[r.id], "load atomic"@);
    if r.ty.spelled() is Ok && moved.error is None {
        let a = access(p, names, ptr, t);
        lemma_typed_pointer(begun.ty(r.ty), r.ty, space, a.ty, a.name);
    }
}

/// An atomic store: the value behind its type, the pointer, the synchronization
/// scope, a space, the ordering, and the natural alignment of the type.
pub proof fn law_atomic_store_line(p: Printer, op: Operation, names: Map<u64, Seq<char>>)
    requires
        p.error is None,
    ensures
        ({
            let q = p.atomic_store(op, names);
            let (v, ptr) = (op.operands@[0], op.operands@[1]);
            match (refused(p, ptr, v.ty), v.ty.spelled()) {
                (Some(e), _) => q == (Printer { error: Some(e), ..p }),
                (None, Err(e)) => q == (Printer {
                    out: p.out + "  store atomic "@,
                    error: Some(e),
                    ..p
                }),
                (None, Ok(t)) => {
                    let a = access(p, names, ptr, t);
                    q == (Printer {
                        out: p.out + a.line + "  store atomic "@ + t + " "@ + value_text(names, v)
                            + ", "@ + a.ty + " "@ + a.name + op.attrs->Atomic_syncscope@ + " "@
                            + op.attrs->Atomic_ordering@ + ", align "@ + decimal(
                            v.ty.natural_alignment as nat,
                        ) + "\n"@,
                        next_cast: p.next_cast + a.casts,
                        ..p
                    })
                },
            }
        }),
{
    let (v, ptr) = (op.operands@[0], op.operands@[1]);
    let t = v.ty.spelled()->Ok_0;
    let space = ptr.ty.address_space();
    lemma_access(p, names, ptr, v.ty, t);
    let moved = p.pointer_operand(names, ptr, v.ty, space);
    let begun = moved.text("  store atomic "@).typed_value(names, v);
    if v.ty.spelled() is Ok && moved.error is None {
        let a = access(p, names, ptr, t);
        lemma_typed_pointer(begun, v.ty, space, a.ty, a.name);
    }
}

/// An atomic read-modify-write: what it does, the pointer, the value behind its
/// type, the synchronization scope, a space and the ordering.
pub proof fn law_read_modify_write_line(p: Printer, op: Operation, names: Map<u64, Seq<char>>)
    requires
        p.error is None,
    ensures
        ({
            let q = p.atomic_rmw(op, names);
            let (ptr, v, r) = (op.operands@[0], op.operands@[1], op.results@[0]);
            let head = "  "@ + names[r.id] + " = "@ + "atomicrmw"@ + " "@
                + op.attrs->AtomicRmw_kind@ + " "@;
            match (refused(p, ptr, v.ty), v.ty.spelled()) {
                (Some(e), _) => q == (Printer { error: Some(e), ..p }),
                (None, Err(e)) => {
                    let out = if ptr.ty.address_space() == 0 {
                        p.out + head + "ptr "@
                    } else {
                        p.out + head + ("ptr addrspace("@ + decimal(
                            ptr.ty.address_space() as nat,
                        ) + ") "@)
                    };
                    q == (Printer {
                        out: out + value_text(names, ptr) + ", "@,
                        error: Some(e),
                        ..p
                    })
                },
                (None, Ok(t)) => {
                    let a = access(p, names, ptr, t);
                    q == (Printer {
                        out: p.out + a.line + head + a.ty + " "@ + a.name + ", "@ + t + " "@
                            + value_text(names, v) + op.attrs->AtomicRmw_syncscope@ + " "@
                            + op.attrs->AtomicRmw_ordering@ + "\n"@,
                        next_cast: p.next_cast + a.casts,
                        ..p
                    })
                },
            }
        }),
{
    let (ptr, v, r) = (op.operands@[0], op.operands@[1], op.results@[0]);
    let t = v.ty.spelled()->Ok_0;
    let space = ptr.ty.address_space();
    lemma_access(p, names, ptr, v.ty, t);
    let moved = p.pointer_operand(names, ptr, v.ty, space);
    let kind = op.attrs->AtomicRmw_kind@;
    let begun = moved.definition(names, r, "atomicrmw"@).text(kind).text(" "@);
    let head = "  "@ + names[r.id] + " = "@ + "atomicrmw"@ + " "@;
    lemma_head(moved.out, names[r.id], "atomicrmw"@);
    lemma_plus(moved.out, head, kind);
    lemma_plus(moved.out, head + kind, " "@);
    if v.ty.spelled() is Ok && moved.error is None {
        let a = access(p, names, ptr, t);
        lemma_typed_pointer(begun, v.ty, space, a.ty, a.name);
    }
}

/// A compare-and-exchange: the pointer, the value that is expected and the one
/// that replaces it, both behind the type of the former, the synchronization
/// scope, a space, the ordering on success and the one on failure; and then the
/// extraction of the old value.
pub proof fn law_exchange_lines(p: Printer, op: Operation, names: Map<u64, Seq<char>>, t: Seq<char>)
    requires
        p.error is None,
        op.operands@[1].ty.spelled() == Ok::<Seq<char>, Seq<char>>(t),
    ensures
        ({
            let q = p.atomic_cmpxchg(op, names);
            let (ptr, old_value, new_value) = (op.operands@[0], op.operands@[1], op.operands@[2]);
            let r = names[op.results@[0].id];
            let a = access(p, names, ptr, t);
            match refused(p, ptr, old_value.ty) {
                Some(e) => q == (Printer { error: Some(e), ..p }),
                None => q == (Printer {
                    out: p.out + a.line + "  "@ + (r + ".cx"@) + " = cmpxchg "@ + a.ty + " "@
                        + a.name + ", "@ + t + " "@ + value_text(names, old_value) + ", "@ + t
                        + " "@ + value_text(names, new_value) + op.attrs->AtomicCmpxchg_syncscope@
                        + " "@ + op.attrs->AtomicCmpxchg_success_ordering@ + " "@
                        + op.attrs->AtomicCmpxchg_failure_ordering@ + "\n"@ + "  "@ + r + " = "@
                        + "extractvalue {"@ + " "@ + t + ", i1 } "@ + (r + ".cx"@) + ", 0\n"@,
                    next_cast: p.next_cast + a.casts,
                    ..p
                }),
            }
        }),
{
    let (ptr, old_value, r) = (op.operands@[0], op.operands@[1], op.results@[0]);
    let space = ptr.ty.address_space();
    lemma_access(p, names, ptr, old_value.ty, t);
    let moved = p.pointer_operand(names, ptr, old_value.ty, space);
    let begun = moved.text("  "@).text(names[r.id] + ".cx"@).text(" = cmpxchg "@);
    if moved.error is None {
        let a = access(p, names, ptr, t);
        lemma_typed_pointer(begun, old_value.ty, space, a.ty, a.name);
    }
}

/// A compare-and-exchange of a value whose type cannot be spelled stops in front
/// of that type.
pub proof fn law_exchanges_stop(p: Printer, op: Operation, names: Map<u64, Seq<char>>, e: Seq<char>)
    requires
        p.error is None,
        op.operands@[1].ty.spelled() == Err::<Seq<char>, Seq<char>>(e),
    ensures
        ({
            let q = p.atomic_cmpxchg(op, names);
            let ptr = op.operands@[0];
            if typed_pointers(p.dialect) {
                q == (Printer { error: Some(e), ..p })
            } else {
                q == (Printer {
                    out: p.out + "  "@ + (names[op.results@[0].id] + ".cx"@) + " = cmpxchg "@
                        + opaque_qualifier(ptr.ty.address_space()) + value_text(names, ptr)
                        + ", "@,
                    error: Some(e),
                    ..p
                })
            }
        }),
{
}

/// The pointer that an operation on memory goes through, and the type of what it
/// points to there.
pub open spec fn accessed(op: Operation) -> (Value, Type) {
    if op.op_type@ == "StoreOp"@ || op.op_type@ == "AtomicStoreOp"@ {
        (op.operands@[1], op.operands@[0].ty)
    } else if op.op_type@ == "GetElementPtrOp"@ {
        (op.operands@[0], op.attrs->GetElementPtr_source_type)
    } else if op.op_type@ == "AtomicRmwOp"@ || op.op_type@ == "AtomicCmpxchgOp"@ {
        (op.operands@[0], op.operands@[1].ty)
    } else {
        (op.operands@[0], op.results@[0].ty)
    }
}

/// Whether a text is what is printed in front of an operation for the pointer that
/// it goes through, and then a line that refers to the pointer, behind the type
/// that it is used with, by the name that it is accessed by.
pub open spec fn refers_to(out: Seq<char>, before: Seq<char>, a: Access) -> bool {
    exists|head: Seq<char>, tail: Seq<char>| #[trigger]
        (before + a.line + head + a.ty + " "@ + a.name + tail) == out
}

/// Every operation on memory that is exported without an error refers to its
/// pointer, behind the type that it uses it with, by the name that is defined with
/// that type.
pub proof fn law_memory_is_accessed_as_defined(
    p: Printer,
    op: Operation,
    names: Map<u64, Seq<char>>,
    labels: Map<u64, Seq<char>>,
    n: nat,
)
    requires
        p.error is None,
        p.operation(op, names, labels, n).error is None,
        op.op_type@ == "LoadOp"@ || op.op_type@ == "StoreOp"@ || (op.op_type@
            == "GetElementPtrOp"@ && op.attrs is GetElementPtr) || op.op_type@ == "AtomicLoadOp"@
            || op.op_type@ == "AtomicStoreOp"@ || op.op_type@ == "AtomicRmwOp"@ || op.op_type@
            == "AtomicCmpxchgOp"@,
    ensures
        accessed(op).1.spelled() is Ok,
        typed_pointers(p.dialect) ==> p.pointer_value_type(accessed(op).0) is Ok,
        refers_to(
            p.operation(op, names, labels, n).out,
            p.out,
            access(p, names, accessed(op).0, accessed(op).1.spelled()->Ok_0),
        ),
{
    lemma_accessing_names();
    law_memory_operations(p, op, names, labels, n);
    law_atomic_operations(p, op, names, labels, n);
    if op.op_type@ == "LoadOp"@ {
        lemma_load_refers(p, op, names);
    } else if op.op_type@ == "StoreOp"@ {
        lemma_store_refers(p, op, names);
    } else if op.op_type@ == "GetElementPtrOp"@ {
        lemma_address_refers(p, op, names);
    } else if op.op_type@ == "AtomicLoadOp"@ {
        lemma_atomic_load_refers(p, op, names);
    } else if op.op_type@ == "AtomicStoreOp"@ {
        lemma_atomic_store_refers(p, op, names);
    } else if op.op_type@ == "AtomicRmwOp"@ {
        lemma_read_modify_write_refers(p, op, names);
    } else {
        lemma_exchange_refers(p, op, names);
    }
}

/// The types of operations on memory have different names.
proof fn lemma_accessing_names()
    ensures
        "LoadOp"@ != "StoreOp"@ && "LoadOp"@ != "AtomicStoreOp"@ && "LoadOp"@
            != "GetElementPtrOp"@ && "LoadOp"@ != "AtomicRmwOp"@ && "LoadOp"@
            != "AtomicCmpxchgOp"@,
        "AtomicLoadOp"@ != "StoreOp"@ && "AtomicLoadOp"@ != "AtomicStoreOp"@ && "AtomicLoadOp"@
            != "GetElementPtrOp"@ && "AtomicLoadOp"@ != "AtomicRmwOp"@ && "AtomicLoadOp"@
            != "AtomicCmpxchgOp"@,
        "GetElementPtrOp"@ != "StoreOp"@ && "GetElementPtrOp"@ != "AtomicStoreOp"@,
        "AtomicRmwOp"@ != "StoreOp"@ && "AtomicRmwOp"@ != "AtomicStoreOp"@ && "AtomicRmwOp"@
            != "GetElementPtrOp"@,
        "AtomicCmpxchgOp"@ != "StoreOp"@ && "AtomicCmpxchgOp"@ != "AtomicStoreOp"@
            && "AtomicCmpxchgOp"@ != "GetElementPtrOp"@,
{
    reveal_strlit("LoadOp");
    reveal_strlit("StoreOp");
    reveal_strlit("GetElementPtrOp");
    reveal_strlit("AtomicLoadOp");
    reveal_strlit("AtomicStoreOp");
    reveal_strlit("AtomicRmwOp");
    reveal_strlit("AtomicCmpxchgOp");
    assert("LoadOp"@.len() == 6 && "StoreOp"@.len() == 7 && "AtomicLoadOp"@.len() == 12);
    assert("AtomicStoreOp"@.len() == 13 && "AtomicRmwOp"@.len() == 11);
    assert("AtomicCmpxchgOp"@.len() == 15 && "GetElementPtrOp"@.len() == 15);
    assert("AtomicCmpxchgOp"@[0] != "GetElementPtrOp"@[0]);
}

/// A text begins with whatever a part of it at its front begins with.
broadcast proof fn lemma_begins(front: Seq<char>, rest: Seq<char>, start: Seq<char>)
    ensures
        begins_with(front, start) ==> #[trigger] begins_with(front + rest, start),
{
    if begins_with(front, start) {
        assert((front + rest).take(start.len() as int) =~= front.take(start.len() as int));
    }
}

/// A text begins with itself.
proof fn lemma_whole(s: Seq<char>)
    ensures
        begins_with(s, s),
{
    assert(s.take(s.len() as int) =~= s);
}

/// A text that goes on behind a reference to a pointer refers to the pointer.
proof fn lemma_refers(out: Seq<char>, before: Seq<char>, a: Access, head: Seq<char>)
    requires
        begins_with(out, before + a.line + head + a.ty + " "@ + a.name),
    ensures
        refers_to(out, before, a),
{
    let start = before + a.line + head + a.ty + " "@ + a.name;
    let tail = out.skip(start.len() as int);
    assert(start + tail =~= out);
}

/// A load refers to its pointer.
proof fn lemma_load_refers(p: Printer, op: Operation, names: Map<u64, Seq<char>>)
    requires
        p.error is None,
        p.load(op, names).error is None,
    ensures
        op.results@[0].ty.spelled() is Ok,
        typed_pointers(p.dialect) ==> p.pointer_value_type(op.operands@[0]) is Ok,
        refers_to(
            p.load(op, names).out,
            p.out,
            access(p, names, op.operands@[0], op.results@[0].ty.spelled()->Ok_0),
        ),
{
    broadcast use lemma_begins;

    let (ptr, r) = (op.operands@[0], op.results@[0]);
    let t = r.ty.spelled()->Ok_0;
    let a = access(p, names, ptr, t);
    law_load_line(p, op, names);
    let head = "  "@ + names[r.id] + " = "@ + "load"@ + " "@;
    let line = head + t + ", "@;
    lemma_plus(p.out + a.line, head, t);
    lemma_plus(p.out + a.line, head + t, ", "@);
    lemma_whole(p.out + a.line + line + a.ty + " "@ + a.name);
    lemma_refers(p.load(op, names).out, p.out, a, line);
}

/// A store refers to its pointer.
proof fn lemma_store_refers(p: Printer, op: Operation, names: Map<u64, Seq<char>>)
    requires
        p.error is None,
        p.store(op, names).error is None,
    ensures
        op.operands@[0].ty.spelled() is Ok,
        typed_pointers(p.dialect) ==> p.pointer_value_type(op.operands@[1]) is Ok,
        refers_to(
            p.store(op, names).out,
            p.out,
            access(p, names, op.operands@[1], op.operands@[0].ty.spelled()->Ok_0),
        ),
{
    broadcast use lemma_begins;

    let (v, ptr) = (op.operands@[0], op.operands@[1]);
    let t = v.ty.spelled()->Ok_0;
    let a = access(p, names, ptr, t);
    law_store_line(p, op, names);
    let text = value_text(names, v);
    let line = "  store "@ + t + " "@ + text + ", "@;
    lemma_plus(p.out + a.line, "  store "@, t);
    lemma_plus(p.out + a.line, "  store "@ + t, " "@);
    lemma_plus(p.out + a.line, "  store "@ + t + " "@, text);
    lemma_plus(p.out + a.line, "  store "@ + t + " "@ + text, ", "@);
    lemma_whole(p.out + a.line + line + a.ty + " "@ + a.name);
    lemma_refers(p.store(op, names).out, p.out, a, line);
}

/// An address computation refers to its pointer.
proof fn lemma_address_refers(p: Printer, op: Operation, names: Map<u64, Seq<char>>)
    requires
        p.error is None,
        op.attrs is GetElementPtr,
        p.gep(op, names).error is None,
    ensures
        op.attrs->GetElementPtr_source_type.spelled() is Ok,
        typed_pointers(p.dialect) ==> p.pointer_value_type(op.operands@[0]) is Ok,
        refers_to(
            p.gep(op, names).out,
            p.out,
            access(
                p,
                names,
                op.operands@[0],
                op.attrs->GetElementPtr_source_type.spelled()->Ok_0,
            ),
        ),
{
    broadcast use lemma_begins;

    let (ptr, r) = (op.operands@[0], op.results@[0]);
    let t = op.attrs->GetElementPtr_source_type.spelled()->Ok_0;
    let a = access(p, names, ptr, t);
    law_addresses_end_with_indices(p, op, names);
    law_address_line(p, op, names);
    let head = "  "@ + names[r.id] + " = "@ + "getelementptr inbounds"@ + " "@;
    let line = head + t + ", "@;
    lemma_plus(p.out + a.line, head, t);
    lemma_plus(p.out + a.line, head + t, ", "@);
    lemma_whole(p.out + a.line + line + a.ty + " "@ + a.name);
    lemma_refers(p.gep(op, names).out, p.out, a, line);
}

/// An atomic load refers to its pointer.
proof fn lemma_atomic_load_refers(p: Printer, op: Operation, names: Map<u64, Seq<char>>)
    requires
        p.error is None,
        p.atomic_load(op, names).error is None,
    ensures
        op.results@[0].ty.spelled() is Ok,
        typed_pointers(p.dialect) ==> p.pointer_value_type(op.operands@[0]) is Ok,
        refers_to(
            p.atomic_load(op, names).out,
            p.out,
            access(p, names, op.operands@[0], op.results@[0].ty.spelled()->Ok_0),
        ),
{
    broadcast use lemma_begins;

    let (ptr, r) = (op.operands@[0], op.results@[0]);
    let t = r.ty.spelled()->Ok_0;
    let a = access(p, names, ptr, t);
    law_atomic_load_line(p, op, names);
    let head = "  "@ + names[r.id] + " = "@ + "load atomic"@ + " "@;
    let line = head + t + ", "@;
    lemma_plus(p.out + a.line, head, t);
    lemma_plus(p.out + a.line, head + t, ", "@);
    lemma_whole(p.out + a.line + line + a.ty + " "@ + a.name);
    lemma_refers(p.atomic_load(op, names).out, p.out, a, line);
}

/// An atomic store refers to its pointer.
proof fn lemma_atomic_store_refers(p: Printer, op: Operation, names: Map<u64, Seq<char>>)
    requires
        p.error is None,
        p.atomic_store(op, names).error is None,
    ensures
        op.operands@[0].ty.spelled() is Ok,
        typed_pointers(p.dialect) ==> p.pointer_value_type(op.operands@[1]) is Ok,
        refers_to(
            p.atomic_store(op, names).out,
            p.out,
            access(p, names, op.operands@[1], op.operands@[0].ty.spelled()->Ok_0),
        ),
{
    broadcast use lemma_begins;

    let (v, ptr) = (op.operands@[0], op.operands@[1]);
    let t = v.ty.spelled()->Ok_0;
    let a = access(p, names, ptr, t);
    law_atomic_store_line(p, op, names);
    let text = value_text(names, v);
    let line = "  store atomic "@ + t + " "@ + text + ", "@;
    lemma_plus(p.out + a.line, "  store atomic "@, t);
    lemma_plus(p.out + a.line, "  store atomic "@ + t, " "@);
    lemma_plus(p.out + a.line, "  store atomic "@ + t + " "@, text);
    lemma_plus(p.out + a.line, "  store atomic "@ + t + " "@ + text, ", "@);
    lemma_whole(p.out + a.line + line + a.ty + " "@ + a.name);
    lemma_refers(p.atomic_store(op, names).out, p.out, a, line);
}

/// An atomic read-modify-write refers to its pointer.
proof fn lemma_read_modify_write_refers(p: Printer, op: Operation, names: Map<u64, Seq<char>>)
    requires
        p.error is None,
        p.atomic_rmw(op, names).error is None,
    ensures
        op.operands@[1].ty.spelled() is Ok,
        typed_pointers(p.dialect) ==> p.pointer_value_type(op.operands@[0]) is Ok,
        refers_to(
            p.atomic_rmw(op, names).out,
            p.out,
            access(p, names, op.operands@[0], op.operands@[1].ty.spelled()->Ok_0),
        ),
{
    broadcast use lemma_begins;

    let (ptr, v, r) = (op.operands@[0], op.operands@[1], op.results@[0]);
    let t = v.ty.spelled()->Ok_0;
    let a = access(p, names, ptr, t);
    law_read_modify_write_line(p, op, names);
    let head = "  "@ + names[r.id] + " = "@ + "atomicrmw"@ + " "@ + op.attrs->AtomicRmw_kind@
        + " "@;
    lemma_whole(p.out + a.line + head + a.ty + " "@ + a.name);
    lemma_refers(p.atomic_rmw(op, names).out, p.out, a, head);
}

/// A compare-and-exchange refers to its pointer.
proof fn lemma_exchange_refers(p: Printer, op: Operation, names: Map<u64, Seq<char>>)
    requires
        p.error is None,
        p.atomic_cmpxchg(op, names).error is None,
    ensures
        op.operands@[1].ty.spelled() is Ok,
        typed_pointers(p.dialect) ==> p.pointer_value_type(op.operands@[0]) is Ok,
        refers_to(
            p.atomic_cmpxchg(op, names).out,
            p.out,
            access(p, names, op.operands@[0], op.operands@[1].ty.spelled()->Ok_0),
        ),
{
    broadcast use lemma_begins;

    let (ptr, ty) = (op.operands@[0], op.operands@[1].ty);
    if ty.spelled() is Err {
        law_exchanges_stop(p, op, names, ty.spelled()->Err_0);
    }
    let t = ty.spelled()->Ok_0;
    let a = access(p, names, ptr, t);
    law_exchange_lines(p, op, names, t);
    let r = names[op.results@[0].id];
    let line = "  "@ + (r + ".cx"@) + " = cmpxchg "@;
    lemma_plus(p.out + a.line, "  "@, r + ".cx"@);
    lemma_plus(p.out + a.line, "  "@ + (r + ".cx"@), " = cmpxchg "@);
    lemma_whole(p.out + a.line + line + a.ty + " "@ + a.name);
    lemma_refers(p.atomic_cmpxchg(op, names).out, p.out, a, line);
}

} // verus!
