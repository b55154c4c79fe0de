//! Memory: loads, stores, allocation, address computation and atomics.
use std::collections::HashMap;
use vstd::prelude::*;
use vstd::string::StringExecFns;

use crate::ir::{addrspace_of, GepIndexAttr, OpAttrs, Operation, Type, Value};
use crate::scalar::computes;
use crate::state::{begin_definition, failure, name_of, pointer_type, typed_pointers};
use crate::state::{ModuleExportState, Printer};
use crate::text::{decimal, push_decimal, texts};

verus! {

broadcast use {
    vstd::std_specs::hash::group_hash_axioms,
    crate::text::lemma_texts_insert,
    crate::text::lemma_texts,
};

/// Whether an index of an address computation is a constant, or an operand that
/// exists.
pub open spec fn index_exists(index: GepIndexAttr, operands: Seq<Value>) -> bool {
    match index {
        GepIndexAttr::Constant(_) => true,
        GepIndexAttr::OperandIdx(k) => k < operands.len(),
    }
}

/// Whether an index can be printed: it is a constant, or an operand that exists
/// and whose type can be spelled.
pub open spec fn index_spelled(index: GepIndexAttr, operands: Seq<Value>) -> bool {
    match index {
        GepIndexAttr::Constant(_) => true,
        GepIndexAttr::OperandIdx(k) => k < operands.len() && operands[k as int].ty.spelled() is Ok,
    }
}

/// Whether the indices of an address computation refer to operands that exist,
/// up to the first one whose type cannot be spelled.
pub open spec fn indices_exist(indices: Seq<GepIndexAttr>, operands: Seq<Value>) -> bool {
    forall|i: int|
        0 <= i < indices.len() && (forall|j: int|
            0 <= j < i ==> index_spelled(#[trigger] indices[j], operands)) ==> index_exists(
            #[trigger] indices[i],
            operands,
        )
}

/// The type that an address computation leads to: the indexed type, or the
/// source type where that cannot be computed.
pub open spec fn gep_pointee(source_type: Type, indexed_type: Option<Type>) -> Type {
    match indexed_type {
        Some(ty) => ty,
        None => source_type,
    }
}

impl Printer {
    /// Prints a pointer operand behind its type, where the operand is referred
    /// to by `name`.
    pub open spec fn typed_pointer(
        self,
        pointee: Type,
        addrspace: u32,
        name: Seq<char>,
    ) -> Printer {
        self.spelling(self.ptr_operand_type(pointee, addrspace)).text(name)
    }

    /// Prints a pointer operand in the same way, behind a comma.
    pub open spec fn next_typed_pointer(
        self,
        pointee: Type,
        addrspace: u32,
        name: Seq<char>,
    ) -> Printer {
        self.spelling_behind(", "@, self.ptr_operand_type(pointee, addrspace)).text(name)
    }

    /// Prints the end of an atomic instruction.
    pub open spec fn atomic_tail(self, syncscope: Seq<char>, ordering: Seq<char>) -> Printer {
        self.text(syncscope).text(" "@).text(ordering)
    }

    /// Prints a load.
    pub open spec fn load(self, op: Operation, names: Map<u64, Seq<char>>) -> Printer {
        let ptr = op.operands@[0];
        let ty = op.results@[0].ty;
        let space = ptr.ty.address_space();
        let name = self.pointer_operand_name(names, ptr, ty, space);
        self.pointer_operand(names, ptr, ty, space).definition(names, op.results@[0], "load"@).ty(
            ty,
        ).next_typed_pointer(ty, space, name).text("\n"@)
    }

    /// Prints a store.
    pub open spec fn store(self, op: Operation, names: Map<u64, Seq<char>>) -> Printer {
        let value = op.operands@[0];
        let ptr = op.operands@[1];
        let space = ptr.ty.address_space();
        let name = self.pointer_operand_name(names, ptr, value.ty, space);
        self.pointer_operand(names, ptr, value.ty, space).text("  store "@).typed_value(
            names,
            value,
        ).next_typed_pointer(value.ty, space, name).text("\n"@)
    }

    /// Prints an allocation, and records the typed pointer type of its result.
    pub open spec fn alloca(self, op: Operation, names: Map<u64, Seq<char>>) -> Printer {
        let element = op.attrs->Alloca_element_type;
        self.definition(names, op.results@[0], "alloca"@).ty(element).text("\n"@).record_pointer(
            op.results@[0].id,
            pointer_type(element, 0),
        )
    }

    /// Prints the first `k` indices of an address computation.
    pub open spec fn gep_indices(
        self,
        indices: Seq<GepIndexAttr>,
        operands: Seq<Value>,
        names: Map<u64, Seq<char>>,
        k: nat,
    ) -> Printer
        decreases k,
    {
        if k == 0 {
            self
        } else {
            let p = self.gep_indices(indices, operands, names, (k - 1) as nat).text(", "@);
            match indices[k - 1] {
                GepIndexAttr::Constant(n) => p.text("i32 "@).text(decimal(n as nat)),
                GepIndexAttr::OperandIdx(i) => p.typed_value(names, operands[i as int]),
            }
        }
    }

    /// Whether the export of an address computation comes to its indices: the
    /// types in front of them can be spelled.
    pub open spec fn reaches_indices(self, op: Operation) -> bool {
        op.attrs->GetElementPtr_source_type.spelled() is Ok && (typed_pointers(self.dialect)
            ==> self.pointer_value_type(op.operands@[0]) is Ok)
    }

    /// Prints an address computation, and records the typed pointer type of its
    /// result.
    pub open spec fn gep(self, op: Operation, names: Map<u64, Seq<char>>) -> Printer {
        let ptr = op.operands@[0];
        let space = ptr.ty.address_space();
        let source = op.attrs->GetElementPtr_source_type;
        let indices = op.attrs->GetElementPtr_indices@;
        let name = self.pointer_operand_name(names, ptr, source, space);
        self.pointer_operand(names, ptr, source, space).definition(
            names,
            op.results@[0],
            "getelementptr inbounds"@,
        ).ty(source).next_typed_pointer(source, space, name).gep_indices(
            indices,
            op.operands@,
            names,
            indices.len(),
        ).text("\n"@).record_pointer(
            op.results@[0].id,
            pointer_type(gep_pointee(source, op.attrs->GetElementPtr_indexed_type), space),
        )
    }

    /// Prints an atomic load.
    pub open spec fn atomic_load(self, op: Operation, names: Map<u64, Seq<char>>) -> Printer {
        let ptr = op.operands@[0];
        let ty = op.results@[0].ty;
        let space = ptr.ty.address_space();
        let name = self.pointer_operand_name(names, ptr, ty, space);
        self.pointer_operand(names, ptr, ty, space).definition(
            names,
            op.results@[0],
            "load atomic"@,
        ).ty(ty).next_typed_pointer(ty, space, name).atomic_tail(
            op.attrs->Atomic_syncscope@,
            op.attrs->Atomic_ordering@,
        ).text(", align "@).text(decimal(ty.natural_alignment as nat)).text("\n"@)
    }

    /// Prints an atomic store.
    pub open spec fn atomic_store(self, op: Operation, names: Map<u64, Seq<char>>) -> Printer {
        let value = op.operands@[0];
        let ptr = op.operands@[1];
        let space = ptr.ty.address_space();
        let name = self.pointer_operand_name(names, ptr, value.ty, space);
        self.pointer_operand(names, ptr, value.ty, space).text("  store atomic "@).typed_value(
            names,
            value,
        ).next_typed_pointer(value.ty, space, name).atomic_tail(
            op.attrs->Atomic_syncscope@,
            op.attrs->Atomic_ordering@,
        ).text(", align "@).text(decimal(value.ty.natural_alignment as nat)).text("\n"@)
    }

    /// Prints an atomic read-modify-write.
    pub open spec fn atomic_rmw(self, op: Operation, names: Map<u64, Seq<char>>) -> Printer {
        let ptr = op.operands@[0];
        let value = op.operands@[1];
        let space = ptr.ty.address_space();
        let name = self.pointer_operand_name(names, ptr, value.ty, space);
        self.pointer_operand(names, ptr, value.ty, space).definition(
            names,
            op.results@[0],
            "atomicrmw"@,
        ).text(op.attrs->AtomicRmw_kind@).text(" "@).typed_pointer(value.ty, space, name).text(
            ", "@,
        ).typed_value(names, value).atomic_tail(
            op.attrs->AtomicRmw_syncscope@,
            op.attrs->AtomicRmw_ordering@,
        ).text("\n"@)
    }

    /// Prints a compare-and-exchange, which gives the old value and whether it
    /// was exchanged, and the extraction of the old value.
    pub open spec fn atomic_cmpxchg(self, op: Operation, names: Map<u64, Seq<char>>) -> Printer {
        let ptr = op.operands@[0];
        let expected = op.operands@[1];
        let replacement = op.operands@[2];
        let ty = expected.ty;
        let space = ptr.ty.address_space();
        let name = self.pointer_operand_name(names, ptr, ty, space);
        let pair = names[op.results@[0].id] + ".cx"@;
        self.pointer_operand(names, ptr, ty, space).text("  "@).text(pair).text(
            " = cmpxchg "@,
        ).typed_pointer(ty, space, name).text(", "@).typed_value(names, expected).text(
            ", "@,
        ).ty(ty).text(" "@).value(names, replacement).atomic_tail(
            op.attrs->AtomicCmpxchg_syncscope@,
            op.attrs->AtomicCmpxchg_success_ordering@,
        ).text(" "@).text(op.attrs->AtomicCmpxchg_failure_ordering@).text("\n"@).definition(
            names,
            op.results@[0],
            "extractvalue {"@,
        ).ty(ty).text(", i1 } "@).text(pair).text(", 0\n"@)
    }

    /// Prints a fence.
    pub open spec fn fence(self, op: Operation) -> Printer {
        self.text("  fence"@).atomic_tail(
            op.attrs->Atomic_syncscope@,
            op.attrs->Atomic_ordering@,
        ).text("\n"@)
    }
}

impl ModuleExportState {
    /// Exports a load.
    pub fn emit_load(
        &mut self,
        op: &Operation,
        value_names: &HashMap<u64, String>,
        output: &mut String,
    ) -> (r: Result<(), String>)
        requires
            computes(*op, 1, texts(value_names@)),
            old(self).can_use(
                op.operands@[0],
                op.results@[0].ty,
                op.operands@[0].ty.address_space(),
            ),
        ensures
            final(self).printer(final(output)@, failure(r)) == old(self).printer(
                old(output)@,
                None,
            ).load(*op, texts(value_names@)),
    {
        let res = &op.results[0];
        let ptr = &op.operands[0];
        let addrspace = addrspace_of(&ptr.ty);
        let ptr_name = self.pointer_operand(ptr, &res.ty, addrspace, value_names, output)?;
        begin_definition(output, name_of(value_names, res), "load");
        self.export_type(&res.ty, output)?;
        self.export_next_pointer(&res.ty, addrspace, ptr_name.as_str(), output)?;
        output.append("\n");
        Ok(())
    }

    /// Exports a store.
    pub fn emit_store(
        &mut self,
        op: &Operation,
        value_names: &HashMap<u64, String>,
        output: &mut String,
    ) -> (r: Result<(), String>)
        requires
            op.operands@.len() >= 2,
            old(self).can_use(
                op.operands@[1],
                op.operands@[0].ty,
                op.operands@[1].ty.address_space(),
            ),
        ensures
            final(self).printer(final(output)@, failure(r)) == old(self).printer(
                old(output)@,
                None,
            ).store(*op, texts(value_names@)),
    {
        let val = &op.operands[0];
        let ptr = &op.operands[1];
        let addrspace = addrspace_of(&ptr.ty);
        let ptr_name = self.pointer_operand(ptr, &val.ty, addrspace, value_names, output)?;
        output.append("  store ");
        self.export_typed_value(val, value_names, output)?;
        self.export_next_pointer(&val.ty, addrspace, ptr_name.as_str(), output)?;
        output.append("\n");
        Ok(())
    }

    /// Exports an allocation.
    pub fn emit_alloca(
        &mut self,
        op: &Operation,
        value_names: &HashMap<u64, String>,
        output: &mut String,
    ) -> (r: Result<(), String>)
        requires
            computes(*op, 0, texts(value_names@)),
            op.attrs is Alloca,
        ensures
            final(self).printer(final(output)@, failure(r)) == old(self).printer(
                old(output)@,
                None,
            ).alloca(*op, texts(value_names@)),
    {
        if let OpAttrs::Alloca { element_type } = &op.attrs {
            let res = &op.results[0];
            begin_definition(output, name_of(value_names, res), "alloca");
            self.export_type(element_type, output)?;
            output.append("\n");
            let pointer_type = self.pointer_type_for_pointee(element_type, 0)?;
            self.typed_pointer_value_types.insert(res.id, pointer_type);
        }
        Ok(())
    }

    /// Exports an address computation.
    pub fn emit_gep(
        &mut self,
        op: &Operation,
        value_names: &HashMap<u64, String>,
        output: &mut String,
    ) -> (r: Result<(), String>)
        requires
            computes(*op, 1, texts(value_names@)),
            op.attrs is GetElementPtr,
            old(self).printer(old(output)@, None).reaches_indices(*op) ==> indices_exist(
                op.attrs->GetElementPtr_indices@,
                op.operands@,
            ),
            old(self).can_use(
                op.operands@[0],
                op.attrs->GetElementPtr_source_type,
                op.operands@[0].ty.address_space(),
            ),
        ensures
            final(self).printer(final(output)@, failure(r)) == old(self).printer(
                old(output)@,
                None,
            ).gep(*op, texts(value_names@)),
    {
        broadcast use lemma_gep_indices_stopped;

        if let OpAttrs::GetElementPtr { source_type, indices, indexed_type } = &op.attrs {
            let res = &op.results[0];
            let ptr = &op.operands[0];
            let addrspace = addrspace_of(&ptr.ty);
            let ptr_name = self.pointer_operand(ptr, source_type, addrspace, value_names, output)?;
            begin_definition(output, name_of(value_names, res), "getelementptr inbounds");
            self.export_type(source_type, output)?;
            self.export_next_pointer(source_type, addrspace, ptr_name.as_str(), output)?;
            self.export_gep_indices(indices, &op.operands, value_names, output)?;
            output.append("\n");
            let result_pointee = match indexed_type {
                Some(ty) => ty,
                None => source_type,
            };
            let result_type = self.pointer_type_for_pointee(result_pointee, addrspace)?;
            self.typed_pointer_value_types.insert(res.id, result_type);
        }
        Ok(())
    }

    /// Prints the indices of an address computation.
    fn export_gep_indices(
        &self,
        indices: &Vec<GepIndexAttr>,
        operands: &Vec<Value>,
        value_names: &HashMap<u64, String>,
        output: &mut String,
    ) -> (r: Result<(), String>)
        requires
            indices_exist(indices@, operands@),
        ensures
            self.printer(final(output)@, failure(r)) == self.printer(
                old(output)@,
                None,
            ).gep_indices(indices@, operands@, texts(value_names@), indices@.len()),
    {
        let ghost start = self.printer(output@, None);
        let ghost names = texts(value_names@);
        for i in 0..indices.len()
            invariant
                start == self.printer(old(output)@, None),
                names == texts(value_names@),
                indices_exist(indices@, operands@),
                forall|j: int| 0 <= j < i ==> index_spelled(#[trigger] indices@[j], operands@),
                self.printer(output@, None) == start.gep_indices(
                    indices@,
                    operands@,
                    names,
                    i as nat,
                ),
        {
            assert(index_exists(indices@[i as int], operands@));
            output.append(", ");
            match indices[i] {
                GepIndexAttr::Constant(val) => {
                    output.append("i32 ");
                    push_decimal(output, val as u128);
                },
                GepIndexAttr::OperandIdx(operand_idx) => {
                    match self.export_typed_value(&operands[operand_idx], value_names, output) {
                        Ok(_) => {},
                        Err(e) => {
                            proof {
                                lemma_gep_indices_kept(
                                    start,
                                    indices@,
                                    operands@,
                                    names,
                                    (i + 1) as nat,
                                    indices@.len(),
                                );
                            }
                            return Err(e);
                        },
                    }
                },
            }
        }
        Ok(())
    }

    /// Prints a pointer operand behind its type, where the operand is referred
    /// to by `name`.
    fn export_pointer(
        &self,
        pointee: &Type,
        addrspace: u32,
        name: &str,
        output: &mut String,
    ) -> (r: Result<(), String>)
        ensures
            self.printer(final(output)@, failure(r)) == self.printer(
                old(output)@,
                None,
            ).typed_pointer(*pointee, addrspace, name@),
    {
        let ty = self.ptr_operand_type(pointee, addrspace)?;
        output.append(ty.as_str());
        output.append(name);
        Ok(())
    }

    /// Prints a pointer operand in the same way, behind a comma.
    fn export_next_pointer(
        &self,
        pointee: &Type,
        addrspace: u32,
        name: &str,
        output: &mut String,
    ) -> (r: Result<(), String>)
        ensures
            self.printer(final(output)@, failure(r)) == self.printer(
                old(output)@,
                None,
            ).next_typed_pointer(*pointee, addrspace, name@),
    {
        let ty = self.ptr_operand_type(pointee, addrspace)?;
        output.append(", ");
        output.append(ty.as_str());
        output.append(name);
        Ok(())
    }

    /// Exports an atomic load.
    pub fn emit_atomic_load(
        &mut self,
        op: &Operation,
        value_names: &HashMap<u64, String>,
        output: &mut String,
    ) -> (r: Result<(), String>)
        requires
            computes(*op, 1, texts(value_names@)),
            op.attrs is Atomic,
            old(self).can_use(
                op.operands@[0],
                op.results@[0].ty,
                op.operands@[0].ty.address_space(),
            ),
        ensures
            final(self).printer(final(output)@, failure(r)) == old(self).printer(
                old(output)@,
                None,
            ).atomic_load(*op, texts(value_names@)),
    {
        if let OpAttrs::Atomic { syncscope, ordering } = &op.attrs {
            let res = &op.results[0];
            let ptr = &op.operands[0];
            let addrspace = addrspace_of(&ptr.ty);
            let ptr_name = self.pointer_operand(ptr, &res.ty, addrspace, value_names, output)?;
            begin_definition(output, name_of(value_names, res), "load atomic");
            self.export_type(&res.ty, output)?;
            self.export_next_pointer(&res.ty, addrspace, ptr_name.as_str(), output)?;
            self.export_atomic_tail(syncscope, ordering, output);
            output.append(", align ");
            push_decimal(output, res.ty.natural_alignment as u128);
            output.append("\n");
        }
        Ok(())
    }

    /// Prints the end of an atomic instruction.
    fn export_atomic_tail(&self, syncscope: &String, ordering: &String, output: &mut String)
        ensures
            self.printer(final(output)@, None) == self.printer(old(output)@, None).atomic_tail(
                syncscope@,
                ordering@,
            ),
    {
        output.append(syncscope.as_str());
        output.append(" ");
        output.append(ordering.as_str());
    }

    /// Exports an atomic store.
    pub fn emit_atomic_store(
        &mut self,
        op: &Operation,
        value_names: &HashMap<u64, String>,
        output: &mut String,
    ) -> (r: Result<(), String>)
        requires
            op.operands@.len() >= 2,
            op.attrs is Atomic,
            old(self).can_use(
                op.operands@[1],
                op.operands@[0].ty,
                op.operands@[1].ty.address_space(),
            ),
        ensures
            final(self).printer(final(output)@, failure(r)) == old(self).printer(
                old(output)@,
                None,
            ).atomic_store(*op, texts(value_names@)),
    {
        if let OpAttrs::Atomic { syncscope, ordering } = &op.attrs {
            let val = &op.operands[0];
            let ptr = &op.operands[1];
            let addrspace = addrspace_of(&ptr.ty);
            let ptr_name = self.pointer_operand(ptr, &val.ty, addrspace, value_names, output)?;
            output.append("  store atomic ");
            self.export_typed_value(val, value_names, output)?;
            self.export_next_pointer(&val.ty, addrspace, ptr_name.as_str(), output)?;
            self.export_atomic_tail(syncscope, ordering, output);
            output.append(", align ");
            push_decimal(output, val.ty.natural_alignment as u128);
            output.append("\n");
        }
        Ok(())
    }

    /// Exports an atomic read-modify-write.
    pub fn emit_atomic_rmw(
        &mut self,
        op: &Operation,
        value_names: &HashMap<u64, String>,
        output: &mut String,
    ) -> (r: Result<(), String>)
        requires
            computes(*op, 2, texts(value_names@)),
            op.attrs is AtomicRmw,
            old(self).can_use(
                op.operands@[0],
                op.operands@[1].ty,
                op.operands@[0].ty.address_space(),
            ),
        ensures
            final(self).printer(final(output)@, failure(r)) == old(self).printer(
                old(output)@,
                None,
            ).atomic_rmw(*op, texts(value_names@)),
    {
        if let OpAttrs::AtomicRmw { kind, syncscope, ordering } = &op.attrs {
            let ptr = &op.operands[0];
            let val = &op.operands[1];
            let addrspace = addrspace_of(&ptr.ty);
            let ptr_name = self.pointer_operand(ptr, &val.ty, addrspace, value_names, output)?;
            begin_definition(output, name_of(value_names, &op.results[0]), "atomicrmw");
            output.append(kind.as_str());
            output.append(" ");
            self.export_pointer(&val.ty, addrspace, ptr_name.as_str(), output)?;
            output.append(", ");
            self.export_typed_value(val, value_names, output)?;
            self.export_atomic_tail(syncscope, ordering, output);
            output.append("\n");
        }
        Ok(())
    }

    /// Exports a compare-and-exchange.
    pub fn emit_atomic_cmpxchg(
        &mut self,
        op: &Operation,
        value_names: &HashMap<u64, String>,
        output: &mut String,
    ) -> (r: Result<(), String>)
        requires
            computes(*op, 3, texts(value_names@)),
            op.attrs is AtomicCmpxchg,
            old(self).can_use(
                op.operands@[0],
                op.operands@[1].ty,
                op.operands@[0].ty.address_space(),
            ),
        ensures
            final(self).printer(final(output)@, failure(r)) == old(self).printer(
                old(output)@,
                None,
            ).atomic_cmpxchg(*op, texts(value_names@)),
    {
        if let OpAttrs::AtomicCmpxchg { syncscope, success_ordering, failure_ordering }
            = &op.attrs {
            let ptr = &op.operands[0];
            let expected = &op.operands[1];
            let addrspace = addrspace_of(&ptr.ty);
            let ptr_name = self.pointer_operand(
                ptr,
                &expected.ty,
                addrspace,
                value_names,
                output,
            )?;
            let res_name = name_of(value_names, &op.results[0]);
            let mut pair = res_name.to_string();
            pair.append(".cx");
            output.append("  ");
            output.append(pair.as_str());
            output.append(" = cmpxchg ");
            self.export_pointer(&expected.ty, addrspace, ptr_name.as_str(), output)?;
            output.append(", ");
            self.export_typed_value(expected, value_names, output)?;
            output.append(", ");
            self.export_type(&expected.ty, output)?;
            output.append(" ");
            self.export_value(&op.operands[2], value_names, output)?;
            self.export_atomic_tail(syncscope, success_ordering, output);
            output.append(" ");
            output.append(failure_ordering.as_str());
            output.append("\n");
            begin_definition(output, res_name, "extractvalue {");
            self.export_type(&expected.ty, output)?;
            output.append(", i1 } ");
            output.append(pair.as_str());
            output.append(", 0\n");
        }
        Ok(())
    }

    /// Exports a fence.
    pub fn emit_fence(&self, op: &Operation, output: &mut String) -> (r: Result<(), String>)
        requires
            op.attrs is Atomic,
        ensures
            self.printer(final(output)@, failure(r)) == self.printer(old(output)@, None).fence(
                *op,
            ),
    {
        if let OpAttrs::Atomic { syncscope, ordering } = &op.attrs {
            output.append("  fence");
            self.export_atomic_tail(syncscope, ordering, output);
            output.append("\n");
        }
        Ok(())
    }
}

/// No further index is printed behind an error.
pub(crate) proof fn lemma_gep_indices_kept(
    p: Printer,
    indices: Seq<GepIndexAttr>,
    operands: Seq<Value>,
    names: Map<u64, Seq<char>>,
    k: nat,
    m: nat,
)
    requires
        k <= m,
        p.gep_indices(indices, operands, names, k).error is Some,
    ensures
        p.gep_indices(indices, operands, names, m) == p.gep_indices(indices, operands, names, k),
    decreases m,
{
    if k < m {
        lemma_gep_indices_kept(p, indices, operands, names, k, (m - 1) as nat);
    }
}

/// Indices are not printed behind an error.
pub broadcast proof fn lemma_gep_indices_stopped(
    p: Printer,
    indices: Seq<GepIndexAttr>,
    operands: Seq<Value>,
    names: Map<u64, Seq<char>>,
    k: nat,
)
    requires
        p.error is Some,
    ensures
        #[trigger] p.gep_indices(indices, operands, names, k) == p,
    decreases k,
{
    if k > 0 {
        lemma_gep_indices_stopped(p, indices, operands, names, (k - 1) as nat);
    }
}

} // verus!
