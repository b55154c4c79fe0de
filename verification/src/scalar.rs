//! Arithmetic, comparisons, casts and aggregates.
use std::collections::HashMap;
use vstd::prelude::*;
use vstd::string::StringExecFns;

use crate::ir::{OpAttrs, Operation, TypeKind};
use crate::state::{begin_definition, failure, name_of, typed_pointers};
use crate::state::{ModuleExportState, Printer};
use crate::text::texts;

verus! {

broadcast use {
    vstd::std_specs::hash::group_hash_axioms,
    crate::text::lemma_texts_insert,
    crate::text::lemma_texts,
    crate::state::lemma_numbers_stopped,
};

/// Whether an operation has at least so many operands, and a first result that
/// is named.
pub open spec fn computes(op: Operation, operands: nat, names: Map<u64, Seq<char>>) -> bool {
    op.operands@.len() >= operands && op.results@.len() >= 1 && names.contains_key(
        op.results@[0].id,
    )
}

/// Whether a zero extension is marked to take non-negative values only.
pub open spec fn is_nneg(attrs: OpAttrs) -> bool {
    match attrs {
        OpAttrs::ZExt { nneg: Some(b) } => b,
        _ => false,
    }
}

impl Printer {
    /// Prints an operation on two values of the same type.
    pub open spec fn binop(
        self,
        op_name: Seq<char>,
        op: Operation,
        names: Map<u64, Seq<char>>,
    ) -> Printer {
        self.definition(names, op.results@[0], op_name).typed_value(names, op.operands@[0]).text(
            ", "@,
        ).value(names, op.operands@[1]).text("\n"@)
    }

    /// Prints a floating-point negation. With typed pointers there is no
    /// `fneg`, and the value is subtracted from negative zero.
    pub open spec fn fneg(self, op: Operation, names: Map<u64, Seq<char>>) -> Printer {
        let arg = op.operands@[0];
        if typed_pointers(self.dialect) {
            self.definition(names, op.results@[0], "fsub"@).ty(arg.ty).text(
                " -0.000000e+00, "@,
            ).value(names, arg).text("\n"@)
        } else {
            self.definition(names, op.results@[0], "fneg"@).typed_value(names, arg).text("\n"@)
        }
    }

    /// Prints a comparison with the predicate `keyword`.
    pub open spec fn comparison(
        self,
        op_name: Seq<char>,
        keyword: Seq<char>,
        op: Operation,
        names: Map<u64, Seq<char>>,
    ) -> Printer {
        self.definition(names, op.results@[0], op_name).text(keyword).text(" "@).typed_value(
            names,
            op.operands@[0],
        ).text(", "@).value(names, op.operands@[1]).text("\n"@)
    }

    /// Prints a choice between two values of the same type.
    pub open spec fn select(self, op: Operation, names: Map<u64, Seq<char>>) -> Printer {
        let on_true = op.operands@[1];
        let on_false = op.operands@[2];
        self.definition(names, op.results@[0], "select i1"@).value(names, op.operands@[0]).text(
            ", "@,
        ).typed_value(names, on_true).text(", "@).ty(on_true.ty).text(" "@).value(
            names,
            on_false,
        ).text("\n"@)
    }

    /// Prints a cast. With typed pointers, a pointer is cast from the type that
    /// it is defined with, and the type of a pointer result is recorded.
    pub open spec fn cast(
        self,
        op_name: Seq<char>,
        op: Operation,
        names: Map<u64, Seq<char>>,
    ) -> Printer {
        let result = op.results@[0];
        let value = op.operands@[0];
        let begun = self.definition(names, result, op_name);
        let from = if typed_pointers(self.dialect) && value.ty.is_pointer() {
            begun.spelling(self.pointer_value_type(value))
        } else {
            begun.ty(value.ty)
        };
        let to = from.text(" "@).value(names, value).text(" to "@).ty(result.ty);
        let recorded = if typed_pointers(self.dialect) && result.ty.is_pointer() {
            to.record_pointer(result.id, result.ty.spelled())
        } else {
            to
        };
        recorded.text("\n"@)
    }

    /// Prints a zero extension.
    pub open spec fn zext(self, op: Operation, names: Map<u64, Seq<char>>) -> Printer {
        let begun = self.definition(names, op.results@[0], "zext"@);
        let flagged = if is_nneg(op.attrs) {
            begun.text("nneg "@)
        } else {
            begun
        };
        flagged.typed_value(names, op.operands@[0]).text(" to "@).ty(op.results@[0].ty).text(
            "\n"@,
        )
    }

    /// Prints the extraction of a part of an aggregate.
    pub open spec fn extract_value(self, op: Operation, names: Map<u64, Seq<char>>) -> Printer {
        let indices = op.attrs->Indices_0@;
        self.definition(names, op.results@[0], "extractvalue"@).typed_value(
            names,
            op.operands@[0],
        ).numbers(indices, indices.len()).text("\n"@)
    }

    /// Whether the export of an insertion comes to its indices: the types in
    /// front of them can be spelled.
    pub open spec fn inserts(self, op: Operation) -> bool {
        let value = op.operands@[1];
        op.operands@[0].ty.spelled() is Ok && value.ty.spelled() is Ok && (typed_pointers(
            self.dialect,
        ) && value.ty.is_pointer() ==> self.pointer_value_type(value) is Ok)
    }

    /// Prints the insertion of a value into an aggregate. The value is printed
    /// under its erased type; with typed pointers, a pointer that is defined
    /// with another type is cast first.
    pub open spec fn insert_value(self, op: Operation, names: Map<u64, Seq<char>>) -> Printer {
        let indices = op.attrs->Indices_0@;
        let value = op.operands@[1];
        match value.ty.spelled() {
            Err(e) => self.fail(e),
            Ok(slot) => self.coerce_pointer(names, value, slot).definition(
                names,
                op.results@[0],
                "insertvalue"@,
            ).typed_value(names, op.operands@[0]).text(", "@).text(slot).text(" "@).text(
                self.coerced_name(names, value, slot),
            ).numbers(indices, indices.len()).text("\n"@),
        }
    }
}

impl ModuleExportState {
    /// Exports an operation on two values of the same type.
    pub fn export_binop(
        &self,
        op_name: &str,
        op: &Operation,
        value_names: &HashMap<u64, String>,
        output: &mut String,
    ) -> (r: Result<(), String>)
        requires
            computes(*op, 2, texts(value_names@)),
        ensures
            self.printer(final(output)@, failure(r)) == self.printer(old(output)@, None).binop(
                op_name@,
                *op,
                texts(value_names@),
            ),
    {
        begin_definition(output, name_of(value_names, &op.results[0]), op_name);
        self.export_typed_value(&op.operands[0], value_names, output)?;
        output.append(", ");
        self.export_value(&op.operands[1], value_names, output)?;
        output.append("\n");
        Ok(())
    }

    /// Exports a floating-point negation.
    pub fn emit_fneg(
        &mut self,
        op: &Operation,
        value_names: &HashMap<u64, String>,
        output: &mut String,
    ) -> (r: Result<(), String>)
        requires
            computes(*op, 1, texts(value_names@)),
        ensures
            final(self).printer(final(output)@, failure(r)) == old(self).printer(
                old(output)@,
                None,
            ).fneg(*op, texts(value_names@)),
    {
        let res_name = name_of(value_names, &op.results[0]);
        let arg = &op.operands[0];
        if self.has_typed_pointers() {
            begin_definition(output, res_name, "fsub");
            self.export_type(&arg.ty, output)?;
            output.append(" -0.000000e+00, ");
            self.export_value(arg, value_names, output)?;
            output.append("\n");
            return Ok(());
        }
        begin_definition(output, res_name, "fneg");
        self.export_typed_value(arg, value_names, output)?;
        output.append("\n");
        Ok(())
    }

    /// Exports an integer comparison.
    pub fn emit_icmp(
        &mut self,
        op: &Operation,
        value_names: &HashMap<u64, String>,
        output: &mut String,
    ) -> (r: Result<(), String>)
        requires
            computes(*op, 2, texts(value_names@)),
            op.attrs is ICmp,
        ensures
            final(self).printer(final(output)@, failure(r)) == old(self).printer(
                old(output)@,
                None,
            ).comparison("icmp"@, op.attrs->ICmp_0.keyword(), *op, texts(value_names@)),
    {
        if let OpAttrs::ICmp(predicate) = &op.attrs {
            self.emit_comparison("icmp", predicate.as_str(), op, value_names, output)
        } else {
            Ok(())
        }
    }

    /// Exports a floating-point comparison.
    pub fn emit_fcmp(
        &mut self,
        op: &Operation,
        value_names: &HashMap<u64, String>,
        output: &mut String,
    ) -> (r: Result<(), String>)
        requires
            computes(*op, 2, texts(value_names@)),
            op.attrs is FCmp,
        ensures
            final(self).printer(final(output)@, failure(r)) == old(self).printer(
                old(output)@,
                None,
            ).comparison("fcmp"@, op.attrs->FCmp_0.keyword(), *op, texts(value_names@)),
    {
        if let OpAttrs::FCmp(predicate) = &op.attrs {
            self.emit_comparison("fcmp", predicate.as_str(), op, value_names, output)
        } else {
            Ok(())
        }
    }

    /// Exports a comparison with the predicate `keyword`.
    fn emit_comparison(
        &self,
        op_name: &str,
        keyword: &str,
        op: &Operation,
        value_names: &HashMap<u64, String>,
        output: &mut String,
    ) -> (r: Result<(), String>)
        requires
            computes(*op, 2, texts(value_names@)),
        ensures
            self.printer(final(output)@, failure(r)) == self.printer(
                old(output)@,
                None,
            ).comparison(op_name@, keyword@, *op, texts(value_names@)),
    {
        begin_definition(output, name_of(value_names, &op.results[0]), op_name);
        output.append(keyword);
        output.append(" ");
        self.export_typed_value(&op.operands[0], value_names, output)?;
        output.append(", ");
        self.export_value(&op.operands[1], value_names, output)?;
        output.append("\n");
        Ok(())
    }

    /// Exports a choice between two values.
    pub fn emit_select(
        &mut self,
        op: &Operation,
        value_names: &HashMap<u64, String>,
        output: &mut String,
    ) -> (r: Result<(), String>)
        requires
            computes(*op, 3, texts(value_names@)),
        ensures
            final(self).printer(final(output)@, failure(r)) == old(self).printer(
                old(output)@,
                None,
            ).select(*op, texts(value_names@)),
    {
        let true_val = &op.operands[1];
        begin_definition(output, name_of(value_names, &op.results[0]), "select i1");
        self.export_value(&op.operands[0], value_names, output)?;
        output.append(", ");
        self.export_typed_value(true_val, value_names, output)?;
        output.append(", ");
        self.export_type(&true_val.ty, output)?;
        output.append(" ");
        self.export_value(&op.operands[2], value_names, output)?;
        output.append("\n");
        Ok(())
    }

    /// Exports a cast: `%res = <op_name> <source type> <value> to <result type>`.
    pub fn export_cast(
        &mut self,
        op_name: &str,
        op: &Operation,
        value_names: &HashMap<u64, String>,
        output: &mut String,
    ) -> (r: Result<(), String>)
        requires
            computes(*op, 1, texts(value_names@)),
        ensures
            final(self).printer(final(output)@, failure(r)) == old(self).printer(
                old(output)@,
                None,
            ).cast(op_name@, *op, texts(value_names@)),
    {
        let res = &op.results[0];
        let val = &op.operands[0];
        begin_definition(output, name_of(value_names, res), op_name);
        let typed = self.has_typed_pointers();
        let val_is_ptr = matches!(val.ty.kind, TypeKind::Pointer { address_space: _ });
        let res_is_ptr = matches!(res.ty.kind, TypeKind::Pointer { address_space: _ });
        if typed && val_is_ptr {
            let val_type = self.pointer_value_type(val)?;
            output.append(val_type.as_str());
        } else {
            self.export_type(&val.ty, output)?;
        }
        output.append(" ");
        self.export_value(val, value_names, output)?;
        output.append(" to ");
        if typed && res_is_ptr {
            let res_type = self.type_to_string(&res.ty)?;
            output.append(res_type.as_str());
            self.typed_pointer_value_types.insert(res.id, res_type);
        } else {
            self.export_type(&res.ty, output)?;
        }
        output.append("\n");
        Ok(())
    }

    /// Exports a zero extension.
    pub fn emit_zext(
        &mut self,
        op: &Operation,
        value_names: &HashMap<u64, String>,
        output: &mut String,
    ) -> (r: Result<(), String>)
        requires
            computes(*op, 1, texts(value_names@)),
        ensures
            final(self).printer(final(output)@, failure(r)) == old(self).printer(
                old(output)@,
                None,
            ).zext(*op, texts(value_names@)),
    {
        let nneg = match &op.attrs {
            OpAttrs::ZExt { nneg: Some(b) } => *b,
            _ => false,
        };
        begin_definition(output, name_of(value_names, &op.results[0]), "zext");
        if nneg {
            output.append("nneg ");
        }
        self.export_typed_value(&op.operands[0], value_names, output)?;
        output.append(" to ");
        self.export_type(&op.results[0].ty, output)?;
        output.append("\n");
        Ok(())
    }

    /// Exports the extraction of a part of an aggregate.
    pub fn emit_extract_value(
        &mut self,
        op: &Operation,
        value_names: &HashMap<u64, String>,
        output: &mut String,
    ) -> (r: Result<(), String>)
        requires
            computes(*op, 1, texts(value_names@)),
            op.operands@[0].ty.spelled() is Ok ==> op.attrs is Indices,
        ensures
            final(self).printer(final(output)@, failure(r)) == old(self).printer(
                old(output)@,
                None,
            ).extract_value(*op, texts(value_names@)),
    {
        begin_definition(output, name_of(value_names, &op.results[0]), "extractvalue");
        self.export_typed_value(&op.operands[0], value_names, output)?;
        if let OpAttrs::Indices(indices) = &op.attrs {
            self.export_numbers(indices, output);
        }
        output.append("\n");
        Ok(())
    }

    /// Exports the insertion of a value into an aggregate.
    ///
    /// The inserted value is printed under the type of its field, which is
    /// erased, while the value may be defined with a concrete pointee. The cast
    /// that reconciles the two comes before the line of the insertion.
    pub fn emit_insert_value(
        &mut self,
        op: &Operation,
        value_names: &HashMap<u64, String>,
        output: &mut String,
    ) -> (r: Result<(), String>)
        requires
            computes(*op, 2, texts(value_names@)),
            old(self).printer(old(output)@, None).inserts(*op) ==> op.attrs is Indices,
            op.operands@[1].ty.spelled() matches Ok(slot) ==> old(self).can_coerce(
                op.operands@[1],
                slot,
            ),
        ensures
            final(self).printer(final(output)@, failure(r)) == old(self).printer(
                old(output)@,
                None,
            ).insert_value(*op, texts(value_names@)),
    {
        let val = &op.operands[1];
        let val_type = self.type_to_string(&val.ty)?;
        let val_name = self.coerce_pointer_value(val, val_type.as_str(), value_names, output)?;
        begin_definition(output, name_of(value_names, &op.results[0]), "insertvalue");
        self.export_typed_value(&op.operands[0], value_names, output)?;
        output.append(", ");
        output.append(val_type.as_str());
        output.append(" ");
        output.append(val_name.as_str());
        if let OpAttrs::Indices(indices) = &op.attrs {
            self.export_numbers(indices, output);
        }
        output.append("\n");
        Ok(())
    }
}

} // verus!
