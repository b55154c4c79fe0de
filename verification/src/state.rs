//! State of a module export, and how types, values and pointer operands are
//! printed.
//!
//! What a piece of the exporter does is stated over a [`Printer`]: the output
//! so far, the part of the state that printing reads and changes, and the
//! error that stopped it. Once there is an error nothing more is printed or
//! changed.
use std::collections::HashMap;
use vstd::prelude::*;
use vstd::string::StringExecFns;

use crate::config::NvvmIrDialect;
use crate::ir::{Spelling, Type, Value};
use crate::text::{decimal, push_decimal, texts};

verus! {

broadcast use {
    vstd::std_specs::hash::group_hash_axioms,
    crate::text::lemma_texts_insert,
    crate::text::lemma_texts,
};

/// The name of the temporary with number `n`.
pub open spec fn temp_name(n: nat) -> Seq<char> {
    "%v"@ + decimal(n)
}

/// The name of the pointer cast with number `n`.
pub open spec fn cast_name(n: nat) -> Seq<char> {
    "%ptrcast"@ + decimal(n)
}

/// How a value is referred to: by its name, or as `undef` where it has none.
pub open spec fn value_text(names: Map<u64, Seq<char>>, value: Value) -> Seq<char> {
    if names.contains_key(value.id) {
        names[value.id]
    } else {
        "undef"@
    }
}

/// The spelling of a typed pointer to `pointee` in an address space.
pub open spec fn pointer_type(pointee: Type, addrspace: u32) -> Result<Seq<char>, Seq<char>> {
    match pointee.spelled() {
        Ok(s) => if addrspace != 0 {
            Ok(s + " addrspace("@ + decimal(addrspace as nat) + ")*"@)
        } else {
            Ok(s + "*"@)
        },
        Err(e) => Err(e),
    }
}

/// The pointer operand prefix of memory instructions with opaque pointers.
pub open spec fn opaque_qualifier(addrspace: u32) -> Seq<char> {
    if addrspace != 0 {
        "ptr addrspace("@ + decimal(addrspace as nat) + ") "@
    } else {
        "ptr "@
    }
}

/// Whether a dialect is that of typed pointers.
pub open spec fn typed_pointers(dialect: Option<NvvmIrDialect>) -> bool {
    dialect == Some(NvvmIrDialect::TypedPointers)
}

/// The output of an export in progress, with the state that it goes by.
#[verifier::ext_equal]
pub struct Printer {
    /// The dialect, where the export is one of NVVM IR.
    pub dialect: Option<NvvmIrDialect>,
    /// Whether anything convergent has been printed.
    pub convergent_used: bool,
    /// Number of the next pointer cast.
    pub next_cast: nat,
    /// The typed pointer types under which values are known to be defined.
    pub pointer_types: Map<u64, Seq<char>>,
    /// What has been printed.
    pub out: Seq<char>,
    /// The message of the error that stopped the export, if one did.
    pub error: Option<Seq<char>>,
}

impl Printer {
    /// Prints a text.
    pub open spec fn text(self, s: Seq<char>) -> Printer {
        if self.error is Some {
            self
        } else {
            Printer { out: self.out + s, ..self }
        }
    }

    /// Stops with an error.
    pub open spec fn fail(self, message: Seq<char>) -> Printer {
        if self.error is Some {
            self
        } else {
            Printer { error: Some(message), ..self }
        }
    }

    /// Prints what could be spelled, or stops with the error of what could not.
    pub open spec fn spelling(self, r: Result<Seq<char>, Seq<char>>) -> Printer {
        match r {
            Ok(s) => self.text(s),
            Err(e) => self.fail(e),
        }
    }

    /// Prints a type.
    pub open spec fn ty(self, ty: Type) -> Printer {
        self.spelling(ty.spelled())
    }

    /// Prints a reference to a value.
    pub open spec fn value(self, names: Map<u64, Seq<char>>, value: Value) -> Printer {
        self.text(value_text(names, value))
    }

    /// Prints a value behind its type.
    pub open spec fn typed_value(self, names: Map<u64, Seq<char>>, value: Value) -> Printer {
        self.ty(value.ty).text(" "@).value(names, value)
    }

    /// Begins the line that defines a value: its name, then `head`.
    pub open spec fn definition(
        self,
        names: Map<u64, Seq<char>>,
        result: Value,
        head: Seq<char>,
    ) -> Printer {
        self.text("  "@).text(names[result.id]).text(" = "@).text(head).text(" "@)
    }

    /// Prints `separator` and, behind it, what could be spelled; stops before
    /// both with the error of what could not.
    pub open spec fn spelling_behind(
        self,
        separator: Seq<char>,
        r: Result<Seq<char>, Seq<char>>,
    ) -> Printer {
        match r {
            Ok(s) => self.text(separator).text(s),
            Err(e) => self.fail(e),
        }
    }

    /// Prints the first `k` of a list of values, each behind its type, with
    /// commas between them.
    pub open spec fn typed_values(
        self,
        names: Map<u64, Seq<char>>,
        values: Seq<Value>,
        k: nat,
    ) -> Printer
        decreases k,
    {
        if k == 0 {
            self
        } else {
            let p = self.typed_values(names, values, (k - 1) as nat);
            let q = if k > 1 {
                p.text(", "@)
            } else {
                p
            };
            q.typed_value(names, values[k - 1])
        }
    }

    /// Prints the first `k` of a list of numbers, each behind a comma.
    pub open spec fn numbers(self, list: Seq<u32>, k: nat) -> Printer
        decreases k,
    {
        if k == 0 {
            self
        } else {
            self.numbers(list, (k - 1) as nat).text(", "@).text(decimal(list[k - 1] as nat))
        }
    }

    /// The typed pointer type that a pointer value is defined with: the one
    /// that was recorded, or else that of its erased type.
    pub open spec fn pointer_value_type(self, value: Value) -> Result<Seq<char>, Seq<char>> {
        if self.pointer_types.contains_key(value.id) {
            Ok(self.pointer_types[value.id])
        } else {
            value.ty.spelled()
        }
    }

    /// Records the pointer type that a value is defined with.
    pub open spec fn record_pointer(
        self,
        id: u64,
        pointer_type: Result<Seq<char>, Seq<char>>,
    ) -> Printer {
        match pointer_type {
            Ok(s) => if self.error is Some {
                self
            } else {
                Printer { pointer_types: self.pointer_types.insert(id, s), ..self }
            },
            Err(e) => self.fail(e),
        }
    }

    /// Prints a cast of the pointer `name`, under the name of a new cast.
    pub open spec fn pointer_cast(
        self,
        cast_op: Seq<char>,
        from: Seq<char>,
        name: Seq<char>,
        to: Seq<char>,
    ) -> Printer {
        let numbered = if self.error is Some {
            self
        } else {
            Printer { next_cast: self.next_cast + 1, ..self }
        };
        numbered.text("  "@).text(cast_name(self.next_cast)).text(" = "@).text(cast_op).text(
            " "@,
        ).text(from).text(" "@).text(name).text(" to "@).text(to).text("\n"@)
    }

    /// Makes a pointer value usable as a typed pointer to `pointee`: with typed
    /// pointers, a pointer that is defined with another type is cast first.
    pub open spec fn pointer_operand(
        self,
        names: Map<u64, Seq<char>>,
        ptr: Value,
        pointee: Type,
        addrspace: u32,
    ) -> Printer {
        if !typed_pointers(self.dialect) {
            self
        } else {
            match (pointer_type(pointee, addrspace), self.pointer_value_type(ptr)) {
                (Err(e), _) => self.fail(e),
                (_, Err(e)) => self.fail(e),
                (Ok(desired), Ok(current)) => if current == desired {
                    self
                } else {
                    self.pointer_cast(
                        if ptr.ty.address_space() == addrspace {
                            "bitcast"@
                        } else {
                            "addrspacecast"@
                        },
                        current,
                        value_text(names, ptr),
                        desired,
                    )
                },
            }
        }
    }

    /// Whether [`Printer::pointer_operand`] casts the pointer.
    pub open spec fn casts_operand(self, ptr: Value, pointee: Type, addrspace: u32) -> bool {
        typed_pointers(self.dialect) && match (
            pointer_type(pointee, addrspace),
            self.pointer_value_type(ptr),
        ) {
            (Ok(desired), Ok(current)) => current != desired,
            _ => false,
        }
    }

    /// The name that stands for a pointer value behind
    /// [`Printer::pointer_operand`].
    pub open spec fn pointer_operand_name(
        self,
        names: Map<u64, Seq<char>>,
        ptr: Value,
        pointee: Type,
        addrspace: u32,
    ) -> Seq<char> {
        if typed_pointers(self.dialect) && pointer_type(pointee, addrspace)
            != self.pointer_value_type(ptr) {
            cast_name(self.next_cast)
        } else {
            value_text(names, ptr)
        }
    }

    /// Makes a pointer value usable in a slot of the type `target`: with typed
    /// pointers, a pointer that is defined with another type is cast first.
    pub open spec fn coerce_pointer(
        self,
        names: Map<u64, Seq<char>>,
        value: Value,
        target: Seq<char>,
    ) -> Printer {
        if !typed_pointers(self.dialect) || !value.ty.is_pointer() {
            self
        } else {
            match self.pointer_value_type(value) {
                Err(e) => self.fail(e),
                Ok(current) => if current == target {
                    self
                } else {
                    self.pointer_cast("bitcast"@, current, value_text(names, value), target)
                },
            }
        }
    }

    /// Whether [`Printer::coerce_pointer`] casts the pointer.
    pub open spec fn coerces(self, value: Value, target: Seq<char>) -> bool {
        typed_pointers(self.dialect) && value.ty.is_pointer() && match self.pointer_value_type(
            value,
        ) {
            Ok(current) => current != target,
            Err(_) => false,
        }
    }

    /// The name that stands for a value behind [`Printer::coerce_pointer`].
    pub open spec fn coerced_name(
        self,
        names: Map<u64, Seq<char>>,
        value: Value,
        target: Seq<char>,
    ) -> Seq<char> {
        if typed_pointers(self.dialect) && value.ty.is_pointer() && self.pointer_value_type(value)
            != Ok::<Seq<char>, Seq<char>>(target) {
            cast_name(self.next_cast)
        } else {
            value_text(names, value)
        }
    }

    /// The type of a pointer operand, with the space behind it.
    pub open spec fn ptr_operand_type(self, pointee: Type, addrspace: u32) -> Result<
        Seq<char>,
        Seq<char>,
    > {
        if typed_pointers(self.dialect) {
            match pointer_type(pointee, addrspace) {
                Ok(s) => Ok(s + " "@),
                Err(e) => Err(e),
            }
        } else {
            Ok(opaque_qualifier(addrspace))
        }
    }
}

/// State of the export of one module.
pub struct ModuleExportState {
    /// The dialect, where the export is one of NVVM IR.
    pub nvvm_ir_dialect: Option<NvvmIrDialect>,
    /// Whether anything convergent has been printed, so that the module needs
    /// the attribute group `#0`.
    pub convergent_used: bool,
    /// Number of the next pointer cast.
    pub next_pointer_cast_id: usize,
    /// The typed pointer types under which values are known to be defined.
    pub typed_pointer_value_types: HashMap<u64, String>,
}

/// The error message of a failed result.
pub open spec fn failure<T>(r: Result<T, String>) -> Option<Seq<char>> {
    match r {
        Ok(_) => None,
        Err(e) => Some(e@),
    }
}

impl ModuleExportState {
    /// This state, with the output and the error of a printer.
    pub open spec fn printer(self, out: Seq<char>, error: Option<Seq<char>>) -> Printer {
        Printer {
            dialect: self.nvvm_ir_dialect,
            convergent_used: self.convergent_used,
            next_cast: self.next_pointer_cast_id as nat,
            pointer_types: texts(self.typed_pointer_value_types@),
            out,
            error,
        }
    }

    /// Whether a pointer can be used as a typed pointer to `pointee`: if it has
    /// to be cast, there is a number for the cast.
    pub open spec fn can_use(self, ptr: Value, pointee: Type, addrspace: u32) -> bool {
        self.printer(Seq::empty(), None).casts_operand(ptr, pointee, addrspace)
            ==> self.next_pointer_cast_id < usize::MAX
    }

    /// Whether a value can be used in a slot of the type `target`: if it has to
    /// be cast, there is a number for the cast.
    pub open spec fn can_coerce(self, value: Value, target: Seq<char>) -> bool {
        self.printer(Seq::empty(), None).coerces(value, target) ==> self.next_pointer_cast_id
            < usize::MAX
    }

    /// The state at the beginning of an export.
    pub fn new(nvvm_ir_dialect: Option<NvvmIrDialect>) -> (r: Self)
        ensures
            r.printer(Seq::empty(), None) == (Printer {
                dialect: nvvm_ir_dialect,
                convergent_used: false,
                next_cast: 0,
                pointer_types: Map::empty(),
                out: Seq::empty(),
                error: None,
            }),
    {
        let r = ModuleExportState {
            nvvm_ir_dialect,
            convergent_used: false,
            next_pointer_cast_id: 0,
            typed_pointer_value_types: HashMap::new(),
        };
        assert(texts(r.typed_pointer_value_types@) =~= Map::empty());
        r
    }

    /// Whether the export is one with typed pointers.
    pub(crate) fn has_typed_pointers(&self) -> (r: bool)
        ensures
            r == typed_pointers(self.nvvm_ir_dialect),
    {
        match self.nvvm_ir_dialect {
            Some(NvvmIrDialect::TypedPointers) => true,
            _ => false,
        }
    }

    /// Prints a type.
    pub fn export_type(&self, ty: &Type, output: &mut String) -> (r: Result<(), String>)
        ensures
            self.printer(final(output)@, failure(r)) == self.printer(old(output)@, None).ty(*ty),
    {
        match &ty.spelling {
            Spelling::Text(s) => {
                output.append(s.as_str());
                Ok(())
            },
            Spelling::Unsupported(e) => Err(e.clone()),
        }
    }

    /// The spelling of a type.
    pub fn type_to_string(&self, ty: &Type) -> (r: Result<String, String>)
        ensures
            match r {
                Ok(s) => ty.spelled() == Ok::<Seq<char>, Seq<char>>(s@),
                Err(e) => ty.spelled() == Err::<Seq<char>, Seq<char>>(e@),
            },
    {
        let mut output = String::new();
        self.export_type(ty, &mut output)?;
        assert(output@ =~= ty.spelled()->Ok_0);
        Ok(output)
    }

    /// Prints a reference to a value: its name, or `undef` where it has none.
    pub fn export_value(
        &self,
        val: &Value,
        value_names: &HashMap<u64, String>,
        output: &mut String,
    ) -> (r: Result<(), String>)
        ensures
            r is Ok,
            final(output)@ == old(output)@ + value_text(texts(value_names@), *val),
    {
        match value_names.get(&val.id) {
            Some(name) => {
                output.append(name.as_str());
            },
            None => {
                output.append("undef");
            },
        }
        Ok(())
    }

    /// Prints a value behind its type.
    pub(crate) fn export_typed_value(
        &self,
        val: &Value,
        value_names: &HashMap<u64, String>,
        output: &mut String,
    ) -> (r: Result<(), String>)
        ensures
            self.printer(final(output)@, failure(r)) == self.printer(
                old(output)@,
                None,
            ).typed_value(texts(value_names@), *val),
    {
        self.export_type(&val.ty, output)?;
        output.append(" ");
        self.export_value(val, value_names, output)
    }

    /// Prints values, each behind its type, with commas between them.
    pub(crate) fn export_typed_values(
        &self,
        values: &Vec<Value>,
        value_names: &HashMap<u64, String>,
        output: &mut String,
    ) -> (r: Result<(), String>)
        ensures
            self.printer(final(output)@, failure(r)) == self.printer(
                old(output)@,
                None,
            ).typed_values(texts(value_names@), values@, values@.len()),
    {
        let ghost start = self.printer(output@, None);
        let ghost names = texts(value_names@);
        for i in 0..values.len()
            invariant
                start == self.printer(old(output)@, None),
                names == texts(value_names@),
                self.printer(output@, None) == start.typed_values(names, values@, i as nat),
        {
            if i > 0 {
                output.append(", ");
            }
            match self.export_typed_value(&values[i], value_names, output) {
                Ok(_) => {},
                Err(e) => {
                    proof {
                        lemma_typed_values_stopped(
                            start,
                            names,
                            values@,
                            (i + 1) as nat,
                            values@.len(),
                        );
                    }
                    return Err(e);
                },
            }
        }
        Ok(())
    }

    /// Prints numbers, each behind a comma.
    pub(crate) fn export_numbers(&self, list: &Vec<u32>, output: &mut String)
        ensures
            self.printer(final(output)@, None) == self.printer(old(output)@, None).numbers(
                list@,
                list@.len(),
            ),
    {
        for i in 0..list.len()
            invariant
                self.printer(output@, None) == self.printer(old(output)@, None).numbers(
                    list@,
                    i as nat,
                ),
        {
            output.append(", ");
            push_decimal(output, list[i] as u128);
        }
    }

    /// How a value is referred to.
    pub fn value_to_string(&self, val: &Value, value_names: &HashMap<u64, String>) -> (r: Result<
        String,
        String,
    >)
        ensures
            r is Ok,
            r->Ok_0@ == value_text(texts(value_names@), *val),
    {
        let mut output = String::new();
        self.export_value(val, value_names, &mut output)?;
        assert(output@ =~= value_text(texts(value_names@), *val));
        Ok(output)
    }

    /// The name of the next temporary.
    pub fn next_ssa_name(next_value_id: &mut usize) -> (r: String)
        requires
            *old(next_value_id) < usize::MAX,
        ensures
            r@ == temp_name(*old(next_value_id) as nat),
            *final(next_value_id) == *old(next_value_id) + 1,
    {
        let mut name = String::new();
        name.append("%v");
        push_decimal(&mut name, *next_value_id as u128);
        *next_value_id = *next_value_id + 1;
        assert(name@ =~= temp_name(*old(next_value_id) as nat));
        name
    }

    /// The spelling of a typed pointer to `pointee`.
    pub fn pointer_type_for_pointee(&self, pointee: &Type, addrspace: u32) -> (r: Result<
        String,
        String,
    >)
        ensures
            match r {
                Ok(s) => pointer_type(*pointee, addrspace) == Ok::<Seq<char>, Seq<char>>(s@),
                Err(e) => pointer_type(*pointee, addrspace) == Err::<Seq<char>, Seq<char>>(e@),
            },
    {
        let mut ty = self.type_to_string(pointee)?;
        if addrspace != 0 {
            ty.append(" addrspace(");
            push_decimal(&mut ty, addrspace as u128);
            ty.append(")*");
        } else {
            ty.append("*");
        }
        Ok(ty)
    }

    /// The typed pointer type that a pointer value is defined with.
    pub fn pointer_value_type(&self, val: &Value) -> (r: Result<String, String>)
        ensures
            match r {
                Ok(s) => self.printer(Seq::empty(), None).pointer_value_type(*val) == Ok::<
                    Seq<char>,
                    Seq<char>,
                >(s@),
                Err(e) => self.printer(Seq::empty(), None).pointer_value_type(*val) == Err::<
                    Seq<char>,
                    Seq<char>,
                >(e@),
            },
    {
        match self.typed_pointer_value_types.get(&val.id) {
            Some(s) => Ok(s.clone()),
            None => self.type_to_string(&val.ty),
        }
    }

    /// The type of a pointer operand, with the space behind it.
    pub fn ptr_operand_type(&self, pointee_ty: &Type, addrspace: u32) -> (r: Result<
        String,
        String,
    >)
        ensures
            match r {
                Ok(s) => self.printer(Seq::empty(), None).ptr_operand_type(*pointee_ty, addrspace)
                    == Ok::<Seq<char>, Seq<char>>(s@),
                Err(e) => self.printer(Seq::empty(), None).ptr_operand_type(*pointee_ty, addrspace)
                    == Err::<Seq<char>, Seq<char>>(e@),
            },
    {
        if !self.has_typed_pointers() {
            return Ok(ptr_qualifier(addrspace));
        }
        let mut ty = String::new();
        self.export_type(pointee_ty, &mut ty)?;
        assert(ty@ =~= pointee_ty.spelled()->Ok_0);
        if addrspace != 0 {
            ty.append(" addrspace(");
            push_decimal(&mut ty, addrspace as u128);
            ty.append(")* ");
        } else {
            ty.append("* ");
        }
        proof {
            reveal_strlit(")*");
            reveal_strlit(")* ");
            reveal_strlit("*");
            reveal_strlit("* ");
            reveal_strlit(" ");
            assert(")* "@ =~= ")*"@ + " "@);
            assert("* "@ =~= "*"@ + " "@);
            assert(ty@ =~= self.printer(Seq::empty(), None).ptr_operand_type(
                *pointee_ty,
                addrspace,
            )->Ok_0);
        }
        Ok(ty)
    }

    /// Appends the cast of a pointer, under the name of a new cast, which it
    /// returns.
    fn emit_pointer_cast(
        &mut self,
        cast_op: &str,
        from: &str,
        name: &str,
        to: &str,
        output: &mut String,
    ) -> (r: String)
        requires
            old(self).next_pointer_cast_id < usize::MAX,
        ensures
            r@ == cast_name(old(self).next_pointer_cast_id as nat),
            final(self).printer(final(output)@, None) == old(self).printer(
                old(output)@,
                None,
            ).pointer_cast(cast_op@, from@, name@, to@),
    {
        let mut cast = String::new();
        cast.append("%ptrcast");
        push_decimal(&mut cast, self.next_pointer_cast_id as u128);
        assert(cast@ =~= cast_name(self.next_pointer_cast_id as nat));
        self.next_pointer_cast_id = self.next_pointer_cast_id + 1;
        output.append("  ");
        output.append(cast.as_str());
        output.append(" = ");
        output.append(cast_op);
        output.append(" ");
        output.append(from);
        output.append(" ");
        output.append(name);
        output.append(" to ");
        output.append(to);
        output.append("\n");
        cast
    }

    /// Makes a pointer value usable as a typed pointer to `pointee_ty`, and
    /// returns the name to use.
    pub fn pointer_operand(
        &mut self,
        ptr: &Value,
        pointee_ty: &Type,
        addrspace: u32,
        value_names: &HashMap<u64, String>,
        output: &mut String,
    ) -> (r: Result<String, String>)
        requires
            old(self).can_use(*ptr, *pointee_ty, addrspace),
        ensures
            final(self).printer(final(output)@, failure(r)) == old(self).printer(
                old(output)@,
                None,
            ).pointer_operand(texts(value_names@), *ptr, *pointee_ty, addrspace),
            r matches Ok(s) ==> s@ == old(self).printer(old(output)@, None).pointer_operand_name(
                texts(value_names@),
                *ptr,
                *pointee_ty,
                addrspace,
            ),
    {
        let ptr_name = self.value_to_string(ptr, value_names)?;
        if !self.has_typed_pointers() {
            return Ok(ptr_name);
        }
        let desired_type = self.pointer_type_for_pointee(pointee_ty, addrspace)?;
        let current_type = self.pointer_value_type(ptr)?;
        if current_type == desired_type {
            return Ok(ptr_name);
        }
        let cast_op = if crate::ir::addrspace_of(&ptr.ty) == addrspace {
            "bitcast"
        } else {
            "addrspacecast"
        };
        Ok(
            self.emit_pointer_cast(
                cast_op,
                current_type.as_str(),
                ptr_name.as_str(),
                desired_type.as_str(),
                output,
            ),
        )
    }

    /// Coerces a pointer value to the type of the slot that it is inserted into,
    /// and returns the name to use.
    ///
    /// With typed pointers a pointer may be defined with a concrete pointee
    /// while the slot is declared `i8*`. The address space is the same, so a
    /// `bitcast` reconciles the two. Other values, and values with opaque
    /// pointers, stay as they are.
    pub fn coerce_pointer_value(
        &mut self,
        val: &Value,
        target_type: &str,
        value_names: &HashMap<u64, String>,
        output: &mut String,
    ) -> (r: Result<String, String>)
        requires
            old(self).can_coerce(*val, target_type@),
        ensures
            final(self).printer(final(output)@, failure(r)) == old(self).printer(
                old(output)@,
                None,
            ).coerce_pointer(texts(value_names@), *val, target_type@),
            r matches Ok(s) ==> s@ == old(self).printer(old(output)@, None).coerced_name(
                texts(value_names@),
                *val,
                target_type@,
            ),
    {
        let name = self.value_to_string(val, value_names)?;
        if !self.has_typed_pointers() {
            return Ok(name);
        }
        match val.ty.kind {
            crate::ir::TypeKind::Pointer { address_space: _ } => {},
            _ => {
                return Ok(name);
            },
        }
        let current_type = self.pointer_value_type(val)?;
        if crate::text::same_text(current_type.as_str(), target_type) {
            return Ok(name);
        }
        Ok(
            self.emit_pointer_cast(
                "bitcast",
                current_type.as_str(),
                name.as_str(),
                target_type,
                output,
            ),
        )
    }
}

/// The name of a value that has one.
pub(crate) fn name_of<'n>(value_names: &'n HashMap<u64, String>, val: &Value) -> (r: &'n str)
    requires
        value_names@.contains_key(val.id),
    ensures
        r@ == texts(value_names@)[val.id],
{
    value_names.get(&val.id).unwrap().as_str()
}

/// Begins the line that defines a value: its name, then `head`.
pub(crate) fn begin_definition(output: &mut String, name: &str, head: &str)
    ensures
        final(output)@ == old(output)@ + "  "@ + name@ + " = "@ + head@ + " "@,
{
    output.append("  ");
    output.append(name);
    output.append(" = ");
    output.append(head);
    output.append(" ");
}

/// Where a list of values was printed, all their types could be spelled.
pub proof fn lemma_values_spelled(
    p: Printer,
    names: Map<u64, Seq<char>>,
    values: Seq<Value>,
    k: nat,
)
    requires
        k <= values.len(),
        p.typed_values(names, values, k).error is None,
    ensures
        forall|i: int| 0 <= i < k ==> (#[trigger] values[i]).ty.spelled() is Ok,
    decreases k,
{
    if k > 0 {
        lemma_values_spelled(p, names, values, (k - 1) as nat);
    }
}

/// A list of values is not printed behind an error.
proof fn lemma_typed_values_stopped(
    p: Printer,
    names: Map<u64, Seq<char>>,
    values: Seq<Value>,
    k: nat,
    m: nat,
)
    requires
        k <= m,
        p.typed_values(names, values, k).error is Some,
    ensures
        p.typed_values(names, values, m) == p.typed_values(names, values, k),
    decreases m,
{
    if k < m {
        lemma_typed_values_stopped(p, names, values, k, (m - 1) as nat);
    }
}

/// Numbers are not printed behind an error.
pub broadcast proof fn lemma_numbers_stopped(p: Printer, list: Seq<u32>, k: nat)
    requires
        p.error is Some,
    ensures
        #[trigger] p.numbers(list, k) == p,
    decreases k,
{
    if k > 0 {
        lemma_numbers_stopped(p, list, (k - 1) as nat);
    }
}

/// Values are not printed behind an error.
pub broadcast proof fn lemma_values_stopped(
    p: Printer,
    names: Map<u64, Seq<char>>,
    values: Seq<Value>,
    k: nat,
)
    requires
        p.error is Some,
    ensures
        #[trigger] p.typed_values(names, values, k) == p,
    decreases k,
{
    if k > 0 {
        lemma_values_stopped(p, names, values, (k - 1) as nat);
    }
}

/// The pointer operand prefix of memory instructions: `ptr addrspace(N) ` for
/// an address space other than the default one, `ptr ` otherwise.
pub fn ptr_qualifier(addrspace: u32) -> (r: String)
    ensures
        r@ == opaque_qualifier(addrspace),
{
    let mut r = String::new();
    if addrspace != 0 {
        r.append("ptr addrspace(");
        push_decimal(&mut r, addrspace as u128);
        r.append(") ");
    } else {
        r.append("ptr ");
    }
    assert(r@ =~= opaque_qualifier(addrspace));
    r
}

} // verus!
