//! Backend configuration: the trait that export backends implement and the
//! two built-in backends.
use vstd::prelude::*;

use crate::text::{characters, digits_end, has_prefix, parse_u32};
use crate::text::{begins_with, decimal, digit_run, is_digit, number};
use crate::vocabulary::law_all_digits;

verus! {

/// Minimal data layout, for PTX generation.
pub const NVPTX_DATALAYOUT_PTX: &'static str = "e-i64:64-i128:128-v16:16-v32:32-n16:32:64";

/// Full NVPTX data layout of the modern NVVM IR dialect (Blackwell and newer).
pub const NVPTX_DATALAYOUT_FULL: &'static str = "e-p:64:64:64-p3:32:32:32-i1:8:8-i8:8:8-i16:16:16-i32:32:32-i64:64:64-i128:128:128-f32:32:32-f64:64:64-f128:128:128-v16:16:16-v32:32:32-v64:64:64-v128:128:128-n16:32:64-a:8:8";

/// NVPTX data layout of the legacy typed-pointer NVVM IR dialect.
pub const NVPTX_DATALAYOUT_LEGACY_NVVM: &'static str = "e-p:64:64:64-i1:8:8-i8:8:8-i16:16:16-i32:32:32-i64:64:64-i128:128:128-f32:32:32-f64:64:64-v16:16:16-v32:32:32-v64:64:64-v128:128:128-n16:32:64";

/// What an export backend (PTX, LTOIR and so on) decides about the generated
/// module.
pub trait ExportBackendConfig {
    /// Data layout string for the target.
    fn datalayout(&self) -> (r: &str);

    /// Whether to emit `@llvm.used` for kernel functions, which keeps the
    /// optimizer from removing kernels that nothing calls.
    fn emit_llvm_used(&self) -> (r: bool);

    /// Whether to emit `!nvvmir.version` metadata.
    fn emit_nvvmir_version(&self) -> (r: bool);

    /// The version for `!nvvmir.version`: major, minor, debug major and debug
    /// minor.
    fn nvvmir_version(&self) -> (r: [i32; 4]);

    /// Whether every kernel gets `!nvvm.annotations`; otherwise only kernels
    /// with special attributes do.
    fn emit_all_kernel_annotations(&self) -> (r: bool);

    /// Whether kernel definitions use the `ptx_kernel` calling convention.
    fn emit_ptx_kernel_keyword(&self) -> (r: bool);

    /// The NVVM IR dialect, where this is an NVVM IR backend.
    fn nvvm_ir_dialect(&self) -> (r: Option<NvvmIrDialect>)
        default_ensures
            r is None,
    {
        None
    }
}

/// Syntax family of the NVVM IR that libNVVM is given.
///
/// The modern dialect has opaque pointers and is valid for Blackwell
/// (`compute_100`) and newer targets. libNVVM for older targets needs the
/// typed-pointer dialect.
#[derive(Clone, Copy, Debug, PartialEq, Eq, Structural)]
pub enum NvvmIrDialect {
    /// LLVM 7 style NVVM IR with typed pointers.
    TypedPointers,
    /// Modern NVVM IR with opaque pointers.
    OpaquePointers,
}

/// What is left of a target name behind its `sm_` or `compute_` prefix.
pub open spec fn arch_suffix(target: Seq<char>) -> Option<Seq<char>> {
    if begins_with(target, "sm_"@) {
        Some(target.skip("sm_"@.len() as int))
    } else if begins_with(target, "compute_"@) {
        Some(target.skip("compute_"@.len() as int))
    } else {
        None
    }
}

/// The major architecture number that a target such as `sm_86` names: the
/// number behind the prefix, without its last digit.
///
/// A target without prefix, without digits behind it, or with a number that
/// does not fit in 32 bits names none.
pub open spec fn arch_major(target: Seq<char>) -> Option<u32> {
    match arch_suffix(target) {
        Some(rest) => {
            let digits = rest.take(digit_run(rest) as int);
            if digits.len() == 0 || number(digits) > u32::MAX {
                None
            } else {
                Some((number(digits) / 10) as u32)
            }
        },
        None => None,
    }
}

/// The dialect of a target: opaque pointers for an explicit Blackwell or newer
/// target, typed pointers for every other target and for none.
pub open spec fn dialect_of(target: Option<Seq<char>>) -> NvvmIrDialect {
    match target {
        Some(t) => match arch_major(t) {
            Some(major) => if major >= 10 {
                NvvmIrDialect::OpaquePointers
            } else {
                NvvmIrDialect::TypedPointers
            },
            None => NvvmIrDialect::TypedPointers,
        },
        None => NvvmIrDialect::TypedPointers,
    }
}

/// The characters of a target, where there is one.
pub open spec fn target_text(target: Option<&str>) -> Option<Seq<char>> {
    match target {
        Some(t) => Some(t@),
        None => None,
    }
}

impl NvvmIrDialect {
    /// Selects the dialect for a CUDA target such as `sm_86`, `sm_100a` or
    /// `compute_120`.
    ///
    /// Unknown targets get typed pointers: those load on every libNVVM before
    /// Blackwell, which cannot parse an opaque `ptr`.
    pub fn for_target(target: Option<&str>) -> (r: Self)
        ensures
            r == dialect_of(target_text(target)),
    {
        match target {
            Some(t) => match cuda_arch_major(t) {
                Some(major) => if major >= 10 {
                    NvvmIrDialect::OpaquePointers
                } else {
                    NvvmIrDialect::TypedPointers
                },
                None => NvvmIrDialect::TypedPointers,
            },
            None => NvvmIrDialect::TypedPointers,
        }
    }
}

/// The major architecture number of a CUDA target name.
pub fn cuda_arch_major(target: &str) -> (r: Option<u32>)
    ensures
        r == arch_major(target@),
{
    let name = characters(target);
    let sm = characters("sm_");
    let compute = characters("compute_");
    let start: usize;
    if has_prefix(&name, &sm) {
        start = sm.len();
    } else if has_prefix(&name, &compute) {
        start = compute.len();
    } else {
        return None;
    }
    let end = digits_end(&name, start);
    assert(name@.skip(start as int).take(end - start) =~= name@.subrange(start as int, end as int));
    if end == start {
        return None;
    }
    match parse_u32(&name, start, end) {
        Some(value) => Some(value / 10),
        None => None,
    }
}

/// Default PTX export configuration: the minimal settings for PTX generation
/// with llc.
#[derive(Clone, Debug, Default)]
pub struct PtxExportConfig;

impl ExportBackendConfig for PtxExportConfig {
    fn datalayout(&self) -> (r: &str)
        ensures
            r@ == NVPTX_DATALAYOUT_PTX@,
    {
        NVPTX_DATALAYOUT_PTX
    }

    fn emit_llvm_used(&self) -> (r: bool)
        ensures
            !r,
    {
        false
    }

    fn emit_nvvmir_version(&self) -> (r: bool)
        ensures
            !r,
    {
        false
    }

    fn nvvmir_version(&self) -> (r: [i32; 4])
        ensures
            r@ == seq![0i32, 0i32, 0i32, 0i32],
    {
        [0, 0, 0, 0]
    }

    fn emit_all_kernel_annotations(&self) -> (r: bool)
        ensures
            !r,
    {
        false
    }

    fn emit_ptx_kernel_keyword(&self) -> (r: bool)
        ensures
            r,
    {
        true
    }
}

/// Export configuration for NVVM IR, as libNVVM takes it: full data layout,
/// `@llvm.used`, annotations for every kernel and version metadata.
#[derive(Clone, Debug)]
pub struct NvvmExportConfig {
    dialect: NvvmIrDialect,
}

impl View for NvvmExportConfig {
    type V = NvvmIrDialect;

    /// The dialect that the configuration selects.
    closed spec fn view(&self) -> NvvmIrDialect {
        self.dialect
    }
}

/// The data layout of a dialect.
pub open spec fn nvvm_datalayout(dialect: NvvmIrDialect) -> Seq<char> {
    match dialect {
        NvvmIrDialect::TypedPointers => NVPTX_DATALAYOUT_LEGACY_NVVM@,
        NvvmIrDialect::OpaquePointers => NVPTX_DATALAYOUT_FULL@,
    }
}

/// The NVVM IR version of a dialect. libNVVM before Blackwell rejects the
/// debug version of the modern dialect.
pub open spec fn nvvm_version(dialect: NvvmIrDialect) -> Seq<i32> {
    match dialect {
        NvvmIrDialect::TypedPointers => seq![2i32, 0i32, 3i32, 1i32],
        NvvmIrDialect::OpaquePointers => seq![2i32, 0i32, 3i32, 2i32],
    }
}

impl NvvmExportConfig {
    /// Creates the configuration for `target`.
    pub fn for_target(target: Option<&str>) -> (r: Self)
        ensures
            r@ == dialect_of(target_text(target)),
    {
        NvvmExportConfig { dialect: NvvmIrDialect::for_target(target) }
    }

    /// The selected NVVM IR dialect.
    pub fn dialect(&self) -> (r: NvvmIrDialect)
        ensures
            r == self@,
    {
        self.dialect
    }
}

impl Default for NvvmExportConfig {
    fn default() -> (r: Self)
        ensures
            r@ == NvvmIrDialect::OpaquePointers,
    {
        NvvmExportConfig { dialect: NvvmIrDialect::OpaquePointers }
    }
}

impl ExportBackendConfig for NvvmExportConfig {
    fn datalayout(&self) -> (r: &str)
        ensures
            r@ == nvvm_datalayout(self@),
    {
        match self.dialect {
            NvvmIrDialect::TypedPointers => NVPTX_DATALAYOUT_LEGACY_NVVM,
            NvvmIrDialect::OpaquePointers => NVPTX_DATALAYOUT_FULL,
        }
    }

    fn emit_llvm_used(&self) -> (r: bool)
        ensures
            r,
    {
        true
    }

    fn emit_nvvmir_version(&self) -> (r: bool)
        ensures
            r,
    {
        true
    }

    fn nvvmir_version(&self) -> (r: [i32; 4])
        ensures
            r@ == nvvm_version(self@),
    {
        match self.dialect {
            NvvmIrDialect::TypedPointers => [2, 0, 3, 1],
            NvvmIrDialect::OpaquePointers => [2, 0, 3, 2],
        }
    }

    fn emit_all_kernel_annotations(&self) -> (r: bool)
        ensures
            r,
    {
        true
    }

    fn emit_ptx_kernel_keyword(&self) -> (r: bool)
        ensures
            !r,
    {
        false
    }

    fn nvvm_ir_dialect(&self) -> (r: Option<NvvmIrDialect>)
        ensures
            r == Some(self@),
    {
        Some(self.dialect)
    }
}

/// The digits that a text begins with end at its first character that is no
/// digit.
proof fn lemma_digit_run(digits: Seq<char>, rest: Seq<char>)
    requires
        crate::text::all_digits(digits),
        rest.len() > 0 ==> !is_digit(rest[0]),
    ensures
        digit_run(digits + rest) == digits.len(),
    decreases digits.len(),
{
    let s = digits + rest;
    if digits.len() == 0 {
        assert(s =~= rest);
    } else {
        assert(s[0] == digits[0]);
        assert(s.drop_first() =~= digits.drop_first() + rest);
        assert forall|i: int| 0 <= i < digits.drop_first().len() implies is_digit(
            #[trigger] digits.drop_first()[i],
        ) by {
            assert(digits.drop_first()[i] == digits[i + 1]);
        }
        lemma_digit_run(digits.drop_first(), rest);
    }
}

/// A target that is spelled `sm_` or `compute_`, an architecture number and a
/// variant without leading digit gets opaque pointers from number 100 on, and
/// typed pointers below.
pub proof fn law_numbered_target(prefix: Seq<char>, arch: nat, variant: Seq<char>)
    requires
        prefix == "sm_"@ || prefix == "compute_"@,
        arch <= u32::MAX,
        variant.len() > 0 ==> !is_digit(variant[0]),
    ensures
        dialect_of(Some(prefix + decimal(arch) + variant)) == if arch >= 100 {
            NvvmIrDialect::OpaquePointers
        } else {
            NvvmIrDialect::TypedPointers
        },
{
    reveal_strlit("sm_");
    reveal_strlit("compute_");
    let target = prefix + decimal(arch) + variant;
    let rest = decimal(arch) + variant;
    assert(target.take(prefix.len() as int) =~= prefix);
    assert(target.skip(prefix.len() as int) =~= rest);
    if prefix == "compute_"@ {
        assert(target.take(3)[0] == 'c');
    }
    crate::text::lemma_decimal_number(arch);
    lemma_digit_run(decimal(arch), variant);
    assert(rest.take(decimal(arch).len() as int) =~= decimal(arch));
}

/// A target gets opaque pointers only if it is explicit: it has one of the two
/// prefixes, and the digits behind it spell a number from 100 on.
pub proof fn law_opaque_pointers_are_explicit(target: Option<Seq<char>>)
    requires
        dialect_of(target) == NvvmIrDialect::OpaquePointers,
    ensures
        target is Some,
        begins_with(target->0, "sm_"@) || begins_with(target->0, "compute_"@),
        arch_suffix(target->0) is Some,
        ({
            let rest = arch_suffix(target->0)->0;
            number(rest.take(digit_run(rest) as int)) >= 100
        }),
{
}

/// A target that names no architecture, and no target at all, get typed
/// pointers.
pub proof fn law_unknown_targets_are_typed(target: Option<Seq<char>>)
    requires
        target matches Some(t) ==> arch_major(t) is None,
    ensures
        dialect_of(target) == NvvmIrDialect::TypedPointers,
{
}

/// A target that is spelled `sm_` or `compute_`, digits and a variant without
/// leading digit names the number that the digits spell, without its last digit,
/// as long as that number fits in 32 bits, and gets opaque pointers if it is 100
/// or more.
pub proof fn law_architecture(prefix: Seq<char>, digits: Seq<char>, variant: Seq<char>)
    requires
        prefix == "sm_"@ || prefix == "compute_"@,
        forall|i: int| 0 <= i < digits.len() ==> "0123456789"@.contains(#[trigger] digits[i]),
        variant.len() > 0 ==> !"0123456789"@.contains(variant[0]),
    ensures
        ({
            let target = prefix + digits + variant;
            let n = number(digits);
            if digits.len() > 0 && n <= u32::MAX {
                &&& arch_major(target) == Some((n / 10) as u32)
                &&& dialect_of(Some(target)) == if n >= 100 {
                    NvvmIrDialect::OpaquePointers
                } else {
                    NvvmIrDialect::TypedPointers
                }
            } else {
                &&& arch_major(target) is None
                &&& dialect_of(Some(target)) == NvvmIrDialect::TypedPointers
            }
        }),
{
    reveal_strlit("sm_");
    reveal_strlit("compute_");
    reveal_strlit("0123456789");
    let target = prefix + digits + variant;
    let rest = digits + variant;
    assert(target.take(prefix.len() as int) =~= prefix);
    assert(target.skip(prefix.len() as int) =~= rest);
    if prefix == "compute_"@ {
        assert(target.take(3)[0] == 'c');
    }
    law_all_digits(digits);
    if variant.len() > 0 && is_digit(variant[0]) {
        assert("0123456789"@[variant[0] as int - 48] == variant[0]);
    }
    lemma_digit_run(digits, variant);
    assert(rest.take(digits.len() as int) =~= digits);
}

/// A target with neither prefix, and no target at all, name no architecture and
/// get typed pointers.
pub proof fn law_no_architecture(target: Seq<char>)
    requires
        !(target.len() >= 3 && target[0] == 's' && target[1] == 'm' && target[2] == '_'),
        !(target.len() >= 8 && target.take(8) == "compute_"@),
    ensures
        arch_major(target) is None,
        dialect_of(Some(target)) == NvvmIrDialect::TypedPointers,
        dialect_of(None) == NvvmIrDialect::TypedPointers,
{
    reveal_strlit("sm_");
    reveal_strlit("compute_");
    if begins_with(target, "sm_"@) {
        let start = target.take(3);
        assert(start[0] == 's' && start[1] == 'm' && start[2] == '_');
    }
}

/// The data layouts and the versions of the two dialects.
pub proof fn law_dialects(target: &str)
    ensures
        nvvm_version(NvvmIrDialect::TypedPointers) == seq![2i32, 0i32, 3i32, 1i32],
        nvvm_version(NvvmIrDialect::OpaquePointers) == seq![2i32, 0i32, 3i32, 2i32],
        nvvm_datalayout(NvvmIrDialect::TypedPointers) == NVPTX_DATALAYOUT_LEGACY_NVVM@,
        nvvm_datalayout(NvvmIrDialect::OpaquePointers) == NVPTX_DATALAYOUT_FULL@,
        target_text(Some(target)) == Some(target@),
        target_text(None) is None,
{
}

} // verus!
