use nvvm_export::config::{
    cuda_arch_major, ExportBackendConfig, NvvmExportConfig, NvvmIrDialect, PtxExportConfig,
    NVPTX_DATALAYOUT_FULL, NVPTX_DATALAYOUT_LEGACY_NVVM, NVPTX_DATALAYOUT_PTX,
};

#[test]
fn nvvm_ir_dialect_selects_typed_pointers_for_pre_blackwell() {
    assert_eq!(
        NvvmIrDialect::for_target(Some("sm_75")),
        NvvmIrDialect::TypedPointers
    );
    assert_eq!(
        NvvmIrDialect::for_target(Some("sm_86")),
        NvvmIrDialect::TypedPointers
    );
    assert_eq!(
        NvvmIrDialect::for_target(Some("compute_90")),
        NvvmIrDialect::TypedPointers
    );
}

#[test]
fn nvvm_ir_dialect_selects_opaque_pointers_only_for_explicit_blackwell() {
    assert_eq!(
        NvvmIrDialect::for_target(Some("sm_100")),
        NvvmIrDialect::OpaquePointers
    );
    assert_eq!(
        NvvmIrDialect::for_target(Some("sm_100a")),
        NvvmIrDialect::OpaquePointers
    );
    assert_eq!(
        NvvmIrDialect::for_target(Some("compute_120")),
        NvvmIrDialect::OpaquePointers
    );
}

#[test]
fn nvvm_ir_dialect_defaults_unknown_targets_to_typed_pointers() {
    // libNVVM before Blackwell cannot parse an opaque `ptr`, so a target that
    // names no architecture gets typed pointers.
    assert_eq!(NvvmIrDialect::for_target(None), NvvmIrDialect::TypedPointers);
    assert_eq!(
        NvvmIrDialect::for_target(Some("nvvm-ir")),
        NvvmIrDialect::TypedPointers
    );
}

#[test]
fn typed_nvvm_ir_uses_cuda_12_debug_metadata_version() {
    let config = NvvmExportConfig::for_target(Some("sm_86"));
    assert_eq!(config.nvvmir_version(), [2, 0, 3, 1]);
}

#[test]
fn typed_nvvm_ir_uses_legacy_data_layout() {
    let config = NvvmExportConfig::for_target(Some("sm_86"));
    assert_eq!(config.datalayout(), NVPTX_DATALAYOUT_LEGACY_NVVM);
}

#[test]
fn architecture_numbers_of_target_names() {
    assert_eq!(cuda_arch_major("sm_86"), Some(8));
    assert_eq!(cuda_arch_major("sm_100a"), Some(10));
    assert_eq!(cuda_arch_major("compute_120"), Some(12));
    assert_eq!(cuda_arch_major("sm_7"), Some(0));
    assert_eq!(cuda_arch_major("sm_"), None);
    assert_eq!(cuda_arch_major("sm_a100"), None);
    assert_eq!(cuda_arch_major("SM_100"), None);
    assert_eq!(cuda_arch_major("compute"), None);
    assert_eq!(cuda_arch_major(""), None);
    assert_eq!(cuda_arch_major("sm_4294967295"), Some(429496729));
    assert_eq!(cuda_arch_major("sm_4294967296"), None);
    assert_eq!(cuda_arch_major("sm_000000000000000000100"), Some(10));
    // Digits outside ASCII are no digits here.
    assert_eq!(cuda_arch_major("sm_\u{661}00"), None);
}

#[test]
fn the_dialect_changes_at_architecture_100() {
    assert_eq!(NvvmIrDialect::for_target(Some("sm_99")), NvvmIrDialect::TypedPointers);
    assert_eq!(NvvmIrDialect::for_target(Some("sm_100")), NvvmIrDialect::OpaquePointers);
    assert_eq!(
        NvvmIrDialect::for_target(Some("compute_4294967296")),
        NvvmIrDialect::TypedPointers
    );
}

#[test]
fn nvvm_configuration_of_the_modern_dialect() {
    let config = NvvmExportConfig::default();
    assert_eq!(config.dialect(), NvvmIrDialect::OpaquePointers);
    assert_eq!(config.nvvm_ir_dialect(), Some(NvvmIrDialect::OpaquePointers));
    assert_eq!(config.nvvmir_version(), [2, 0, 3, 2]);
    assert_eq!(config.datalayout(), NVPTX_DATALAYOUT_FULL);
    assert!(config.emit_llvm_used());
    assert!(config.emit_nvvmir_version());
    assert!(config.emit_all_kernel_annotations());
    assert!(!config.emit_ptx_kernel_keyword());
    assert_eq!(NvvmExportConfig::for_target(None).dialect(), NvvmIrDialect::TypedPointers);
}

#[test]
fn ptx_configuration() {
    let config = PtxExportConfig::default();
    assert_eq!(config.datalayout(), NVPTX_DATALAYOUT_PTX);
    assert_eq!(config.datalayout(), "e-i64:64-i128:128-v16:16-v32:32-n16:32:64");
    assert!(!config.emit_llvm_used());
    assert!(!config.emit_nvvmir_version());
    assert_eq!(config.nvvmir_version(), [0, 0, 0, 0]);
    assert!(!config.emit_all_kernel_annotations());
    assert!(config.emit_ptx_kernel_keyword());
    assert_eq!(config.nvvm_ir_dialect(), None);
}

#[test]
fn data_layouts_are_spelled_in_full() {
    assert_eq!(
        NVPTX_DATALAYOUT_FULL,
        "e-p:64:64:64-p3:32:32:32-i1:8:8-i8:8:8-\
         i16:16:16-i32:32:32-i64:64:64-i128:128:128-f32:32:32-f64:64:64-f128:128:128-\
         v16:16:16-v32:32:32-v64:64:64-v128:128:128-n16:32:64-a:8:8"
    );
    assert_eq!(
        NVPTX_DATALAYOUT_LEGACY_NVVM,
        "e-p:64:64:64-i1:8:8-i8:8:8-\
         i16:16:16-i32:32:32-i64:64:64-i128:128:128-f32:32:32-f64:64:64-\
         v16:16:16-v32:32:32-v64:64:64-v128:128:128-n16:32:64"
    );
}
