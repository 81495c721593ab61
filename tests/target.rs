use hsa_runtime::target::{AcceleratorTargetDesc, KernelAbi, TargetSpec};

fn s(v: &str) -> String {
    v.to_string()
}

fn host_spec() -> TargetSpec {
    TargetSpec {
        llvm_target: s("x86_64-unknown-linux-gnu"),
        target_endian: s("little"),
        target_pointer_width: s("64"),
        target_c_int_width: s("32"),
        target_os: s("linux"),
        target_env: s("gnu"),
        target_vendor: s("unknown"),
        arch: s("x86_64"),
        data_layout: s("e-m:e-i64:64-f80:128-n8:16:32:64-S128"),
        linker_flavor: s("gcc"),
        is_builtin: true,
        linker: None,
        pre_link_args: vec![s("-m64")],
        cpu: s("x86-64"),
        features: s(""),
        dynamic_linking: true,
        executables: true,
        relocation_model: s("pic"),
        code_model: None,
        position_independent_executables: true,
        max_atomic_width: Some(64),
        singlethread: false,
    }
}

fn spirv_spec() -> TargetSpec {
    let mut t = host_spec();
    t.llvm_target = s("spir64-unknown-unknown");
    t.arch = s("spirv");
    t
}

#[test]
fn for_host_defaults() {
    let d = AcceleratorTargetDesc::for_host(host_spec());
    assert!(d.allow_indirect_function_calls());
    assert_eq!(d.kernel_abi, KernelAbi::C);
    assert!(d.features.is_empty());
    assert!(d.extensions.is_empty());
    assert!(d.is_host());
    assert!(!d.is_spirv());
}

#[test]
fn spirv_target_is_not_host() {
    let d = AcceleratorTargetDesc::for_host(spirv_spec());
    assert!(d.is_spirv());
    assert!(!d.is_host());
}

#[test]
fn builtin_marker_does_not_change_hash_or_equality() {
    let a = AcceleratorTargetDesc::for_host(host_spec());
    let mut b = a.clone();
    b.target.is_builtin = false;
    assert_eq!(a.get_stable_hash(), b.get_stable_hash());
    assert!(a == b);
}

#[test]
fn stable_hash_is_deterministic() {
    let a = AcceleratorTargetDesc::for_host(host_spec());
    let b = AcceleratorTargetDesc::for_host(host_spec());
    assert_eq!(a.get_stable_hash(), a.get_stable_hash());
    assert_eq!(a.get_stable_hash(), b.get_stable_hash());
    assert_eq!(a.get_stable_hash(), seahash::hash(&a.stable_encoding()));
}

#[test]
fn relevant_field_changes_hash_and_equality() {
    let a = AcceleratorTargetDesc::for_host(host_spec());
    let mut b = a.clone();
    b.extensions.push(s("SPV_KHR_storage_buffer_storage_class"));
    assert!(a != b);
    assert_ne!(a.get_stable_hash(), b.get_stable_hash());
    let mut c = a.clone();
    c.target.cpu = s("znver2");
    assert!(a != c);
    assert_ne!(a.get_stable_hash(), c.get_stable_hash());
    let mut d = a.clone();
    d.kernel_abi = KernelAbi::AmdGpuKernel;
    assert!(a != d);
}

#[test]
fn stable_encoding_layout() {
    let mut t = host_spec();
    t.llvm_target = s("ab");
    let d = AcceleratorTargetDesc::for_host(t);
    let enc = d.stable_encoding();
    // indirect calls allowed, the C calling convention, no features, no
    // extensions, then the length of the triple and its two characters.
    let mut expected = vec![1u8, 1u8];
    expected.extend_from_slice(&0u64.to_le_bytes());
    expected.extend_from_slice(&0u64.to_le_bytes());
    expected.extend_from_slice(&2u64.to_le_bytes());
    expected.extend_from_slice(&('a' as u32).to_le_bytes());
    expected.extend_from_slice(&('b' as u32).to_le_bytes());
    assert_eq!(&enc[..expected.len()], &expected[..]);
}

#[test]
fn rustc_target_options_overwrites_target() {
    let d = AcceleratorTargetDesc::for_host(spirv_spec());
    let mut t = host_spec();
    d.rustc_target_options(&mut t);
    assert_eq!(t.llvm_target, "spir64-unknown-unknown");
    assert_eq!(t.arch, "spirv");
    assert!(t.same_identity(&d.target));
}
