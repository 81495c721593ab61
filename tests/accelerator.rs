use hsa_runtime::accelerator::{
    Accelerator, AcceleratorId, AcceleratorIdAllocator, AcceleratorRecord, CodegenComms,
};
use hsa_runtime::target::{AcceleratorTargetDesc, TargetSpec};

fn spec() -> TargetSpec {
    TargetSpec {
        llvm_target: "amdgcn-amd-amdhsa".to_string(),
        target_endian: "little".to_string(),
        target_pointer_width: "64".to_string(),
        target_c_int_width: "32".to_string(),
        target_os: "amdhsa".to_string(),
        target_env: String::new(),
        target_vendor: "amd".to_string(),
        arch: "amdgpu".to_string(),
        data_layout: "e-p:64:64".to_string(),
        linker_flavor: "ld.lld".to_string(),
        is_builtin: false,
        linker: Some("ld.lld".to_string()),
        pre_link_args: Vec::new(),
        cpu: "gfx900".to_string(),
        features: String::new(),
        dynamic_linking: true,
        executables: true,
        relocation_model: "pic".to_string(),
        code_model: None,
        position_independent_executables: true,
        max_atomic_width: Some(64),
        singlethread: false,
    }
}

#[test]
fn set_codegen_twice_hands_back_previous() {
    let mut ids = AcceleratorIdAllocator::new();
    let id = ids.fresh().unwrap();
    let mut accel = AcceleratorRecord::new(
        id,
        CodegenComms { worker: 0 },
        AcceleratorTargetDesc::for_host(spec()),
    );
    assert_eq!(accel.get_codegen(), None);
    assert_eq!(accel.set_codegen(CodegenComms { worker: 1 }), None);
    assert_eq!(accel.get_codegen(), Some(CodegenComms { worker: 1 }));
    assert_eq!(accel.set_codegen(CodegenComms { worker: 2 }), Some(CodegenComms { worker: 1 }));
    assert_eq!(accel.get_codegen(), Some(CodegenComms { worker: 2 }));
    assert_eq!(accel.id(), id);
    assert_eq!(accel.host_codegen(), CodegenComms { worker: 0 });
    assert_eq!(accel.accel_target_desc().target.cpu, "gfx900");
}

#[test]
fn ids_are_never_reused() {
    let mut ids = AcceleratorIdAllocator::new();
    let a = ids.fresh().unwrap();
    let b = ids.fresh().unwrap();
    let c = ids.fresh().unwrap();
    assert_eq!(a, AcceleratorId { index: 0 });
    assert_eq!(b, AcceleratorId { index: 1 });
    assert_eq!(c, AcceleratorId { index: 2 });
}
