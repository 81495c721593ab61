use hsa_runtime::intrinsics::{insert_all_intrinsics, whitelist_legionella_attr, Generators};

#[test]
fn builtin_names_take_precedence() {
    let mut g = Generators::<u32, u64>::new(1, 2, 3);
    assert_eq!(g.insert("kernel_id_for".to_string(), 9), Ok(()));
    assert_eq!(g.custom_intrinsic_mirgen(&"kernel_id_for".to_string()), Some(&1));
    assert_eq!(g.custom_intrinsic_mirgen(&"kernel_context_data_id".to_string()), Some(&2));
    assert_eq!(g.custom_intrinsic_mirgen(&"kernel_env_for".to_string()), Some(&3));
}

#[test]
fn platform_intrinsics_are_looked_up() {
    let mut g = Generators::<u32, u64>::new(1, 2, 3);
    assert_eq!(g.insert("amdgcn_barrier".to_string(), 10), Ok(()));
    assert_eq!(g.insert("vk_workgroup_id".to_string(), 11), Ok(()));
    assert_eq!(g.custom_intrinsic_mirgen(&"amdgcn_barrier".to_string()), Some(&10));
    assert_eq!(g.custom_intrinsic_mirgen(&"vk_workgroup_id".to_string()), Some(&11));
    assert_eq!(g.custom_intrinsic_mirgen(&"unknown".to_string()), None);
}

#[test]
fn duplicate_intrinsic_is_refused() {
    let mut g = Generators::<u32, u64>::new(1, 2, 3);
    assert_eq!(g.insert("amdgcn_barrier".to_string(), 10), Ok(()));
    assert_eq!(g.insert("amdgcn_barrier".to_string(), 12), Err(12));
    assert_eq!(g.custom_intrinsic_mirgen(&"amdgcn_barrier".to_string()), Some(&10));
}

#[test]
fn legionella_attributes_are_whitelisted() {
    let mut attrs = vec!["inline".to_string()];
    whitelist_legionella_attr(&mut attrs);
    assert_eq!(attrs, vec!["inline", "legionella", "legionella_attr"]);
}

#[test]
fn insert_all_fills_table_in_order() {
    let mut g = Generators::<u32, u64>::new(1, 2, 3);
    let items = vec![("amdgcn_barrier".to_string(), 10), ("vk_workgroup_id".to_string(), 11)];
    assert_eq!(insert_all_intrinsics(&mut g, items), Ok(()));
    assert_eq!(g.custom_intrinsic_mirgen(&"amdgcn_barrier".to_string()), Some(&10));
    assert_eq!(g.custom_intrinsic_mirgen(&"vk_workgroup_id".to_string()), Some(&11));
}

#[test]
fn insert_all_stops_at_duplicate() {
    let mut g = Generators::<u32, u64>::new(1, 2, 3);
    let items = vec![
        ("a".to_string(), 10),
        ("b".to_string(), 11),
        ("a".to_string(), 12),
        ("c".to_string(), 13),
    ];
    assert_eq!(insert_all_intrinsics(&mut g, items), Err("a".to_string()));
    assert_eq!(g.custom_intrinsic_mirgen(&"a".to_string()), Some(&10));
    assert_eq!(g.custom_intrinsic_mirgen(&"b".to_string()), Some(&11));
    assert_eq!(g.custom_intrinsic_mirgen(&"c".to_string()), None);
}

#[test]
fn crate_store_is_set_once() {
    let mut g = Generators::<u32, u64>::new(1, 2, 3);
    assert_eq!(g.set_cstore(100), Ok(()));
    assert_eq!(*g.cstore(), 100);
    assert_eq!(g.set_cstore(200), Err(200));
    assert_eq!(*g.cstore(), 100);
}
