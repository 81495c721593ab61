use hsa_runtime::reference::{AccelRefRaw, Mut, Ref};

#[test]
fn ref_reads_value() {
    let v = 5u32;
    let r = Ref::new(&v);
    assert_eq!(*r.as_ref(), 5);
}

#[test]
fn mut_into_ref_keeps_mut_usable() {
    let mut v = vec![1u32, 2];
    {
        let mut m = Mut::new(&mut v);
        {
            let r = m.into_ref();
            assert_eq!(r.as_ref().len(), 2);
        }
        m.as_mut().push(3);
        assert_eq!(m.as_ref(), &vec![1, 2, 3]);
        let r = m.into_ref();
        assert_eq!(r.as_ref()[2], 3);
        m.as_mut()[0] = 10;
        assert_eq!(m.as_ref()[0], 10);
    }
    assert_eq!(v, vec![10, 2, 3]);
}

#[test]
fn accel_ref_reads_on_accelerator() {
    let mut r = AccelRefRaw::new(41u64, false);
    assert!(!r.is_host());
    assert_eq!(*r.as_ref(), 41);
    *r.as_mut() += 1;
    assert_eq!(*r.as_ref(), 42);
}

#[test]
fn accel_sequence_length_reads_on_host() {
    let r = AccelRefRaw::new(vec![1u8, 2, 3], true);
    assert!(r.is_host());
    assert_eq!(r.len(), 3);
}

#[test]
fn unchecked_access_bypasses_check() {
    let mut r = AccelRefRaw::new(7i32, true);
    assert_eq!(*r.unchecked_as_ref(), 7);
    *r.unchecked_as_mut() = 8;
    assert_eq!(*r.unchecked_as_ref(), 8);
}
