//! Retain/release balance of the ownership bridge, observed through the
//! mock native layer's call records.

use cgbridge::bridge::OwnedHandle;
use cgbridge::data_provider::CGDataProvider;
use cgbridge::native::{MockNative, ResourceKind};

/// Wrapping under the create rule adds no reference: an immediate release
/// decreases the count by exactly one and records no retain.
#[test]
fn wrap_owned_then_release_decrements() {
    let mut native = MockNative::new();
    let p = CGDataProvider::from_boxed_slice(&mut native, vec![1u8, 2, 3].into_boxed_slice());
    let h = p.handle();
    assert_eq!(native.ref_count(h), 1);
    assert_eq!(native.retain_count(h), 0);

    let w = OwnedHandle::wrap_owned(&native, h, ResourceKind::DataProvider).unwrap();
    assert_eq!(native.ref_count(h), 1);
    w.release(&mut native);
    assert_eq!(native.ref_count(h), 0);
    assert_eq!(native.retain_count(h), 0);
    assert_eq!(native.release_count(h), 1);
    // `p` still nominally owned a unit; the trial handed its unit to `w`
    // through the raw handle, so `p` is consumed without another release.
    drop(p);
}

/// Wrapping under the get rule retains first: an immediate release leaves
/// the count unchanged, with one retain and one release recorded.
#[test]
fn wrap_retained_then_release_balances() {
    let mut native = MockNative::new();
    let p = CGDataProvider::from_boxed_slice(&mut native, vec![9u8].into_boxed_slice());
    let h = p.handle();
    assert_eq!(native.ref_count(h), 1);

    let w = OwnedHandle::wrap_retained(&mut native, h, ResourceKind::DataProvider).unwrap();
    assert_eq!(native.ref_count(h), 2);
    assert_eq!(native.retain_count(h), 1);
    w.release(&mut native);
    assert_eq!(native.ref_count(h), 1);
    assert_eq!(native.retain_count(h), 1);
    assert_eq!(native.release_count(h), 1);

    p.release(&mut native);
    assert_eq!(native.ref_count(h), 0);
    assert_eq!(native.release_count(h), 2);
}

/// A clone adds exactly one reference; releasing clone before original
/// leaves the count at the pre-clone value minus both releases.
#[test]
fn clone_then_release_clone_first() {
    let mut native = MockNative::new();
    let p = CGDataProvider::from_rc_vec(&mut native, std::rc::Rc::new(vec![5u8, 6]));
    let h = p.handle();
    assert_eq!(native.ref_count(h), 1);

    let c = p.clone(&mut native);
    assert_eq!(native.ref_count(h), 2);
    assert_eq!(native.retain_count(h), 1);

    c.release(&mut native);
    assert_eq!(native.ref_count(h), 1);
    p.release(&mut native);
    assert_eq!(native.ref_count(h), 0);
    assert_eq!(native.release_count(h), 2);
}

/// A clone adds exactly one reference; releasing original before clone
/// ends in the same counts as the other order.
#[test]
fn clone_then_release_original_first() {
    let mut native = MockNative::new();
    let p = CGDataProvider::from_rc_vec(&mut native, std::rc::Rc::new(vec![5u8, 6]));
    let h = p.handle();

    let c = p.clone(&mut native);
    assert_eq!(native.ref_count(h), 2);

    p.release(&mut native);
    assert_eq!(native.ref_count(h), 1);
    c.release(&mut native);
    assert_eq!(native.ref_count(h), 0);
    assert_eq!(native.release_count(h), 2);
    assert_eq!(native.retain_count(h), 1);
}

/// An original and two clones: by the time all three are out of scope,
/// exactly three releases stand recorded — one per wrapper.
#[test]
fn one_release_per_wrapper() {
    let mut native = MockNative::new();
    let p = CGDataProvider::from_arc_vec(&mut native, std::sync::Arc::new(vec![0u8; 4]));
    let h = p.handle();

    let c1 = p.clone(&mut native);
    let c2 = c1.clone(&mut native);
    assert_eq!(native.ref_count(h), 3);
    assert_eq!(native.retain_count(h), 2);

    c1.release(&mut native);
    p.release(&mut native);
    c2.release(&mut native);
    assert_eq!(native.ref_count(h), 0);
    assert_eq!(native.release_count(h), 3);
    assert_eq!(native.retain_count(h), 2);
}

/// Wrapper identity goes by handle and type descriptor, never by wrapper
/// address: a clone names the same resource, an unrelated wrapper does not.
#[test]
fn identity_by_native_descriptor() {
    let mut native = MockNative::new();
    // The temporary wrapper hands its reference unit to `a` through the
    // raw handle, so it is consumed without a release of its own.
    let h = {
        let p = CGDataProvider::from_boxed_slice(&mut native, vec![1u8].into_boxed_slice());
        p.handle()
    };
    let a = OwnedHandle::wrap_owned(&native, h, ResourceKind::DataProvider).unwrap();
    let b = a.clone(&mut native);
    let other = CGDataProvider::from_boxed_slice(&mut native, vec![1u8].into_boxed_slice());
    let c = OwnedHandle::wrap_retained(&mut native, other.handle(), ResourceKind::DataProvider)
        .unwrap();

    assert!(a.same_resource(&b));
    assert!(b.same_resource(&a));
    assert!(!a.same_resource(&c));
    assert_eq!(a.kind(), ResourceKind::DataProvider);

    let h = a.handle();
    a.release(&mut native);
    b.release(&mut native);
    assert_eq!(native.release_count(h), 2);
    c.release(&mut native);
    other.release(&mut native);
}

/// A borrowed view names the same handle but confers no release
/// obligation: taking and dropping it records nothing.
#[test]
fn borrowed_view_records_nothing() {
    let mut native = MockNative::new();
    let p = CGDataProvider::from_boxed_slice(&mut native, vec![1u8, 2].into_boxed_slice());
    let h = p.handle();

    let view = p.as_borrowed();
    assert_eq!(view.handle(), h);
    drop(view);
    assert_eq!(native.ref_count(h), 1);
    assert_eq!(native.retain_count(h), 0);
    assert_eq!(native.release_count(h), 0);

    p.release(&mut native);
    assert_eq!(native.release_count(h), 1);
}
