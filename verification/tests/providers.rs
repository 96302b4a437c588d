//! Data providers: buffer transfer disciplines, data round trips, and the
//! one-shot release callback.

use cgbridge::data_provider::CGDataProvider;
use cgbridge::native::{Discipline, MockNative};

#[test]
fn from_buffer_copies_and_borrows() {
    let mut native = MockNative::new();
    let bytes = [10u8, 20, 30];
    let p = CGDataProvider::from_buffer(&mut native, &bytes);
    let h = p.handle();
    assert_eq!(p.copy_data(&native), vec![10u8, 20, 30]);
    assert_eq!(native.provider_discipline(h), Discipline::Borrowed);
    assert!(!native.provider_callback_fired(h));
    p.release(&mut native);
}

#[test]
fn transfer_disciplines_are_recorded() {
    let mut native = MockNative::new();
    let boxed = CGDataProvider::from_boxed_slice(&mut native, vec![1u8].into_boxed_slice());
    let rc = CGDataProvider::from_rc_vec(&mut native, std::rc::Rc::new(vec![2u8]));
    let arc = CGDataProvider::from_arc_vec(&mut native, std::sync::Arc::new(vec![3u8]));
    assert_eq!(native.provider_discipline(boxed.handle()), Discipline::Boxed);
    assert_eq!(native.provider_discipline(rc.handle()), Discipline::RefCounted);
    assert_eq!(native.provider_discipline(arc.handle()), Discipline::AtomicRefCounted);
    boxed.release(&mut native);
    rc.release(&mut native);
    arc.release(&mut native);
}

#[test]
fn copy_data_round_trip() {
    let mut native = MockNative::new();
    let payload: Vec<u8> = (0u8..64).collect();
    let p = CGDataProvider::from_boxed_slice(&mut native, payload.clone().into_boxed_slice());
    assert_eq!(p.copy_data(&native), payload);
    p.release(&mut native);
}

/// The native layer fires a transferred buffer's release callback at a
/// time of its own choosing, after the last reference is gone, and at
/// most once.
#[test]
fn release_callback_fires_once_after_last_release() {
    let mut native = MockNative::new();
    let p = CGDataProvider::from_boxed_slice(&mut native, vec![1u8, 2, 3].into_boxed_slice());
    let h = p.handle();

    // Not fired while the provider is alive.
    assert!(!native.provider_callback_fired(h));
    p.release(&mut native);
    // Still not fired: the native layer's completion timing is its own.
    assert!(!native.provider_callback_fired(h));

    native.fire_provider_callback(h);
    assert!(native.provider_callback_fired(h));
}
