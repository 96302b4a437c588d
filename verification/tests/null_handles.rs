//! The null handle — the native library's failure signal — yields
//! `NullHandle` from every wrapping path; no wrapper ever holds it.

use cgbridge::bitmap::CGBitmapContext;
use cgbridge::bridge::OwnedHandle;
use cgbridge::color_space::CGColorSpace;
use cgbridge::context::CGContext;
use cgbridge::data_provider::CGDataProvider;
use cgbridge::error::BridgeError;
use cgbridge::font::CGFont;
use cgbridge::image::CGImage;
use cgbridge::native::{MockNative, ResourceKind, NULL_HANDLE};

#[test]
fn bridge_rejects_null_both_rules() {
    let mut native = MockNative::new();
    let r = OwnedHandle::wrap_owned(&native, NULL_HANDLE, ResourceKind::Image);
    assert_eq!(r.unwrap_err(), BridgeError::NullHandle);
    let r = OwnedHandle::wrap_retained(&mut native, NULL_HANDLE, ResourceKind::Image);
    assert_eq!(r.unwrap_err(), BridgeError::NullHandle);
}

#[test]
fn every_family_rejects_null() {
    let mut native = MockNative::new();
    assert_eq!(
        CGColorSpace::wrap_owned(&native, NULL_HANDLE).unwrap_err(),
        BridgeError::NullHandle
    );
    assert_eq!(
        CGColorSpace::wrap_retained(&mut native, NULL_HANDLE).unwrap_err(),
        BridgeError::NullHandle
    );
    assert_eq!(
        CGDataProvider::wrap_owned(&native, NULL_HANDLE).unwrap_err(),
        BridgeError::NullHandle
    );
    assert_eq!(
        CGDataProvider::wrap_retained(&mut native, NULL_HANDLE).unwrap_err(),
        BridgeError::NullHandle
    );
    assert_eq!(CGFont::wrap_owned(&native, NULL_HANDLE).unwrap_err(), BridgeError::NullHandle);
    assert_eq!(
        CGFont::wrap_retained(&mut native, NULL_HANDLE).unwrap_err(),
        BridgeError::NullHandle
    );
    assert_eq!(CGContext::wrap_owned(&native, NULL_HANDLE).unwrap_err(), BridgeError::NullHandle);
    assert_eq!(
        CGContext::wrap_retained(&mut native, NULL_HANDLE).unwrap_err(),
        BridgeError::NullHandle
    );
    assert_eq!(
        CGBitmapContext::wrap_owned(&native, NULL_HANDLE).unwrap_err(),
        BridgeError::NullHandle
    );
    assert_eq!(
        CGBitmapContext::wrap_retained(&mut native, NULL_HANDLE).unwrap_err(),
        BridgeError::NullHandle
    );
    assert_eq!(CGImage::from_ref(&native, NULL_HANDLE).unwrap_err(), BridgeError::NullHandle);
    assert_eq!(
        CGImage::wrap_retained(&mut native, NULL_HANDLE).unwrap_err(),
        BridgeError::NullHandle
    );
}

#[test]
fn failing_factories_surface_null_as_error() {
    let mut native = MockNative::new();
    // Unknown font name: the factory returns null, the path reports it.
    assert_eq!(
        CGFont::from_name(&mut native, &String::from("NoSuchFont")).unwrap_err(),
        BridgeError::NullHandle
    );
    // Empty font file.
    let empty = CGDataProvider::from_boxed_slice(&mut native, Vec::new().into_boxed_slice());
    assert_eq!(
        CGFont::from_provider(&mut native, &empty).unwrap_err(),
        BridgeError::NullHandle
    );
    empty.release(&mut native);
    // Rejected bitmap geometry.
    let cs = CGColorSpace::new_device_rgb(&mut native);
    assert_eq!(
        CGBitmapContext::new(&mut native, 1, 0, 8, 1, &cs).unwrap_err(),
        BridgeError::NullHandle
    );
    cs.release(&mut native);
}
