//! Fonts: both factories' success and null-handle failure paths, and the
//! reported PostScript name.

use cgbridge::data_provider::CGDataProvider;
use cgbridge::error::BridgeError;
use cgbridge::font::CGFont;
use cgbridge::native::MockNative;

#[test]
fn from_name_unknown_is_null_handle() {
    let mut native = MockNative::new();
    let r = CGFont::from_name(&mut native, &String::from("Menlo-Regular"));
    assert_eq!(r.unwrap_err(), BridgeError::NullHandle);
}

#[test]
fn from_name_installed_reports_name() {
    let mut native = MockNative::new();
    native.install_font(String::from("Menlo-Regular"));
    let f = CGFont::from_name(&mut native, &String::from("Menlo-Regular")).unwrap();
    assert_eq!(f.postscript_name(&native), "Menlo-Regular");
    assert_eq!(native.ref_count(f.handle()), 1);
    f.release(&mut native);
}

#[test]
fn from_provider_empty_is_null_handle() {
    let mut native = MockNative::new();
    let p = CGDataProvider::from_boxed_slice(&mut native, Vec::new().into_boxed_slice());
    let r = CGFont::from_provider(&mut native, &p);
    assert_eq!(r.unwrap_err(), BridgeError::NullHandle);
    p.release(&mut native);
}

#[test]
fn from_provider_nonempty_builds_font() {
    let mut native = MockNative::new();
    let p = CGDataProvider::from_boxed_slice(&mut native, vec![0u8, 1, 0, 0].into_boxed_slice());
    let f = CGFont::from_provider(&mut native, &p).unwrap();
    assert_eq!(f.postscript_name(&native), "Untitled");
    f.release(&mut native);
    p.release(&mut native);
}

#[test]
fn font_clone_balances() {
    let mut native = MockNative::new();
    native.install_font(String::from("Helvetica"));
    let f = CGFont::from_name(&mut native, &String::from("Helvetica")).unwrap();
    let h = f.handle();
    let c = f.clone(&mut native);
    assert_eq!(native.ref_count(h), 2);
    c.release(&mut native);
    f.release(&mut native);
    assert_eq!(native.ref_count(h), 0);
    assert_eq!(native.release_count(h), 2);
}
