//! Bitmap contexts: the backing buffer's exact size, stride padding, byte
//! writes, and the rendering switches shared with plain contexts.

use cgbridge::bitmap::CGBitmapContext;
use cgbridge::color_space::CGColorSpace;
use cgbridge::context::CGContext;
use cgbridge::error::BridgeError;
use cgbridge::native::{ContextFlag, MockNative};

#[test]
fn backing_buffer_is_height_times_stride() {
    let mut native = MockNative::new();
    let cs = CGColorSpace::new_device_rgb(&mut native);
    let b = CGBitmapContext::new(&mut native, 4, 2, 8, 16, &cs).unwrap();
    assert_eq!(b.width(&native), 4);
    assert_eq!(b.height(&native), 2);
    assert_eq!(b.bytes_per_row(&native), 16);
    assert_eq!(b.data(&native).unwrap().len(), 32);
    b.release(&mut native);
    cs.release(&mut native);
}

/// Stride padding is honored exactly: with a stride of 17 the buffer is
/// 34 bytes, not the 32 a recomputation from the logical width would give.
#[test]
fn stride_padding_is_honored_exactly() {
    let mut native = MockNative::new();
    let cs = CGColorSpace::new_device_rgb(&mut native);
    let b = CGBitmapContext::new(&mut native, 4, 2, 8, 17, &cs).unwrap();
    let data = b.data(&native).unwrap();
    assert_eq!(data.len(), 34);
    assert_ne!(data.len(), 32);
    b.release(&mut native);
    cs.release(&mut native);
}

#[test]
fn rejected_geometry_is_null_handle() {
    let mut native = MockNative::new();
    let cs = CGColorSpace::new_device_rgb(&mut native);
    let r = CGBitmapContext::new(&mut native, 0, 2, 8, 16, &cs);
    assert_eq!(r.unwrap_err(), BridgeError::NullHandle);
    let r = CGBitmapContext::new(&mut native, 4, 2, 8, 0, &cs);
    assert_eq!(r.unwrap_err(), BridgeError::NullHandle);
    let r = CGBitmapContext::new(&mut native, 4, usize::MAX, 8, 2, &cs);
    assert_eq!(r.unwrap_err(), BridgeError::NullHandle);
    cs.release(&mut native);
}

#[test]
fn written_bytes_come_back() {
    let mut native = MockNative::new();
    let cs = CGColorSpace::new_device_rgb(&mut native);
    let b = CGBitmapContext::new(&mut native, 2, 2, 8, 4, &cs).unwrap();
    b.write_byte(&mut native, 0, 0xAB);
    b.write_byte(&mut native, 7, 0xCD);
    let data = b.data(&native).unwrap();
    assert_eq!(data[0], 0xAB);
    assert_eq!(data[7], 0xCD);
    assert_eq!(data[1], 0);
    b.release(&mut native);
    cs.release(&mut native);
}

#[test]
fn bitmap_rendering_switches() {
    let mut native = MockNative::new();
    let cs = CGColorSpace::new_device_rgb(&mut native);
    let b = CGBitmapContext::new(&mut native, 1, 1, 8, 1, &cs).unwrap();
    let h = b.handle();
    assert!(!native.context_flag(h, ContextFlag::ShouldAntialias));
    b.set_should_antialias(&mut native, true);
    b.set_allows_font_smoothing(&mut native, true);
    assert!(native.context_flag(h, ContextFlag::ShouldAntialias));
    assert!(native.context_flag(h, ContextFlag::AllowsFontSmoothing));
    assert!(!native.context_flag(h, ContextFlag::ShouldSmoothFonts));
    b.set_should_antialias(&mut native, false);
    assert!(!native.context_flag(h, ContextFlag::ShouldAntialias));
    b.release(&mut native);
    cs.release(&mut native);
}

#[test]
fn plain_context_rendering_switches() {
    let mut native = MockNative::new();
    let h = native.create_context();
    let c = CGContext::wrap_owned(&native, h).unwrap();
    c.set_allows_antialiasing(&mut native, true);
    c.set_should_smooth_fonts(&mut native, true);
    assert!(native.context_flag(h, ContextFlag::AllowsAntialiasing));
    assert!(native.context_flag(h, ContextFlag::ShouldSmoothFonts));
    assert!(!native.context_flag(h, ContextFlag::AllowsFontSmoothing));
    c.release(&mut native);
}
