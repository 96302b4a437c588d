//! The bitmap context resource family: a graphics context drawing into a
//! byte buffer of exactly `height * bytes_per_row` bytes.
//!
//! The stride may exceed the logical row width — native strides include
//! padding — so the buffer size is always taken from the reported stride,
//! never recomputed from the logical width.

use vstd::prelude::*;

use crate::bridge::{BorrowedHandle, OwnedHandle};
use crate::color_space::CGColorSpace;
use crate::error::BridgeError;
use crate::native::{
    bitmap_params_ok, ContextFlag, DataView, Handle, MockNative, NativeView, ResourceKind,
};

verus! {

/// An owned wrapper around one native bitmap context: exactly one
/// reference-count unit, released exactly once.
#[derive(Debug)]
pub struct CGBitmapContext {
    owned: OwnedHandle,
}

impl CGBitmapContext {
    /// The wrapped handle.
    pub closed spec fn spec_handle(self) -> Handle {
        self.owned.spec_handle()
    }

    /// The wrapper's family tag names this module's family.
    pub closed spec fn wf(self) -> bool {
        self.owned.spec_kind() == ResourceKind::BitmapContext
    }

    /// The wrapper names a live bitmap context in state `s`.
    pub open spec fn valid(self, s: NativeView) -> bool {
        &&& self.wf()
        &&& s.live(self.spec_handle())
        &&& s.kind_of(self.spec_handle()) == ResourceKind::BitmapContext
    }

    /// The backing buffer, in state `s`.
    pub open spec fn spec_buffer(self, s: NativeView) -> Seq<u8> {
        s.data_of(self.spec_handle())->Bitmap_buffer
    }

    /// The value of one rendering switch, in state `s`.
    pub open spec fn spec_flag(self, s: NativeView, flag: ContextFlag) -> bool {
        s.data_of(self.spec_handle()).flag(flag)
    }

    /// The type descriptor of the bitmap context family, for identity
    /// checks.
    pub fn type_id() -> (k: ResourceKind)
        ensures
            k == ResourceKind::BitmapContext,
    {
        ResourceKind::BitmapContext
    }

    /// Factory: a bitmap context drawing into a fresh zeroed buffer of
    /// exactly `height * bytes_per_row` bytes.  The native layer signals a
    /// geometry it rejects — a zero dimension, or a buffer size that
    /// cannot be represented — with the null handle, surfaced here as
    /// [`BridgeError::NullHandle`]; the result otherwise follows the
    /// create rule.
    pub fn new(
        native: &mut MockNative,
        width: usize,
        height: usize,
        bits_per_component: usize,
        bytes_per_row: usize,
        color_space: &CGColorSpace,
    ) -> (r: Result<CGBitmapContext, BridgeError>)
        requires
            color_space.valid(old(native)@),
            old(native)@.can_create(),
        ensures
            r is Ok <==> bitmap_params_ok(width, height, bits_per_component, bytes_per_row),
            r is Err ==> r == Err::<CGBitmapContext, BridgeError>(BridgeError::NullHandle)
                && final(native)@ == old(native)@,
            r matches Ok(w) ==> final(native)@ == old(native)@.created(
                (DataView::Bitmap {
                    width,
                    height,
                    bytes_per_row,
                    buffer: Seq::new((height * bytes_per_row) as nat, |i: int| 0u8),
                    allows_font_smoothing: false,
                    should_smooth_fonts: false,
                    allows_antialiasing: false,
                    should_antialias: false,
                }),
            ) && w.valid(final(native)@) && w.spec_handle() == old(native)@.next_handle(),
    {
        let h = native.create_bitmap_context(
            width,
            height,
            bits_per_component,
            bytes_per_row,
            color_space.handle(),
        );
        match OwnedHandle::wrap_owned(native, h, ResourceKind::BitmapContext) {
            Ok(owned) => Ok(CGBitmapContext { owned }),
            Err(e) => Err(e),
        }
    }

    /// Wraps a bitmap context handle that already carries an owned
    /// reference (the create rule).  The null handle yields
    /// [`BridgeError::NullHandle`].
    pub fn wrap_owned(native: &MockNative, h: Handle) -> (r: Result<CGBitmapContext, BridgeError>)
        requires
            h != 0 ==> native@.live(h) && native@.kind_of(h) == ResourceKind::BitmapContext,
        ensures
            h == 0 <==> r is Err,
            h == 0 ==> r == Err::<CGBitmapContext, BridgeError>(BridgeError::NullHandle),
            r matches Ok(w) ==> w.spec_handle() == h && w.valid(native@),
    {
        match OwnedHandle::wrap_owned(native, h, ResourceKind::BitmapContext) {
            Ok(owned) => Ok(CGBitmapContext { owned }),
            Err(e) => Err(e),
        }
    }

    /// Wraps a bitmap context handle read out of another object (the get
    /// rule): retains first, then owns the new unit.
    pub fn wrap_retained(native: &mut MockNative, h: Handle) -> (r: Result<
        CGBitmapContext,
        BridgeError,
    >)
        requires
            h != 0 ==> old(native)@.live(h) && old(native)@.kind_of(h)
                == ResourceKind::BitmapContext && old(native)@.can_retain(h),
        ensures
            h == 0 <==> r is Err,
            h == 0 ==> r == Err::<CGBitmapContext, BridgeError>(BridgeError::NullHandle)
                && final(native)@ == old(native)@,
            h != 0 ==> final(native)@ == old(native)@.retained(h),
            r matches Ok(w) ==> w.spec_handle() == h && w.valid(final(native)@),
    {
        match OwnedHandle::wrap_retained(native, h, ResourceKind::BitmapContext) {
            Ok(owned) => Ok(CGBitmapContext { owned }),
            Err(e) => Err(e),
        }
    }

    /// Duplicates ownership: one retain call, one new independent wrapper
    /// of the same resource.
    pub fn clone(&self, native: &mut MockNative) -> (r: CGBitmapContext)
        requires
            self.valid(old(native)@),
            old(native)@.can_retain(self.spec_handle()),
        ensures
            final(native)@ == old(native)@.retained(self.spec_handle()),
            r.valid(final(native)@),
            r.spec_handle() == self.spec_handle(),
            self.valid(final(native)@),
    {
        CGBitmapContext { owned: self.owned.clone(native) }
    }

    /// Gives the owned reference back: exactly one release call, consuming
    /// the wrapper.
    pub fn release(self, native: &mut MockNative)
        requires
            self.valid(old(native)@),
            old(native)@.can_release(self.spec_handle()),
        ensures
            final(native)@ == old(native)@.released(self.spec_handle()),
    {
        self.owned.release(native)
    }

    /// The raw handle value.
    pub fn handle(&self) -> (h: Handle)
        ensures
            h == self.spec_handle(),
    {
        self.owned.handle()
    }

    /// A non-owning view of the handle, for the duration of the borrow.
    pub fn as_borrowed(&self) -> (r: BorrowedHandle)
        ensures
            r.spec_handle() == self.spec_handle(),
    {
        self.owned.as_borrowed()
    }

    /// The pixel width the context reports.
    pub fn width(&self, native: &MockNative) -> (r: usize)
        requires
            self.valid(native@),
        ensures
            r == native@.data_of(self.spec_handle())->Bitmap_width,
    {
        native.bitmap_width(self.owned.handle())
    }

    /// The pixel height the context reports.
    pub fn height(&self, native: &MockNative) -> (r: usize)
        requires
            self.valid(native@),
        ensures
            r == native@.data_of(self.spec_handle())->Bitmap_height,
    {
        native.bitmap_height(self.owned.handle())
    }

    /// The row stride, in bytes.  It may exceed the logical row width:
    /// native strides include padding.
    pub fn bytes_per_row(&self, native: &MockNative) -> (r: usize)
        requires
            self.valid(native@),
        ensures
            r == native@.data_of(self.spec_handle())->Bitmap_bytes_per_row,
    {
        native.bitmap_bytes_per_row(self.owned.handle())
    }

    /// A copy of the backing buffer.  Its length is checked at access time
    /// against exactly `height * bytes_per_row` — taken from the reported
    /// stride, never recomputed from the logical width; a disagreement is
    /// surfaced as [`BridgeError::SizeMismatch`].
    pub fn data(&self, native: &MockNative) -> (r: Result<Vec<u8>, BridgeError>)
        requires
            self.valid(native@),
            native@.data_of(self.spec_handle())->Bitmap_height * native@.data_of(
                self.spec_handle(),
            )->Bitmap_bytes_per_row <= usize::MAX,
        ensures
            r is Ok <==> self.spec_buffer(native@).len() == native@.data_of(
                self.spec_handle(),
            )->Bitmap_height * native@.data_of(self.spec_handle())->Bitmap_bytes_per_row,
            r matches Ok(v) ==> v@ == self.spec_buffer(native@),
            r matches Err(e) ==> e == (BridgeError::SizeMismatch {
                expected_bits: (native@.data_of(self.spec_handle())->Bitmap_height
                    * native@.data_of(self.spec_handle())->Bitmap_bytes_per_row * 8) as u128,
                reported_bits: (self.spec_buffer(native@).len() * 8) as u128,
            }),
    {
        let h = self.owned.handle();
        let height = native.bitmap_height(h);
        let bytes_per_row = native.bitmap_bytes_per_row(h);
        let buffer = native.bitmap_copy_data(h);
        let expected = height * bytes_per_row;
        if buffer.len() == expected {
            Ok(buffer)
        } else {
            Err(
                BridgeError::SizeMismatch {
                    expected_bits: (expected as u128) * 8,
                    reported_bits: (buffer.len() as u128) * 8,
                },
            )
        }
    }

    /// Writes one byte of the backing buffer.
    pub fn write_byte(&self, native: &mut MockNative, index: usize, value: u8)
        requires
            self.valid(old(native)@),
            index < old(native)@.data_of(self.spec_handle())->Bitmap_buffer.len(),
        ensures
            final(native)@ == old(native)@.with_data(
                self.spec_handle(),
                old(native)@.data_of(self.spec_handle()).with_bitmap_byte(index as int, value),
            ),
            self.valid(final(native)@),
    {
        native.bitmap_write_byte(self.owned.handle(), index, value);
    }

    /// Sets whether the context is allowed to smooth fonts.
    pub fn set_allows_font_smoothing(&self, native: &mut MockNative, allows_font_smoothing: bool)
        requires
            self.valid(old(native)@),
        ensures
            final(native)@ == old(native)@.with_data(
                self.spec_handle(),
                old(native)@.data_of(self.spec_handle()).with_flag(
                    ContextFlag::AllowsFontSmoothing,
                    allows_font_smoothing,
                ),
            ),
            self.valid(final(native)@),
    {
        native.set_context_flag(
            self.owned.handle(),
            ContextFlag::AllowsFontSmoothing,
            allows_font_smoothing,
        );
    }

    /// Sets whether the context should smooth fonts.
    pub fn set_should_smooth_fonts(&self, native: &mut MockNative, should_smooth_fonts: bool)
        requires
            self.valid(old(native)@),
        ensures
            final(native)@ == old(native)@.with_data(
                self.spec_handle(),
                old(native)@.data_of(self.spec_handle()).with_flag(
                    ContextFlag::ShouldSmoothFonts,
                    should_smooth_fonts,
                ),
            ),
            self.valid(final(native)@),
    {
        native.set_context_flag(
            self.owned.handle(),
            ContextFlag::ShouldSmoothFonts,
            should_smooth_fonts,
        );
    }

    /// Sets whether the context is allowed to antialias.
    pub fn set_allows_antialiasing(&self, native: &mut MockNative, allows_antialiasing: bool)
        requires
            self.valid(old(native)@),
        ensures
            final(native)@ == old(native)@.with_data(
                self.spec_handle(),
                old(native)@.data_of(self.spec_handle()).with_flag(
                    ContextFlag::AllowsAntialiasing,
                    allows_antialiasing,
                ),
            ),
            self.valid(final(native)@),
    {
        native.set_context_flag(
            self.owned.handle(),
            ContextFlag::AllowsAntialiasing,
            allows_antialiasing,
        );
    }

    /// Sets whether the context should antialias.
    pub fn set_should_antialias(&self, native: &mut MockNative, should_antialias: bool)
        requires
            self.valid(old(native)@),
        ensures
            final(native)@ == old(native)@.with_data(
                self.spec_handle(),
                old(native)@.data_of(self.spec_handle()).with_flag(
                    ContextFlag::ShouldAntialias,
                    should_antialias,
                ),
            ),
            self.valid(final(native)@),
    {
        native.set_context_flag(self.owned.handle(), ContextFlag::ShouldAntialias, should_antialias);
    }
}

} // verus!
