//! The graphics context resource family: the boolean rendering switches.
//!
//! The native context also takes a floating-point fill color; that call
//! works on floating-point components and stands outside this verified
//! layer, with the rest of the raw foreign interface.

use vstd::prelude::*;

use crate::bridge::{BorrowedHandle, OwnedHandle};
use crate::error::BridgeError;
use crate::native::{ContextFlag, Handle, MockNative, NativeView, ResourceKind};

verus! {

/// An owned wrapper around one native graphics context: exactly one
/// reference-count unit, released exactly once.
#[derive(Debug)]
pub struct CGContext {
    owned: OwnedHandle,
}

impl CGContext {
    /// The wrapped handle.
    pub closed spec fn spec_handle(self) -> Handle {
        self.owned.spec_handle()
    }

    /// The wrapper's family tag names this module's family.
    pub closed spec fn wf(self) -> bool {
        self.owned.spec_kind() == ResourceKind::Context
    }

    /// The wrapper names a live graphics context in state `s`.
    pub open spec fn valid(self, s: NativeView) -> bool {
        &&& self.wf()
        &&& s.live(self.spec_handle())
        &&& s.kind_of(self.spec_handle()) == ResourceKind::Context
    }

    /// The value of one rendering switch, in state `s`.
    pub open spec fn spec_flag(self, s: NativeView, flag: ContextFlag) -> bool {
        s.data_of(self.spec_handle()).flag(flag)
    }

    /// The type descriptor of the graphics context family, for identity
    /// checks.
    pub fn type_id() -> (k: ResourceKind)
        ensures
            k == ResourceKind::Context,
    {
        ResourceKind::Context
    }

    /// Wraps a context handle that already carries an owned reference (the
    /// create rule).  The null handle yields [`BridgeError::NullHandle`].
    pub fn wrap_owned(native: &MockNative, h: Handle) -> (r: Result<CGContext, BridgeError>)
        requires
            h != 0 ==> native@.live(h) && native@.kind_of(h) == ResourceKind::Context,
        ensures
            h == 0 <==> r is Err,
            h == 0 ==> r == Err::<CGContext, BridgeError>(BridgeError::NullHandle),
            r matches Ok(w) ==> w.spec_handle() == h && w.valid(native@),
    {
        match OwnedHandle::wrap_owned(native, h, ResourceKind::Context) {
            Ok(owned) => Ok(CGContext { owned }),
            Err(e) => Err(e),
        }
    }

    /// Wraps a context handle read out of another object (the get rule):
    /// retains first, then owns the new unit.
    pub fn wrap_retained(native: &mut MockNative, h: Handle) -> (r: Result<CGContext, BridgeError>)
        requires
            h != 0 ==> old(native)@.live(h) && old(native)@.kind_of(h) == ResourceKind::Context
                && old(native)@.can_retain(h),
        ensures
            h == 0 <==> r is Err,
            h == 0 ==> r == Err::<CGContext, BridgeError>(BridgeError::NullHandle)
                && final(native)@ == old(native)@,
            h != 0 ==> final(native)@ == old(native)@.retained(h),
            r matches Ok(w) ==> w.spec_handle() == h && w.valid(final(native)@),
    {
        match OwnedHandle::wrap_retained(native, h, ResourceKind::Context) {
            Ok(owned) => Ok(CGContext { owned }),
            Err(e) => Err(e),
        }
    }

    /// Duplicates ownership: one retain call, one new independent wrapper
    /// of the same resource.
    pub fn clone(&self, native: &mut MockNative) -> (r: CGContext)
        requires
            self.valid(old(native)@),
            old(native)@.can_retain(self.spec_handle()),
        ensures
            final(native)@ == old(native)@.retained(self.spec_handle()),
            r.valid(final(native)@),
            r.spec_handle() == self.spec_handle(),
            self.valid(final(native)@),
    {
        CGContext { owned: self.owned.clone(native) }
    }

    /// Gives the owned reference back: exactly one release call, consuming
    /// the wrapper.
    pub fn release(self, native: &mut MockNative)
        requires
            self.valid(old(native)@),
            old(native)@.can_release(self.spec_handle()),
        ensures
            final(native)@ == old(native)@.released(self.spec_handle()),
    {
        self.owned.release(native)
    }

    /// The raw handle value.
    pub fn handle(&self) -> (h: Handle)
        ensures
            h == self.spec_handle(),
    {
        self.owned.handle()
    }

    /// A non-owning view of the handle, for the duration of the borrow.
    pub fn as_borrowed(&self) -> (r: BorrowedHandle)
        ensures
            r.spec_handle() == self.spec_handle(),
    {
        self.owned.as_borrowed()
    }

    /// Sets whether the context is allowed to smooth fonts.
    pub fn set_allows_font_smoothing(&self, native: &mut MockNative, allows_font_smoothing: bool)
        requires
            self.valid(old(native)@),
        ensures
            final(native)@ == old(native)@.with_data(
                self.spec_handle(),
                old(native)@.data_of(self.spec_handle()).with_flag(
                    ContextFlag::AllowsFontSmoothing,
                    allows_font_smoothing,
                ),
            ),
            self.valid(final(native)@),
    {
        native.set_context_flag(
            self.owned.handle(),
            ContextFlag::AllowsFontSmoothing,
            allows_font_smoothing,
        );
    }

    /// Sets whether the context should smooth fonts.
    pub fn set_should_smooth_fonts(&self, native: &mut MockNative, should_smooth_fonts: bool)
        requires
            self.valid(old(native)@),
        ensures
            final(native)@ == old(native)@.with_data(
                self.spec_handle(),
                old(native)@.data_of(self.spec_handle()).with_flag(
                    ContextFlag::ShouldSmoothFonts,
                    should_smooth_fonts,
                ),
            ),
            self.valid(final(native)@),
    {
        native.set_context_flag(
            self.owned.handle(),
            ContextFlag::ShouldSmoothFonts,
            should_smooth_fonts,
        );
    }

    /// Sets whether the context is allowed to antialias.
    pub fn set_allows_antialiasing(&self, native: &mut MockNative, allows_antialiasing: bool)
        requires
            self.valid(old(native)@),
        ensures
            final(native)@ == old(native)@.with_data(
                self.spec_handle(),
                old(native)@.data_of(self.spec_handle()).with_flag(
                    ContextFlag::AllowsAntialiasing,
                    allows_antialiasing,
                ),
            ),
            self.valid(final(native)@),
    {
        native.set_context_flag(
            self.owned.handle(),
            ContextFlag::AllowsAntialiasing,
            allows_antialiasing,
        );
    }

    /// Sets whether the context should antialias.
    pub fn set_should_antialias(&self, native: &mut MockNative, should_antialias: bool)
        requires
            self.valid(old(native)@),
        ensures
            final(native)@ == old(native)@.with_data(
                self.spec_handle(),
                old(native)@.data_of(self.spec_handle()).with_flag(
                    ContextFlag::ShouldAntialias,
                    should_antialias,
                ),
            ),
            self.valid(final(native)@),
    {
        native.set_context_flag(self.owned.handle(), ContextFlag::ShouldAntialias, should_antialias);
    }
}

} // verus!
