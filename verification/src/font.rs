//! The font resource family.
//!
//! Both factories can fail: the native layer signals a font it cannot
//! build — an empty font file, an unknown PostScript name — by returning
//! the null handle, which every wrapping path surfaces as
//! [`BridgeError::NullHandle`].

use vstd::prelude::*;

use crate::bridge::{BorrowedHandle, OwnedHandle};
use crate::data_provider::CGDataProvider;
use crate::error::BridgeError;
use crate::native::{DataView, Handle, MockNative, NativeView, ResourceKind};

verus! {

/// A glyph index inside a font.
pub type CGGlyph = u16;

/// An owned wrapper around one native font resource: exactly one
/// reference-count unit, released exactly once.
#[derive(Debug)]
pub struct CGFont {
    owned: OwnedHandle,
}

impl CGFont {
    /// The wrapped handle.
    pub closed spec fn spec_handle(self) -> Handle {
        self.owned.spec_handle()
    }

    /// The wrapper's family tag names this module's family.
    pub closed spec fn wf(self) -> bool {
        self.owned.spec_kind() == ResourceKind::Font
    }

    /// The wrapper names a live font in state `s`.
    pub open spec fn valid(self, s: NativeView) -> bool {
        &&& self.wf()
        &&& s.live(self.spec_handle())
        &&& s.kind_of(self.spec_handle()) == ResourceKind::Font
    }

    /// The type descriptor of the font family, for identity checks.
    pub fn type_id() -> (k: ResourceKind)
        ensures
            k == ResourceKind::Font,
    {
        ResourceKind::Font
    }

    /// Factory: a font built from the contents of a data provider.  The
    /// native layer rejects an empty font file with the null handle, which
    /// this wrapping path surfaces as [`BridgeError::NullHandle`]; any
    /// non-empty contents yield an owned font under the create rule.
    pub fn from_provider(native: &mut MockNative, provider: &CGDataProvider) -> (r: Result<
        CGFont,
        BridgeError,
    >)
        requires
            provider.valid(old(native)@),
            old(native)@.can_create(),
        ensures
            r is Ok <==> provider.spec_data(old(native)@).len() != 0,
            r is Err ==> r == Err::<CGFont, BridgeError>(BridgeError::NullHandle)
                && final(native)@ == old(native)@,
            r matches Ok(w) ==> final(native)@ == old(native)@.created(
                (DataView::Font { postscript_name: "Untitled"@ }),
            ) && w.valid(final(native)@) && w.spec_handle() == old(native)@.next_handle(),
    {
        let h = native.create_font_with_provider(provider.handle());
        match OwnedHandle::wrap_owned(native, h, ResourceKind::Font) {
            Ok(owned) => Ok(CGFont { owned }),
            Err(e) => Err(e),
        }
    }

    /// Factory: a font looked up by PostScript name.  The native layer
    /// returns the null handle exactly when no installed font carries the
    /// name; this wrapping path surfaces that as [`BridgeError::NullHandle`].
    pub fn from_name(native: &mut MockNative, name: &String) -> (r: Result<CGFont, BridgeError>)
        requires
            old(native)@.can_create(),
        ensures
            r is Ok <==> old(native)@.font_installed(name@),
            r is Err ==> r == Err::<CGFont, BridgeError>(BridgeError::NullHandle)
                && final(native)@ == old(native)@,
            r matches Ok(w) ==> final(native)@ == old(native)@.created(
                (DataView::Font { postscript_name: name@ }),
            ) && w.valid(final(native)@) && w.spec_handle() == old(native)@.next_handle(),
    {
        let h = native.create_font_with_name(name);
        match OwnedHandle::wrap_owned(native, h, ResourceKind::Font) {
            Ok(owned) => Ok(CGFont { owned }),
            Err(e) => Err(e),
        }
    }

    /// Wraps a font handle that already carries an owned reference (the
    /// create rule).  The null handle yields [`BridgeError::NullHandle`].
    pub fn wrap_owned(native: &MockNative, h: Handle) -> (r: Result<CGFont, BridgeError>)
        requires
            h != 0 ==> native@.live(h) && native@.kind_of(h) == ResourceKind::Font,
        ensures
            h == 0 <==> r is Err,
            h == 0 ==> r == Err::<CGFont, BridgeError>(BridgeError::NullHandle),
            r matches Ok(w) ==> w.spec_handle() == h && w.valid(native@),
    {
        match OwnedHandle::wrap_owned(native, h, ResourceKind::Font) {
            Ok(owned) => Ok(CGFont { owned }),
            Err(e) => Err(e),
        }
    }

    /// Wraps a font handle read out of another object (the get rule):
    /// retains first, then owns the new unit.
    pub fn wrap_retained(native: &mut MockNative, h: Handle) -> (r: Result<CGFont, BridgeError>)
        requires
            h != 0 ==> old(native)@.live(h) && old(native)@.kind_of(h) == ResourceKind::Font
                && old(native)@.can_retain(h),
        ensures
            h == 0 <==> r is Err,
            h == 0 ==> r == Err::<CGFont, BridgeError>(BridgeError::NullHandle)
                && final(native)@ == old(native)@,
            h != 0 ==> final(native)@ == old(native)@.retained(h),
            r matches Ok(w) ==> w.spec_handle() == h && w.valid(final(native)@),
    {
        match OwnedHandle::wrap_retained(native, h, ResourceKind::Font) {
            Ok(owned) => Ok(CGFont { owned }),
            Err(e) => Err(e),
        }
    }

    /// Duplicates ownership: one retain call, one new independent wrapper
    /// of the same resource.
    pub fn clone(&self, native: &mut MockNative) -> (r: CGFont)
        requires
            self.valid(old(native)@),
            old(native)@.can_retain(self.spec_handle()),
        ensures
            final(native)@ == old(native)@.retained(self.spec_handle()),
            r.valid(final(native)@),
            r.spec_handle() == self.spec_handle(),
            self.valid(final(native)@),
    {
        CGFont { owned: self.owned.clone(native) }
    }

    /// Gives the owned reference back: exactly one release call, consuming
    /// the wrapper.
    pub fn release(self, native: &mut MockNative)
        requires
            self.valid(old(native)@),
            old(native)@.can_release(self.spec_handle()),
        ensures
            final(native)@ == old(native)@.released(self.spec_handle()),
    {
        self.owned.release(native)
    }

    /// The raw handle value.
    pub fn handle(&self) -> (h: Handle)
        ensures
            h == self.spec_handle(),
    {
        self.owned.handle()
    }

    /// A non-owning view of the handle, for the duration of the borrow.
    pub fn as_borrowed(&self) -> (r: BorrowedHandle)
        ensures
            r.spec_handle() == self.spec_handle(),
    {
        self.owned.as_borrowed()
    }

    /// The PostScript name the font reports.
    pub fn postscript_name(&self, native: &MockNative) -> (r: String)
        requires
            self.valid(native@),
        ensures
            r@ == native@.data_of(self.spec_handle())->Font_postscript_name,
    {
        native.font_postscript_name(self.owned.handle())
    }
}

} // verus!
