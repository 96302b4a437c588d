//! The color space resource family.

use vstd::prelude::*;
use vstd::pervasive::unreached;
use vstd::string::StringExecFns;

use crate::bridge::{BorrowedHandle, OwnedHandle};
use crate::error::BridgeError;
use crate::native::{DataView, Handle, MockNative, NativeView, ResourceKind};

verus! {

/// The pixel layouts this binding can name for a decoded image, inferred
/// from a color space name together with an alpha layout.
#[derive(Clone, Copy, Debug, PartialEq, Eq, Structural)]
pub enum ColorSpace {
    RGB,
    RGBA,
    ARGB,
    YCbCr,
}

/// An owned wrapper around one native color space resource: exactly one
/// reference-count unit, released exactly once.
#[derive(Debug)]
pub struct CGColorSpace {
    owned: OwnedHandle,
}

impl CGColorSpace {
    /// The wrapped handle.
    pub closed spec fn spec_handle(self) -> Handle {
        self.owned.spec_handle()
    }

    /// The wrapper's family tag names this module's family.
    pub closed spec fn wf(self) -> bool {
        self.owned.spec_kind() == ResourceKind::ColorSpace
    }

    /// The wrapper names a live color space in state `s`.
    pub open spec fn valid(self, s: NativeView) -> bool {
        &&& self.wf()
        &&& s.live(self.spec_handle())
        &&& s.kind_of(self.spec_handle()) == ResourceKind::ColorSpace
    }

    /// The type descriptor of the color space family, for identity checks.
    pub fn type_id() -> (k: ResourceKind)
        ensures
            k == ResourceKind::ColorSpace,
    {
        ResourceKind::ColorSpace
    }

    /// Factory: the device RGB color space.  The native call cannot fail,
    /// and its result follows the create rule: the returned wrapper adopts
    /// the factory's reference without adding one.
    pub fn new_device_rgb(native: &mut MockNative) -> (r: CGColorSpace)
        requires
            old(native)@.can_create(),
        ensures
            final(native)@ == old(native)@.created(
                (DataView::ColorSpace { name: "kCGColorSpaceDeviceRGB"@ }),
            ),
            r.valid(final(native)@),
            r.spec_handle() == old(native)@.next_handle(),
    {
        let h = native.create_color_space(String::from_str("kCGColorSpaceDeviceRGB"));
        match OwnedHandle::wrap_owned(native, h, ResourceKind::ColorSpace) {
            Ok(owned) => CGColorSpace { owned },
            Err(_) => unreached(),
        }
    }

    /// Wraps a color space handle that already carries an owned reference
    /// (the create rule).  The null handle yields [`BridgeError::NullHandle`].
    pub fn wrap_owned(native: &MockNative, h: Handle) -> (r: Result<CGColorSpace, BridgeError>)
        requires
            h != 0 ==> native@.live(h) && native@.kind_of(h) == ResourceKind::ColorSpace,
        ensures
            h == 0 <==> r is Err,
            h == 0 ==> r == Err::<CGColorSpace, BridgeError>(BridgeError::NullHandle),
            r matches Ok(w) ==> w.spec_handle() == h && w.valid(native@),
    {
        match OwnedHandle::wrap_owned(native, h, ResourceKind::ColorSpace) {
            Ok(owned) => Ok(CGColorSpace { owned }),
            Err(e) => Err(e),
        }
    }

    /// Wraps a color space handle read out of another object (the get
    /// rule): retains first, then owns the new unit.  The null handle
    /// yields [`BridgeError::NullHandle`] and leaves the state untouched.
    pub fn wrap_retained(native: &mut MockNative, h: Handle) -> (r: Result<
        CGColorSpace,
        BridgeError,
    >)
        requires
            h != 0 ==> old(native)@.live(h) && old(native)@.kind_of(h)
                == ResourceKind::ColorSpace && old(native)@.can_retain(h),
        ensures
            h == 0 <==> r is Err,
            h == 0 ==> r == Err::<CGColorSpace, BridgeError>(BridgeError::NullHandle)
                && final(native)@ == old(native)@,
            h != 0 ==> final(native)@ == old(native)@.retained(h),
            r matches Ok(w) ==> w.spec_handle() == h && w.valid(final(native)@),
    {
        match OwnedHandle::wrap_retained(native, h, ResourceKind::ColorSpace) {
            Ok(owned) => Ok(CGColorSpace { owned }),
            Err(e) => Err(e),
        }
    }

    /// Duplicates ownership: one retain call, one new independent wrapper
    /// of the same resource.
    pub fn clone(&self, native: &mut MockNative) -> (r: CGColorSpace)
        requires
            self.valid(old(native)@),
            old(native)@.can_retain(self.spec_handle()),
        ensures
            final(native)@ == old(native)@.retained(self.spec_handle()),
            r.valid(final(native)@),
            r.spec_handle() == self.spec_handle(),
            self.valid(final(native)@),
    {
        CGColorSpace { owned: self.owned.clone(native) }
    }

    /// Gives the owned reference back: exactly one release call, consuming
    /// the wrapper.
    pub fn release(self, native: &mut MockNative)
        requires
            self.valid(old(native)@),
            old(native)@.can_release(self.spec_handle()),
        ensures
            final(native)@ == old(native)@.released(self.spec_handle()),
    {
        self.owned.release(native)
    }

    /// The raw handle value.
    pub fn handle(&self) -> (h: Handle)
        ensures
            h == self.spec_handle(),
    {
        self.owned.handle()
    }

    /// A non-owning view of the handle, for the duration of the borrow.
    pub fn as_borrowed(&self) -> (r: BorrowedHandle)
        ensures
            r.spec_handle() == self.spec_handle(),
    {
        self.owned.as_borrowed()
    }

    /// The name the native layer reports for this color space.
    pub fn name(&self, native: &MockNative) -> (r: String)
        requires
            self.valid(native@),
        ensures
            r@ == native@.data_of(self.spec_handle())->ColorSpace_name,
    {
        native.color_space_name(self.owned.handle())
    }
}

} // verus!
