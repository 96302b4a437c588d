//! The ownership bridge: move-only owned wrappers over native handles.
//!
//! An [`OwnedHandle`] owns exactly one reference-count unit on one handle.
//! It is acquired under one of the native library's ownership rules —
//! [`OwnedHandle::wrap_owned`] for handles that already carry an owned
//! reference (the create rule), [`OwnedHandle::wrap_retained`] for handles
//! read out of another object (the get rule, which must add a reference
//! first) — duplicated only through [`OwnedHandle::clone`], which retains,
//! and given up only through [`OwnedHandle::release`], which consumes the
//! wrapper.  Because the type is move-only and `release` takes it by value,
//! exactly one release call is recorded per wrapper, no more and no less.

use vstd::prelude::*;

use crate::error::BridgeError;
use crate::native::{Handle, MockNative, NativeView, ResourceKind, NULL_HANDLE};

verus! {

/// A non-owning reference to a handle, valid only while the owned wrapper
/// it was borrowed from is alive.  Carries no release obligation and cannot
/// release: it has no such operation.
#[derive(Clone, Copy, Debug)]
pub struct BorrowedHandle {
    handle: Handle,
}

impl BorrowedHandle {
    /// The handle this view names.
    pub closed spec fn spec_handle(self) -> Handle {
        self.handle
    }

    /// The raw handle, for passing to native calls within the borrowing
    /// scope.
    pub fn handle(&self) -> (h: Handle)
        ensures
            h == self.spec_handle(),
    {
        self.handle
    }
}

/// Exclusive ownership of exactly one reference-count unit on a native
/// handle of a known resource family.  Move-only: duplicating ownership
/// goes through [`OwnedHandle::clone`], never a raw copy.
#[derive(Debug)]
pub struct OwnedHandle {
    handle: Handle,
    kind: ResourceKind,
}

impl OwnedHandle {
    /// The wrapped handle.
    pub closed spec fn spec_handle(self) -> Handle {
        self.handle
    }

    /// The resource family this wrapper was checked against.
    pub closed spec fn spec_kind(self) -> ResourceKind {
        self.kind
    }

    /// The wrapper names a live resource of its family in state `s`.  Every
    /// wrapper holds one of the reference-count units that keep the
    /// resource alive.
    pub open spec fn valid(self, s: NativeView) -> bool {
        &&& s.live(self.spec_handle())
        &&& s.kind_of(self.spec_handle()) == self.spec_kind()
    }

    /// Wraps a handle for which the caller already holds one owned
    /// reference — the create rule, used on factory results.  Adds no
    /// reference and does not touch the native state.  The null handle, the
    /// native library's failure signal, is rejected as [`BridgeError::NullHandle`];
    /// no wrapper ever holds it.
    pub fn wrap_owned(native: &MockNative, h: Handle, kind: ResourceKind) -> (r: Result<
        OwnedHandle,
        BridgeError,
    >)
        requires
            h != 0 ==> native@.live(h) && native@.kind_of(h) == kind,
        ensures
            h == 0 <==> r is Err,
            h == 0 ==> r == Err::<OwnedHandle, BridgeError>(BridgeError::NullHandle),
            r matches Ok(w) ==> w.spec_handle() == h && w.spec_kind() == kind && w.valid(
                native@,
            ),
    {
        if h == NULL_HANDLE {
            Err(BridgeError::NullHandle)
        } else {
            let k = native.resource_kind(h);
            Ok(OwnedHandle { handle: h, kind: k })
        }
    }

    /// Wraps a handle read out of another object's field — the get rule.
    /// The caller owns no reference yet, so one retain call is made first;
    /// the resulting wrapper then owns that unit.  The null handle is
    /// rejected as [`BridgeError::NullHandle`] without touching the native
    /// state.
    pub fn wrap_retained(native: &mut MockNative, h: Handle, kind: ResourceKind) -> (r: Result<
        OwnedHandle,
        BridgeError,
    >)
        requires
            h != 0 ==> old(native)@.live(h) && old(native)@.kind_of(h) == kind
                && old(native)@.can_retain(h),
        ensures
            h == 0 <==> r is Err,
            h == 0 ==> r == Err::<OwnedHandle, BridgeError>(BridgeError::NullHandle)
                && final(native)@ == old(native)@,
            h != 0 ==> final(native)@ == old(native)@.retained(h),
            r matches Ok(w) ==> w.spec_handle() == h && w.spec_kind() == kind && w.valid(
                final(native)@,
            ),
    {
        if h == NULL_HANDLE {
            Err(BridgeError::NullHandle)
        } else {
            let k = native.resource_kind(h);
            native.retain(h);
            Ok(OwnedHandle { handle: h, kind: k })
        }
    }

    /// Duplicates ownership: one retain call against the wrapped handle,
    /// and a new independent wrapper for the same resource.  The native
    /// add-reference call cannot fail for a live handle, so neither does
    /// this; the only bound is the machine-sized call counter.
    pub fn clone(&self, native: &mut MockNative) -> (r: OwnedHandle)
        requires
            self.valid(old(native)@),
            old(native)@.can_retain(self.spec_handle()),
        ensures
            final(native)@ == old(native)@.retained(self.spec_handle()),
            r.spec_handle() == self.spec_handle(),
            r.spec_kind() == self.spec_kind(),
            r.valid(final(native)@),
            self.valid(final(native)@),
    {
        native.retain(self.handle);
        OwnedHandle { handle: self.handle, kind: self.kind }
    }

    /// Gives the owned reference unit back: exactly one release call
    /// against the wrapped handle.  Consumes the wrapper, so no second
    /// release can ever be recorded for it.
    pub fn release(self, native: &mut MockNative)
        requires
            self.valid(old(native)@),
            old(native)@.can_release(self.spec_handle()),
        ensures
            final(native)@ == old(native)@.released(self.spec_handle()),
    {
        native.release(self.handle);
    }

    /// A non-owning view of the wrapped handle, for the duration of the
    /// borrow.
    pub fn as_borrowed(&self) -> (r: BorrowedHandle)
        ensures
            r.spec_handle() == self.spec_handle(),
    {
        BorrowedHandle { handle: self.handle }
    }

    /// The raw handle value.
    pub fn handle(&self) -> (h: Handle)
        ensures
            h == self.spec_handle(),
    {
        self.handle
    }

    /// The resource family this wrapper was checked against.
    pub fn kind(&self) -> (k: ResourceKind)
        ensures
            k == self.spec_kind(),
    {
        self.kind
    }

    /// Whether two wrappers name the same underlying resource.  Wrappers
    /// are compared through the native identity — handle and type
    /// descriptor — never by wrapper address: after cloning, several
    /// wrappers name one resource.
    pub fn same_resource(&self, other: &OwnedHandle) -> (r: bool)
        ensures
            r == (self.spec_handle() == other.spec_handle() && self.spec_kind()
                == other.spec_kind()),
    {
        self.handle == other.handle && self.kind == other.kind
    }
}

} // verus!
