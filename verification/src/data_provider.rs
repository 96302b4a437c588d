//! The data provider resource family: safe-side buffers whose ownership
//! moves into the native layer.
//!
//! Each factory records the ownership discipline the bytes were allocated
//! with; the native layer's release callback must undo exactly that
//! allocation, exactly once, at a time the native layer chooses.  A
//! borrowed buffer registers no callback: the native side only reads it.

use vstd::prelude::*;
use vstd::pervasive::unreached;

use crate::bridge::{BorrowedHandle, OwnedHandle};
use crate::error::BridgeError;
use crate::native::{DataView, Discipline, Handle, MockNative, NativeView, ResourceKind};

verus! {

/// A verified byte-for-byte copy of a slice.
fn bytes_of_slice(src: &[u8]) -> (r: Vec<u8>)
    ensures
        r@ == src@,
{
    let mut r: Vec<u8> = Vec::new();
    let mut i: usize = 0;
    while i < src.len()
        invariant
            i <= src.len(),
            r@ == src@.subrange(0, i as int),
        decreases src.len() - i,
    {
        r.push(src[i]);
        i = i + 1;
    }
    proof {
        assert(r@ =~= src@);
    }
    r
}

/// An owned wrapper around one native data provider resource: exactly one
/// reference-count unit, released exactly once.
#[derive(Debug)]
pub struct CGDataProvider {
    owned: OwnedHandle,
}

impl CGDataProvider {
    /// The wrapped handle.
    pub closed spec fn spec_handle(self) -> Handle {
        self.owned.spec_handle()
    }

    /// The wrapper's family tag names this module's family.
    pub closed spec fn wf(self) -> bool {
        self.owned.spec_kind() == ResourceKind::DataProvider
    }

    /// The wrapper names a live data provider in state `s`.
    pub open spec fn valid(self, s: NativeView) -> bool {
        &&& self.wf()
        &&& s.live(self.spec_handle())
        &&& s.kind_of(self.spec_handle()) == ResourceKind::DataProvider
    }

    /// The bytes the provider holds, in state `s`.
    pub open spec fn spec_data(self, s: NativeView) -> Seq<u8> {
        s.data_of(self.spec_handle())->Provider_data
    }

    /// The type descriptor of the data provider family, for identity
    /// checks.
    pub fn type_id() -> (k: ResourceKind)
        ensures
            k == ResourceKind::DataProvider,
    {
        ResourceKind::DataProvider
    }

    /// Factory: a provider over borrowed bytes.  The native side reads the
    /// buffer but never owns it, so no release callback is registered.
    /// Provider creation cannot fail.
    pub fn from_buffer(native: &mut MockNative, buffer: &[u8]) -> (r: CGDataProvider)
        requires
            old(native)@.can_create(),
        ensures
            final(native)@ == old(native)@.created(
                (DataView::Provider {
                    data: buffer@,
                    discipline: Discipline::Borrowed,
                    callback_fired: false,
                }),
            ),
            r.valid(final(native)@),
            r.spec_handle() == old(native)@.next_handle(),
    {
        let data = bytes_of_slice(buffer);
        let h = native.create_data_provider(data, Discipline::Borrowed);
        match OwnedHandle::wrap_owned(native, h, ResourceKind::DataProvider) {
            Ok(owned) => CGDataProvider { owned },
            Err(_) => unreached(),
        }
    }

    /// Factory: a provider that takes over a boxed byte buffer.  The
    /// release callback must free exactly that boxed allocation.
    pub fn from_boxed_slice(native: &mut MockNative, data: Box<[u8]>) -> (r: CGDataProvider)
        requires
            old(native)@.can_create(),
        ensures
            final(native)@ == old(native)@.created(
                (DataView::Provider {
                    data: data@,
                    discipline: Discipline::Boxed,
                    callback_fired: false,
                }),
            ),
            r.valid(final(native)@),
            r.spec_handle() == old(native)@.next_handle(),
    {
        let h = native.create_data_provider(data.into_vec(), Discipline::Boxed);
        match OwnedHandle::wrap_owned(native, h, ResourceKind::DataProvider) {
            Ok(owned) => CGDataProvider { owned },
            Err(_) => unreached(),
        }
    }

    /// Factory: a provider that shares a reference-counted byte buffer.
    /// The release callback must drop exactly that shared reference.
    pub fn from_rc_vec(native: &mut MockNative, data: std::rc::Rc<Vec<u8>>) -> (r: CGDataProvider)
        requires
            old(native)@.can_create(),
        ensures
            final(native)@ == old(native)@.created(
                (DataView::Provider {
                    data: data@,
                    discipline: Discipline::RefCounted,
                    callback_fired: false,
                }),
            ),
            r.valid(final(native)@),
            r.spec_handle() == old(native)@.next_handle(),
    {
        let bytes = bytes_of_slice((*data).as_slice());
        let h = native.create_data_provider(bytes, Discipline::RefCounted);
        match OwnedHandle::wrap_owned(native, h, ResourceKind::DataProvider) {
            Ok(owned) => CGDataProvider { owned },
            Err(_) => unreached(),
        }
    }

    /// Factory: a provider that shares an atomically reference-counted
    /// byte buffer.  The release callback must drop exactly that shared
    /// reference.
    pub fn from_arc_vec(native: &mut MockNative, data: std::sync::Arc<Vec<u8>>) -> (r: CGDataProvider)
        requires
            old(native)@.can_create(),
        ensures
            final(native)@ == old(native)@.created(
                (DataView::Provider {
                    data: data@,
                    discipline: Discipline::AtomicRefCounted,
                    callback_fired: false,
                }),
            ),
            r.valid(final(native)@),
            r.spec_handle() == old(native)@.next_handle(),
    {
        let bytes = bytes_of_slice((*data).as_slice());
        let h = native.create_data_provider(bytes, Discipline::AtomicRefCounted);
        match OwnedHandle::wrap_owned(native, h, ResourceKind::DataProvider) {
            Ok(owned) => CGDataProvider { owned },
            Err(_) => unreached(),
        }
    }

    /// Wraps a provider handle that already carries an owned reference
    /// (the create rule).  The null handle yields [`BridgeError::NullHandle`].
    pub fn wrap_owned(native: &MockNative, h: Handle) -> (r: Result<CGDataProvider, BridgeError>)
        requires
            h != 0 ==> native@.live(h) && native@.kind_of(h) == ResourceKind::DataProvider,
        ensures
            h == 0 <==> r is Err,
            h == 0 ==> r == Err::<CGDataProvider, BridgeError>(BridgeError::NullHandle),
            r matches Ok(w) ==> w.spec_handle() == h && w.valid(native@),
    {
        match OwnedHandle::wrap_owned(native, h, ResourceKind::DataProvider) {
            Ok(owned) => Ok(CGDataProvider { owned }),
            Err(e) => Err(e),
        }
    }

    /// Wraps a provider handle read out of another object (the get rule):
    /// retains first, then owns the new unit.
    pub fn wrap_retained(native: &mut MockNative, h: Handle) -> (r: Result<
        CGDataProvider,
        BridgeError,
    >)
        requires
            h != 0 ==> old(native)@.live(h) && old(native)@.kind_of(h)
                == ResourceKind::DataProvider && old(native)@.can_retain(h),
        ensures
            h == 0 <==> r is Err,
            h == 0 ==> r == Err::<CGDataProvider, BridgeError>(BridgeError::NullHandle)
                && final(native)@ == old(native)@,
            h != 0 ==> final(native)@ == old(native)@.retained(h),
            r matches Ok(w) ==> w.spec_handle() == h && w.valid(final(native)@),
    {
        match OwnedHandle::wrap_retained(native, h, ResourceKind::DataProvider) {
            Ok(owned) => Ok(CGDataProvider { owned }),
            Err(e) => Err(e),
        }
    }

    /// Duplicates ownership: one retain call, one new independent wrapper
    /// of the same resource.
    pub fn clone(&self, native: &mut MockNative) -> (r: CGDataProvider)
        requires
            self.valid(old(native)@),
            old(native)@.can_retain(self.spec_handle()),
        ensures
            final(native)@ == old(native)@.retained(self.spec_handle()),
            r.valid(final(native)@),
            r.spec_handle() == self.spec_handle(),
            self.valid(final(native)@),
    {
        CGDataProvider { owned: self.owned.clone(native) }
    }

    /// Gives the owned reference back: exactly one release call, consuming
    /// the wrapper.
    pub fn release(self, native: &mut MockNative)
        requires
            self.valid(old(native)@),
            old(native)@.can_release(self.spec_handle()),
        ensures
            final(native)@ == old(native)@.released(self.spec_handle()),
    {
        self.owned.release(native)
    }

    /// A non-owning view of the handle, for the duration of the borrow.
    pub fn as_borrowed(&self) -> (r: BorrowedHandle)
        ensures
            r.spec_handle() == self.spec_handle(),
    {
        self.owned.as_borrowed()
    }

    /// The raw handle value.
    pub fn handle(&self) -> (h: Handle)
        ensures
            h == self.spec_handle(),
    {
        self.owned.handle()
    }

    /// A copy of the bytes the provider holds.
    pub fn copy_data(&self, native: &MockNative) -> (r: Vec<u8>)
        requires
            self.valid(native@),
        ensures
            r@ == self.spec_data(native@),
    {
        native.provider_copy_data(self.owned.handle())
    }
}

} // verus!
