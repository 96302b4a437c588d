//! The native resource layer, modeled explicitly.
//!
//! The real graphics library is an opaque, closed box: it hands out opaque
//! handles, counts references internally, and destroys a resource when its
//! count reaches zero.  Nothing about that behaviour can be observed from
//! safe code, so this module models the library as an explicit state value,
//! [`MockNative`], holding one slot per resource ever created.  Each slot
//! records the resource's payload, its current reference count, and how many
//! retain and release calls were ever made against it — the record that the
//! ownership laws of this crate are stated over.
//!
//! A [`Handle`] is an address-sized value naming a slot; `0` is the null
//! sentinel that factory calls return on failure.  All state changes go
//! through the methods of [`MockNative`], whose contracts are exact: each is
//! stated as a transition on the abstract state [`NativeView`].

use vstd::prelude::*;
use vstd::pervasive::unreached;
use vstd::pervasive::VecAdditionalExecFns;
use vstd::string::StringExecFns;

verus! {

/// An opaque address-sized value naming a resource inside the native layer.
/// `0` never names a resource: it is the failure sentinel of factory calls.
pub type Handle = usize;

/// The null sentinel: what a factory call returns when allocation or
/// validation fails.
pub const NULL_HANDLE: Handle = 0;

/// The resource families the native layer exposes.  Each family has its own
/// type descriptor; the bridge compares descriptors, never wrapper
/// addresses, to decide whether two wrappers name the same kind of resource.
#[derive(Clone, Copy, Debug, PartialEq, Eq, Structural)]
pub enum ResourceKind {
    ColorSpace,
    DataProvider,
    Font,
    Context,
    BitmapContext,
    Image,
}

/// The ownership discipline a transferred buffer was allocated with.  The
/// release callback must undo exactly this allocation; a mismatch would be a
/// fatal memory error, so the discipline is part of the transfer record.
#[derive(Clone, Copy, Debug, PartialEq, Eq, Structural)]
pub enum Discipline {
    /// The native side only borrows the bytes; no callback is registered.
    Borrowed,
    /// The bytes came from a boxed allocation.
    Boxed,
    /// The bytes came from a reference-counted allocation.
    RefCounted,
    /// The bytes came from an atomically reference-counted allocation.
    AtomicRefCounted,
}

/// Which boolean rendering switch of a graphics context to change.
#[derive(Clone, Copy, Debug, PartialEq, Eq, Structural)]
pub enum ContextFlag {
    AllowsFontSmoothing,
    ShouldSmoothFonts,
    AllowsAntialiasing,
    ShouldAntialias,
}

/// The payload of one native resource.
pub enum ResourceData {
    ColorSpace {
        name: String,
    },
    Provider {
        data: Vec<u8>,
        discipline: Discipline,
        callback_fired: bool,
    },
    Font {
        postscript_name: String,
    },
    Context {
        allows_font_smoothing: bool,
        should_smooth_fonts: bool,
        allows_antialiasing: bool,
        should_antialias: bool,
    },
    Bitmap {
        width: usize,
        height: usize,
        bytes_per_row: usize,
        buffer: Vec<u8>,
        allows_font_smoothing: bool,
        should_smooth_fonts: bool,
        allows_antialiasing: bool,
        should_antialias: bool,
    },
    Image {
        width: usize,
        height: usize,
        bits_per_pixel: usize,
        alpha_info: u32,
        color_space_name: String,
        data: Vec<u8>,
    },
}

/// The abstract payload of one native resource: [`ResourceData`] with every
/// collection replaced by its mathematical view.
pub enum DataView {
    ColorSpace {
        name: Seq<char>,
    },
    Provider {
        data: Seq<u8>,
        discipline: Discipline,
        callback_fired: bool,
    },
    Font {
        postscript_name: Seq<char>,
    },
    Context {
        allows_font_smoothing: bool,
        should_smooth_fonts: bool,
        allows_antialiasing: bool,
        should_antialias: bool,
    },
    Bitmap {
        width: usize,
        height: usize,
        bytes_per_row: usize,
        buffer: Seq<u8>,
        allows_font_smoothing: bool,
        should_smooth_fonts: bool,
        allows_antialiasing: bool,
        should_antialias: bool,
    },
    Image {
        width: usize,
        height: usize,
        bits_per_pixel: usize,
        alpha_info: u32,
        color_space_name: Seq<char>,
        data: Seq<u8>,
    },
}

impl DataView {
    /// The family a payload belongs to.
    pub open spec fn kind(self) -> ResourceKind {
        match self {
            DataView::ColorSpace { .. } => ResourceKind::ColorSpace,
            DataView::Provider { .. } => ResourceKind::DataProvider,
            DataView::Font { .. } => ResourceKind::Font,
            DataView::Context { .. } => ResourceKind::Context,
            DataView::Bitmap { .. } => ResourceKind::BitmapContext,
            DataView::Image { .. } => ResourceKind::Image,
        }
    }

    /// The payload with its transfer callback marked fired.  Meaningful for
    /// providers; any other payload is left unchanged.
    pub open spec fn with_callback_fired(self) -> DataView {
        match self {
            DataView::Provider { data, discipline, .. } => (DataView::Provider {
                data,
                discipline,
                callback_fired: true,
            }),
            other => other,
        }
    }

    /// The payload with one byte of the bitmap backing buffer replaced.
    /// Meaningful for bitmap contexts; any other payload is left unchanged.
    pub open spec fn with_bitmap_byte(self, index: int, value: u8) -> DataView {
        match self {
            DataView::Bitmap {
                width,
                height,
                bytes_per_row,
                buffer,
                allows_font_smoothing,
                should_smooth_fonts,
                allows_antialiasing,
                should_antialias,
            } => (DataView::Bitmap {
                width,
                height,
                bytes_per_row,
                buffer: buffer.update(index, value),
                allows_font_smoothing,
                should_smooth_fonts,
                allows_antialiasing,
                should_antialias,
            }),
            other => other,
        }
    }

    /// The payload with one rendering switch replaced.  Meaningful for the
    /// two context families; any other payload is left unchanged.
    pub open spec fn with_flag(self, flag: ContextFlag, value: bool) -> DataView {
        match self {
            DataView::Context {
                allows_font_smoothing,
                should_smooth_fonts,
                allows_antialiasing,
                should_antialias,
            } => (DataView::Context {
                allows_font_smoothing: if flag == ContextFlag::AllowsFontSmoothing {
                    value
                } else {
                    allows_font_smoothing
                },
                should_smooth_fonts: if flag == ContextFlag::ShouldSmoothFonts {
                    value
                } else {
                    should_smooth_fonts
                },
                allows_antialiasing: if flag == ContextFlag::AllowsAntialiasing {
                    value
                } else {
                    allows_antialiasing
                },
                should_antialias: if flag == ContextFlag::ShouldAntialias {
                    value
                } else {
                    should_antialias
                },
            }),
            DataView::Bitmap {
                width,
                height,
                bytes_per_row,
                buffer,
                allows_font_smoothing,
                should_smooth_fonts,
                allows_antialiasing,
                should_antialias,
            } => (DataView::Bitmap {
                width,
                height,
                bytes_per_row,
                buffer,
                allows_font_smoothing: if flag == ContextFlag::AllowsFontSmoothing {
                    value
                } else {
                    allows_font_smoothing
                },
                should_smooth_fonts: if flag == ContextFlag::ShouldSmoothFonts {
                    value
                } else {
                    should_smooth_fonts
                },
                allows_antialiasing: if flag == ContextFlag::AllowsAntialiasing {
                    value
                } else {
                    allows_antialiasing
                },
                should_antialias: if flag == ContextFlag::ShouldAntialias {
                    value
                } else {
                    should_antialias
                },
            }),
            other => other,
        }
    }

    /// The value of one rendering switch.  Meaningful for the two context
    /// families.
    pub open spec fn flag(self, flag: ContextFlag) -> bool {
        match self {
            DataView::Context {
                allows_font_smoothing,
                should_smooth_fonts,
                allows_antialiasing,
                should_antialias,
            } => match flag {
                ContextFlag::AllowsFontSmoothing => allows_font_smoothing,
                ContextFlag::ShouldSmoothFonts => should_smooth_fonts,
                ContextFlag::AllowsAntialiasing => allows_antialiasing,
                ContextFlag::ShouldAntialias => should_antialias,
            },
            DataView::Bitmap {
                allows_font_smoothing,
                should_smooth_fonts,
                allows_antialiasing,
                should_antialias,
                ..
            } => match flag {
                ContextFlag::AllowsFontSmoothing => allows_font_smoothing,
                ContextFlag::ShouldSmoothFonts => should_smooth_fonts,
                ContextFlag::AllowsAntialiasing => allows_antialiasing,
                ContextFlag::ShouldAntialias => should_antialias,
            },
            _ => false,
        }
    }
}

/// The abstract payload of a concrete one.
pub open spec fn data_view(d: ResourceData) -> DataView {
    match d {
        ResourceData::ColorSpace { name } => DataView::ColorSpace { name: name@ },
        ResourceData::Provider { data, discipline, callback_fired } => DataView::Provider {
            data: data@,
            discipline,
            callback_fired,
        },
        ResourceData::Font { postscript_name } => DataView::Font {
            postscript_name: postscript_name@,
        },
        ResourceData::Context {
            allows_font_smoothing,
            should_smooth_fonts,
            allows_antialiasing,
            should_antialias,
        } => DataView::Context {
            allows_font_smoothing,
            should_smooth_fonts,
            allows_antialiasing,
            should_antialias,
        },
        ResourceData::Bitmap {
            width,
            height,
            bytes_per_row,
            buffer,
            allows_font_smoothing,
            should_smooth_fonts,
            allows_antialiasing,
            should_antialias,
        } => DataView::Bitmap {
            width,
            height,
            bytes_per_row,
            buffer: buffer@,
            allows_font_smoothing,
            should_smooth_fonts,
            allows_antialiasing,
            should_antialias,
        },
        ResourceData::Image {
            width,
            height,
            bits_per_pixel,
            alpha_info,
            color_space_name,
            data,
        } => DataView::Image {
            width,
            height,
            bits_per_pixel,
            alpha_info,
            color_space_name: color_space_name@,
            data: data@,
        },
    }
}

/// One native resource as the abstract state sees it: its payload, its
/// current reference count, and the number of retain and release calls ever
/// recorded against it.
#[verifier::ext_equal]
pub struct SlotView {
    pub data: DataView,
    pub ref_count: nat,
    pub retain_calls: nat,
    pub release_calls: nat,
}

/// The abstract state of the native layer: one slot per resource ever
/// created (slot `i` is named by handle `i + 1`), and the table of installed
/// font names that the font-by-name factory consults.
#[verifier::ext_equal]
pub struct NativeView {
    pub slots: Seq<SlotView>,
    pub font_names: Seq<Seq<char>>,
}

impl NativeView {
    /// Whether `h` names a slot.
    pub open spec fn in_range(self, h: Handle) -> bool {
        1 <= h <= self.slots.len()
    }

    /// The slot named by `h`.
    pub open spec fn slot(self, h: Handle) -> SlotView {
        self.slots[h - 1]
    }

    /// The payload of the resource named by `h`.
    pub open spec fn data_of(self, h: Handle) -> DataView {
        self.slot(h).data
    }

    /// The family of the resource named by `h`.
    pub open spec fn kind_of(self, h: Handle) -> ResourceKind {
        self.data_of(h).kind()
    }

    /// The current reference count of the resource named by `h`.
    pub open spec fn ref_count(self, h: Handle) -> nat {
        self.slot(h).ref_count
    }

    /// How many retain calls were ever recorded against `h`.
    pub open spec fn retain_calls(self, h: Handle) -> nat {
        self.slot(h).retain_calls
    }

    /// How many release calls were ever recorded against `h`.
    pub open spec fn release_calls(self, h: Handle) -> nat {
        self.slot(h).release_calls
    }

    /// Whether `h` names a resource that is still alive: non-null, in
    /// range, and holding at least one reference.
    pub open spec fn live(self, h: Handle) -> bool {
        &&& h != 0
        &&& self.in_range(h)
        &&& self.ref_count(h) >= 1
    }

    /// The handle the next created resource will get.
    pub open spec fn next_handle(self) -> int {
        self.slots.len() as int + 1
    }

    /// Machine limit: the counters touched by a retain still fit.
    pub open spec fn can_retain(self, h: Handle) -> bool {
        self.ref_count(h) < u64::MAX && self.retain_calls(h) < u64::MAX
    }

    /// Machine limit: the release counter still fits.
    pub open spec fn can_release(self, h: Handle) -> bool {
        self.release_calls(h) < u64::MAX
    }

    /// Machine limit: a new slot can still be named by a handle.
    pub open spec fn can_create(self) -> bool {
        self.slots.len() < usize::MAX
    }

    /// The state after one retain call against `h`: the reference count and
    /// the retain record each grow by exactly one; nothing else changes.
    pub open spec fn retained(self, h: Handle) -> NativeView {
        NativeView {
            slots: self.slots.update(
                h - 1,
                SlotView {
                    data: self.slot(h).data,
                    ref_count: self.ref_count(h) + 1,
                    retain_calls: self.retain_calls(h) + 1,
                    release_calls: self.release_calls(h),
                },
            ),
            font_names: self.font_names,
        }
    }

    /// The state after one release call against `h`: the reference count
    /// drops by exactly one and the release record grows by exactly one;
    /// nothing else changes.
    pub open spec fn released(self, h: Handle) -> NativeView {
        NativeView {
            slots: self.slots.update(
                h - 1,
                SlotView {
                    data: self.slot(h).data,
                    ref_count: (self.ref_count(h) - 1) as nat,
                    retain_calls: self.retain_calls(h),
                    release_calls: self.release_calls(h) + 1,
                },
            ),
            font_names: self.font_names,
        }
    }

    /// The state after a factory created a fresh resource with payload `d`:
    /// a new slot with one owned reference and empty call records.
    pub open spec fn created(self, d: DataView) -> NativeView {
        NativeView {
            slots: self.slots.push(
                SlotView { data: d, ref_count: 1, retain_calls: 0, release_calls: 0 },
            ),
            font_names: self.font_names,
        }
    }

    /// The state with the payload of `h` replaced by `d`.
    pub open spec fn with_data(self, h: Handle, d: DataView) -> NativeView {
        NativeView {
            slots: self.slots.update(
                h - 1,
                SlotView {
                    data: d,
                    ref_count: self.ref_count(h),
                    retain_calls: self.retain_calls(h),
                    release_calls: self.release_calls(h),
                },
            ),
            font_names: self.font_names,
        }
    }

    /// Whether `name` is an installed font name.
    pub open spec fn font_installed(self, name: Seq<char>) -> bool {
        exists|i: int| 0 <= i < self.font_names.len() && self.font_names[i] == name
    }

    /// The state with one more installed font name.
    pub open spec fn with_font(self, name: Seq<char>) -> NativeView {
        NativeView { slots: self.slots, font_names: self.font_names.push(name) }
    }
}

/// One native resource slot as stored.
struct Slot {
    data: ResourceData,
    ref_count: u64,
    retain_calls: u64,
    release_calls: u64,
}

spec fn slot_view(s: Slot) -> SlotView {
    SlotView {
        data: data_view(s.data),
        ref_count: s.ref_count as nat,
        retain_calls: s.retain_calls as nat,
        release_calls: s.release_calls as nat,
    }
}

/// The native layer under test: every resource ever created, with its
/// reference count and its retain/release call record.
pub struct MockNative {
    slots: Vec<Slot>,
    font_names: Vec<String>,
}

impl View for MockNative {
    type V = NativeView;

    closed spec fn view(&self) -> NativeView {
        NativeView {
            slots: Seq::new(self.slots@.len(), |i: int| slot_view(self.slots@[i])),
            font_names: Seq::new(self.font_names@.len(), |i: int| self.font_names@[i]@),
        }
    }
}

/// A throwaway slot swapped in while a stored slot is being edited.
fn placeholder_slot() -> Slot {
    Slot {
        data: ResourceData::Context {
            allows_font_smoothing: false,
            should_smooth_fonts: false,
            allows_antialiasing: false,
            should_antialias: false,
        },
        ref_count: 0,
        retain_calls: 0,
        release_calls: 0,
    }
}

/// A verified byte-for-byte copy of a vector.
fn copy_bytes(src: &Vec<u8>) -> (r: Vec<u8>)
    ensures
        r@ == src@,
{
    let mut r: Vec<u8> = Vec::new();
    let mut i: usize = 0;
    while i < src.len()
        invariant
            i <= src.len(),
            r@ == src@.subrange(0, i as int),
        decreases src.len() - i,
    {
        r.push(src[i]);
        i = i + 1;
    }
    proof {
        assert(r@ =~= src@);
    }
    r
}

impl MockNative {
    /// A fresh native layer with no resources and no installed fonts.
    pub fn new() -> (r: MockNative)
        ensures
            r@.slots.len() == 0,
            r@.font_names.len() == 0,
    {
        MockNative { slots: Vec::new(), font_names: Vec::new() }
    }

    /// One retain call: the native add-reference primitive.  It cannot fail
    /// for a live handle; the only bounds are the machine-sized counters.
    pub fn retain(&mut self, h: Handle)
        requires
            old(self)@.live(h),
            old(self)@.can_retain(h),
        ensures
            final(self)@ == old(self)@.retained(h),
    {
        let i = h - 1;
        let mut slot = placeholder_slot();
        self.slots.set_and_swap(i, &mut slot);
        slot.ref_count = slot.ref_count + 1;
        slot.retain_calls = slot.retain_calls + 1;
        self.slots.set(i, slot);
        proof {
            assert(self@.slots =~= old(self)@.retained(h).slots);
            assert(self@ =~= old(self)@.retained(h));
        }
    }

    /// One release call: the native drop-reference primitive.  Recorded
    /// exactly once per call; the resource is destroyed by the native layer
    /// when its count reaches zero.
    pub fn release(&mut self, h: Handle)
        requires
            old(self)@.live(h),
            old(self)@.can_release(h),
        ensures
            final(self)@ == old(self)@.released(h),
    {
        let i = h - 1;
        let mut slot = placeholder_slot();
        self.slots.set_and_swap(i, &mut slot);
        slot.ref_count = slot.ref_count - 1;
        slot.release_calls = slot.release_calls + 1;
        self.slots.set(i, slot);
        proof {
            assert(self@.slots =~= old(self)@.released(h).slots);
            assert(self@ =~= old(self)@.released(h));
        }
    }

    /// The current reference count of `h`, for observation in tests.
    pub fn ref_count(&self, h: Handle) -> (r: u64)
        requires
            self@.in_range(h),
        ensures
            r as nat == self@.ref_count(h),
    {
        self.slots[h - 1].ref_count
    }

    /// How many retain calls were recorded against `h`.
    pub fn retain_count(&self, h: Handle) -> (r: u64)
        requires
            self@.in_range(h),
        ensures
            r as nat == self@.retain_calls(h),
    {
        self.slots[h - 1].retain_calls
    }

    /// How many release calls were recorded against `h`.
    pub fn release_count(&self, h: Handle) -> (r: u64)
        requires
            self@.in_range(h),
        ensures
            r as nat == self@.release_calls(h),
    {
        self.slots[h - 1].release_calls
    }

    /// The type descriptor of the resource named by `h`.
    pub fn resource_kind(&self, h: Handle) -> (k: ResourceKind)
        requires
            self@.in_range(h),
        ensures
            k == self@.kind_of(h),
    {
        match &self.slots[h - 1].data {
            ResourceData::ColorSpace { .. } => ResourceKind::ColorSpace,
            ResourceData::Provider { .. } => ResourceKind::DataProvider,
            ResourceData::Font { .. } => ResourceKind::Font,
            ResourceData::Context { .. } => ResourceKind::Context,
            ResourceData::Bitmap { .. } => ResourceKind::BitmapContext,
            ResourceData::Image { .. } => ResourceKind::Image,
        }
    }

    /// Creates a slot holding `d` with one owned reference.  Shared tail of
    /// every factory call.
    fn new_slot(&mut self, d: ResourceData) -> (h: Handle)
        requires
            old(self)@.can_create(),
        ensures
            final(self)@ == old(self)@.created(data_view(d)),
            h == old(self)@.next_handle(),
            h != 0,
            final(self)@.live(h),
            final(self)@.data_of(h) == data_view(d),
    {
        let ghost d_v = data_view(d);
        self.slots.push(Slot { data: d, ref_count: 1, retain_calls: 0, release_calls: 0 });
        proof {
            assert(self@.slots =~= old(self)@.created(d_v).slots);
            assert(self@ =~= old(self)@.created(d_v));
        }
        self.slots.len()
    }

    /// Factory: a color space resource with the given name.  Color space
    /// creation cannot fail in the native layer, so the handle is never
    /// null.
    pub fn create_color_space(&mut self, name: String) -> (h: Handle)
        requires
            old(self)@.can_create(),
        ensures
            h != 0,
            h == old(self)@.next_handle(),
            final(self)@ == old(self)@.created((DataView::ColorSpace { name: name@ })),
    {
        self.new_slot(ResourceData::ColorSpace { name })
    }

    /// Factory: a data provider holding `data`, transferred under the given
    /// ownership discipline.  The release callback, if any, has not fired.
    pub fn create_data_provider(&mut self, data: Vec<u8>, discipline: Discipline) -> (h: Handle)
        requires
            old(self)@.can_create(),
        ensures
            h != 0,
            h == old(self)@.next_handle(),
            final(self)@ == old(self)@.created(
                (DataView::Provider { data: data@, discipline, callback_fired: false }),
            ),
    {
        self.new_slot(ResourceData::Provider { data, discipline, callback_fired: false })
    }

    /// Factory: a plain graphics context with every rendering switch off.
    pub fn create_context(&mut self) -> (h: Handle)
        requires
            old(self)@.can_create(),
        ensures
            h != 0,
            h == old(self)@.next_handle(),
            final(self)@ == old(self)@.created(
                (DataView::Context {
                    allows_font_smoothing: false,
                    should_smooth_fonts: false,
                    allows_antialiasing: false,
                    should_antialias: false,
                }),
            ),
    {
        self.new_slot(
            ResourceData::Context {
                allows_font_smoothing: false,
                should_smooth_fonts: false,
                allows_antialiasing: false,
                should_antialias: false,
            },
        )
    }

    /// Factory: an image resource carrying its reported geometry, alpha
    /// layout code, color space name and pixel bytes.  Installation of a
    /// fully described image cannot fail.
    pub fn create_image(
        &mut self,
        width: usize,
        height: usize,
        bits_per_pixel: usize,
        alpha_info: u32,
        color_space_name: String,
        data: Vec<u8>,
    ) -> (h: Handle)
        requires
            old(self)@.can_create(),
        ensures
            h != 0,
            h == old(self)@.next_handle(),
            final(self)@ == old(self)@.created(
                (DataView::Image {
                    width,
                    height,
                    bits_per_pixel,
                    alpha_info,
                    color_space_name: color_space_name@,
                    data: data@,
                }),
            ),
    {
        self.new_slot(
            ResourceData::Image { width, height, bits_per_pixel, alpha_info, color_space_name, data },
        )
    }

    /// Factory: a bitmap context.  The native layer validates the geometry
    /// and returns the null handle when any dimension is zero or the
    /// backing buffer size `height * bytes_per_row` cannot be represented;
    /// otherwise the context starts with a zeroed backing buffer of exactly
    /// that size and every rendering switch off.
    pub fn create_bitmap_context(
        &mut self,
        width: usize,
        height: usize,
        bits_per_component: usize,
        bytes_per_row: usize,
        space: Handle,
    ) -> (h: Handle)
        requires
            old(self)@.live(space),
            old(self)@.kind_of(space) == ResourceKind::ColorSpace,
            old(self)@.can_create(),
        ensures
            h == 0 <==> !bitmap_params_ok(width, height, bits_per_component, bytes_per_row),
            h == 0 ==> final(self)@ == old(self)@,
            h != 0 ==> h == old(self)@.next_handle() && final(self)@ == old(self)@.created(
                (DataView::Bitmap {
                    width,
                    height,
                    bytes_per_row,
                    buffer: Seq::new((height * bytes_per_row) as nat, |i: int| 0u8),
                    allows_font_smoothing: false,
                    should_smooth_fonts: false,
                    allows_antialiasing: false,
                    should_antialias: false,
                }),
            ),
    {
        if width == 0 || height == 0 || bits_per_component == 0 || bytes_per_row == 0 {
            return NULL_HANDLE;
        }
        match height.checked_mul(bytes_per_row) {
            None => NULL_HANDLE,
            Some(size) => {
                let buffer = zero_bytes(size);
                self.new_slot(
                    ResourceData::Bitmap {
                        width,
                        height,
                        bytes_per_row,
                        buffer,
                        allows_font_smoothing: false,
                        should_smooth_fonts: false,
                        allows_antialiasing: false,
                        should_antialias: false,
                    },
                )
            },
        }
    }

    /// Makes `name` available to the font-by-name factory.
    pub fn install_font(&mut self, name: String)
        ensures
            final(self)@ == old(self)@.with_font(name@),
    {
        let ghost name_v = name@;
        self.font_names.push(name);
        proof {
            assert(self@.font_names =~= old(self)@.with_font(name_v).font_names);
            assert(self@ =~= old(self)@.with_font(name_v));
        }
    }

    /// Factory: a font looked up by PostScript name.  The native layer
    /// returns the null handle exactly when no installed font carries the
    /// name; otherwise the new font resource reports that name.
    pub fn create_font_with_name(&mut self, name: &String) -> (h: Handle)
        requires
            old(self)@.can_create(),
        ensures
            h == 0 <==> !old(self)@.font_installed(name@),
            h == 0 ==> final(self)@ == old(self)@,
            h != 0 ==> h == old(self)@.next_handle() && final(self)@ == old(self)@.created(
                (DataView::Font { postscript_name: name@ }),
            ),
    {
        let mut found = false;
        let mut i: usize = 0;
        while i < self.font_names.len()
            invariant
                i <= self.font_names.len(),
                found <==> exists|j: int| 0 <= j < i && self@.font_names[j] == name@,
            decreases self.font_names.len() - i,
        {
            proof {
                assert(self@.font_names[i as int] == self.font_names@[i as int]@);
            }
            if self.font_names[i] == *name {
                found = true;
                proof {
                    assert(exists|j: int|
                        0 <= j < i + 1 && self@.font_names[j] == name@) by {
                        assert(self@.font_names[i as int] == name@);
                    }
                }
            }
            i = i + 1;
        }
        if found {
            self.new_slot(ResourceData::Font { postscript_name: name.clone() })
        } else {
            NULL_HANDLE
        }
    }

    /// Factory: a font built from the contents of a data provider.  The
    /// native layer rejects an empty font file by returning the null
    /// handle; any non-empty contents yield a font whose reported
    /// PostScript name is the fixed placeholder of the mock layer.
    pub fn create_font_with_provider(&mut self, provider: Handle) -> (h: Handle)
        requires
            old(self)@.live(provider),
            old(self)@.kind_of(provider) == ResourceKind::DataProvider,
            old(self)@.can_create(),
        ensures
            h == 0 <==> old(self)@.data_of(provider)->Provider_data.len() == 0,
            h == 0 ==> final(self)@ == old(self)@,
            h != 0 ==> h == old(self)@.next_handle() && final(self)@ == old(self)@.created(
                (DataView::Font { postscript_name: "Untitled"@ }),
            ),
    {
        let empty = match &self.slots[provider - 1].data {
            ResourceData::Provider { data, .. } => data.len() == 0,
            _ => unreached(),
        };
        if empty {
            NULL_HANDLE
        } else {
            self.new_slot(ResourceData::Font { postscript_name: String::from_str("Untitled") })
        }
    }

    /// A copy of the bytes a data provider holds.
    pub fn provider_copy_data(&self, h: Handle) -> (r: Vec<u8>)
        requires
            self@.live(h),
            self@.kind_of(h) == ResourceKind::DataProvider,
        ensures
            r@ == self@.data_of(h)->Provider_data,
    {
        match &self.slots[h - 1].data {
            ResourceData::Provider { data, .. } => copy_bytes(data),
            _ => unreached(),
        }
    }

    /// The ownership discipline a provider's bytes were transferred under.
    pub fn provider_discipline(&self, h: Handle) -> (r: Discipline)
        requires
            self@.in_range(h),
            self@.kind_of(h) == ResourceKind::DataProvider,
        ensures
            r == self@.data_of(h)->Provider_discipline,
    {
        match &self.slots[h - 1].data {
            ResourceData::Provider { discipline, .. } => *discipline,
            _ => unreached(),
        }
    }

    /// Whether a provider's release callback has fired.
    pub fn provider_callback_fired(&self, h: Handle) -> (r: bool)
        requires
            self@.in_range(h),
            self@.kind_of(h) == ResourceKind::DataProvider,
        ensures
            r == self@.data_of(h)->Provider_callback_fired,
    {
        match &self.slots[h - 1].data {
            ResourceData::Provider { callback_fired, .. } => *callback_fired,
            _ => unreached(),
        }
    }

    /// The native layer invoking a transferred buffer's release callback.
    /// It does so at a time of its own choosing, but at most once, and only
    /// after the provider's last reference is gone; a borrowed buffer has
    /// no callback to fire.
    pub fn fire_provider_callback(&mut self, h: Handle)
        requires
            old(self)@.in_range(h),
            old(self)@.kind_of(h) == ResourceKind::DataProvider,
            old(self)@.ref_count(h) == 0,
            old(self)@.data_of(h)->Provider_discipline != Discipline::Borrowed,
            !old(self)@.data_of(h)->Provider_callback_fired,
        ensures
            final(self)@ == old(self)@.with_data(h, old(self)@.data_of(h).with_callback_fired()),
    {
        let i = h - 1;
        let mut slot = placeholder_slot();
        self.slots.set_and_swap(i, &mut slot);
        let Slot { data, ref_count, retain_calls, release_calls } = slot;
        let new_data = match data {
            ResourceData::Provider { data: bytes, discipline, .. } => ResourceData::Provider {
                data: bytes,
                discipline,
                callback_fired: true,
            },
            _ => unreached(),
        };
        self.slots.set(i, Slot { data: new_data, ref_count, retain_calls, release_calls });
        proof {
            let target = old(self)@.with_data(h, old(self)@.data_of(h).with_callback_fired());
            assert(self@.slots =~= target.slots);
            assert(self@ =~= target);
        }
    }

    /// The PostScript name a font reports.
    pub fn font_postscript_name(&self, h: Handle) -> (r: String)
        requires
            self@.live(h),
            self@.kind_of(h) == ResourceKind::Font,
        ensures
            r@ == self@.data_of(h)->Font_postscript_name,
    {
        match &self.slots[h - 1].data {
            ResourceData::Font { postscript_name } => postscript_name.clone(),
            _ => unreached(),
        }
    }

    /// The name a color space reports.
    pub fn color_space_name(&self, h: Handle) -> (r: String)
        requires
            self@.live(h),
            self@.kind_of(h) == ResourceKind::ColorSpace,
        ensures
            r@ == self@.data_of(h)->ColorSpace_name,
    {
        match &self.slots[h - 1].data {
            ResourceData::ColorSpace { name } => name.clone(),
            _ => unreached(),
        }
    }

    /// The pixel width an image reports.
    pub fn image_width(&self, h: Handle) -> (r: usize)
        requires
            self@.live(h),
            self@.kind_of(h) == ResourceKind::Image,
        ensures
            r == self@.data_of(h)->Image_width,
    {
        match &self.slots[h - 1].data {
            ResourceData::Image { width, .. } => *width,
            _ => unreached(),
        }
    }

    /// The pixel height an image reports.
    pub fn image_height(&self, h: Handle) -> (r: usize)
        requires
            self@.live(h),
            self@.kind_of(h) == ResourceKind::Image,
        ensures
            r == self@.data_of(h)->Image_height,
    {
        match &self.slots[h - 1].data {
            ResourceData::Image { height, .. } => *height,
            _ => unreached(),
        }
    }

    /// The bits-per-pixel figure an image reports.
    pub fn image_bits_per_pixel(&self, h: Handle) -> (r: usize)
        requires
            self@.live(h),
            self@.kind_of(h) == ResourceKind::Image,
        ensures
            r == self@.data_of(h)->Image_bits_per_pixel,
    {
        match &self.slots[h - 1].data {
            ResourceData::Image { bits_per_pixel, .. } => *bits_per_pixel,
            _ => unreached(),
        }
    }

    /// The raw alpha layout code an image reports.
    pub fn image_alpha_info(&self, h: Handle) -> (r: u32)
        requires
            self@.live(h),
            self@.kind_of(h) == ResourceKind::Image,
        ensures
            r == self@.data_of(h)->Image_alpha_info,
    {
        match &self.slots[h - 1].data {
            ResourceData::Image { alpha_info, .. } => *alpha_info,
            _ => unreached(),
        }
    }

    /// The name of the color space an image reports.
    pub fn image_color_space_name(&self, h: Handle) -> (r: String)
        requires
            self@.live(h),
            self@.kind_of(h) == ResourceKind::Image,
        ensures
            r@ == self@.data_of(h)->Image_color_space_name,
    {
        match &self.slots[h - 1].data {
            ResourceData::Image { color_space_name, .. } => color_space_name.clone(),
            _ => unreached(),
        }
    }

    /// A copy of the pixel bytes an image holds.
    pub fn image_copy_data(&self, h: Handle) -> (r: Vec<u8>)
        requires
            self@.live(h),
            self@.kind_of(h) == ResourceKind::Image,
        ensures
            r@ == self@.data_of(h)->Image_data,
    {
        match &self.slots[h - 1].data {
            ResourceData::Image { data, .. } => copy_bytes(data),
            _ => unreached(),
        }
    }

    /// The pixel width a bitmap context reports.
    pub fn bitmap_width(&self, h: Handle) -> (r: usize)
        requires
            self@.live(h),
            self@.kind_of(h) == ResourceKind::BitmapContext,
        ensures
            r == self@.data_of(h)->Bitmap_width,
    {
        match &self.slots[h - 1].data {
            ResourceData::Bitmap { width, .. } => *width,
            _ => unreached(),
        }
    }

    /// The pixel height a bitmap context reports.
    pub fn bitmap_height(&self, h: Handle) -> (r: usize)
        requires
            self@.live(h),
            self@.kind_of(h) == ResourceKind::BitmapContext,
        ensures
            r == self@.data_of(h)->Bitmap_height,
    {
        match &self.slots[h - 1].data {
            ResourceData::Bitmap { height, .. } => *height,
            _ => unreached(),
        }
    }

    /// The row stride, in bytes, a bitmap context reports.  It may exceed
    /// the logical row width: native strides include padding.
    pub fn bitmap_bytes_per_row(&self, h: Handle) -> (r: usize)
        requires
            self@.live(h),
            self@.kind_of(h) == ResourceKind::BitmapContext,
        ensures
            r == self@.data_of(h)->Bitmap_bytes_per_row,
    {
        match &self.slots[h - 1].data {
            ResourceData::Bitmap { bytes_per_row, .. } => *bytes_per_row,
            _ => unreached(),
        }
    }

    /// A copy of a bitmap context's backing buffer.
    pub fn bitmap_copy_data(&self, h: Handle) -> (r: Vec<u8>)
        requires
            self@.live(h),
            self@.kind_of(h) == ResourceKind::BitmapContext,
        ensures
            r@ == self@.data_of(h)->Bitmap_buffer,
    {
        match &self.slots[h - 1].data {
            ResourceData::Bitmap { buffer, .. } => copy_bytes(buffer),
            _ => unreached(),
        }
    }

    /// Writes one byte of a bitmap context's backing buffer.
    pub fn bitmap_write_byte(&mut self, h: Handle, index: usize, value: u8)
        requires
            old(self)@.live(h),
            old(self)@.kind_of(h) == ResourceKind::BitmapContext,
            index < old(self)@.data_of(h)->Bitmap_buffer.len(),
        ensures
            final(self)@ == old(self)@.with_data(
                h,
                old(self)@.data_of(h).with_bitmap_byte(index as int, value),
            ),
    {
        let i = h - 1;
        let mut slot = placeholder_slot();
        self.slots.set_and_swap(i, &mut slot);
        let Slot { data, ref_count, retain_calls, release_calls } = slot;
        let new_data = match data {
            ResourceData::Bitmap {
                width,
                height,
                bytes_per_row,
                mut buffer,
                allows_font_smoothing,
                should_smooth_fonts,
                allows_antialiasing,
                should_antialias,
            } => {
                buffer.set(index, value);
                ResourceData::Bitmap {
                    width,
                    height,
                    bytes_per_row,
                    buffer,
                    allows_font_smoothing,
                    should_smooth_fonts,
                    allows_antialiasing,
                    should_antialias,
                }
            },
            _ => unreached(),
        };
        self.slots.set(i, Slot { data: new_data, ref_count, retain_calls, release_calls });
        proof {
            let target = old(self)@.with_data(
                h,
                old(self)@.data_of(h).with_bitmap_byte(index as int, value),
            );
            assert(self@.slots =~= target.slots);
            assert(self@ =~= target);
        }
    }

    /// The value of one rendering switch of a graphics or bitmap context.
    pub fn context_flag(&self, h: Handle, flag: ContextFlag) -> (r: bool)
        requires
            self@.live(h),
            self@.kind_of(h) == ResourceKind::Context || self@.kind_of(h)
                == ResourceKind::BitmapContext,
        ensures
            r == self@.data_of(h).flag(flag),
    {
        match &self.slots[h - 1].data {
            ResourceData::Context {
                allows_font_smoothing,
                should_smooth_fonts,
                allows_antialiasing,
                should_antialias,
            } => match flag {
                ContextFlag::AllowsFontSmoothing => *allows_font_smoothing,
                ContextFlag::ShouldSmoothFonts => *should_smooth_fonts,
                ContextFlag::AllowsAntialiasing => *allows_antialiasing,
                ContextFlag::ShouldAntialias => *should_antialias,
            },
            ResourceData::Bitmap {
                allows_font_smoothing,
                should_smooth_fonts,
                allows_antialiasing,
                should_antialias,
                ..
            } => match flag {
                ContextFlag::AllowsFontSmoothing => *allows_font_smoothing,
                ContextFlag::ShouldSmoothFonts => *should_smooth_fonts,
                ContextFlag::AllowsAntialiasing => *allows_antialiasing,
                ContextFlag::ShouldAntialias => *should_antialias,
            },
            _ => unreached(),
        }
    }

    /// Sets one rendering switch of a graphics or bitmap context.
    pub fn set_context_flag(&mut self, h: Handle, flag: ContextFlag, value: bool)
        requires
            old(self)@.live(h),
            old(self)@.kind_of(h) == ResourceKind::Context || old(self)@.kind_of(h)
                == ResourceKind::BitmapContext,
        ensures
            final(self)@ == old(self)@.with_data(h, old(self)@.data_of(h).with_flag(flag, value)),
    {
        let i = h - 1;
        let mut slot = placeholder_slot();
        self.slots.set_and_swap(i, &mut slot);
        let Slot { data, ref_count, retain_calls, release_calls } = slot;
        let new_data = match data {
            ResourceData::Context {
                allows_font_smoothing,
                should_smooth_fonts,
                allows_antialiasing,
                should_antialias,
            } => {
                let mut afs = allows_font_smoothing;
                let mut ssf = should_smooth_fonts;
                let mut aa = allows_antialiasing;
                let mut sa = should_antialias;
                match flag {
                    ContextFlag::AllowsFontSmoothing => { afs = value; },
                    ContextFlag::ShouldSmoothFonts => { ssf = value; },
                    ContextFlag::AllowsAntialiasing => { aa = value; },
                    ContextFlag::ShouldAntialias => { sa = value; },
                }
                ResourceData::Context {
                    allows_font_smoothing: afs,
                    should_smooth_fonts: ssf,
                    allows_antialiasing: aa,
                    should_antialias: sa,
                }
            },
            ResourceData::Bitmap {
                width,
                height,
                bytes_per_row,
                buffer,
                allows_font_smoothing,
                should_smooth_fonts,
                allows_antialiasing,
                should_antialias,
            } => {
                let mut afs = allows_font_smoothing;
                let mut ssf = should_smooth_fonts;
                let mut aa = allows_antialiasing;
                let mut sa = should_antialias;
                match flag {
                    ContextFlag::AllowsFontSmoothing => { afs = value; },
                    ContextFlag::ShouldSmoothFonts => { ssf = value; },
                    ContextFlag::AllowsAntialiasing => { aa = value; },
                    ContextFlag::ShouldAntialias => { sa = value; },
                }
                ResourceData::Bitmap {
                    width,
                    height,
                    bytes_per_row,
                    buffer,
                    allows_font_smoothing: afs,
                    should_smooth_fonts: ssf,
                    allows_antialiasing: aa,
                    should_antialias: sa,
                }
            },
            _ => unreached(),
        };
        self.slots.set(i, Slot { data: new_data, ref_count, retain_calls, release_calls });
        proof {
            let target = old(self)@.with_data(h, old(self)@.data_of(h).with_flag(flag, value));
            assert(self@.slots =~= target.slots);
            assert(self@ =~= target);
        }
    }
}

/// Whether the native layer accepts this bitmap geometry: no dimension may
/// be zero and the backing buffer size must be representable.
pub open spec fn bitmap_params_ok(
    width: usize,
    height: usize,
    bits_per_component: usize,
    bytes_per_row: usize,
) -> bool {
    &&& width > 0
    &&& height > 0
    &&& bits_per_component > 0
    &&& bytes_per_row > 0
    &&& height * bytes_per_row <= usize::MAX
}

/// A verified zero-filled byte vector of the given length.
fn zero_bytes(n: usize) -> (r: Vec<u8>)
    ensures
        r@ == Seq::new(n as nat, |i: int| 0u8),
{
    let mut r: Vec<u8> = Vec::new();
    let mut i: usize = 0;
    while i < n
        invariant
            i <= n,
            r@ == Seq::new(i as nat, |j: int| 0u8),
        decreases n - i,
    {
        r.push(0u8);
        proof {
            assert(r@ =~= Seq::new((i + 1) as nat, |j: int| 0u8));
        }
        i = i + 1;
    }
    r
}

} // verus!
