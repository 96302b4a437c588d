//! The image resource family: geometry and layout accessors, the alpha
//! layout code table, and the inference of a pixel layout from a color
//! space name and an alpha layout.

use vstd::prelude::*;
use vstd::string::StringExecFns;

use crate::bridge::{BorrowedHandle, OwnedHandle};
use crate::color_space::ColorSpace;
use crate::error::{BridgeError, RawVariant};
use crate::native::{Handle, MockNative, NativeView, ResourceKind};

verus! {

/// One decoded pixel, in the layouts this binding can name.
#[derive(Clone, Copy, Debug, PartialEq, Eq, Structural)]
pub enum Pixel {
    RGB(u8, u8, u8),
    RGBA(u8, u8, u8, u8),
    ARGB(u8, u8, u8, u8),
    BGR(u8, u8, u8),
    BGRA(u8, u8, u8, u8),
    ABGR(u8, u8, u8, u8),
    YCbCr(u8, u8, u8),
}

/// The alpha channel layouts of the native library, one per documented
/// numeric code.
#[derive(Clone, Copy, Debug, PartialEq, Eq, Structural)]
pub enum ImageAlphaInfo {
    /// There is no alpha channel.
    NoAlpha,
    /// The alpha component is last and the colors are premultiplied.
    PremultipliedLast,
    /// The alpha component is first and the colors are premultiplied.
    PremultipliedFirst,
    /// The alpha component is last.
    Last,
    /// The alpha component is first.
    First,
    /// There is no alpha channel; a trailing pad byte is skipped.
    NoneSkipLast,
    /// There is no alpha channel; a leading pad byte is skipped.
    NoneSkipFirst,
    /// There is no color data, only an alpha channel.
    Only,
}

/// The numeric code the native library documents for each alpha layout.
pub open spec fn alpha_code(a: ImageAlphaInfo) -> u32 {
    match a {
        ImageAlphaInfo::NoAlpha => 0,
        ImageAlphaInfo::PremultipliedLast => 1,
        ImageAlphaInfo::PremultipliedFirst => 2,
        ImageAlphaInfo::Last => 3,
        ImageAlphaInfo::First => 4,
        ImageAlphaInfo::NoneSkipLast => 5,
        ImageAlphaInfo::NoneSkipFirst => 6,
        ImageAlphaInfo::Only => 7,
    }
}

/// The alpha layout behind a documented code.  Meaningful for codes up to
/// `7`; greater codes are unrecognized.
pub open spec fn alpha_from_code(n: u32) -> ImageAlphaInfo {
    if n == 0 {
        ImageAlphaInfo::NoAlpha
    } else if n == 1 {
        ImageAlphaInfo::PremultipliedLast
    } else if n == 2 {
        ImageAlphaInfo::PremultipliedFirst
    } else if n == 3 {
        ImageAlphaInfo::Last
    } else if n == 4 {
        ImageAlphaInfo::First
    } else if n == 5 {
        ImageAlphaInfo::NoneSkipLast
    } else if n == 6 {
        ImageAlphaInfo::NoneSkipFirst
    } else {
        ImageAlphaInfo::Only
    }
}

impl ImageAlphaInfo {
    /// The alpha layout named by a raw native code.  Exactly the codes `0`
    /// through `7` are recognized; any other code is surfaced raw as
    /// [`BridgeError::UnsupportedVariant`], never coerced to a default.
    pub fn from_u32(n: u32) -> (r: Result<ImageAlphaInfo, BridgeError>)
        ensures
            r is Ok <==> n <= 7,
            r matches Ok(a) ==> a == alpha_from_code(n) && alpha_code(a) == n,
            n > 7 ==> r == Err::<ImageAlphaInfo, BridgeError>(
                BridgeError::UnsupportedVariant(RawVariant::Code(n)),
            ),
    {
        match n {
            0 => Ok(ImageAlphaInfo::NoAlpha),
            1 => Ok(ImageAlphaInfo::PremultipliedLast),
            2 => Ok(ImageAlphaInfo::PremultipliedFirst),
            3 => Ok(ImageAlphaInfo::Last),
            4 => Ok(ImageAlphaInfo::First),
            5 => Ok(ImageAlphaInfo::NoneSkipLast),
            6 => Ok(ImageAlphaInfo::NoneSkipFirst),
            7 => Ok(ImageAlphaInfo::Only),
            _ => Err(BridgeError::UnsupportedVariant(RawVariant::Code(n))),
        }
    }

    /// The raw native code of this alpha layout.  Inverse of
    /// [`ImageAlphaInfo::from_u32`] on the recognized codes.
    pub fn to_u32(&self) -> (r: u32)
        ensures
            r == alpha_code(*self),
            r <= 7,
    {
        match *self {
            ImageAlphaInfo::NoAlpha => 0,
            ImageAlphaInfo::PremultipliedLast => 1,
            ImageAlphaInfo::PremultipliedFirst => 2,
            ImageAlphaInfo::Last => 3,
            ImageAlphaInfo::First => 4,
            ImageAlphaInfo::NoneSkipLast => 5,
            ImageAlphaInfo::NoneSkipFirst => 6,
            ImageAlphaInfo::Only => 7,
        }
    }
}

/// The pixel layout this binding infers from a color space name together
/// with an alpha layout, or nothing where the pair is not understood.
/// The table is deliberately partial: it covers the generic RGB space and
/// the two broadcast video spaces; anything else is unrecognized.
pub open spec fn spec_infer_color_space(name: Seq<char>, alpha: ImageAlphaInfo) -> Option<
    ColorSpace,
> {
    if name == "kCGColorSpaceGenericRGB"@ {
        match alpha {
            ImageAlphaInfo::NoAlpha => Some(ColorSpace::RGB),
            ImageAlphaInfo::NoneSkipLast => Some(ColorSpace::RGB),
            ImageAlphaInfo::NoneSkipFirst => Some(ColorSpace::RGB),
            ImageAlphaInfo::PremultipliedLast => Some(ColorSpace::RGBA),
            ImageAlphaInfo::Last => Some(ColorSpace::RGBA),
            ImageAlphaInfo::PremultipliedFirst => Some(ColorSpace::ARGB),
            ImageAlphaInfo::First => Some(ColorSpace::ARGB),
            ImageAlphaInfo::Only => None,
        }
    } else if name == "kCGColorSpaceITUR_709"@ || name == "kCGColorSpaceITUR_2020"@ {
        match alpha {
            ImageAlphaInfo::NoAlpha => Some(ColorSpace::YCbCr),
            ImageAlphaInfo::NoneSkipLast => Some(ColorSpace::YCbCr),
            ImageAlphaInfo::NoneSkipFirst => Some(ColorSpace::YCbCr),
            _ => None,
        }
    } else {
        None
    }
}

/// The pixel layout of an image reporting this color space name and raw
/// alpha code: nothing when the code itself is unrecognized, else the
/// inference on the decoded layout.
pub open spec fn spec_image_color_space(name: Seq<char>, code: u32) -> Option<ColorSpace> {
    if code > 7 {
        None
    } else {
        spec_infer_color_space(name, alpha_from_code(code))
    }
}

/// The pixel layout named by a color space name and an alpha layout.  An
/// unrecognized name is surfaced raw as [`BridgeError::UnsupportedVariant`],
/// never coerced to a default.
pub fn infer_color_space(name: &String, alpha: ImageAlphaInfo) -> (r: Result<
    ColorSpace,
    BridgeError,
>)
    ensures
        r is Ok <==> spec_infer_color_space(name@, alpha) is Some,
        r matches Ok(c) ==> spec_infer_color_space(name@, alpha) == Some(c),
        r matches Err(e) ==> e matches BridgeError::UnsupportedVariant(rv) && rv matches
            RawVariant::Name(s) && s@ == name@,
{
    let generic_rgb = *name == String::from_str("kCGColorSpaceGenericRGB");
    let itu_709 = *name == String::from_str("kCGColorSpaceITUR_709");
    let itu_2020 = *name == String::from_str("kCGColorSpaceITUR_2020");
    if generic_rgb {
        match alpha {
            ImageAlphaInfo::NoAlpha => Ok(ColorSpace::RGB),
            ImageAlphaInfo::NoneSkipLast => Ok(ColorSpace::RGB),
            ImageAlphaInfo::NoneSkipFirst => Ok(ColorSpace::RGB),
            ImageAlphaInfo::PremultipliedLast => Ok(ColorSpace::RGBA),
            ImageAlphaInfo::Last => Ok(ColorSpace::RGBA),
            ImageAlphaInfo::PremultipliedFirst => Ok(ColorSpace::ARGB),
            ImageAlphaInfo::First => Ok(ColorSpace::ARGB),
            ImageAlphaInfo::Only => Err(
                BridgeError::UnsupportedVariant(RawVariant::Name(name.clone())),
            ),
        }
    } else if itu_709 || itu_2020 {
        match alpha {
            ImageAlphaInfo::NoAlpha => Ok(ColorSpace::YCbCr),
            ImageAlphaInfo::NoneSkipLast => Ok(ColorSpace::YCbCr),
            ImageAlphaInfo::NoneSkipFirst => Ok(ColorSpace::YCbCr),
            _ => Err(BridgeError::UnsupportedVariant(RawVariant::Name(name.clone()))),
        }
    } else {
        Err(BridgeError::UnsupportedVariant(RawVariant::Name(name.clone())))
    }
}

/// An owned wrapper around one native image resource: exactly one
/// reference-count unit, released exactly once.
#[derive(Debug)]
pub struct CGImage {
    owned: OwnedHandle,
}

impl CGImage {
    /// The wrapped handle.
    pub closed spec fn spec_handle(self) -> Handle {
        self.owned.spec_handle()
    }

    /// The wrapper's family tag names this module's family.
    pub closed spec fn wf(self) -> bool {
        self.owned.spec_kind() == ResourceKind::Image
    }

    /// The wrapper names a live image in state `s`.
    pub open spec fn valid(self, s: NativeView) -> bool {
        &&& self.wf()
        &&& s.live(self.spec_handle())
        &&& s.kind_of(self.spec_handle()) == ResourceKind::Image
    }

    /// The color space name the image reports, in state `s`.
    pub open spec fn spec_color_space_name(self, s: NativeView) -> Seq<char> {
        s.data_of(self.spec_handle())->Image_color_space_name
    }

    /// The raw alpha layout code the image reports, in state `s`.
    pub open spec fn spec_alpha_code(self, s: NativeView) -> u32 {
        s.data_of(self.spec_handle())->Image_alpha_info
    }

    /// Wraps an image handle that already carries an owned reference (the
    /// create rule).  Adds no reference.  The null handle — the native
    /// library's failure signal — yields [`BridgeError::NullHandle`]; no
    /// wrapper ever holds it.
    pub fn from_ref(native: &MockNative, h: Handle) -> (r: Result<CGImage, BridgeError>)
        requires
            h != 0 ==> native@.live(h) && native@.kind_of(h) == ResourceKind::Image,
        ensures
            h == 0 <==> r is Err,
            h == 0 ==> r == Err::<CGImage, BridgeError>(BridgeError::NullHandle),
            r matches Ok(w) ==> w.spec_handle() == h && w.valid(native@),
    {
        match OwnedHandle::wrap_owned(native, h, ResourceKind::Image) {
            Ok(owned) => Ok(CGImage { owned }),
            Err(e) => Err(e),
        }
    }

    /// Wraps an image handle read out of another object (the get rule):
    /// retains first, then owns the new unit.
    pub fn wrap_retained(native: &mut MockNative, h: Handle) -> (r: Result<CGImage, BridgeError>)
        requires
            h != 0 ==> old(native)@.live(h) && old(native)@.kind_of(h) == ResourceKind::Image
                && old(native)@.can_retain(h),
        ensures
            h == 0 <==> r is Err,
            h == 0 ==> r == Err::<CGImage, BridgeError>(BridgeError::NullHandle)
                && final(native)@ == old(native)@,
            h != 0 ==> final(native)@ == old(native)@.retained(h),
            r matches Ok(w) ==> w.spec_handle() == h && w.valid(final(native)@),
    {
        match OwnedHandle::wrap_retained(native, h, ResourceKind::Image) {
            Ok(owned) => Ok(CGImage { owned }),
            Err(e) => Err(e),
        }
    }

    /// Duplicates ownership: one retain call, one new independent wrapper
    /// of the same resource.
    pub fn clone(&self, native: &mut MockNative) -> (r: CGImage)
        requires
            self.valid(old(native)@),
            old(native)@.can_retain(self.spec_handle()),
        ensures
            final(native)@ == old(native)@.retained(self.spec_handle()),
            r.valid(final(native)@),
            r.spec_handle() == self.spec_handle(),
            self.valid(final(native)@),
    {
        CGImage { owned: self.owned.clone(native) }
    }

    /// Gives the owned reference back: exactly one release call, consuming
    /// the wrapper.
    pub fn release(self, native: &mut MockNative)
        requires
            self.valid(old(native)@),
            old(native)@.can_release(self.spec_handle()),
        ensures
            final(native)@ == old(native)@.released(self.spec_handle()),
    {
        self.owned.release(native)
    }

    /// The raw handle value.
    pub fn handle(&self) -> (h: Handle)
        ensures
            h == self.spec_handle(),
    {
        self.owned.handle()
    }

    /// A non-owning view of the handle, for the duration of the borrow.
    pub fn as_borrowed(&self) -> (r: BorrowedHandle)
        ensures
            r.spec_handle() == self.spec_handle(),
    {
        self.owned.as_borrowed()
    }

    /// The pixel width the image reports.
    pub fn width(&self, native: &MockNative) -> (r: usize)
        requires
            self.valid(native@),
        ensures
            r == native@.data_of(self.spec_handle())->Image_width,
    {
        native.image_width(self.owned.handle())
    }

    /// The pixel height the image reports.
    pub fn height(&self, native: &MockNative) -> (r: usize)
        requires
            self.valid(native@),
        ensures
            r == native@.data_of(self.spec_handle())->Image_height,
    {
        native.image_height(self.owned.handle())
    }

    /// The bits each pixel occupies.
    pub fn pixel_bits(&self, native: &MockNative) -> (r: usize)
        requires
            self.valid(native@),
        ensures
            r == native@.data_of(self.spec_handle())->Image_bits_per_pixel,
    {
        native.image_bits_per_pixel(self.owned.handle())
    }

    /// The bytes each pixel occupies: the reported bits, divided by eight.
    pub fn pixel_width(&self, native: &MockNative) -> (r: usize)
        requires
            self.valid(native@),
        ensures
            r == native@.data_of(self.spec_handle())->Image_bits_per_pixel / 8,
    {
        self.pixel_bits(native) / 8
    }

    /// The alpha layout the image reports, decoded from its raw code.  An
    /// unrecognized code is surfaced raw, never coerced.
    pub fn alphainfo(&self, native: &MockNative) -> (r: Result<ImageAlphaInfo, BridgeError>)
        requires
            self.valid(native@),
        ensures
            r is Ok <==> self.spec_alpha_code(native@) <= 7,
            r matches Ok(a) ==> a == alpha_from_code(self.spec_alpha_code(native@)),
            self.spec_alpha_code(native@) > 7 ==> r == Err::<ImageAlphaInfo, BridgeError>(
                BridgeError::UnsupportedVariant(RawVariant::Code(self.spec_alpha_code(native@))),
            ),
    {
        ImageAlphaInfo::from_u32(native.image_alpha_info(self.owned.handle()))
    }

    /// The pixel layout inferred from the image's color space name and
    /// alpha layout.  An unrecognized alpha code is surfaced as its raw
    /// code, an unrecognized name as the raw name; neither is ever coerced
    /// to a default.
    pub fn colorspace(&self, native: &MockNative) -> (r: Result<ColorSpace, BridgeError>)
        requires
            self.valid(native@),
        ensures
            r is Ok <==> spec_image_color_space(
                self.spec_color_space_name(native@),
                self.spec_alpha_code(native@),
            ) is Some,
            r matches Ok(c) ==> spec_image_color_space(
                self.spec_color_space_name(native@),
                self.spec_alpha_code(native@),
            ) == Some(c),
            self.spec_alpha_code(native@) > 7 ==> r == Err::<ColorSpace, BridgeError>(
                BridgeError::UnsupportedVariant(RawVariant::Code(self.spec_alpha_code(native@))),
            ),
            self.spec_alpha_code(native@) <= 7 && r is Err ==> (r matches Err(e) && e matches
                BridgeError::UnsupportedVariant(rv) && rv matches RawVariant::Name(s) && s@
                == self.spec_color_space_name(native@)),
    {
        let code = native.image_alpha_info(self.owned.handle());
        match ImageAlphaInfo::from_u32(code) {
            Err(e) => Err(e),
            Ok(alpha) => {
                let name = native.image_color_space_name(self.owned.handle());
                infer_color_space(&name, alpha)
            },
        }
    }

    /// A copy of the image's pixel bytes.  The native-reported byte length
    /// must agree exactly with the reported geometry — `width * height *
    /// bits per pixel` bits; a disagreement indicates a corrupt resource
    /// or an unimplemented pixel layout and is surfaced as
    /// [`BridgeError::SizeMismatch`], never silently truncated or
    /// over-read.
    pub fn data(&self, native: &MockNative) -> (r: Result<Vec<u8>, BridgeError>)
        requires
            self.valid(native@),
            native@.data_of(self.spec_handle())->Image_width * native@.data_of(
                self.spec_handle(),
            )->Image_height * native@.data_of(self.spec_handle())->Image_bits_per_pixel
                <= u128::MAX,
        ensures
            r is Ok <==> native@.data_of(self.spec_handle())->Image_width * native@.data_of(
                self.spec_handle(),
            )->Image_height * native@.data_of(self.spec_handle())->Image_bits_per_pixel
                == native@.data_of(self.spec_handle())->Image_data.len() * 8,
            r matches Ok(v) ==> v@ == native@.data_of(self.spec_handle())->Image_data,
            r matches Err(e) ==> e == (BridgeError::SizeMismatch {
                expected_bits: (native@.data_of(self.spec_handle())->Image_width * native@.data_of(
                    self.spec_handle(),
                )->Image_height * native@.data_of(
                    self.spec_handle(),
                )->Image_bits_per_pixel) as u128,
                reported_bits: (native@.data_of(self.spec_handle())->Image_data.len() * 8) as u128,
            }),
    {
        let h = self.owned.handle();
        let width = native.image_width(h);
        let height = native.image_height(h);
        let bits = native.image_bits_per_pixel(h);
        let data = native.image_copy_data(h);
        proof {
            assert((width as int) * (height as int) <= (u64::MAX as int) * (u64::MAX as int))
                by (nonlinear_arith)
                requires
                    0 <= width as int <= u64::MAX as int,
                    0 <= height as int <= u64::MAX as int,
            ;
        }
        let wide = (width as u128) * (height as u128);
        let expected_bits = wide * (bits as u128);
        let reported_bits = (data.len() as u128) * 8;
        if expected_bits == reported_bits {
            Ok(data)
        } else {
            Err(BridgeError::SizeMismatch { expected_bits, reported_bits })
        }
    }
}

} // verus!
