//! Pixel-format handling and image-to-device-buffer conversion.
//!
//! The display server's native colour layout is captured by [`RgbShifts`]:
//! three bit positions inside a 32-bit word where the 8-bit red, green and
//! blue channel values start.  Typed sample buffers (8-bit, 16-bit) are
//! reduced to 8-bit channel values through the [`Subpixel`] trait and packed
//! into device words.

use vstd::prelude::*;

use crate::err;
use crate::err::Error;

verus! {

/// Definition of a pixel format used by the X display server.
///
/// The pixel format is defined as shift values for the red, green and blue
/// subpixel values.  A colour is represented by a `u32` value whose component
/// channels are 8-bit values shifted to the left by the corresponding shift
/// values.
///
/// The common format for colour is `0x00_RR_GG_BB` which is described as 16,
/// 8 and 0 shifts for the red, green and blue colour components respectively.
/// Beware that on little endian systems such a colour is encoded as
/// `[blue, green, red, 0]` bytes in memory.
#[derive(Clone, Copy, Debug, PartialEq, Eq, Structural)]
pub struct RgbShifts {
    /// Bit shift value for the red component in the `u32` colour description.
    /// Typically 16.
    pub r: u8,
    /// Bit shift value for the green component in the `u32` colour
    /// description.  Typically 8.
    pub g: u8,
    /// Bit shift value for the blue component in the `u32` colour
    /// description.  Typically 0.
    pub b: u8,
}

impl RgbShifts {
    /// Shifts discovered from a supported visual always place each 8-bit
    /// channel fully inside the 32-bit word, so every shift is at most 24.
    pub open spec fn valid(self) -> bool {
        self.r <= 24 && self.g <= 24 && self.b <= 24
    }

    /// The packed colour word for 8-bit components `r`, `g` and `b`.
    pub open spec fn spec_from_rgb(self, r: u8, g: u8, b: u8) -> u32 {
        ((r as u32) << self.r) | ((g as u32) << self.g) | ((b as u32) << self.b)
    }

    /// The packed colour word for an 8-bit luma value: the value replicated
    /// into all four byte lanes.
    pub open spec fn spec_from_luma(self, luma: u8) -> u32 {
        ((luma as u32) * 0x0101_0101) as u32
    }

    /// Constructs a colour representation from red, green and blue
    /// components.  Each component is first reduced to an 8-bit channel
    /// value, then shifted into its channel's position.
    pub fn from_rgb<S: Subpixel>(&self, r: S, g: S, b: S) -> (c: u32)
        requires
            self.valid(),
        ensures
            c == self.spec_from_rgb(r.to_u8_spec(), g.to_u8_spec(), b.to_u8_spec()),
    {
        (((r.to_u8() as u32) << self.r) | ((g.to_u8() as u32) << self.g))
            | ((b.to_u8() as u32) << self.b)
    }

    /// Constructs a greyscale colour representation from a luma value.
    ///
    /// Due to a minor optimisation, it returns a slightly different value
    /// than `self.from_rgb(l, l, l)` would.  Specifically, luma is in
    /// addition copied into the unused byte of the colour.
    pub fn from_luma<S: Subpixel>(&self, luma: S) -> (c: u32)
        ensures
            c == self.spec_from_luma(luma.to_u8_spec()),
    {
        let l = luma.to_u8() as u32;
        assert(l * 0x0101_0101 <= 0xFFFF_FFFF) by {
            assert(l <= 255);
        }
        l * 0x0101_0101
    }
}

/// The byte lane of the 32-bit colour word that none of the three channel
/// shifts uses, for a format whose shifts are three distinct whole byte
/// lanes.
pub open spec fn unused_lane(s: RgbShifts) -> u8 {
    (48 - s.r - s.g - s.b) as u8
}

/// Law: packing has no cross-channel bit bleed.
///
/// For a pixel format whose three channel masks occupy pairwise disjoint
/// bits, `from_rgb` places each 8-bit component exactly at its declared
/// shift: reading the packed word back at any channel's shift recovers that
/// component unchanged, with nothing bleeding in from the other two.
pub proof fn lemma_from_rgb_no_bleed(s: RgbShifts, r: u8, g: u8, b: u8)
    requires
        s.valid(),
        (0xFFu32 << s.r) & (0xFFu32 << s.g) == 0,
        (0xFFu32 << s.r) & (0xFFu32 << s.b) == 0,
        (0xFFu32 << s.g) & (0xFFu32 << s.b) == 0,
    ensures
        (s.spec_from_rgb(r, g, b) >> s.r) & 0xFF == r,
        (s.spec_from_rgb(r, g, b) >> s.g) & 0xFF == g,
        (s.spec_from_rgb(r, g, b) >> s.b) & 0xFF == b,
{
    let sr = s.r;
    let sg = s.g;
    let sb = s.b;
    assert((((((r as u32) << sr) | ((g as u32) << sg)) | ((b as u32) << sb)) >> sr) & 0xFF == r
        && (((((r as u32) << sr) | ((g as u32) << sg)) | ((b as u32) << sb)) >> sg) & 0xFF == g
        && (((((r as u32) << sr) | ((g as u32) << sg)) | ((b as u32) << sb)) >> sb) & 0xFF
        == b) by (bit_vector)
        requires
            sr <= 24,
            sg <= 24,
            sb <= 24,
            (0xFFu32 << sr) & (0xFFu32 << sg) == 0,
            (0xFFu32 << sr) & (0xFFu32 << sb) == 0,
            (0xFFu32 << sg) & (0xFFu32 << sb) == 0,
    ;
}

/// Law: `from_luma` agrees with `from_rgb` on the three channel lanes and
/// additionally fills the otherwise-unused fourth lane.
///
/// For a pixel format whose shifts are three distinct whole byte lanes,
/// `from_luma(l)` equals `from_rgb(l, l, l)` in every byte lane that a
/// channel occupies; in the one remaining lane `from_luma` carries the luma
/// value where `from_rgb` leaves zero.
pub proof fn lemma_from_luma_fills_unused_lane(s: RgbShifts, l: u8)
    requires
        s.valid(),
        s.r % 8 == 0,
        s.g % 8 == 0,
        s.b % 8 == 0,
        s.r != s.g,
        s.r != s.b,
        s.g != s.b,
    ensures
        (s.spec_from_luma(l) >> s.r) & 0xFF == (s.spec_from_rgb(l, l, l) >> s.r) & 0xFF,
        (s.spec_from_luma(l) >> s.g) & 0xFF == (s.spec_from_rgb(l, l, l) >> s.g) & 0xFF,
        (s.spec_from_luma(l) >> s.b) & 0xFF == (s.spec_from_rgb(l, l, l) >> s.b) & 0xFF,
        (s.spec_from_luma(l) >> unused_lane(s)) & 0xFF == l,
        (s.spec_from_rgb(l, l, l) >> unused_lane(s)) & 0xFF == 0,
{
    let sr = s.r;
    let sg = s.g;
    let sb = s.b;
    let lu = unused_lane(s);
    assert(((((l as u32) * 0x0101_0101) as u32 >> sr) & 0xFF == (((((l as u32) << sr) | ((
    l as u32) << sg)) | ((l as u32) << sb)) >> sr) & 0xFF) && ((((l as u32) * 0x0101_0101) as u32
        >> sg) & 0xFF == (((((l as u32) << sr) | ((l as u32) << sg)) | ((l as u32) << sb)) >> sg)
        & 0xFF) && ((((l as u32) * 0x0101_0101) as u32 >> sb) & 0xFF == (((((l as u32) << sr) | ((
    l as u32) << sg)) | ((l as u32) << sb)) >> sb) & 0xFF) && ((((l as u32) * 0x0101_0101) as u32
        >> lu) & 0xFF == l) && ((((((l as u32) << sr) | ((l as u32) << sg)) | ((l as u32) << sb))
        >> lu) & 0xFF == 0)) by (bit_vector)
        requires
            sr <= 24,
            sg <= 24,
            sb <= 24,
            sr % 8 == 0,
            sg % 8 == 0,
            sb % 8 == 0,
            sr != sg,
            sr != sb,
            sg != sb,
            lu == (48 - sr - sg - sb) as u8,
    ;
}

/// A type of a single colour component.
pub trait Subpixel: Sized + Copy {
    /// The 8-bit channel value this sample reduces to.
    spec fn to_u8_spec(self) -> u8;

    /// The number of bytes one sample of this type occupies in a buffer.
    spec fn byte_width_spec() -> usize;

    /// Converts the component value into one in the 0-255 range.
    fn to_u8(self) -> (r: u8)
        ensures
            r == self.to_u8_spec();

    /// Returns the number of bytes one sample occupies.
    fn byte_width() -> (n: usize)
        ensures
            n == Self::byte_width_spec(),
            1 <= n <= 4;
}

impl Subpixel for u8 {
    /// The value unchanged, since the component is already in 0-255 range.
    open spec fn to_u8_spec(self) -> u8 {
        self
    }

    open spec fn byte_width_spec() -> usize {
        1
    }

    fn to_u8(self) -> u8 {
        self
    }

    fn byte_width() -> usize {
        1
    }
}

impl Subpixel for u16 {
    /// The most significant byte of the value, reducing it to 0-255 range.
    open spec fn to_u8_spec(self) -> u8 {
        (self >> 8) as u8
    }

    open spec fn byte_width_spec() -> usize {
        2
    }

    fn to_u8(self) -> u8 {
        (self >> 8) as u8
    }

    fn byte_width() -> usize {
        2
    }
}

/// Converts image dimensions into a `(u16, u16)` pair.  Returns an error if
/// either dimension exceeds the range of `u16`, carrying the original values.
pub fn new_dimensions(dimensions: (u32, u32)) -> (r: Result<(u16, u16), err::ImageTooLarge>)
    ensures
        dimensions.0 <= u16::MAX && dimensions.1 <= u16::MAX
            ==> r == Ok::<(u16, u16), err::ImageTooLarge>(
                ((dimensions.0 as u16), (dimensions.1 as u16))),
        dimensions.0 > u16::MAX || dimensions.1 > u16::MAX
            ==> r == Err::<(u16, u16), err::ImageTooLarge>(
                err::ImageTooLarge(dimensions.0, dimensions.1)),
{
    let (width, height) = dimensions;
    if width <= u16::MAX as u32 && height <= u16::MAX as u32 {
        Ok((width as u16, height as u16))
    } else {
        Err(err::ImageTooLarge(width, height))
    }
}

/// The device word produced for pixel `i` of a sample buffer with the given
/// number of channels per pixel.  One- and two-channel buffers are greyscale
/// (the second channel, if any, is alpha and is discarded); three- and
/// four-channel buffers are RGB (the fourth channel, if any, is alpha and is
/// discarded).
pub open spec fn device_word<S: Subpixel>(
    shifts: RgbShifts,
    data: Seq<S>,
    channels: int,
    i: int,
) -> u32 {
    if channels <= 2 {
        shifts.spec_from_luma(data[i * channels].to_u8_spec())
    } else {
        shifts.spec_from_rgb(
            data[i * channels].to_u8_spec(),
            data[i * channels + 1].to_u8_spec(),
            data[i * channels + 2].to_u8_spec(),
        )
    }
}

/// The full device buffer produced from a sample buffer: one 32-bit word per
/// pixel, in the same row-major order as the input.
pub open spec fn device_words<S: Subpixel>(
    shifts: RgbShifts,
    data: Seq<S>,
    channels: int,
) -> Seq<u32> {
    Seq::new((data.len() as int / channels) as nat, |i: int| device_word(shifts, data, channels, i))
}

/// Walks a sample buffer in fixed-size pixel groups and emits one 32-bit
/// device word per pixel.  This is the single conversion routine shared by
/// every image variant; `channels` selects the pixel group size.
pub fn convert_samples<S: Subpixel>(
    data: &Vec<S>,
    channels: usize,
    rgb_shifts: RgbShifts,
) -> (out: Vec<u32>)
    requires
        1 <= channels <= 4,
        data@.len() as int % (channels as int) == 0,
        rgb_shifts.valid(),
    ensures
        out@ == device_words(rgb_shifts, data@, channels as int),
        out@.len() == data@.len() as int / channels as int,
{
    let dlen: usize = data.len();
    let n: usize = dlen / channels;
    proof {
        vstd::arithmetic::div_mod::lemma_fundamental_div_mod(
            data@.len() as int,
            channels as int,
        );
    }
    let ghost len: int = data@.len() as int;
    assert(n * channels == len) by (nonlinear_arith)
        requires
            n == len / (channels as int),
            len % (channels as int) == 0,
            len >= 0,
            1 <= channels <= 4,
    ;
    let mut out: Vec<u32> = Vec::new();
    let mut i: usize = 0;
    while i < n
        invariant
            i <= n,
            1 <= channels <= 4,
            rgb_shifts.valid(),
            dlen == data@.len(),
            n * channels == dlen,
            n == data@.len() as int / channels as int,
            out@.len() == i,
            forall|j: int|
                0 <= j < i ==> out@[j] == device_word(rgb_shifts, data@, channels as int, j),
        decreases n - i,
    {
        assert(i * channels + channels <= n * channels) by (nonlinear_arith)
            requires
                i < n,
                1 <= channels,
        ;
        let idx: usize = i * channels;
        let w: u32 = if channels <= 2 {
            rgb_shifts.from_luma(data[idx])
        } else {
            rgb_shifts.from_rgb(data[idx], data[idx + 1], data[idx + 2])
        };
        out.push(w);
        i = i + 1;
    }
    proof {
        assert(out@ =~= device_words(rgb_shifts, data@, channels as int));
    }
    out
}

/// A rectangular image: validated dimensions plus a typed sample buffer.
///
/// The sample buffer's length always equals `width * height * channels` for
/// the channel count of the variant that wraps this value; the check is made
/// at construction time and a mismatch is an error, never silently truncated
/// or padded.
#[derive(Clone)]
pub struct InnerImage<S> {
    /// Width in pixels, known to fit 16 bits.
    pub width: u16,
    /// Height in pixels, known to fit 16 bits.
    pub height: u16,
    /// Row-major samples, `channels` per pixel.
    pub data: Vec<S>,
}

/// What holds of a successfully constructed image: the dimensions fitted 16
/// bits, the buffer length matched them exactly, and both were kept.
pub open spec fn image_ok<S: Subpixel>(
    img: InnerImage<S>,
    width: u32,
    height: u32,
    data: Seq<S>,
    channels: int,
) -> bool {
    &&& width <= u16::MAX
    &&& height <= u16::MAX
    &&& data.len() == width * height * channels
    &&& img.width == width as u16
    &&& img.height == height as u16
    &&& img.data@ == data
}

/// Which error image construction reports: out-of-range dimensions win and
/// carry the original 32-bit values; otherwise the buffer length disagreed
/// with the dimensions and the error carries the buffer's byte length and
/// the checked dimensions.
pub open spec fn image_err<S: Subpixel>(
    e: Error,
    width: u32,
    height: u32,
    data: Seq<S>,
    channels: int,
) -> bool {
    if width > u16::MAX || height > u16::MAX {
        e == Error::ImageTooLarge(width, height)
    } else {
        &&& data.len() != width * height * channels
        &&& e == Error::BadBufferSize(
            (data.len() * S::byte_width_spec()) as usize,
            width as u16,
            height as u16,
        )
    }
}

impl<S: Subpixel> InnerImage<S> {
    /// Validates dimensions and buffer length, and builds the image.
    ///
    /// Fails with [`Error::ImageTooLarge`] when a dimension exceeds 16 bits,
    /// and with [`Error::BadBufferSize`] (carrying the buffer's byte length
    /// and the checked dimensions) when the sample count does not equal
    /// `width * height * channels` exactly.
    pub fn new(width: u32, height: u32, data: Vec<S>, channels: usize) -> (r: Result<
        Self,
        Error,
    >)
        requires
            1 <= channels <= 4,
            data@.len() * S::byte_width_spec() <= usize::MAX,
        ensures
            match r {
                Ok(img) => image_ok(img, width, height, data@, channels as int),
                Err(e) => image_err::<S>(e, width, height, data@, channels as int),
            },
    {
        match new_dimensions((width, height)) {
            Err(e) => Err(Error::from(e)),
            Ok((w, h)) => {
                proof {
                    assert((w as int) * (h as int) <= 0xFFFF * 0xFFFF) by (nonlinear_arith)
                        requires
                            w <= 0xFFFF,
                            h <= 0xFFFF,
                    ;
                    assert(((w as int) * (h as int)) * (channels as int) <= 0xFFFF * 0xFFFF
                        * 4) by (nonlinear_arith)
                        requires
                            0 <= (w as int) * (h as int) <= 0xFFFF * 0xFFFF,
                            1 <= channels <= 4,
                    ;
                }
                let expected: u64 = (w as u64) * (h as u64) * (channels as u64);
                if data.len() as u64 == expected {
                    Ok(Self { width: w, height: h, data })
                } else {
                    let byte_len: usize = data.len() * S::byte_width();
                    Err(Error::BadBufferSize(byte_len, w, h))
                }
            },
        }
    }
}

/// The four bytes of a device word in the order they occupy memory: least
/// significant byte first, as the wire format lays 32-bit values out.
pub open spec fn le_word_bytes(w: u32) -> Seq<u8> {
    seq![
        (w & 0xFF) as u8,
        ((w >> 8) & 0xFF) as u8,
        ((w >> 16) & 0xFF) as u8,
        ((w >> 24) & 0xFF) as u8,
    ]
}

/// The byte serialisation of a whole device buffer: each word contributes
/// four bytes, least significant first.
pub open spec fn le_bytes_of_words(s: Seq<u32>) -> Seq<u8>
    decreases s.len(),
{
    if s.len() == 0 {
        Seq::empty()
    } else {
        le_bytes_of_words(s.drop_last()) + le_word_bytes(s.last())
    }
}

/// An image buffer in the format supported by the X display server: one
/// 32-bit device word per pixel, row-major.
#[derive(Clone)]
pub struct XBuffer(pub Vec<u32>);

impl View for XBuffer {
    type V = Seq<u32>;

    open spec fn view(&self) -> Seq<u32> {
        self.0@
    }
}

impl XBuffer {
    /// The device words of the buffer.
    pub fn words(&self) -> (r: &Vec<u32>)
        ensures
            r@ == self@,
    {
        &self.0
    }

    /// Serialises the buffer into bytes, least significant byte of each word
    /// first, which is the layout a draw request carries.
    pub fn bytes(&self) -> (r: Vec<u8>)
        ensures
            r@ == le_bytes_of_words(self@),
            r@.len() == 4 * self@.len(),
    {
        words_to_le_bytes(&self.0)
    }
}

/// Serialises device words into bytes, least significant byte of each word
/// first, which is the layout a draw request carries.
pub fn words_to_le_bytes(words: &Vec<u32>) -> (r: Vec<u8>)
    ensures
        r@ == le_bytes_of_words(words@),
        r@.len() == 4 * words@.len(),
{
    let mut out: Vec<u8> = Vec::new();
    let mut i: usize = 0;
    while i < words.len()
        invariant
            i <= words@.len(),
            out@ == le_bytes_of_words(words@.take(i as int)),
            out@.len() == 4 * i,
        decreases words@.len() - i,
    {
        let w: u32 = words[i];
        out.push((w & 0xFF) as u8);
        out.push(((w >> 8) & 0xFF) as u8);
        out.push(((w >> 16) & 0xFF) as u8);
        out.push(((w >> 24) & 0xFF) as u8);
        proof {
            assert(words@.take(i + 1).drop_last() =~= words@.take(i as int));
            assert(out@ =~= le_bytes_of_words(words@.take(i + 1)));
        }
        i = i + 1;
    }
    proof {
        assert(words@.take(words@.len() as int) =~= words@);
    }
    out
}

/// One repacked four-byte pixel group after another: each group's first
/// three bytes are taken as red, green and blue, packed through the pixel
/// format, and laid out again least significant byte first.
pub open spec fn fixed_chunks(rgb_shifts: RgbShifts, s: Seq<u8>) -> Seq<u8>
    decreases s.len(),
{
    if s.len() < 4 {
        s
    } else {
        le_word_bytes(rgb_shifts.spec_from_rgb(s[0], s[1], s[2])) + fixed_chunks(
            rgb_shifts,
            s.skip(4),
        )
    }
}

/// Reorders an RGBA byte buffer (four bytes per pixel) into the device's
/// channel order: each group's red, green and blue bytes are packed through
/// the pixel format and the decoded alpha byte is overwritten by the
/// packing function's fourth lane, which packing leaves zero.  When the
/// device order already matches the buffer's natural RGBA layout the
/// repack keeps the three channel bytes in place, so only the alpha byte
/// changes.
pub fn fix_channel_order(data: Vec<u8>, rgb_shifts: RgbShifts) -> (r: Vec<u8>)
    requires
        data@.len() as int % 4 == 0,
        rgb_shifts.valid(),
    ensures
        r@ == fixed_chunks(rgb_shifts, data@),
        r@.len() == data@.len(),
{
    let dlen: usize = data.len();
    let n: usize = dlen / 4;
    proof {
        vstd::arithmetic::div_mod::lemma_fundamental_div_mod(data@.len() as int, 4);
    }
    let mut out: Vec<u8> = Vec::new();
    let mut i: usize = 0;
    proof {
        assert(data@.skip(0) =~= data@);
        assert(Seq::<u8>::empty() + fixed_chunks(rgb_shifts, data@) =~= fixed_chunks(
            rgb_shifts,
            data@,
        ));
    }
    while i < n
        invariant
            i <= n,
            rgb_shifts.valid(),
            dlen == data@.len(),
            4 * n == dlen,
            out@.len() == 4 * i,
            fixed_chunks(rgb_shifts, data@) == out@ + fixed_chunks(
                rgb_shifts,
                data@.skip(4 * i),
            ),
        decreases n - i,
    {
        let idx: usize = 4 * i;
        let w: u32 = rgb_shifts.from_rgb(data[idx], data[idx + 1], data[idx + 2]);
        let ghost prev: Seq<u8> = out@;
        let ghost rest: Seq<u8> = data@.skip(4 * i as int);
        out.push((w & 0xFF) as u8);
        out.push(((w >> 8) & 0xFF) as u8);
        out.push(((w >> 16) & 0xFF) as u8);
        out.push(((w >> 24) & 0xFF) as u8);
        proof {
            assert(rest.len() >= 4);
            assert(rest[0] == data@[4 * i as int] && rest[1] == data@[4 * i as int + 1]
                && rest[2] == data@[4 * i as int + 2]);
            assert(rest.skip(4) =~= data@.skip(4 * (i + 1)));
            assert(fixed_chunks(rgb_shifts, rest) == le_word_bytes(w) + fixed_chunks(
                rgb_shifts,
                data@.skip(4 * (i + 1)),
            ));
            assert(out@ =~= prev + le_word_bytes(w));
            assert(prev + (le_word_bytes(w) + fixed_chunks(rgb_shifts, data@.skip(4 * (i + 1))))
                =~= (prev + le_word_bytes(w)) + fixed_chunks(rgb_shifts, data@.skip(4 * (i + 1))));
        }
        i = i + 1;
    }
    proof {
        assert(data@.skip(4 * n as int) =~= Seq::<u8>::empty());
        assert(fixed_chunks(rgb_shifts, data@) =~= out@);
    }
    out
}

/// A buffer of `x * c` samples splits into exactly `x` whole pixel groups of
/// `c` samples each.
proof fn lemma_pixel_groups(x: int, c: int)
    by (nonlinear_arith)
    requires
        x >= 0,
        c >= 1,
    ensures
        (x * c) % c == 0,
        (x * c) / c == x,
{
}

/// An image which can be converted into an image buffer in the format
/// supported by the X display server.
pub trait IntoXBuffer: Sized {
    /// Well-formedness: the sample buffer's length matches the dimensions
    /// and the variant's channel count.
    spec fn wf(&self) -> bool;

    /// Width of the image in pixels.
    spec fn spec_width(&self) -> u16;

    /// Height of the image in pixels.
    spec fn spec_height(&self) -> u16;

    /// The device words conversion produces for a given pixel format.
    spec fn spec_words(&self, rgb_shifts: RgbShifts) -> Seq<u32>;

    /// Returns the dimensions of the image.
    fn dimensions(&self) -> (r: Result<(u16, u16), err::ImageTooLarge>)
        requires
            self.wf(),
        ensures
            r == Ok::<(u16, u16), err::ImageTooLarge>(((self.spec_width(), self.spec_height()))),
    ;

    /// Returns the image buffer in the format supported by the X display
    /// server.  The format is defined by the `rgb_shifts` argument: each
    /// pixel is represented by a `u32` with the red, green and blue values
    /// shifted by the number of bits `rgb_shifts` specifies.
    fn into_x_buffer(self, rgb_shifts: RgbShifts) -> (r: Result<XBuffer, Error>)
        requires
            self.wf(),
            rgb_shifts.valid(),
        ensures
            match r {
                Ok(buf) => {
                    &&& buf@ == self.spec_words(rgb_shifts)
                    &&& buf@.len() == self.spec_width() * self.spec_height()
                },
                Err(_) => false,
            },
    ;
}

/// An image in RGB format and sRGB colour space: three samples per pixel.
#[derive(Clone)]
pub struct RgbImage<S: Subpixel>(pub InnerImage<S>);

impl<S: Subpixel> RgbImage<S> {
    /// Constructs a new image with the given data.
    pub fn new(width: u32, height: u32, data: Vec<S>) -> (r: Result<Self, Error>)
        requires
            data@.len() * S::byte_width_spec() <= usize::MAX,
        ensures
            match r {
                Ok(img) => image_ok(img.0, width, height, data@, 3) && img.wf(),
                Err(e) => image_err::<S>(e, width, height, data@, 3),
            },
    {
        match InnerImage::new(width, height, data, 3) {
            Ok(inner) => Ok(Self(inner)),
            Err(e) => Err(e),
        }
    }
}

impl<S: Subpixel> IntoXBuffer for RgbImage<S> {
    open spec fn wf(&self) -> bool {
        self.0.data@.len() == self.0.width * self.0.height * 3
    }

    open spec fn spec_width(&self) -> u16 {
        self.0.width
    }

    open spec fn spec_height(&self) -> u16 {
        self.0.height
    }

    open spec fn spec_words(&self, rgb_shifts: RgbShifts) -> Seq<u32> {
        device_words(rgb_shifts, self.0.data@, 3)
    }

    fn dimensions(&self) -> Result<(u16, u16), err::ImageTooLarge> {
        Ok((self.0.width, self.0.height))
    }

    fn into_x_buffer(self, rgb_shifts: RgbShifts) -> Result<XBuffer, Error> {
        proof {
            lemma_pixel_groups((self.0.width as int) * (self.0.height as int), 3);
        }
        Ok(XBuffer(convert_samples(&self.0.data, 3, rgb_shifts)))
    }
}

/// An image in RGBA format and sRGB colour space: four samples per pixel.
/// The alpha channel is ignored when converting to an X-compatible buffer.
#[derive(Clone)]
pub struct RgbaImage<S: Subpixel>(pub InnerImage<S>);

impl<S: Subpixel> RgbaImage<S> {
    /// Constructs a new image with the given data.
    pub fn new(width: u32, height: u32, data: Vec<S>) -> (r: Result<Self, Error>)
        requires
            data@.len() * S::byte_width_spec() <= usize::MAX,
        ensures
            match r {
                Ok(img) => image_ok(img.0, width, height, data@, 4) && img.wf(),
                Err(e) => image_err::<S>(e, width, height, data@, 4),
            },
    {
        match InnerImage::new(width, height, data, 4) {
            Ok(inner) => Ok(Self(inner)),
            Err(e) => Err(e),
        }
    }
}

impl<S: Subpixel> IntoXBuffer for RgbaImage<S> {
    open spec fn wf(&self) -> bool {
        self.0.data@.len() == self.0.width * self.0.height * 4
    }

    open spec fn spec_width(&self) -> u16 {
        self.0.width
    }

    open spec fn spec_height(&self) -> u16 {
        self.0.height
    }

    open spec fn spec_words(&self, rgb_shifts: RgbShifts) -> Seq<u32> {
        device_words(rgb_shifts, self.0.data@, 4)
    }

    fn dimensions(&self) -> Result<(u16, u16), err::ImageTooLarge> {
        Ok((self.0.width, self.0.height))
    }

    fn into_x_buffer(self, rgb_shifts: RgbShifts) -> Result<XBuffer, Error> {
        proof {
            lemma_pixel_groups((self.0.width as int) * (self.0.height as int), 4);
        }
        Ok(XBuffer(convert_samples(&self.0.data, 4, rgb_shifts)))
    }
}

/// A greyscale image in sRGB colour space: one sample per pixel.
#[derive(Clone)]
pub struct LumaImage<S: Subpixel>(pub InnerImage<S>);

impl<S: Subpixel> LumaImage<S> {
    /// Constructs a new image with the given data.
    pub fn new(width: u32, height: u32, data: Vec<S>) -> (r: Result<Self, Error>)
        requires
            data@.len() * S::byte_width_spec() <= usize::MAX,
        ensures
            match r {
                Ok(img) => image_ok(img.0, width, height, data@, 1) && img.wf(),
                Err(e) => image_err::<S>(e, width, height, data@, 1),
            },
    {
        match InnerImage::new(width, height, data, 1) {
            Ok(inner) => Ok(Self(inner)),
            Err(e) => Err(e),
        }
    }
}

impl<S: Subpixel> IntoXBuffer for LumaImage<S> {
    open spec fn wf(&self) -> bool {
        self.0.data@.len() == self.0.width * self.0.height * 1
    }

    open spec fn spec_width(&self) -> u16 {
        self.0.width
    }

    open spec fn spec_height(&self) -> u16 {
        self.0.height
    }

    open spec fn spec_words(&self, rgb_shifts: RgbShifts) -> Seq<u32> {
        device_words(rgb_shifts, self.0.data@, 1)
    }

    fn dimensions(&self) -> Result<(u16, u16), err::ImageTooLarge> {
        Ok((self.0.width, self.0.height))
    }

    fn into_x_buffer(self, rgb_shifts: RgbShifts) -> Result<XBuffer, Error> {
        proof {
            lemma_pixel_groups((self.0.width as int) * (self.0.height as int), 1);
        }
        Ok(XBuffer(convert_samples(&self.0.data, 1, rgb_shifts)))
    }
}

/// A greyscale image with an alpha channel in sRGB colour space: two samples
/// per pixel.  The alpha channel is ignored when converting to an
/// X-compatible buffer.
#[derive(Clone)]
pub struct LumaAImage<S: Subpixel>(pub InnerImage<S>);

impl<S: Subpixel> LumaAImage<S> {
    /// Constructs a new image with the given data.
    pub fn new(width: u32, height: u32, data: Vec<S>) -> (r: Result<Self, Error>)
        requires
            data@.len() * S::byte_width_spec() <= usize::MAX,
        ensures
            match r {
                Ok(img) => image_ok(img.0, width, height, data@, 2) && img.wf(),
                Err(e) => image_err::<S>(e, width, height, data@, 2),
            },
    {
        match InnerImage::new(width, height, data, 2) {
            Ok(inner) => Ok(Self(inner)),
            Err(e) => Err(e),
        }
    }
}

impl<S: Subpixel> IntoXBuffer for LumaAImage<S> {
    open spec fn wf(&self) -> bool {
        self.0.data@.len() == self.0.width * self.0.height * 2
    }

    open spec fn spec_width(&self) -> u16 {
        self.0.width
    }

    open spec fn spec_height(&self) -> u16 {
        self.0.height
    }

    open spec fn spec_words(&self, rgb_shifts: RgbShifts) -> Seq<u32> {
        device_words(rgb_shifts, self.0.data@, 2)
    }

    fn dimensions(&self) -> Result<(u16, u16), err::ImageTooLarge> {
        Ok((self.0.width, self.0.height))
    }

    fn into_x_buffer(self, rgb_shifts: RgbShifts) -> Result<XBuffer, Error> {
        proof {
            lemma_pixel_groups((self.0.width as int) * (self.0.height as int), 2);
        }
        Ok(XBuffer(convert_samples(&self.0.data, 2, rgb_shifts)))
    }
}

/// Converts an image into the exact byte payload of a draw request: the
/// image's device words serialised least significant byte first, together
/// with the dimensions the request must carry.
///
/// This is the computing half of placing an image on a pixmap; issuing the
/// draw request itself is the caller's business.
pub fn prepare_put_image<I: IntoXBuffer>(img: I, rgb_shifts: RgbShifts) -> (r: Result<
    (u16, u16, Vec<u8>),
    Error,
>)
    requires
        img.wf(),
        rgb_shifts.valid(),
    ensures
        match r {
            Ok(t) => {
                &&& t.0 == img.spec_width()
                &&& t.1 == img.spec_height()
                &&& t.2@ == le_bytes_of_words(img.spec_words(rgb_shifts))
                &&& t.2@.len() == 4 * t.0 * t.1
            },
            Err(_) => false,
        },
{
    let (width, height) = match img.dimensions() {
        Ok(d) => d,
        Err(e) => {
            return Err(Error::from(e));
        },
    };
    let buffer: XBuffer = match img.into_x_buffer(rgb_shifts) {
        Ok(b) => b,
        Err(e) => {
            return Err(e);
        },
    };
    let bytes: Vec<u8> = buffer.bytes();
    proof {
        assert((width as int) * (height as int) <= 0xFFFF * 0xFFFF) by (nonlinear_arith)
            requires
                width <= 0xFFFF,
                height <= 0xFFFF,
        ;
        assert(((width as int) * (height as int)) * 4 == 4 * ((width as int) * (height as int))
            && (4 * (width as int)) * (height as int) == 4 * ((width as int) * (
        height as int))) by (nonlinear_arith);
    }
    if (width as u64) * (height as u64) * 4 == bytes.len() as u64 {
        Ok((width, height, bytes))
    } else {
        Err(Error::BadBufferSize(bytes.len(), width, height))
    }
}

/// Validates a caller-supplied device buffer against the stated dimensions
/// and serialises it into the byte payload of a draw request.  Fails with
/// [`Error::BadBufferSize`] (carrying the buffer's byte length and the
/// stated dimensions) when the word count is not exactly `width * height`.
pub fn prepare_put_raw(width: u16, height: u16, data: &Vec<u32>) -> (r: Result<Vec<u8>, Error>)
    requires
        data@.len() * 4 <= usize::MAX,
    ensures
        match r {
            Ok(bytes) => {
                &&& data@.len() == width * height
                &&& bytes@ == le_bytes_of_words(data@)
                &&& bytes@.len() == 4 * data@.len()
            },
            Err(e) => {
                &&& data@.len() != width * height
                &&& e == Error::BadBufferSize((data@.len() * 4) as usize, width, height)
            },
        },
{
    proof {
        assert((width as int) * (height as int) <= 0xFFFF * 0xFFFF) by (nonlinear_arith)
            requires
                width <= 0xFFFF,
                height <= 0xFFFF,
        ;
    }
    if data.len() as u64 == (width as u64) * (height as u64) {
        Ok(words_to_le_bytes(data))
    } else {
        Err(Error::BadBufferSize(data.len() * 4, width, height))
    }
}

} // verus!
