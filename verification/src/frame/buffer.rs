//! Declares the [Frame] type and the [FrameBuffer] trait for buffers of
//! pixels that a [Frame] can be built from.

pub mod dimensions;
pub mod prelude;

use vstd::prelude::*;
use vstd::std_specs::cmp::PartialEqSpecImpl;

use self::prelude::{Dimensions, Pixel, Uid};

verus! {

/// The number of pixels in a frame with dimensions `d`.
pub open spec fn area_of(d: Dimensions) -> nat {
    d@.0 * d@.1
}

/// A buffer of data representing all of the [Pixel]s in a frame, along with
/// the frame's dimensions. A [Frame] can be built from any buffer whose
/// number of pixels is the area of its dimensions.
pub trait FrameBuffer: Sized {
    /// The dimensions the buffer reports.
    spec fn spec_dimensions(&self) -> Dimensions;

    /// The pixels the buffer holds, row after row.
    spec fn spec_pixels(&self) -> Seq<Pixel>;

    /// The dimensions of this frame.
    fn dimensions(&self) -> (r: Dimensions)
        ensures
            r == self.spec_dimensions(),
    ;

    /// The underlying pixels.
    fn pixels_mut(&mut self) -> (r: &mut [Pixel])
        ensures
            r@ == old(self).spec_pixels(),
    ;
}

/// A basic [FrameBuffer]: the pixels row after row, and their dimensions.
#[derive(Debug, Clone)]
pub struct BasicFrame {
    /// The pixels, row after row.
    pub pixels: Vec<Pixel>,
    /// The dimensions of the frame.
    pub dimensions: Dimensions,
}

impl FrameBuffer for BasicFrame {
    open spec fn spec_dimensions(&self) -> Dimensions {
        self.dimensions
    }

    open spec fn spec_pixels(&self) -> Seq<Pixel> {
        self.pixels@
    }

    fn dimensions(&self) -> (r: Dimensions) {
        self.dimensions
    }

    fn pixels_mut(&mut self) -> (r: &mut [Pixel]) {
        self.pixels.as_mut_slice()
    }
}

/// What method to use to rescale a [Frame].
#[derive(Debug, Clone, Copy, PartialEq, Eq, PartialOrd, Ord, Hash, Structural)]
pub enum RescaleMethod {
    /// The fastest algorithm, low quality.
    NearestNeighbor,
    /// A good balance of speed and quality.
    Bilinear,
    /// The slowest algorithm, highest quality.
    Bicubic,
}

/// The default method is [Bilinear](RescaleMethod::Bilinear).
impl Default for RescaleMethod {
    fn default() -> (r: Self)
        ensures
            r == RescaleMethod::Bilinear,
    {
        RescaleMethod::Bilinear
    }
}

/// Indicates that a slice was invalid for creating a frame.
#[derive(Debug, Clone, Copy, PartialEq, Eq, PartialOrd, Ord, Hash, Structural)]
pub enum TryFromSliceError {
    /// The slice was an invalid length.
    LenError,
    /// The slice was not aligned properly.
    AlignmentError,
}

/// Two frames were expected to have the same dimensions but did not.
#[derive(Debug, Clone, Copy, PartialEq, Eq, Structural)]
pub struct DifferentDimensionsError {
    /// The dimensions that were expected.
    pub expected: Dimensions,
    /// The dimensions that were found.
    pub actual: Dimensions,
}

/// `after` is `before` edited in place: it has the same dimensions and
/// identifier, and as many pixels as its area.
pub open spec fn keeps_shape(before: Frame, after: Frame) -> bool {
    &&& after.dims() == before.dims()
    &&& after.id() == before.id()
    &&& after.valid()
}

/// The pixel at index `i` of a frame filled by `f` with the row and column of
/// each pixel.
pub open spec fn coords_of(i: int, width: nat) -> (usize, usize) {
    ((i / width as int) as usize, (i % width as int) as usize)
}

/// The bytes of a pixel sequence: four per pixel, red, green, blue, alpha.
pub open spec fn pixel_bytes(pixels: Seq<Pixel>) -> Seq<u8> {
    Seq::new(
        4 * pixels.len(),
        |i: int|
            {
                let p = pixels[i / 4]@;
                if i % 4 == 0 {
                    p.0
                } else if i % 4 == 1 {
                    p.1
                } else if i % 4 == 2 {
                    p.2
                } else {
                    p.3
                }
            },
    )
}

/// The pixels that a byte sequence of whole pixels spells out.
pub open spec fn pixels_from_bytes(bytes: Seq<u8>) -> Seq<(u8, u8, u8, u8)> {
    Seq::new(
        bytes.len() / 4,
        |i: int| (bytes[4 * i], bytes[4 * i + 1], bytes[4 * i + 2], bytes[4 * i + 3]),
    )
}

/// The data that makes up a frame: its pixels (row after row), its
/// dimensions and a [Uid] that identifies it. The number of pixels is always
/// the area of the dimensions.
#[derive(Debug)]
pub struct Frame {
    pixels: Vec<Pixel>,
    dimensions: Dimensions,
    uid: Uid,
}

impl Frame {
    #[verifier::type_invariant]
    spec fn inv(self) -> bool {
        self.pixels@.len() == area_of(self.dimensions)
    }

    /// The dimensions of the frame.
    pub closed spec fn dims(self) -> Dimensions {
        self.dimensions
    }

    /// The pixels of the frame, row after row.
    pub closed spec fn pixel_seq(self) -> Seq<Pixel> {
        self.pixels@
    }

    /// The identifier of the frame.
    pub closed spec fn id(self) -> Uid {
        self.uid
    }

    /// The pixel count matches the dimensions.
    pub open spec fn valid(self) -> bool {
        self.pixel_seq().len() == area_of(self.dims())
    }

    /// Build a frame from its pixels, dimensions and identifier.
    fn from_parts(pixels: Vec<Pixel>, dimensions: Dimensions, uid: Uid) -> (r: Self)
        requires
            pixels@.len() == area_of(dimensions),
        ensures
            r.dims() == dimensions,
            r.pixel_seq() == pixels@,
            r.id() == uid,
    {
        Self { pixels, dimensions, uid }
    }

    /// Create a frame from any type that implements [FrameBuffer]; its
    /// number of pixels must be the area of its dimensions. `uid` must not
    /// identify any other live frame.
    pub fn from_buffer<B: FrameBuffer>(buffer: B, uid: Uid) -> (r: Self)
        requires
            buffer.spec_pixels().len() == area_of(buffer.spec_dimensions()),
        ensures
            r.dims() == buffer.spec_dimensions(),
            r.pixel_seq() == buffer.spec_pixels(),
            r.id() == uid,
            r.valid(),
    {
        let mut buffer = buffer;
        let dimensions = buffer.dimensions();
        let pixels = buffer.pixels_mut();
        let pixels = vstd::slice::slice_to_vec(&*pixels);
        Self::from_parts(pixels, dimensions, uid)
    }

    /// Create a frame from a [BasicFrame]; its number of pixels must be the
    /// area of its dimensions. `uid` must not identify any other live frame.
    pub fn from_internal(buffer: BasicFrame, uid: Uid) -> (r: Self)
        requires
            buffer.pixels@.len() == area_of(buffer.dimensions),
        ensures
            r.dims() == buffer.dimensions,
            r.pixel_seq() == buffer.pixels@,
            r.id() == uid,
            r.valid(),
    {
        Self::from_parts(buffer.pixels, buffer.dimensions, uid)
    }

    /// Creates a new frame with all pixels set to `fill_pixel`. The area must
    /// fit in a `usize`.
    pub fn from_fill(dimensions: Dimensions, fill_pixel: Pixel, uid: Uid) -> (r: Self)
        requires
            area_of(dimensions) <= usize::MAX,
        ensures
            r.dims() == dimensions,
            r.pixel_seq() == Seq::new(area_of(dimensions), |i: int| fill_pixel),
            r.id() == uid,
            r.valid(),
    {
        let area = dimensions.area();
        let pixels = vec![fill_pixel; area];
        assert(pixels@ == Seq::new(area_of(dimensions), |i: int| fill_pixel));
        Self::from_parts(pixels, dimensions, uid)
    }

    /// Creates a new frame with all pixels set to the result of calling `f`.
    /// The area must fit in a `usize`.
    pub fn from_fill_with<F: Fn() -> Pixel>(dimensions: Dimensions, f: F, uid: Uid) -> (r: Self)
        requires
            area_of(dimensions) <= usize::MAX,
            f.requires(()),
        ensures
            r.dims() == dimensions,
            r.id() == uid,
            r.valid(),
            forall|i: int| 0 <= i < r.pixel_seq().len() ==> f.ensures((), #[trigger] r.pixel_seq()[i]),
    {
        let area = dimensions.area();
        let mut pixels: Vec<Pixel> = Vec::new();
        let mut i: usize = 0;
        while i < area
            invariant
                i <= area,
                area == area_of(dimensions),
                pixels@.len() == i,
                f.requires(()),
                forall|j: int| 0 <= j < i ==> f.ensures((), #[trigger] pixels@[j]),
            decreases area - i,
        {
            pixels.push(f());
            i = i + 1;
        }
        Self::from_parts(pixels, dimensions, uid)
    }

    /// Creates a new frame with every pixel set to the result of calling `f`
    /// with the pixel's row and column. The area must fit in a `usize`.
    pub fn from_fill_with_coords<F: Fn(usize, usize) -> Pixel>(dimensions: Dimensions, f: F, uid: Uid) -> (r: Self)
        requires
            area_of(dimensions) <= usize::MAX,
            forall|row: usize, col: usize| row < dimensions@.1 && col < dimensions@.0 ==> f.requires((row, col)),
        ensures
            r.dims() == dimensions,
            r.id() == uid,
            r.valid(),
            forall|i: int| 0 <= i < r.pixel_seq().len() ==> f.ensures(coords_of(i, dimensions@.0), #[trigger] r.pixel_seq()[i]),
    {
        let area = dimensions.area();
        let width = dimensions.width();
        let mut pixels: Vec<Pixel> = Vec::new();
        let mut i: usize = 0;
        while i < area
            invariant
                i <= area,
                area == area_of(dimensions),
                width == dimensions@.0,
                width > 0,
                pixels@.len() == i,
                forall|row: usize, col: usize| row < dimensions@.1 && col < dimensions@.0 ==> f.requires((row, col)),
                forall|j: int| 0 <= j < i ==> f.ensures(coords_of(j, dimensions@.0), #[trigger] pixels@[j]),
            decreases area - i,
        {
            let row = i / width;
            let col = i % width;
            proof {
                vstd::arithmetic::div_mod::lemma_div_is_ordered(i as int, (dimensions@.0 * dimensions@.1) as int, width as int);
                vstd::arithmetic::mul::lemma_mul_is_commutative(dimensions@.0 as int, dimensions@.1 as int);
                vstd::arithmetic::div_mod::lemma_div_by_multiple(dimensions@.1 as int, width as int);
                vstd::arithmetic::div_mod::lemma_fundamental_div_mod(i as int, width as int);
                vstd::arithmetic::div_mod::lemma_mod_bound(i as int, width as int);
                if row as int == dimensions@.1 {
                    vstd::arithmetic::mul::lemma_mul_is_commutative(width as int, row as int);
                }
            }
            pixels.push(f(row, col));
            i = i + 1;
        }
        Self::from_parts(pixels, dimensions, uid)
    }

    /// Creates a new frame with all pixels black (`#000000FF`). The area must
    /// fit in a `usize`.
    pub fn new(dimensions: Dimensions, uid: Uid) -> (r: Self)
        requires
            area_of(dimensions) <= usize::MAX,
        ensures
            r.dims() == dimensions,
            r.pixel_seq().len() == area_of(dimensions),
            forall|i: int| 0 <= i < r.pixel_seq().len() ==> (#[trigger] r.pixel_seq()[i])@ == (0u8, 0u8, 0u8, 0xFFu8),
            r.id() == uid,
            r.valid(),
    {
        Self::from_fill(dimensions, Pixel::BLACK(), uid)
    }

    /// Tries to create a new frame from its pixels, returning an error if
    /// their number is not the area of `dimensions`.
    pub fn from_pixels(pixels: Vec<Pixel>, dimensions: Dimensions, uid: Uid) -> (r: Result<Self, TryFromSliceError>)
        ensures
            pixels@.len() != area_of(dimensions) <==> r == Err::<Frame, TryFromSliceError>(TryFromSliceError::LenError),
            pixels@.len() == area_of(dimensions) ==> r is Ok,
            r matches Ok(f) ==> f.dims() == dimensions && f.pixel_seq() == pixels@ && f.id() == uid && f.valid(),
    {
        let width = dimensions.width();
        let height = dimensions.height();
        let len = pixels.len();
        if !area_is(width, height, len) {
            Err(TryFromSliceError::LenError)
        } else {
            Ok(Self::from_parts(pixels, dimensions, uid))
        }
    }

    /// Tries to create a frame from raw data: four bytes per pixel (red,
    /// green, blue, alpha), row after row. An error is returned if the length
    /// of `data` is not four times the area of `dimensions`.
    pub fn from_raw_data(data: Vec<u8>, dimensions: Dimensions, uid: Uid) -> (r: Result<Self, TryFromSliceError>)
        ensures
            data@.len() != 4 * area_of(dimensions) <==> r == Err::<Frame, TryFromSliceError>(TryFromSliceError::LenError),
            data@.len() == 4 * area_of(dimensions) ==> r is Ok,
            r matches Ok(f) ==> {
                &&& f.dims() == dimensions
                &&& f.id() == uid
                &&& f.valid()
                &&& f.pixel_seq().map_values(|p: Pixel| p@) == pixels_from_bytes(data@)
            },
    {
        let len = data.len();
        if len % 4 != 0 {
            return Err(TryFromSliceError::LenError);
        }
        let count = len / 4;
        let width = dimensions.width();
        let height = dimensions.height();
        if !area_is(width, height, count) {
            return Err(TryFromSliceError::LenError);
        }
        let mut pixels: Vec<Pixel> = Vec::new();
        let mut i: usize = 0;
        while i < count
            invariant
                i <= count,
                count == len / 4,
                len == data@.len(),
                len % 4 == 0,
                pixels@.len() == i,
                forall|j: int| 0 <= j < i ==> (#[trigger] pixels@[j])@ == (data@[4 * j], data@[4 * j + 1], data@[4 * j + 2], data@[4 * j + 3]),
            decreases count - i,
        {
            let p = Pixel::from_rgba(data[4 * i], data[4 * i + 1], data[4 * i + 2], data[4 * i + 3]);
            pixels.push(p);
            i = i + 1;
        }
        let r = Self::from_parts(pixels, dimensions, uid);
        assert(r.pixel_seq().map_values(|p: Pixel| p@) =~= pixels_from_bytes(data@));
        Ok(r)
    }

    /// The dimensions of this frame.
    pub fn dimensions(&self) -> (r: Dimensions)
        ensures
            r == self.dims(),
    {
        self.dimensions
    }

    /// The underlying pixels, row after row.
    pub fn pixels(&self) -> (r: &[Pixel])
        ensures
            r@ == self.pixel_seq(),
            self.valid(),
    {
        proof {
            use_type_invariant(self);
        }
        self.pixels.as_slice()
    }

    /// The raw data of the pixels: four bytes per pixel (red, green, blue,
    /// alpha), row after row.
    pub fn raw_data(&self) -> (r: Vec<u8>)
        ensures
            r@ == pixel_bytes(self.pixel_seq()),
    {
        let n = self.pixels.len();
        let mut data: Vec<u8> = Vec::new();
        let mut i: usize = 0;
        while i < n
            invariant
                i <= n,
                n == self.pixels@.len(),
                data@ == pixel_bytes(self.pixels@.subrange(0, i as int)),
            decreases n - i,
        {
            let p = self.pixels[i];
            proof {
                vstd::arithmetic::mul::lemma_mul_upper_bound(i as int, n as int, 4, 4);
            }
            data.push(p.red());
            data.push(p.green());
            data.push(p.blue());
            data.push(p.alpha());
            proof {
                let s = self.pixels@.subrange(0, i + 1);
                assert forall|k: int| 0 <= k < 4 * (i + 1) implies #[trigger] data@[k] == pixel_bytes(s)[k] by {
                    vstd::arithmetic::div_mod::lemma_fundamental_div_mod(k, 4);
                    if k < 4 * i {
                        assert(pixel_bytes(self.pixels@.subrange(0, i as int))[k] == data@[k]);
                        assert(s[k / 4] == self.pixels@.subrange(0, i as int)[k / 4]);
                    } else {
                        assert(k / 4 == i) by {
                            vstd::arithmetic::div_mod::lemma_div_multiples_vanish_fancy(i as int, k - 4 * i, 4);
                        }
                    }
                }
                assert(data@ =~= pixel_bytes(s));
            }
            i = i + 1;
        }
        assert(self.pixels@.subrange(0, n as int) =~= self.pixels@);
        data
    }

    /// The pixels of row `index` (0 is the top row).
    pub fn pixel_row(&self, index: usize) -> (r: &[Pixel])
        requires
            index < self.dims()@.1,
        ensures
            r@ == self.pixel_seq().subrange(index * self.dims()@.0, (index + 1) * self.dims()@.0),
    {
        proof {
            use_type_invariant(self);
        }
        let width = self.dimensions.width();
        let height = self.dimensions.height();
        let _n = self.pixels.len();
        proof {
            vstd::arithmetic::mul::lemma_mul_inequality((index + 1) as int, height as int, width as int);
            vstd::arithmetic::mul::lemma_mul_is_commutative(height as int, width as int);
            vstd::arithmetic::mul::lemma_mul_is_distributive_add_other_way(width as int, index as int, 1);
            vstd::arithmetic::mul::lemma_mul_is_commutative(width as int, index as int);
            vstd::arithmetic::mul::lemma_mul_is_commutative(width as int, (index + 1) as int);
        }
        let start = index * width;
        let end = start + width;
        vstd::slice::slice_subrange(self.pixels.as_slice(), start, end)
    }

    /// The rows of pixels in the frame, top to bottom.
    pub fn pixel_rows(&self) -> (r: Vec<&[Pixel]>)
        ensures
            r@.len() == self.dims()@.1,
            forall|i: int| 0 <= i < r@.len() ==> (#[trigger] r@[i])@ == self.pixel_seq().subrange(i * self.dims()@.0, (i + 1) * self.dims()@.0),
    {
        let height = self.dimensions.height();
        let mut rows: Vec<&[Pixel]> = Vec::new();
        let mut i: usize = 0;
        while i < height
            invariant
                i <= height,
                height == self.dims()@.1,
                rows@.len() == i,
                forall|j: int| 0 <= j < i ==> (#[trigger] rows@[j])@ == self.pixel_seq().subrange(j * self.dims()@.0, (j + 1) * self.dims()@.0),
            decreases height - i,
        {
            rows.push(self.pixel_row(i));
            i = i + 1;
        }
        rows
    }

    /// Sets all pixels in the frame to `fill_pixel`.
    pub fn fill(&mut self, fill_pixel: Pixel)
        ensures
            keeps_shape(*old(self), *final(self)),
            final(self).pixel_seq() == Seq::new(old(self).pixel_seq().len(), |i: int| fill_pixel),
    {
        proof {
            use_type_invariant(&*self);
        }
        let n = self.pixels.len();
        let pixels = vec![fill_pixel; n];
        *self = Self::from_parts(pixels, self.dimensions, self.uid);
        assert(self.pixels@ =~= Seq::new(n as nat, |i: int| fill_pixel));
    }

    /// Sets all pixels in the frame to the result of calling `f`.
    pub fn fill_with<F: Fn() -> Pixel>(&mut self, f: F)
        requires
            f.requires(()),
        ensures
            keeps_shape(*old(self), *final(self)),
            final(self).pixel_seq().len() == old(self).pixel_seq().len(),
            forall|i: int| 0 <= i < final(self).pixel_seq().len() ==> f.ensures((), #[trigger] final(self).pixel_seq()[i]),
    {
        proof {
            use_type_invariant(&*self);
        }
        let n = self.pixels.len();
        let mut pixels: Vec<Pixel> = Vec::new();
        let mut i: usize = 0;
        while i < n
            invariant
                i <= n,
                pixels@.len() == i,
                f.requires(()),
                forall|j: int| 0 <= j < i ==> f.ensures((), #[trigger] pixels@[j]),
            decreases n - i,
        {
            pixels.push(f());
            i = i + 1;
        }
        *self = Self::from_parts(pixels, self.dimensions, self.uid);
    }

    /// Sets every pixel in the frame to the result of calling `f` with the
    /// pixel's row and column.
    pub fn fill_with_coords<F: Fn(usize, usize) -> Pixel>(&mut self, f: F)
        requires
            forall|row: usize, col: usize| row < old(self).dims()@.1 && col < old(self).dims()@.0 ==> f.requires((row, col)),
        ensures
            keeps_shape(*old(self), *final(self)),
            final(self).pixel_seq().len() == old(self).pixel_seq().len(),
            forall|i: int| 0 <= i < final(self).pixel_seq().len() ==> f.ensures(coords_of(i, old(self).dims()@.0), #[trigger] final(self).pixel_seq()[i]),
    {
        proof {
            use_type_invariant(&*self);
        }
        let dimensions = self.dimensions;
        let uid = self.uid;
        let n = self.pixels.len();
        proof {
            assert(area_of(dimensions) <= usize::MAX);
        }
        let frame = Self::from_fill_with_coords(dimensions, f, uid);
        *self = frame;
    }

    /// Copies all of the pixels from `src_frame` into `self`, returning an
    /// error if `src_frame` has different dimensions.
    pub fn fill_from_frame(&mut self, src_frame: &Frame) -> (r: Result<(), DifferentDimensionsError>)
        ensures
            old(self).dims() != src_frame.dims() <==> r == Err::<(), DifferentDimensionsError>(DifferentDimensionsError { expected: old(self).dims(), actual: src_frame.dims() }),
            old(self).dims() != src_frame.dims() ==> *final(self) == *old(self),
            keeps_shape(*old(self), *final(self)),
            old(self).dims() == src_frame.dims() ==> {
                &&& r is Ok
                &&& final(self).dims() == old(self).dims()
                &&& final(self).id() == old(self).id()
                &&& final(self).pixel_seq() == src_frame.pixel_seq()
            },
    {
        proof {
            use_type_invariant(&*self);
        }
        if self.dimensions != src_frame.dimensions {
            return Err(DifferentDimensionsError { expected: self.dimensions, actual: src_frame.dimensions });
        }
        proof {
            use_type_invariant(src_frame);
        }
        let pixels = vstd::slice::slice_to_vec(src_frame.pixels.as_slice());
        *self = Self::from_parts(pixels, self.dimensions, self.uid);
        Ok(())
    }

    /// A copy of this frame, with the same dimensions and pixels, identified
    /// by `uid` (which must not identify any other live frame).
    pub fn clone_with_uid(&self, uid: Uid) -> (r: Self)
        ensures
            r.dims() == self.dims(),
            r.pixel_seq() == self.pixel_seq(),
            r.id() == uid,
            r.valid(),
    {
        proof {
            use_type_invariant(self);
        }
        let pixels = vstd::slice::slice_to_vec(self.pixels.as_slice());
        Self::from_parts(pixels, self.dimensions, uid)
    }

    /// The identifier of this frame. Equality is based on this value.
    pub fn uid(&self) -> (r: Uid)
        ensures
            r == self.id(),
    {
        self.uid
    }

    /// Turn this frame into the [BasicFrame] that holds its pixels.
    pub fn to_internal(self) -> (r: BasicFrame)
        ensures
            r.pixels@ == self.pixel_seq(),
            r.dimensions == self.dims(),
            r.pixels@.len() == area_of(r.dimensions),
    {
        proof {
            use_type_invariant(&self);
        }
        BasicFrame { pixels: self.pixels, dimensions: self.dimensions }
    }

    /// Turn this frame into its [BasicFrame], call `f` on it, and build a new
    /// frame with the same [Uid] from whatever `f` returns. Any buffer `f`
    /// returns must have as many pixels as the area of its dimensions.
    pub fn swap_internal<F: FnOnce(BasicFrame) -> BasicFrame>(self, f: F) -> (r: Self)
        requires
            forall|b: BasicFrame| #[trigger] f.requires((b,)),
            forall|b: BasicFrame, out: BasicFrame| #[trigger] f.ensures((b,), out) ==> out.pixels@.len() == area_of(out.dimensions),
        ensures
            r.id() == self.id(),
            exists|b: BasicFrame, out: BasicFrame| {
                &&& b.pixels@ == self.pixel_seq()
                &&& b.dimensions == self.dims()
                &&& #[trigger] f.ensures((b,), out)
                &&& r.pixel_seq() == out.pixels@
                &&& r.dims() == out.dimensions
            },
    {
        let uid = self.uid;
        let ghost old_self = self;
        let internal = self.to_internal();
        let ghost b = internal;
        let out = f(internal);
        assert(f.ensures((b,), out));
        Self::from_parts(out.pixels, out.dimensions, uid)
    }
}

/// Equality is based on the frames' [Uid]s.
impl PartialEq for Frame {
    fn eq(&self, other: &Self) -> (r: bool) {
        self.uid == other.uid
    }
}

impl PartialEqSpecImpl for Frame {
    open spec fn obeys_eq_spec() -> bool {
        true
    }

    open spec fn eq_spec(&self, other: &Self) -> bool {
        self.id() == other.id()
    }
}

impl Eq for Frame {
}

/// Whether `width * height == len`, computed without overflow.
fn area_is(width: usize, height: usize, len: usize) -> (r: bool)
    requires
        width > 0,
    ensures
        r == (width * height == len),
{
    if len % width != 0 {
        proof {
            if width * height == len {
                vstd::arithmetic::div_mod::lemma_mod_multiples_basic(height as int, width as int);
                vstd::arithmetic::mul::lemma_mul_is_commutative(width as int, height as int);
            }
        }
        false
    } else {
        proof {
            vstd::arithmetic::div_mod::lemma_fundamental_div_mod(len as int, width as int);
            if width * height == len {
                vstd::arithmetic::mul::lemma_mul_is_commutative(width as int, height as int);
                vstd::arithmetic::div_mod::lemma_div_by_multiple(height as int, width as int);
            }
        }
        len / width == height
    }
}

/// `v` clamped to `0..=max`.
pub open spec fn clamp_index(v: int, max: int) -> int {
    if v < 0 {
        0
    } else if v > max {
        max
    } else {
        v
    }
}

/// The pixel at `row`, `col` of `frame`, with both coordinates clamped to
/// lie inside the frame.
pub fn get_pixel_clamped(frame: &Frame, row: isize, col: isize) -> (r: Pixel)
    requires
        frame.dims()@.1 <= isize::MAX,
        frame.dims()@.0 <= isize::MAX,
    ensures
        r == frame.pixel_seq()[clamp_index(row as int, frame.dims()@.1 - 1) * frame.dims()@.0 + clamp_index(col as int, frame.dims()@.0 - 1)],
{
    let pixels = frame.pixels();
    let d = frame.dimensions();
    let width = d.width();
    let height = d.height();
    let _n = pixels.len();
    let max_row = (height - 1) as isize;
    let max_col = (width - 1) as isize;
    let r = if row < 0 {
        0
    } else if row > max_row {
        max_row
    } else {
        row
    } as usize;
    let c = if col < 0 {
        0
    } else if col > max_col {
        max_col
    } else {
        col
    } as usize;
    proof {
        vstd::arithmetic::mul::lemma_mul_inequality(r as int, (height - 1) as int, width as int);
        vstd::arithmetic::mul::lemma_mul_is_distributive_sub_other_way(width as int, height as int, 1);
        vstd::arithmetic::mul::lemma_mul_is_commutative(width as int, height as int);
    }
    pixels[r * width + c]
}

/// Over any run of in-place edits (each step keeps the shape, as every fill
/// of [Frame] does), a frame starting valid keeps its dimensions and
/// identifier and always has as many pixels as its area.
pub proof fn lemma_edits_keep_shape(frames: Seq<Frame>)
    requires
        frames.len() > 0,
        frames[0].valid(),
        forall|i: int| 0 <= i < frames.len() - 1 ==> keeps_shape(#[trigger] frames[i], frames[i + 1]),
    ensures
        forall|i: int|
            0 <= i < frames.len() ==> {
                &&& (#[trigger] frames[i]).valid()
                &&& frames[i].dims() == frames[0].dims()
                &&& frames[i].id() == frames[0].id()
            },
    decreases frames.len(),
{
    if frames.len() > 1 {
        let prev = frames.drop_last();
        assert forall|i: int| 0 <= i < prev.len() - 1 implies keeps_shape(#[trigger] prev[i], prev[i + 1]) by {
            assert(prev[i] == frames[i] && prev[i + 1] == frames[i + 1]);
            assert(keeps_shape(frames[i], frames[i + 1]));
        }
        lemma_edits_keep_shape(prev);
        assert forall|i: int| 0 <= i < frames.len() implies {
            &&& (#[trigger] frames[i]).valid()
            &&& frames[i].dims() == frames[0].dims()
            &&& frames[i].id() == frames[0].id()
        } by {
            if i < prev.len() {
                assert(prev[i] == frames[i]);
                assert(prev[0] == frames[0]);
            } else {
                let j = frames.len() - 2;
                assert(prev[j] == frames[j]);
                assert(prev[0] == frames[0]);
                assert(keeps_shape(frames[j], frames[j + 1]));
            }
        }
    }
}

} // verus!
