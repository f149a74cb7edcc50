//! Frame geometry and the conversion of a tightly packed source frame into the
//! three-channel, even-width layout that the encoder consumes.

use ndarray::Array3;
use vstd::prelude::*;

verus! {

/// Dimensions and pixel size (bytes per pixel) of a render target.
#[derive(Clone, Copy, Debug, PartialEq, Eq, Structural)]
pub struct FrameShape {
    pub width: u32,
    pub height: u32,
    pub pixel_size: u32,
}

/// Why a pixel buffer cannot be turned into an encoder frame.
#[derive(Clone, Copy, Debug, PartialEq, Eq, Structural)]
pub enum FrameError {
    /// The buffer's length is not width x height x pixel size.
    ShapeMismatch,
    /// A pixel holds fewer than the three channels that are read from it.
    MissingChannels,
    /// The converted frame would hold more elements than an array can.
    TooLarge,
}

/// The smallest even number that is not below `width`.
pub open spec fn even_width_spec(width: int) -> int {
    if width % 2 == 0 {
        width
    } else {
        width + 1
    }
}

/// Rounds a width up to the next even number.
pub fn even_width(width: u32) -> (padded: u64)
    ensures
        padded == even_width_spec(width as int),
        padded % 2 == 0,
        width <= padded <= width + 1,
{
    let wide: u64 = width as u64;
    if wide % 2 == 0 {
        wide
    } else {
        wide + 1
    }
}

/// A converted frame in the encoder's layout: a three-dimensional byte array
/// of an outside crate, indexed by (row, column, channel). Its contents are
/// known to the verifier only through `frame_cells` and `frame_dims`.
#[verifier::external_body]
pub struct RgbFrame {
    array: Array3<u8>,
}

/// The bytes of a converted frame in logical (row-major) order: the element
/// at `(h, w, c)` stands at `(h * columns + w) * 3 + c`.
pub uninterp spec fn frame_cells(f: RgbFrame) -> Seq<u8>;

/// The axis lengths (rows, columns, channels) of a converted frame.
pub uninterp spec fn frame_dims(f: RgbFrame) -> (nat, nat, nat);

impl FrameShape {
    /// Number of bytes of a tightly packed frame of this shape.
    pub open spec fn byte_len(self) -> int {
        self.width * self.height * self.pixel_size
    }

    /// Width of the encoded frame.
    pub open spec fn padded_width(self) -> int {
        even_width_spec(self.width as int)
    }

    /// Number of bytes of the converted frame.
    pub open spec fn rgb_len(self) -> int {
        self.height * self.padded_width() * 3
    }

    /// Whether every pixel inside the source holds the three channels that
    /// the conversion reads.
    pub open spec fn has_three_channels(self) -> bool {
        self.pixel_size >= 3 || self.width == 0 || self.height == 0
    }

    /// Whether an array of the converted frame's axis lengths can be made:
    /// the product of its non-zero axis lengths stays within `isize`.
    pub open spec fn fits_array(self) -> bool {
        (if self.height == 0 { 1int } else { self.height as int })
            * (if self.width == 0 { 1int } else { self.padded_width() }) * 3 <= isize::MAX
    }

    /// The verdict on a buffer of `len` bytes offered as a frame of this
    /// shape; the first failing test decides.
    pub open spec fn verdict(self, len: int) -> Result<(), FrameError> {
        if len != self.byte_len() {
            Err(FrameError::ShapeMismatch)
        } else if !self.has_three_channels() {
            Err(FrameError::MissingChannels)
        } else if !self.fits_array() {
            Err(FrameError::TooLarge)
        } else {
            Ok(())
        }
    }

    /// Channel `c` of the converted frame at row `h`, column `w`: zero in a
    /// padding column, otherwise the source byte of that pixel and channel.
    pub open spec fn sample_spec(self, pixels: Seq<u8>, h: int, w: int, c: int) -> u8 {
        if w >= self.width {
            0u8
        } else {
            pixels[w * self.pixel_size + self.pixel_size * h * self.width + c]
        }
    }

    /// Where the converted frame holds channel `c` of row `h`, column `w`.
    pub open spec fn cell_index(self, h: int, w: int, c: int) -> int {
        (h * self.padded_width() + w) * 3 + c
    }

    /// The converted frame, row-major over (row, padded column, channel).
    pub open spec fn rgb_spec(self, pixels: Seq<u8>) -> Seq<u8> {
        Seq::new(
            self.rgb_len() as nat,
            |i: int| self.sample_spec(pixels, (i / 3) / self.padded_width(), (i / 3) % self.padded_width(), i % 3),
        )
    }

    /// Whether a buffer of `len` bytes is exactly one frame of this shape.
    pub fn accepts_len(&self, len: usize) -> (ok: bool)
        ensures
            ok == (len as int == self.byte_len()),
    {
        let w: u128 = self.width as u128;
        let h: u128 = self.height as u128;
        let p: u128 = self.pixel_size as u128;
        assert(w * h <= 0xFFFF_FFFFu128 * 0xFFFF_FFFFu128) by (nonlinear_arith)
            requires
                w <= 0xFFFF_FFFFu128,
                h <= 0xFFFF_FFFFu128,
        ;
        let area: u128 = w * h;
        assert(area * p <= 0xFFFF_FFFE_0000_0001u128 * 0xFFFF_FFFFu128) by (nonlinear_arith)
            requires
                area <= 0xFFFF_FFFE_0000_0001u128,
                p <= 0xFFFF_FFFFu128,
        ;
        let expected: u128 = area * p;
        len as u128 == expected
    }

    /// The byte that the converted frame holds at `(h, w, c)`.
    pub fn sample(&self, pixels: &Vec<u8>, h: usize, w: usize, c: usize) -> (v: u8)
        requires
            pixels@.len() == self.byte_len(),
            h < self.height,
            c < 3,
            self.pixel_size >= 3 || w >= self.width,
        ensures
            v == self.sample_spec(pixels@, h as int, w as int, c as int),
    {
        let width: usize = self.width as usize;
        if w >= width {
            0
        } else {
            let p: usize = self.pixel_size as usize;
            let n: usize = pixels.len();
            proof {
                let hh: int = self.height as int;
                let total: int = self.byte_len();
                assert(total == width * hh * p);
                assert(n == total);
                assert(w * p + p * h * width + c < width * hh * p && p * h <= p * h * width) by (nonlinear_arith)
                    requires
                        0 <= w < width,
                        0 <= h < hh,
                        0 <= c < 3,
                        p >= 3,
                ;
                assert(0 <= w * p && 0 <= p * h && 0 <= p * h * width) by (nonlinear_arith)
                    requires
                        0 <= w,
                        0 <= h,
                        0 <= p,
                        0 <= width,
                ;
            }
            pixels[w * p + p * h * width + c]
        }
    }
}

impl FrameShape {
    /// Tests a buffer length against this shape.
    pub fn check(&self, len: usize) -> (r: Result<(), FrameError>)
        ensures
            r == self.verdict(len as int),
    {
        if !self.accepts_len(len) {
            return Err(FrameError::ShapeMismatch);
        }
        if self.pixel_size < 3 && self.width != 0 && self.height != 0 {
            return Err(FrameError::MissingChannels);
        }
        let rows: u128 = if self.height == 0 { 1 } else { self.height as u128 };
        let columns: u128 = if self.width == 0 { 1 } else { even_width(self.width) as u128 };
        assert(rows * columns <= 0xFFFF_FFFFu128 * 0x1_0000_0000u128) by (nonlinear_arith)
            requires
                rows <= 0xFFFF_FFFFu128,
                columns <= 0x1_0000_0000u128,
        ;
        let cells: u128 = rows * columns * 3;
        if cells > isize::MAX as u128 {
            return Err(FrameError::TooLarge);
        }
        Ok(())
    }

    /// Converts a tightly packed source frame into the encoder's layout:
    /// three channels per pixel, rows of even width, padding columns zero.
    /// Fails exactly when `verdict` names an error, and with that error.
    pub fn convert(&self, pixels: &Vec<u8>) -> (r: Result<RgbFrame, FrameError>)
        ensures
            match r {
                Ok(f) => self.verdict(pixels@.len() as int) == Ok::<(), FrameError>(())
                    && frame_cells(f) == self.rgb_spec(pixels@)
                    && frame_dims(f) == (self.height as nat, self.padded_width() as nat, 3nat),
                Err(e) => self.verdict(pixels@.len() as int) == Err::<(), FrameError>(e),
            },
    {
        match self.check(pixels.len()) {
            Err(e) => Err(e),
            Ok(_) => {
                let wide: u64 = even_width(self.width);
                proof {
                    let hh: int = if self.height == 0 { 1int } else { self.height as int };
                    let ww: int = if self.width == 0 { 1int } else { wide as int };
                    assert(wide <= hh * ww * 3) by (nonlinear_arith)
                        requires
                            hh >= 1,
                            ww >= wide >= 0,
                    ;
                }
                let rows: usize = self.height as usize;
                let columns: usize = wide as usize;
                Ok(array_from_samples(self, pixels, rows, columns))
            },
        }
    }
}

/// Builds the encoder's input array with `ndarray::Array3::from_shape_fn`,
/// which calls the closure once for each index of the shape and stores what it
/// returns at that index. The contract claims the axis lengths that were
/// asked for, and that the cell at every index holds the library's own sample
/// for that index. The requirement keeps the element count within `isize`,
/// above which the outside function panics.
#[verifier::external_body]
fn array_from_samples(shape: &FrameShape, pixels: &Vec<u8>, rows: usize, columns: usize) -> (f: RgbFrame)
    requires
        pixels@.len() == shape.byte_len(),
        shape.has_three_channels(),
        rows == shape.height,
        columns == shape.padded_width(),
        shape.fits_array(),
    ensures
        frame_dims(f) == (rows as nat, columns as nat, 3nat),
        frame_cells(f) == shape.rgb_spec(pixels@),
{
    RgbFrame { array: Array3::from_shape_fn((rows, columns, 3), |(h, w, c)| shape.sample(pixels, h, w, c)) }
}

/// Hands out the cells of a converted frame through `ndarray`'s
/// `ArrayBase::iter`, which walks an array in logical order, the last index
/// varying fastest. The contract claims that the bytes come in exactly that
/// order.
#[verifier::external_body]
fn read_cells(frame: &RgbFrame) -> (v: Vec<u8>)
    ensures
        v@ == frame_cells(*frame),
{
    frame.array.iter().copied().collect()
}

/// Hands out the axis lengths of a converted frame through `ndarray`'s
/// `ArrayBase::dim`, which returns them as a tuple.
#[verifier::external_body]
fn read_dims(frame: &RgbFrame) -> (d: (usize, usize, usize))
    ensures
        (d.0 as nat, d.1 as nat, d.2 as nat) == frame_dims(*frame),
{
    frame.array.dim()
}

impl RgbFrame {
    /// The bytes of the frame, row by row, column by column, channel by
    /// channel.
    pub fn cells(&self) -> (v: Vec<u8>)
        ensures
            v@ == frame_cells(*self),
    {
        read_cells(self)
    }

    /// The axis lengths of the frame: rows, columns, channels.
    pub fn dims(&self) -> (d: (usize, usize, usize))
        ensures
            (d.0 as nat, d.1 as nat, d.2 as nat) == frame_dims(*self),
    {
        read_dims(self)
    }
}

/// Every cell of the converted frame lies inside it and holds the sample of
/// its row, column and channel.
pub proof fn converted_cell_is_sample(shape: FrameShape, pixels: Seq<u8>, h: int, w: int, c: int)
    requires
        0 <= h < shape.height,
        0 <= w < shape.padded_width(),
        0 <= c < 3,
    ensures
        0 <= shape.cell_index(h, w, c) < shape.rgb_len(),
        shape.rgb_spec(pixels)[shape.cell_index(h, w, c)] == shape.sample_spec(pixels, h, w, c),
{
    let columns = shape.padded_width();
    let rows = shape.height as int;
    let q = h * columns + w;
    let i = q * 3 + c;
    vstd::arithmetic::div_mod::lemma_fundamental_div_mod_converse(i, 3, q, c);
    vstd::arithmetic::div_mod::lemma_fundamental_div_mod_converse(q, columns, h, w);
    assert(0 <= q && q * 3 + c < rows * columns * 3) by (nonlinear_arith)
        requires
            0 <= h < rows,
            0 <= w < columns,
            0 <= c < 3,
            q == h * columns + w,
    ;
}

/// The encoded width is even, is the source width or one more, and every
/// cell of a column beyond the source width is zero.
pub proof fn padding_columns_are_zero(shape: FrameShape, pixels: Seq<u8>, h: int, w: int, c: int)
    requires
        0 <= h < shape.height,
        shape.width <= w < shape.padded_width(),
        0 <= c < 3,
    ensures
        shape.padded_width() % 2 == 0,
        shape.width <= shape.padded_width() <= shape.width + 1,
        shape.rgb_spec(pixels)[shape.cell_index(h, w, c)] == 0,
{
    converted_cell_is_sample(shape, pixels, h, w, c);
}

} // verus!
