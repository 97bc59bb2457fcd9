//! One decoded page: geometry plus packed one-bit-per-pixel rows.
//!
//! Pixels are packed eight to a byte, most significant bit first. Each row
//! starts on a byte boundary and is `stride` bytes long, which may be more
//! than the pixels need.

use vstd::prelude::*;
use vstd::std_specs::cmp::PartialEqSpecImpl;
use vstd::string::StringExecFns;

use crate::encode::{encode_gray1, gray1_png, packed_row_bytes};
use crate::text::{append_decimal, decimal};

verus! {

/// Size of a page as the engine reports it.
#[derive(Debug, Copy, Clone, PartialEq, Eq, Hash, Structural)]
pub struct PageGeometry {
    /// Pixels per row.
    pub width: u32,
    /// Number of rows.
    pub height: u32,
    /// Bytes from the start of one row to the start of the next.
    pub stride: u32,
}

/// What an [`Image`] is: its geometry and its bytes.
#[verifier::ext_equal]
pub struct Raster {
    pub width: u32,
    pub height: u32,
    pub stride: u32,
    pub data: Seq<u8>,
}

impl PageGeometry {
    /// Number of bytes in a buffer of `height` rows.
    pub open spec fn buffer_bytes(self) -> int {
        self.height * self.stride
    }

    /// Whether a raster of this geometry can exist: each row has room for
    /// all of its pixels, and the buffer's length is one that a vector can
    /// have.
    pub open spec fn fits(self) -> bool {
        &&& self.stride * 8 >= self.width
        &&& self.buffer_bytes() <= usize::MAX
    }

    /// The length of the buffer that holds a page of this geometry, or
    /// `None` where no raster of this geometry can exist.
    pub fn buffer_len(&self) -> (len: Option<usize>)
        ensures
            len is Some <==> self.fits(),
            len is Some ==> len->Some_0 == self.buffer_bytes(),
    {
        let row_bits: u64 = self.stride as u64 * 8;
        if row_bits < self.width as u64 {
            return None;
        }
        assert(self.height * self.stride <= u64::MAX) by (nonlinear_arith);
        let total: u64 = self.height as u64 * self.stride as u64;
        if total > usize::MAX as u64 {
            None
        } else {
            Some(total as usize)
        }
    }
}

impl Raster {
    /// The geometry alone.
    pub open spec fn geometry(self) -> PageGeometry {
        PageGeometry { width: self.width, height: self.height, stride: self.stride }
    }

    /// The raster of the given geometry over the given bytes.
    pub open spec fn of(geometry: PageGeometry, data: Seq<u8>) -> Raster {
        Raster {
            width: geometry.width,
            height: geometry.height,
            stride: geometry.stride,
            data,
        }
    }

    /// The invariant of every image: each row has room for all of its
    /// pixels, and the buffer holds exactly `height` rows.
    pub open spec fn valid(self) -> bool {
        &&& self.stride * 8 >= self.width
        &&& self.data.len() == self.height * self.stride
    }

    /// Index of the byte that holds pixel `x` of row `y`.
    pub open spec fn byte_index(self, x: int, y: int) -> int {
        y * self.stride + x / 8
    }

    /// The bit of pixel `x` of row `y`: pixels are stored most significant
    /// bit first.
    pub open spec fn bit(self, x: int, y: int) -> bool {
        (self.data[self.byte_index(x, y)] >> ((7 - x % 8) as u8)) & 1u8 == 1u8
    }
}

/// Every pixel of a valid raster lies inside the buffer, and inside its own
/// row: the padding at the end of a row never cuts pixels off.
pub proof fn lemma_pixels_in_bounds(r: Raster, x: int, y: int)
    requires
        r.valid(),
        0 <= x < r.width,
        0 <= y < r.height,
    ensures
        r.stride * 8 >= r.width,
        x / 8 < r.stride,
        y * r.stride <= r.byte_index(x, y) < (y + 1) * r.stride,
        0 <= r.byte_index(x, y) < r.data.len(),
{
    let s = r.stride as int;
    let h = r.height as int;
    assert(y * s >= 0) by (nonlinear_arith)
        requires
            y >= 0,
            s >= 0,
    ;
    assert((y + 1) * s == y * s + s) by (nonlinear_arith);
    assert((y + 1) * s <= h * s) by (nonlinear_arith)
        requires
            y + 1 <= h,
            s >= 0,
    ;
}

/// Each byte of `data` with all eight bits flipped.
pub open spec fn inverted(data: Seq<u8>) -> Seq<u8> {
    Seq::new(data.len(), |i: int| (255 - data[i]) as u8)
}

/// Flips every bit of every byte: the engine's raster has a set bit where a
/// display format has a cleared one.
pub fn invert(data: &[u8]) -> (flipped: Vec<u8>)
    ensures
        flipped@ == inverted(data@),
{
    let mut flipped: Vec<u8> = Vec::with_capacity(data.len());
    let mut i: usize = 0;
    while i < data.len()
        invariant
            i <= data@.len(),
            flipped@.len() == i,
            forall|j: int| 0 <= j < i ==> flipped@[j] == (255 - data@[j]) as u8,
        decreases data@.len() - i,
    {
        flipped.push(255 - data[i]);
        i += 1;
    }
    flipped
}

/// An owned page raster. Its geometry is fixed when it is made; its bytes may
/// be changed in place.
#[derive(Debug)]
pub struct Image {
    width: u32,
    height: u32,
    stride: u32,
    data: Vec<u8>,
}

impl View for Image {
    type V = Raster;

    closed spec fn view(&self) -> Raster {
        Raster { width: self.width, height: self.height, stride: self.stride, data: self.data@ }
    }
}

impl Image {
    /// Holds of every image there is: the buffer and the geometry fit.
    #[verifier::type_invariant]
    spec fn well_formed(self) -> bool {
        self@.valid()
    }

    /// Makes an image of the given geometry that owns `data`, where the two
    /// fit together.
    pub fn from_raw(geometry: PageGeometry, data: Vec<u8>) -> (image: Option<Image>)
        ensures
            image is Some <==> Raster::of(geometry, data@).valid(),
            image matches Some(i) ==> i@ == Raster::of(geometry, data@),
    {
        let data_len = data.len();
        match geometry.buffer_len() {
            Some(len) => {
                if data_len == len {
                    Some(
                        Image {
                            width: geometry.width,
                            height: geometry.height,
                            stride: geometry.stride,
                            data,
                        },
                    )
                } else {
                    None
                }
            },
            None => None,
        }
    }

    /// Pixels per row.
    pub fn width(&self) -> (width: u32)
        ensures
            width == self@.width,
    {
        self.width
    }

    /// Number of rows.
    pub fn height(&self) -> (height: u32)
        ensures
            height == self@.height,
    {
        self.height
    }

    /// Bytes per row, padding included.
    pub fn stride(&self) -> (stride: u32)
        ensures
            stride == self@.stride,
            stride * 8 >= self@.width,
    {
        proof {
            use_type_invariant(self);
        }
        self.stride
    }

    /// Width, height and stride together.
    pub fn geometry(&self) -> (geometry: PageGeometry)
        ensures
            geometry == self@.geometry(),
            geometry.fits(),
    {
        proof {
            use_type_invariant(self);
            assert(self.data.len() == self.data@.len());
        }
        PageGeometry { width: self.width, height: self.height, stride: self.stride }
    }

    /// The packed rows.
    pub fn data(&self) -> (bytes: &[u8])
        ensures
            bytes@ == self@.data,
            bytes@.len() == self@.height * self@.stride,
    {
        proof {
            use_type_invariant(self);
        }
        self.data.as_slice()
    }

    /// The packed rows, for changing pixels in place. Geometry and length
    /// stay as they are.
    pub fn data_mut(&mut self) -> (bytes: &mut [u8])
        ensures
            bytes@ == old(self)@.data,
            final(bytes)@.len() == bytes@.len(),
            final(self)@ == Raster::of(old(self)@.geometry(), final(bytes)@),
    {
        proof {
            use_type_invariant(&*self);
        }
        bytes_of(&mut self.data)
    }

    /// The bit of pixel `x` of row `y`.
    pub fn pixel(&self, x: u32, y: u32) -> (bit: Option<bool>)
        ensures
            bit is Some <==> x < self@.width && y < self@.height,
            bit is Some ==> bit->Some_0 == self@.bit(x as int, y as int),
    {
        proof {
            use_type_invariant(self);
        }
        if x >= self.width || y >= self.height {
            return None;
        }
        proof {
            lemma_pixels_in_bounds(self@, x as int, y as int);
            assert(self.data.len() == self.data@.len());
            assert(y * self.stride >= 0) by (nonlinear_arith);
        }
        let index: usize = y as usize * self.stride as usize + (x / 8) as usize;
        let shift: u8 = (7 - x % 8) as u8;
        Some((self.data[index] >> shift) & 1u8 == 1u8)
    }

    /// The image as a PNG file, one bit per pixel, with every bit flipped.
    ///
    /// Succeeds exactly for a non-empty image without row padding.
    pub fn to_png(&self) -> (file: Result<Vec<u8>, png::EncodingError>)
        ensures
            file is Ok <==> self@.width > 0 && self@.height > 0 && self@.stride
                == packed_row_bytes(self@.width as int),
            file matches Ok(bytes) ==> bytes@ == gray1_png(
                self@.width,
                self@.height,
                inverted(self@.data),
            ),
    {
        proof {
            use_type_invariant(self);
        }
        let rows = invert(self.data.as_slice());
        proof {
            assert(self.data.len() == self.data@.len());
            let w = packed_row_bytes(self.width as int);
            let s = self.stride as int;
            let h = self.height as int;
            assert(w * h <= s * h) by (nonlinear_arith)
                requires
                    0 <= w <= s,
                    0 <= h,
            ;
            assert(h * s == s * h) by (nonlinear_arith);
            assert(h > 0 ==> (w * h == s * h <==> w == s)) by (nonlinear_arith)
                requires
                    0 <= w <= s,
            ;
        }
        encode_gray1(self.width, self.height, rows.as_slice())
    }

    /// A one-line description: the three numbers of the geometry.
    pub fn summary(&self) -> (text: String)
        ensures
            text@ == "Image { width: "@ + decimal(self@.width as nat) + ", height: "@ + decimal(
                self@.height as nat,
            ) + ", stride: "@ + decimal(self@.stride as nat) + " }"@,
    {
        let text = String::from_str("Image { width: ");
        let text = append_decimal(text, self.width);
        let text = text.concat(", height: ");
        let text = append_decimal(text, self.height);
        let text = text.concat(", stride: ");
        let text = append_decimal(text, self.stride);
        text.concat(" }")
    }
}

impl Clone for Image {
    /// An independent copy: same geometry, same bytes, its own buffer.
    fn clone(&self) -> (copy: Self)
        ensures
            copy@ == self@,
    {
        proof {
            use_type_invariant(self);
        }
        let data = self.data.clone();
        Image { width: self.width, height: self.height, stride: self.stride, data }
    }
}

impl PartialEq for Image {
    fn eq(&self, other: &Self) -> (equal: bool) {
        if self.width != other.width || self.height != other.height || self.stride
            != other.stride || self.data.len() != other.data.len() {
            return false;
        }
        let mut i: usize = 0;
        while i < self.data.len()
            invariant
                i <= self.data@.len(),
                self.data@.len() == other.data@.len(),
                forall|j: int| 0 <= j < i ==> self.data@[j] == other.data@[j],
            decreases self.data@.len() - i,
        {
            if self.data[i] != other.data[i] {
                return false;
            }
            i += 1;
        }
        assert(self.data@ =~= other.data@);
        true
    }
}

impl PartialEqSpecImpl for Image {
    open spec fn obeys_eq_spec() -> bool {
        true
    }

    open spec fn eq_spec(&self, other: &Self) -> bool {
        self@ == other@
    }
}

/// `Vec::as_mut_slice`: the slice shows the vector's elements, what is written
/// through it lands in the vector, and it can neither grow nor shrink. The
/// call does not unwind. The last two facts are what [`Image::data_mut`]
/// needs to keep the image's length tied to its geometry.
#[verifier::external_body]
fn bytes_of(v: &mut Vec<u8>) -> (s: &mut [u8])
    ensures
        s@ == old(v)@,
        final(v)@ == final(s)@,
        final(s)@.len() == s@.len(),
    no_unwind
{
    v.as_mut_slice()
}

} // verus!
