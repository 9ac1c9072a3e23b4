//! The owned glyph bitmap a font rasterizer capability produces.

use vstd::prelude::*;

verus! {

/// A rendered one-channel glyph bitmap, stored left-to-right,
/// top-to-bottom, exclusively owned. 0 is no coverage (transparent), 255 is
/// fully covered (opaque). Like the decoded image buffer, its memory is
/// released exactly once, when the one owning value is dropped.
pub struct Bitmap {
    data: Vec<u8>,
    width: i32,
    height: i32,
    xoff: i32,
    yoff: i32,
}

impl View for Bitmap {
    type V = Seq<u8>;

    closed spec fn view(&self) -> Seq<u8> {
        self.data@
    }
}

impl Bitmap {
    #[verifier::type_invariant]
    spec fn dimensions_match(self) -> bool {
        &&& 0 <= self.width
        &&& 0 <= self.height
        &&& self.data@.len() == self.width * self.height
    }

    /// The width of this bitmap, exposed by `size`.
    pub closed spec fn spec_width(&self) -> int {
        self.width as int
    }

    /// The height of this bitmap, exposed by `size`.
    pub closed spec fn spec_height(&self) -> int {
        self.height as int
    }

    /// The offset of this bitmap, exposed by `offset`.
    pub closed spec fn spec_offset(&self) -> (int, int) {
        (self.xoff as int, self.yoff as int)
    }

    /// Wraps pixels a rasterizer produced, or rejects them: `Some` exactly
    /// when the dimensions are non-negative and the pixel count matches
    /// width times height. `(xoff, yoff)` is the offset in pixel space from
    /// the glyph origin to the top-left of the bitmap.
    pub fn new(data: Vec<u8>, width: i32, height: i32, xoff: i32, yoff: i32) -> (r: Option<Bitmap>)
        ensures
            r is Some <==> (0 <= width && 0 <= height && data@.len() == width * height),
            r matches Some(b) ==> (b@ == data@ && b.spec_width() == width && b.spec_height()
                == height && b.spec_offset() == (xoff as int, yoff as int)),
    {
        if width < 0 || height < 0 {
            return None;
        }
        let wu = width as u64;
        let hu = height as u64;
        assert(wu * hu <= 0x7fff_ffffu64 * 0x7fff_ffff) by (nonlinear_arith)
            requires
                wu <= 0x7fff_ffff,
                hu <= 0x7fff_ffff,
        ;
        let count = wu * hu;
        let len = data.len();
        if (len as u64) == count {
            Some(Bitmap { data, width, height, xoff, yoff })
        } else {
            None
        }
    }

    /// Returns the width and height of the bitmap.
    pub fn size(&self) -> (r: (i32, i32))
        ensures
            r.0 as int == self.spec_width(),
            r.1 as int == self.spec_height(),
            self@.len() == self.spec_width() * self.spec_height(),
    {
        proof {
            use_type_invariant(self);
        }
        (self.width, self.height)
    }

    /// Returns the offset (xoff, yoff) in pixel space from the glyph origin
    /// to the top-left of the bitmap.
    pub fn offset(&self) -> (r: (i32, i32))
        ensures
            (r.0 as int, r.1 as int) == self.spec_offset(),
    {
        (self.xoff, self.yoff)
    }

    /// Borrows the pixels, read-only, row by row from the top.
    pub fn as_slice(&self) -> (r: &[u8])
        ensures
            r@ == self@,
    {
        self.data.as_slice()
    }
}

} // verus!
