//! The image plane: its dimensions, and the row-major order in which pixels
//! are laid out in the output buffer.
use vstd::prelude::*;

verus! {

/// Why a pair of dimensions cannot be rendered.
#[derive(Debug, Clone, Copy, PartialEq, Eq, Structural)]
pub enum RasterError {
    /// The camera model needs an image wider than it is tall.
    NotWider,
}

/// Dimensions of an image that can be rendered: strictly wider than tall.
#[derive(Debug, Clone, Copy, PartialEq, Eq, Structural)]
pub struct Raster {
    pub width: u32,
    pub height: u32,
}

impl Raster {
    pub open spec fn wf(&self) -> bool {
        self.width > self.height
    }

    /// Number of pixels in the image.
    pub open spec fn count(&self) -> nat {
        (self.width * self.height) as nat
    }

    /// Checks the dimensions once, before any pixel is rendered.
    pub fn new(width: u32, height: u32) -> (r: Result<Raster, RasterError>)
        ensures
            width > height <==> r is Ok,
            r is Ok ==> r->Ok_0 == (Raster { width, height }) && r->Ok_0.wf(),
            r is Err ==> r->Err_0 == RasterError::NotWider,
    {
        if width > height {
            Ok(Raster { width, height })
        } else {
            Err(RasterError::NotWider)
        }
    }

    /// Number of pixels in the image, which is the length of its buffer.
    pub fn pixel_count(&self) -> (r: u64)
        ensures
            r as nat == self.count(),
    {
        proof {
            vstd::arithmetic::mul::lemma_mul_upper_bound(
                self.width as int, u32::MAX as int, self.height as int, u32::MAX as int);
        }
        self.width as u64 * self.height as u64
    }

    /// Column and row of the pixel stored at `index` of a row-major buffer.
    pub fn position(&self, index: u64) -> (r: (u32, u32))
        requires
            index < self.count(),
        ensures
            r.0 as int == index as int % self.width as int,
            r.1 as int == index as int / self.width as int,
            r.0 < self.width,
            r.1 < self.height,
            r.1 as int * self.width as int + r.0 as int == index as int,
    {
        let w = self.width as u64;
        proof {
            let (wi, hi) = (self.width as int, self.height as int);
            assert(wi > 0) by (nonlinear_arith)
                requires
                    0 <= index < wi * hi,
                    0 <= hi,
                    0 <= wi,
            ;
        }
        let x = index % w;
        let y = index / w;
        proof {
            vstd::arithmetic::div_mod::lemma_fundamental_div_mod(index as int, w as int);
            let (yi, xi, wi, hi) = (y as int, x as int, w as int, self.height as int);
            assert(yi < hi) by (nonlinear_arith)
                requires
                    index as int == wi * yi + xi,
                    0 <= xi,
                    index < hi * wi,
                    wi > 0,
            ;
            vstd::arithmetic::mul::lemma_mul_is_commutative(yi, wi);
        }
        (x as u32, y as u32)
    }

    /// Row-major index of the pixel at column `x` and row `y`.
    pub fn index(&self, x: u32, y: u32) -> (r: u64)
        requires
            x < self.width,
            y < self.height,
        ensures
            r as int == y as int * self.width as int + x as int,
            r < self.count(),
    {
        proof {
            let (yi, xi, wi, hi) = (y as int, x as int, self.width as int, self.height as int);
            assert(yi * wi + xi < hi * wi) by (nonlinear_arith)
                requires
                    0 <= xi < wi,
                    0 <= yi < hi,
            ;
            assert(hi * wi <= u32::MAX as int * u32::MAX as int) by (nonlinear_arith)
                requires
                    0 <= wi <= u32::MAX as int,
                    0 <= hi <= u32::MAX as int,
            ;
        }
        y as u64 * self.width as u64 + x as u64
    }
}

/// Every pixel of the image has exactly one slot in the buffer: the slot
/// `y * width + x` holds pixel `(x, y)` and no other.
pub proof fn slot_holds_its_pixel(raster: Raster, x: u32, y: u32)
    requires
        x < raster.width,
        y < raster.height,
    ensures
        (y as int * raster.width as int + x as int) < raster.count(),
        (y as int * raster.width as int + x as int) % raster.width as int == x as int,
        (y as int * raster.width as int + x as int) / raster.width as int == y as int,
{
    let (xi, yi, wi, hi) = (x as int, y as int, raster.width as int, raster.height as int);
    assert(yi * wi + xi < wi * hi) by (nonlinear_arith)
        requires
            0 <= xi < wi,
            0 <= yi < hi,
    ;
    vstd::arithmetic::div_mod::lemma_fundamental_div_mod_converse(yi * wi + xi, wi, yi, xi);
}

} // verus!
