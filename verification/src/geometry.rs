//! Page dimensions, margins, coordinate math and image-aspect scaling.
//!
//! All lengths are integer layout units (printer's points).  The origin of
//! emitted coordinates is the top-left page corner; fixed-position anchors
//! are given as offsets from the left edge and from the bottom edge, as is
//! conventional for print formats.

use vstd::prelude::*;

use crate::error::Error;

verus! {

/// Default page width (A4, in points).
pub const PAGE_WIDTH: u32 = 595;

/// Default page height (A4, in points).
pub const PAGE_HEIGHT: u32 = 842;

/// Fixed page size and the four margins.
///
/// Invariant: the content area (page size minus margins) is positive in
/// both directions; `new` refuses any other configuration.
#[derive(Debug, Clone, Copy, PartialEq, Eq, Structural)]
pub struct PageGeometry {
    pub page_width: u32,
    pub page_height: u32,
    pub margin_top: u32,
    pub margin_right: u32,
    pub margin_bottom: u32,
    pub margin_left: u32,
}

/// An absolute anchor for a box excluded from normal flow: offsets from
/// the left and bottom page edges, and the width the box may use.
#[derive(Debug, Clone, Copy, PartialEq, Eq, Structural)]
pub struct FixedPos {
    pub offset_left: u32,
    pub offset_bottom: u32,
    pub width: u32,
}

impl PageGeometry {
    /// The geometry is usable: margins leave a positive content area.
    pub open spec fn wf(self) -> bool {
        &&& self.margin_left + self.margin_right < self.page_width
        &&& self.margin_top + self.margin_bottom < self.page_height
    }

    /// Width of the content area.
    pub open spec fn spec_content_width(self) -> int {
        self.page_width - self.margin_left - self.margin_right
    }

    /// Height of the content area.
    pub open spec fn spec_content_height(self) -> int {
        self.page_height - self.margin_top - self.margin_bottom
    }

    /// Build a geometry, refusing margins that consume the whole page.
    pub fn new(
        page_width: u32,
        page_height: u32,
        margin_top: u32,
        margin_right: u32,
        margin_bottom: u32,
        margin_left: u32,
    ) -> (r: Result<PageGeometry, Error>)
        ensures
            match r {
                Ok(g) => {
                    &&& g.wf()
                    &&& g == (PageGeometry {
                        page_width,
                        page_height,
                        margin_top,
                        margin_right,
                        margin_bottom,
                        margin_left,
                    })
                },
                Err(e) => {
                    &&& e == Error::InvalidMargins
                    &&& !(PageGeometry {
                        page_width,
                        page_height,
                        margin_top,
                        margin_right,
                        margin_bottom,
                        margin_left,
                    }).wf()
                },
            },
    {
        if margin_left as u64 + margin_right as u64 >= page_width as u64 {
            return Err(Error::InvalidMargins);
        }
        if margin_top as u64 + margin_bottom as u64 >= page_height as u64 {
            return Err(Error::InvalidMargins);
        }
        Ok(PageGeometry { page_width, page_height, margin_top, margin_right, margin_bottom, margin_left })
    }

    /// Page width minus left and right margins.
    pub fn content_width(&self) -> (w: u32)
        requires
            self.wf(),
        ensures
            w == self.spec_content_width(),
            w > 0,
    {
        self.page_width - self.margin_left - self.margin_right
    }

    /// Page height minus top and bottom margins.
    pub fn content_height(&self) -> (h: u32)
        requires
            self.wf(),
        ensures
            h == self.spec_content_height(),
            h > 0,
    {
        self.page_height - self.margin_top - self.margin_bottom
    }

    /// The anchor used for footers: flush with the left and bottom
    /// margins, spanning the content width.
    pub fn footer_position(&self) -> (p: FixedPos)
        requires
            self.wf(),
        ensures
            p.offset_left == self.margin_left,
            p.offset_bottom == self.margin_bottom,
            p.width == self.spec_content_width(),
    {
        FixedPos {
            offset_left: self.margin_left,
            offset_bottom: self.margin_bottom,
            width: self.content_width(),
        }
    }
}

/// Anchor a box of the given width at absolute offsets from the left and
/// bottom page edges.
pub fn fixed_position(offset_left: u32, offset_bottom: u32, width: u32) -> (p: FixedPos)
    ensures
        p == (FixedPos { offset_left, offset_bottom, width }),
{
    FixedPos { offset_left, offset_bottom, width }
}

/// The display width that preserves the aspect ratio of an image with the
/// given intrinsic size when it is scaled to `target_h`: the integer part
/// of `intrinsic_w * target_h / intrinsic_h`.
pub open spec fn spec_scaled_width(intrinsic_w: int, intrinsic_h: int, target_h: int) -> int
    recommends
        intrinsic_h > 0,
{
    (intrinsic_w * target_h) / intrinsic_h
}

/// Scale an intrinsic pixel size to the requested display height,
/// preserving the aspect ratio.  Fails with `DivisionByZero` if and only
/// if the intrinsic height is zero.
pub fn scale_to_height(intrinsic_w: u32, intrinsic_h: u32, target_h: u32) -> (r: Result<
    (u64, u32),
    Error,
>)
    ensures
        match r {
            Ok(wh) => {
                &&& intrinsic_h != 0
                &&& wh.0 == spec_scaled_width(intrinsic_w as int, intrinsic_h as int, target_h as int)
                &&& wh.1 == target_h
            },
            Err(e) => e == Error::DivisionByZero && intrinsic_h == 0,
        },
{
    if intrinsic_h == 0 {
        return Err(Error::DivisionByZero);
    }
    let a: u64 = intrinsic_w as u64;
    let b: u64 = target_h as u64;
    proof {
        vstd::arithmetic::mul::lemma_mul_upper_bound(
            a as int,
            0xffff_ffff,
            b as int,
            0xffff_ffff,
        );
    }
    let w: u64 = (a * b) / (intrinsic_h as u64);
    Ok((w, target_h))
}

/// Aspect-ratio preservation: the scaled width returned by
/// `scale_to_height` is exactly the rational `intrinsic_w * target_h /
/// intrinsic_h` rounded down, so `scaled * h <= w * t < (scaled + 1) * h`:
/// the displayed ratio `scaled / t` differs from `w / h` by less than one
/// unit of the division.
pub proof fn lemma_scale_preserves_aspect(w: int, h: int, t: int)
    requires
        h > 0,
        w >= 0,
        t >= 0,
    ensures
        spec_scaled_width(w, h, t) * h <= w * t,
        w * t < (spec_scaled_width(w, h, t) + 1) * h,
{
    let q = (w * t) / h;
    assert(w * t >= 0) by (nonlinear_arith)
        requires
            w >= 0,
            t >= 0,
    ;
    assert(q * h <= w * t && w * t < (q + 1) * h) by (nonlinear_arith)
        requires
            h > 0,
            w * t >= 0,
            q == (w * t) / h,
    ;
}

} // verus!
