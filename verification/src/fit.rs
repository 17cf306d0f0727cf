//! Fitting a fixed content rectangle into a window of any size.
//!
//! The camera must always show the whole content rectangle, undistorted. The
//! visible extent is therefore the window, scaled by one factor on both axes,
//! and chosen as small as it can be while still holding the content: it
//! matches the content exactly on one axis and exceeds it on the other.
//!
//! Sizes are whole numbers and visible extents are exact fractions, so every
//! comparison here is exact.

use vstd::prelude::*;

verus! {

/// The fixed logical size of the content that must stay fully visible.
#[derive(Clone, Copy, Debug, PartialEq, Eq, Structural)]
pub struct ContentExtent {
    pub width: u32,
    pub height: u32,
}

/// The size of the window in physical pixels, as the platform reports it.
#[derive(Clone, Copy, Debug, PartialEq, Eq, Structural)]
pub struct WindowSize {
    pub width: u32,
    pub height: u32,
}

/// A non-negative fraction `num / den`. It is kept as it was computed, not
/// reduced: two fractions of one value may differ in their fields.
#[derive(Clone, Copy, Debug, PartialEq, Eq, Structural)]
pub struct Ratio {
    pub num: u64,
    pub den: u64,
}

/// The extent of the world that the camera shows, in world units.
#[derive(Clone, Copy, Debug, PartialEq, Eq, Structural)]
pub struct CameraViewport {
    pub visible_width: Ratio,
    pub visible_height: Ratio,
}

/// Which axis of the content the viewport matches exactly.
#[derive(Clone, Copy, Debug, PartialEq, Eq, Structural)]
pub enum FitMode {
    /// The width matches; the visible height grows (bars above and below).
    Letterbox,
    /// The height matches; the visible width grows (bars left and right).
    Pillarbox,
}

impl ContentExtent {
    /// Both dimensions are strictly positive.
    pub open spec fn positive(self) -> bool {
        self.width > 0 && self.height > 0
    }

    /// Whether both dimensions are strictly positive.
    pub fn is_positive(&self) -> (ok: bool)
        ensures
            ok == self.positive(),
    {
        self.width > 0 && self.height > 0
    }
}

impl WindowSize {
    /// Neither dimension is zero, so the window has an aspect ratio.
    pub open spec fn usable(self) -> bool {
        self.width > 0 && self.height > 0
    }

    /// Whether neither dimension is zero.
    pub fn is_usable(&self) -> (ok: bool)
        ensures
            ok == self.usable(),
    {
        self.width > 0 && self.height > 0
    }
}

impl Ratio {
    /// The denominator is not zero.
    pub open spec fn wf(self) -> bool {
        self.den > 0
    }

    /// The fraction's value is the whole number `k`.
    pub open spec fn is_whole(self, k: int) -> bool {
        self.num == k * self.den
    }

    /// The fraction's value is at least the whole number `k`.
    pub open spec fn at_least(self, k: int) -> bool {
        self.num >= k * self.den
    }

    /// The two fractions have the same value.
    pub open spec fn same_value(self, other: Ratio) -> bool {
        self.num * other.den == other.num * self.den
    }

    /// The fraction `k / 1`.
    pub fn whole(k: u32) -> (r: Ratio)
        ensures
            r == (Ratio { num: k as u64, den: 1 }),
            r.wf(),
            r.is_whole(k as int),
    {
        Ratio { num: k as u64, den: 1 }
    }

    /// Whether the fraction's value is exactly `k`.
    pub fn equals_whole(&self, k: u64) -> (same: bool)
        ensures
            same == self.is_whole(k as int),
    {
        proof {
            lemma_product_fits(k, self.den);
        }
        self.num as u128 == (k as u128) * (self.den as u128)
    }

    /// Whether the fraction's value is `k` or more.
    pub fn is_at_least(&self, k: u64) -> (holds: bool)
        ensures
            holds == self.at_least(k as int),
    {
        proof {
            lemma_product_fits(k, self.den);
        }
        self.num as u128 >= (k as u128) * (self.den as u128)
    }

    /// Whether the two fractions have the same value.
    pub fn has_same_value(&self, other: &Ratio) -> (same: bool)
        ensures
            same == self.same_value(*other),
    {
        proof {
            lemma_product_fits(self.num, other.den);
            lemma_product_fits(other.num, self.den);
        }
        (self.num as u128) * (other.den as u128) == (other.num as u128) * (self.den as u128)
    }
}

impl CameraViewport {
    /// Both extents have a non-zero denominator.
    pub open spec fn wf(self) -> bool {
        self.visible_width.wf() && self.visible_height.wf()
    }

    /// The viewport is at least as wide and as high as the content.
    pub open spec fn contains(self, content: ContentExtent) -> bool {
        self.visible_width.at_least(content.width as int) && self.visible_height.at_least(
            content.height as int,
        )
    }

    /// The viewport matches the content exactly on at least one axis.
    pub open spec fn tight_on(self, content: ContentExtent) -> bool {
        self.visible_width.is_whole(content.width as int) || self.visible_height.is_whole(
            content.height as int,
        )
    }

    /// The viewport is exactly the content rectangle.
    pub open spec fn equals_content(self, content: ContentExtent) -> bool {
        self.visible_width.is_whole(content.width as int) && self.visible_height.is_whole(
            content.height as int,
        )
    }

    /// The viewport's width is to its height as `w` is to `h`.
    pub open spec fn has_aspect(self, w: int, h: int) -> bool {
        self.visible_width.num * self.visible_height.den * h == self.visible_height.num
            * self.visible_width.den * w
    }

    /// The two viewports show the same extent.
    pub open spec fn same_extent(self, other: CameraViewport) -> bool {
        self.visible_width.same_value(other.visible_width) && self.visible_height.same_value(
            other.visible_height,
        )
    }

    /// The viewport that shows exactly the content rectangle.
    pub open spec fn of_content(content: ContentExtent) -> CameraViewport {
        CameraViewport {
            visible_width: Ratio { num: content.width as u64, den: 1 },
            visible_height: Ratio { num: content.height as u64, den: 1 },
        }
    }

    /// The viewport that shows exactly the content rectangle.
    pub fn exactly(content: ContentExtent) -> (v: CameraViewport)
        ensures
            v == CameraViewport::of_content(content),
            v.wf(),
            v.equals_content(content),
    {
        CameraViewport {
            visible_width: Ratio::whole(content.width),
            visible_height: Ratio::whole(content.height),
        }
    }

    /// Whether the viewport is at least as wide and as high as the content.
    pub fn holds(&self, content: ContentExtent) -> (ok: bool)
        ensures
            ok == self.contains(content),
    {
        self.visible_width.is_at_least(content.width as u64) && self.visible_height.is_at_least(
            content.height as u64,
        )
    }

    /// Whether the viewport is exactly `width` by `height`.
    pub fn is_exactly(&self, width: u32, height: u32) -> (ok: bool)
        ensures
            ok == self.equals_content(ContentExtent { width, height }),
    {
        self.visible_width.equals_whole(width as u64) && self.visible_height.equals_whole(
            height as u64,
        )
    }

    /// Whether the two viewports show the same extent.
    pub fn shows_same(&self, other: &CameraViewport) -> (same: bool)
        ensures
            same == self.same_extent(*other),
    {
        self.visible_width.has_same_value(&other.visible_width)
            && self.visible_height.has_same_value(&other.visible_height)
    }
}

/// The product of two 64-bit numbers fits in 128 bits.
proof fn lemma_product_fits(a: u64, b: u64)
    ensures
        a * b <= u128::MAX,
{
    assert(a * b <= 0xffff_ffff_ffff_ffff * 0xffff_ffff_ffff_ffff) by (nonlinear_arith)
        requires
            0 <= a <= 0xffff_ffff_ffff_ffff,
            0 <= b <= 0xffff_ffff_ffff_ffff,
    ;
}

/// The product of two 32-bit numbers fits in 64 bits.
proof fn lemma_pixel_product_fits(a: u32, b: u32)
    ensures
        a * b <= u64::MAX,
{
    assert(a * b <= 0xffff_ffff * 0xffff_ffff) by (nonlinear_arith)
        requires
            0 <= a <= 0xffff_ffff,
            0 <= b <= 0xffff_ffff,
    ;
}

/// The content is relatively wider than the window: its aspect ratio
/// `content.width / content.height` is strictly greater than the window's
/// `window.width / window.height`. The two fractions are compared by their
/// cross products, which for positive heights is the same comparison.
pub open spec fn content_is_wider(content: ContentExtent, window: WindowSize) -> bool {
    content.width * window.height > window.width * content.height
}

/// The content and the window have the same aspect ratio.
pub open spec fn same_aspect(content: ContentExtent, window: WindowSize) -> bool {
    content.width * window.height == window.width * content.height
}

/// The axis on which the viewport matches the content: the width where the
/// content is relatively wider than the window, the height otherwise (equal
/// aspect ratios included). A window with a zero dimension has none.
pub open spec fn fit_mode_spec(content: ContentExtent, window: WindowSize) -> Option<FitMode> {
    if !window.usable() {
        None
    } else if content_is_wider(content, window) {
        Some(FitMode::Letterbox)
    } else {
        Some(FitMode::Pillarbox)
    }
}

/// The viewport for `content` in `window`.
///
/// Letterboxed, the visible width is the content's and the visible height is
/// `content.width * window.height / window.width`. Pillarboxed, the visible
/// height is the content's and the visible width is
/// `content.height * window.width / window.height`. A window with a zero
/// dimension has no viewport.
pub open spec fn fit_spec(content: ContentExtent, window: WindowSize) -> Option<CameraViewport> {
    if !window.usable() {
        None
    } else if content_is_wider(content, window) {
        Some(
            CameraViewport {
                visible_width: Ratio { num: content.width as u64, den: 1 },
                visible_height: Ratio {
                    num: (content.width * window.height) as u64,
                    den: window.width as u64,
                },
            },
        )
    } else {
        Some(
            CameraViewport {
                visible_width: Ratio {
                    num: (content.height * window.width) as u64,
                    den: window.height as u64,
                },
                visible_height: Ratio { num: content.height as u64, den: 1 },
            },
        )
    }
}

/// Whether the content's aspect ratio is strictly greater than the window's.
fn is_wider(content: ContentExtent, window: WindowSize) -> (wider: bool)
    ensures
        wider == content_is_wider(content, window),
{
    proof {
        lemma_pixel_product_fits(content.width, window.height);
        lemma_pixel_product_fits(window.width, content.height);
    }
    (content.width as u64) * (window.height as u64) > (window.width as u64) * (
    content.height as u64)
}

/// Decides between letterboxing and pillarboxing; `None` exactly when the
/// window has a zero dimension.
pub fn fit_mode(content: ContentExtent, window: WindowSize) -> (mode: Option<FitMode>)
    ensures
        mode == fit_mode_spec(content, window),
{
    if !window.is_usable() {
        None
    } else if is_wider(content, window) {
        Some(FitMode::Letterbox)
    } else {
        Some(FitMode::Pillarbox)
    }
}

/// Computes the camera's visible extent for `content` in `window`.
///
/// Returns `None` exactly when the window has a zero dimension: there is then
/// no aspect ratio to fit to, and the caller keeps what it had. Otherwise the
/// viewport holds the content, matches it exactly on one axis, and has the
/// window's aspect ratio.
pub fn fit(content: ContentExtent, window: WindowSize) -> (out: Option<CameraViewport>)
    ensures
        out == fit_spec(content, window),
        out is Some <==> window.usable(),
        out matches Some(v) ==> v.wf() && v.contains(content) && v.tight_on(content)
            && v.has_aspect(window.width as int, window.height as int),
{
    if !window.is_usable() {
        return None;
    }
    proof {
        lemma_fit_holds_content(content, window);
        lemma_fit_keeps_window_aspect(content, window);
        lemma_pixel_product_fits(content.width, window.height);
        lemma_pixel_product_fits(content.height, window.width);
    }
    if is_wider(content, window) {
        Some(
            CameraViewport {
                visible_width: Ratio::whole(content.width),
                visible_height: Ratio {
                    num: (content.width as u64) * (window.height as u64),
                    den: window.width as u64,
                },
            },
        )
    } else {
        Some(
            CameraViewport {
                visible_width: Ratio {
                    num: (content.height as u64) * (window.width as u64),
                    den: window.height as u64,
                },
                visible_height: Ratio::whole(content.height),
            },
        )
    }
}

/// The fitted viewport written out. The products are taken in the integers:
/// none of them is cut to fit its field.
pub proof fn lemma_fit_extents(content: ContentExtent, window: WindowSize)
    requires
        window.usable(),
    ensures
        fit_spec(content, window) is Some,
        content_is_wider(content, window) ==> {
            let v = fit_spec(content, window).unwrap();
            &&& v.visible_width.num == content.width
            &&& v.visible_width.den == 1
            &&& v.visible_height.num == content.width * window.height
            &&& v.visible_height.den == window.width
        },
        !content_is_wider(content, window) ==> {
            let v = fit_spec(content, window).unwrap();
            &&& v.visible_width.num == content.height * window.width
            &&& v.visible_width.den == window.height
            &&& v.visible_height.num == content.height
            &&& v.visible_height.den == 1
        },
{
    lemma_pixel_product_fits(content.width, window.height);
    lemma_pixel_product_fits(content.height, window.width);
}

/// The fitted viewport is at least as wide and as high as the content, and
/// matches it exactly on one axis: the width when letterboxed, the height when
/// pillarboxed.
pub proof fn lemma_fit_holds_content(content: ContentExtent, window: WindowSize)
    requires
        window.usable(),
    ensures
        fit_spec(content, window) is Some,
        fit_spec(content, window).unwrap().wf(),
        fit_spec(content, window).unwrap().contains(content),
        fit_spec(content, window).unwrap().tight_on(content),
        fit_mode_spec(content, window) == Some(FitMode::Letterbox) ==> fit_spec(
            content,
            window,
        ).unwrap().visible_width.is_whole(content.width as int),
        fit_mode_spec(content, window) == Some(FitMode::Pillarbox) ==> fit_spec(
            content,
            window,
        ).unwrap().visible_height.is_whole(content.height as int),
{
    lemma_fit_extents(content, window);
    assert(content.height * window.width == window.width * content.height) by (nonlinear_arith);
    let v = fit_spec(content, window).unwrap();
    if content_is_wider(content, window) {
        assert(v.visible_width.is_whole(content.width as int));
    } else {
        assert(v.visible_height.is_whole(content.height as int));
    }
}

/// The fitted viewport has the window's aspect ratio: the window shows it
/// scaled by one factor on both axes, which is what keeps the content
/// undistorted.
pub proof fn lemma_fit_keeps_window_aspect(content: ContentExtent, window: WindowSize)
    requires
        window.usable(),
    ensures
        fit_spec(content, window).unwrap().has_aspect(window.width as int, window.height as int),
{
    lemma_pixel_product_fits(content.width, window.height);
    lemma_pixel_product_fits(content.height, window.width);
    let cw = content.width as int;
    let ch = content.height as int;
    let ww = window.width as int;
    let wh = window.height as int;
    if content_is_wider(content, window) {
        assert(cw * ww * wh == (cw * wh) * 1 * ww) by (nonlinear_arith);
    } else {
        assert((ch * ww) * 1 * wh == ch * wh * ww) by (nonlinear_arith);
    }
}

/// The fitted viewport has the content's own aspect ratio exactly when the
/// window has it too, and it is then the content rectangle itself. In every
/// other window the viewport is strictly larger than the content on one axis.
pub proof fn lemma_fit_has_content_aspect_iff_same_aspect(
    content: ContentExtent,
    window: WindowSize,
)
    requires
        content.positive(),
        window.usable(),
    ensures
        fit_spec(content, window).unwrap().has_aspect(content.width as int, content.height as int)
            <==> same_aspect(content, window),
        same_aspect(content, window) <==> fit_spec(content, window).unwrap().equals_content(
            content,
        ),
        same_aspect(content, window) ==> fit_mode_spec(content, window) == Some(
            FitMode::Pillarbox,
        ),
{
    lemma_pixel_product_fits(content.width, window.height);
    lemma_pixel_product_fits(content.height, window.width);
    let cw = content.width as int;
    let ch = content.height as int;
    let ww = window.width as int;
    let wh = window.height as int;
    let v = fit_spec(content, window).unwrap();
    if content_is_wider(content, window) {
        assert(v.visible_width.num * v.visible_height.den * ch == cw * (ww * ch))
            by (nonlinear_arith)
            requires
                v.visible_width.num == cw,
                v.visible_height.den == ww,
        ;
        assert(v.visible_height.num * v.visible_width.den * cw == cw * (cw * wh))
            by (nonlinear_arith)
            requires
                v.visible_height.num == cw * wh,
                v.visible_width.den == 1,
        ;
        assert(cw * (ww * ch) == cw * (cw * wh) ==> ww * ch == cw * wh) by (nonlinear_arith)
            requires
                cw > 0,
        ;
        assert(ch * ww == ww * ch) by (nonlinear_arith);
    } else {
        assert(v.visible_width.num * v.visible_height.den * ch == ch * (ww * ch))
            by (nonlinear_arith)
            requires
                v.visible_width.num == ch * ww,
                v.visible_height.den == 1,
        ;
        assert(v.visible_height.num * v.visible_width.den * cw == ch * (cw * wh))
            by (nonlinear_arith)
            requires
                v.visible_height.num == ch,
                v.visible_width.den == wh,
        ;
        assert(ch * (ww * ch) == ch * (cw * wh) <==> ww * ch == cw * wh) by (nonlinear_arith)
            requires
                ch > 0,
        ;
        assert(ch * ww == ww * ch && cw * wh == wh * cw) by (nonlinear_arith);
    }
}

/// Fitting is a function of its two arguments: any two results for the same
/// content and window are the same value, field for field.
pub proof fn lemma_fit_is_deterministic(
    content: ContentExtent,
    window: WindowSize,
    first: Option<CameraViewport>,
    second: Option<CameraViewport>,
)
    requires
        first == fit_spec(content, window),
        second == fit_spec(content, window),
    ensures
        first == second,
{
}

/// Windows of one aspect ratio give viewports of one extent, whatever their
/// size: only the window's shape matters.
pub proof fn lemma_fit_depends_on_shape_only(
    content: ContentExtent,
    first: WindowSize,
    second: WindowSize,
)
    requires
        first.usable(),
        second.usable(),
        first.width * second.height == second.width * first.height,
    ensures
        fit_mode_spec(content, first) == fit_mode_spec(content, second),
        fit_spec(content, first).unwrap().same_extent(fit_spec(content, second).unwrap()),
{
    lemma_pixel_product_fits(content.width, first.height);
    lemma_pixel_product_fits(content.height, first.width);
    lemma_pixel_product_fits(content.width, second.height);
    lemma_pixel_product_fits(content.height, second.width);
    let cw = content.width as int;
    let ch = content.height as int;
    let aw = first.width as int;
    let ah = first.height as int;
    let bw = second.width as int;
    let bh = second.height as int;
    assert((cw * ah > aw * ch) <==> (cw * bh > bw * ch)) by (nonlinear_arith)
        requires
            aw * bh == bw * ah,
            aw > 0,
            ah > 0,
            bw > 0,
            bh > 0,
            cw >= 0,
            ch >= 0,
    ;
    if content_is_wider(content, first) {
        assert(content_is_wider(content, second));
        assert((cw * ah) * bw == (cw * bh) * aw) by (nonlinear_arith)
            requires
                aw * bh == bw * ah,
        ;
    } else {
        assert(!content_is_wider(content, second));
        assert((ch * aw) * bh == (ch * bw) * ah) by (nonlinear_arith)
            requires
                aw * bh == bw * ah,
        ;
    }
}

} // verus!
