//! The offscreen export renderer. A `Rasterizer` owns a full-resolution
//! pixel surface: it draws the captured screenshot at the origin,
//! replays a snapshot annotation list through the same geometric
//! formulas as the interactive renderer at native stroke widths, then
//! subsets the surface to the crop rectangle and encodes it.
//!
//! Pixel coverage of a stroked shape is defined by integer predicates
//! (`spec_cmd_color_at`); the painter is verified against them pixel by
//! pixel. Text blocks reach the command list with their geometry but
//! are not rasterized here: glyph rasterization needs a font engine.

use vstd::prelude::*;

use crate::annotation::Annotation;
use crate::geometry::{Color, Pos, COORD_LIMIT};
use crate::save_destination::SaveDestination;
use crate::render::{CmdModel, ShapeCmd, cmds_model, render_native_list, spec_native_list,
    spec_render_native};

verus! {

/// Largest width or height of a raster surface or captured image.
pub const SURFACE_LIMIT: u64 = 16384;

/// A captured raw image: RGBA bytes, four per pixel, row-major.
pub struct RawImage {
    pub width: u64,
    pub height: u64,
    pub pixels: Vec<u8>,
}

impl RawImage {
    pub open spec fn wf(self) -> bool {
        &&& self.width <= SURFACE_LIMIT
        &&& self.height <= SURFACE_LIMIT
        &&& self.pixels@.len() == self.width * self.height * 4
    }
}

/// An offscreen drawing surface: one `Color` per pixel, row-major.
pub struct Surface {
    pub width: u64,
    pub height: u64,
    pub pixels: Vec<Color>,
}

impl Surface {
    pub open spec fn wf(self) -> bool {
        &&& self.width <= SURFACE_LIMIT
        &&& self.height <= SURFACE_LIMIT
        &&& self.pixels@.len() == self.width * self.height
    }

    /// A blank transparent surface.
    pub fn new(width: u64, height: u64) -> (r: Surface)
        requires
            width <= SURFACE_LIMIT,
            height <= SURFACE_LIMIT,
        ensures
            r.wf(),
            r.width == width && r.height == height,
            forall|k: int|
                0 <= k < r.pixels@.len() ==> (#[trigger] r.pixels@[k]) == (Color {
                    r: 0,
                    g: 0,
                    b: 0,
                    a: 0,
                }),
    {
        proof {
            assert(width * height <= SURFACE_LIMIT * SURFACE_LIMIT) by (nonlinear_arith)
                requires
                    0 <= width <= SURFACE_LIMIT,
                    0 <= height <= SURFACE_LIMIT,
            ;
        }
        let n: usize = (width * height) as usize;
        let mut pixels: Vec<Color> = Vec::new();
        let mut k: usize = 0;
        while k < n
            invariant
                k <= n,
                pixels@.len() == k,
                forall|j: int|
                    0 <= j < k ==> (#[trigger] pixels@[j]) == (Color { r: 0, g: 0, b: 0, a: 0 }),
            decreases n - k,
        {
            pixels.push(Color { r: 0, g: 0, b: 0, a: 0 });
            k = k + 1;
        }
        Surface { width, height, pixels }
    }
}

/// Whether a pixel lies on a stroked segment from `a` to `b` of width
/// `w`: its projection onto the segment falls within it, and its
/// distance from the carrying line is at most half the width.
pub open spec fn spec_seg_covered(x: int, y: int, a: Pos, b: Pos, w: int) -> bool {
    let dxs = b.x - a.x;
    let dys = b.y - a.y;
    let px = x - a.x;
    let py = y - a.y;
    if dxs == 0 && dys == 0 {
        4 * (px * px + py * py) <= w * w
    } else {
        let len2 = dxs * dxs + dys * dys;
        let dot = px * dxs + py * dys;
        let cross = dxs * py - dys * px;
        0 <= dot <= len2 && 4 * (cross * cross) <= (w * w) * len2
    }
}

/// Whether a pixel lies on a stroked circle ring of the given radius and
/// stroke width around the center.
pub open spec fn spec_ring_covered(x: int, y: int, center: Pos, radius: int, w: int) -> bool {
    let d2 = (x - center.x) * (x - center.x) + (y - center.y) * (y - center.y);
    &&& 4 * d2 <= (2 * radius + w) * (2 * radius + w)
    &&& (2 * radius - w <= 0 || (2 * radius - w) * (2 * radius - w) <= 4 * d2)
}

/// Whether a pixel lies in a circle's fill: the stroke-inset disc.
pub open spec fn spec_disc_covered(x: int, y: int, center: Pos, radius: int, w: int) -> bool {
    let rf = radius - w / 2 + 1;
    let d2 = (x - center.x) * (x - center.x) + (y - center.y) * (y - center.y);
    rf >= 0 && d2 <= rf * rf
}

/// Whether a pixel lies on a stroked rectangle border: inside the box
/// grown by half the width, outside the box shrunk by half the width.
pub open spec fn spec_rect_border_covered(x: int, y: int, min: Pos, max: Pos, w: int) -> bool {
    let hw = w / 2;
    &&& min.x - hw <= x <= max.x + hw
    &&& min.y - hw <= y <= max.y + hw
    &&& !(min.x + hw < x < max.x - hw && min.y + hw < y < max.y - hw)
}

/// Whether a pixel lies in a rectangle's fill: the stroke-inset box.
pub open spec fn spec_rect_fill_covered(x: int, y: int, min: Pos, max: Pos, w: int) -> bool {
    &&& min.x + w / 2 - 1 <= x <= max.x - (w - w / 2)
    &&& min.y + w / 2 - 1 <= y <= max.y - (w - w / 2)
}

pub open spec fn spec_transparent() -> Color {
    Color { r: 0, g: 0, b: 0, a: 0 }
}

/// The color a command paints onto a pixel, if any: stroke over fill,
/// fill only when its color is not transparent. Text geometry is carried
/// through but not rasterized here, and the interactive overlay commands
/// never reach the export surface.
pub open spec fn spec_cmd_color_at(cmd: CmdModel, x: int, y: int) -> Option<Color> {
    match cmd {
        CmdModel::Line { a, b, width, color } => if spec_seg_covered(x, y, a, b, width as int) {
            Some(color)
        } else {
            None
        },
        CmdModel::Circle { center, radius, width, color, fill } => if spec_ring_covered(
            x,
            y,
            center,
            radius as int,
            width as int,
        ) {
            Some(color)
        } else if fill != spec_transparent() && spec_disc_covered(
            x,
            y,
            center,
            radius as int,
            width as int,
        ) {
            Some(fill)
        } else {
            None
        },
        CmdModel::Rect { min, max, width, color, fill } => if spec_rect_border_covered(
            x,
            y,
            min,
            max,
            width as int,
        ) {
            Some(color)
        } else if fill != spec_transparent() && spec_rect_fill_covered(
            x,
            y,
            min,
            max,
            width as int,
        ) {
            Some(fill)
        } else {
            None
        },
        _ => None,
    }
}

/// The pixels after one command was painted.
pub open spec fn spec_paint_one(pixels: Seq<Color>, width: int, cmd: CmdModel) -> Seq<Color> {
    Seq::new(
        pixels.len(),
        |k: int|
            match spec_cmd_color_at(cmd, k % width, k / width) {
                Some(c) => c,
                None => pixels[k],
            },
    )
}

/// The pixels after a list of commands was painted in order.
pub open spec fn spec_paint_cmds(pixels: Seq<Color>, width: int, cmds: Seq<CmdModel>) -> Seq<
    Color,
>
    decreases cmds.len(),
{
    if cmds.len() == 0 {
        pixels
    } else {
        spec_paint_one(spec_paint_cmds(pixels, width, cmds.drop_last()), width, cmds.last())
    }
}

/// Geometry bounds under which the integer coverage tests cannot
/// overflow their 128-bit arithmetic.
pub open spec fn spec_cmd_in_range(cmd: CmdModel) -> bool {
    match cmd {
        CmdModel::Line { a, b, width, .. } => crate::annotation::tip_pos_wf(a)
            && crate::annotation::tip_pos_wf(b) && 0 <= width <= COORD_LIMIT,
        CmdModel::Circle { center, radius, width, .. } => crate::geometry::pos_wf(center) && 0
            <= radius <= 3 * COORD_LIMIT && 0 <= width <= COORD_LIMIT,
        CmdModel::Rect { min, max, width, .. } => crate::geometry::pos_wf(min)
            && crate::geometry::pos_wf(max) && 0 <= width <= COORD_LIMIT,
        _ => true,
    }
}

/// What the export renderer emits for a well-formed annotation stays in
/// range for the painter.
pub proof fn lemma_native_cmds_in_range(a: Annotation)
    requires
        a.wf(),
    ensures
        forall|i: int|
            0 <= i < spec_render_native(a).len() ==> spec_cmd_in_range(
                #[trigger] spec_render_native(a)[i],
            ),
{
    match a {
        Annotation::Pencil(p) => {
            assert forall|i: int| 0 <= i < spec_render_native(a).len() implies spec_cmd_in_range(
                spec_render_native(a)[i],
            ) by {
                assert(pos_wf_at(p.points@, i));
                assert(pos_wf_at(p.points@, i + 1));
            }
        },
        Annotation::Highlighter(h) => {
            assert forall|i: int| 0 <= i < spec_render_native(a).len() implies spec_cmd_in_range(
                spec_render_native(a)[i],
            ) by {
                assert(pos_wf_at(h.points@, i));
                assert(pos_wf_at(h.points@, i + 1));
            }
        },
        _ => {},
    }
}

/// Helper trigger: the point at an index is in range.
pub open spec fn pos_wf_at(points: Seq<Pos>, i: int) -> bool {
    0 <= i < points.len() ==> crate::geometry::pos_wf(points[i])
}

/// Magnitude bound of a product from magnitude bounds of its factors.
proof fn lemma_mul_bound(a: int, b: int, m: int, n: int)
    requires
        0 <= m,
        0 <= n,
        -m <= a <= m,
        -n <= b <= n,
    ensures
        -(m * n) <= a * b <= m * n,
{
    assert(-(m * n) <= a * b <= m * n) by (nonlinear_arith)
        requires
            0 <= m,
            0 <= n,
            -m <= a <= m,
            -n <= b <= n,
    ;
}

fn seg_cover(x: u64, y: u64, a: Pos, b: Pos, w: i64) -> (r: bool)
    requires
        crate::annotation::tip_pos_wf(a),
        crate::annotation::tip_pos_wf(b),
        0 <= w <= COORD_LIMIT,
        x <= SURFACE_LIMIT,
        y <= SURFACE_LIMIT,
    ensures
        r == spec_seg_covered(x as int, y as int, a, b, w as int),
{
    let dxs: i128 = (b.x as i128) - (a.x as i128);
    let dys: i128 = (b.y as i128) - (a.y as i128);
    let px: i128 = (x as i128) - (a.x as i128);
    let py: i128 = (y as i128) - (a.y as i128);
    proof {
        let mi = 4 * COORD_LIMIT as int;
        lemma_mul_bound(dxs as int, dxs as int, mi, mi);
        lemma_mul_bound(dys as int, dys as int, mi, mi);
        lemma_mul_bound(px as int, px as int, mi, mi);
        lemma_mul_bound(py as int, py as int, mi, mi);
        lemma_mul_bound(px as int, dxs as int, mi, mi);
        lemma_mul_bound(py as int, dys as int, mi, mi);
        lemma_mul_bound(dxs as int, py as int, mi, mi);
        lemma_mul_bound(dys as int, px as int, mi, mi);
        lemma_mul_bound(w as int, w as int, COORD_LIMIT as int, COORD_LIMIT as int);
    }
    if dxs == 0 && dys == 0 {
        let d2: i128 = px * px + py * py;
        let ww: i128 = (w as i128) * (w as i128);
        4 * d2 <= ww
    } else {
        let len2: i128 = dxs * dxs + dys * dys;
        let dot: i128 = px * dxs + py * dys;
        let cross: i128 = dxs * py - dys * px;
        let ww: i128 = (w as i128) * (w as i128);
        proof {
            let mi = 4 * COORD_LIMIT as int;
            let mm = mi * mi;
            assert(-(2 * mm) <= cross <= 2 * mm);
            lemma_mul_bound(cross as int, cross as int, 2 * mm, 2 * mm);
            lemma_mul_bound(ww as int, len2 as int, (COORD_LIMIT as int) * (COORD_LIMIT as int),
                2 * mm);
        }
        0 <= dot && dot <= len2 && 4 * (cross * cross) <= ww * len2
    }
}

fn ring_cover(x: u64, y: u64, center: Pos, radius: i64, w: i64) -> (r: bool)
    requires
        crate::geometry::pos_wf(center),
        0 <= radius <= 3 * COORD_LIMIT,
        0 <= w <= COORD_LIMIT,
        x <= SURFACE_LIMIT,
        y <= SURFACE_LIMIT,
    ensures
        r == spec_ring_covered(x as int, y as int, center, radius as int, w as int),
{
    let px: i128 = (x as i128) - (center.x as i128);
    let py: i128 = (y as i128) - (center.y as i128);
    proof {
        let mi = 2 * COORD_LIMIT as int;
        lemma_mul_bound(px as int, px as int, mi, mi);
        lemma_mul_bound(py as int, py as int, mi, mi);
        let ri = 7 * COORD_LIMIT as int;
        lemma_mul_bound((2 * radius + w) as int, (2 * radius + w) as int, ri, ri);
        lemma_mul_bound((2 * radius - w) as int, (2 * radius - w) as int, ri, ri);
    }
    let d2: i128 = px * px + py * py;
    let outer: i128 = (2 * radius + w) as i128;
    let inner: i128 = (2 * radius - w) as i128;
    4 * d2 <= outer * outer && (inner <= 0 || inner * inner <= 4 * d2)
}

fn disc_cover(x: u64, y: u64, center: Pos, radius: i64, w: i64) -> (r: bool)
    requires
        crate::geometry::pos_wf(center),
        0 <= radius <= 3 * COORD_LIMIT,
        0 <= w <= COORD_LIMIT,
        x <= SURFACE_LIMIT,
        y <= SURFACE_LIMIT,
    ensures
        r == spec_disc_covered(x as int, y as int, center, radius as int, w as int),
{
    let rf: i64 = radius - w / 2 + 1;
    if rf < 0 {
        return false;
    }
    let px: i128 = (x as i128) - (center.x as i128);
    let py: i128 = (y as i128) - (center.y as i128);
    proof {
        let mi = 2 * COORD_LIMIT as int;
        lemma_mul_bound(px as int, px as int, mi, mi);
        lemma_mul_bound(py as int, py as int, mi, mi);
        lemma_mul_bound(rf as int, rf as int, 4 * COORD_LIMIT as int, 4 * COORD_LIMIT as int);
    }
    let d2: i128 = px * px + py * py;
    d2 <= (rf as i128) * (rf as i128)
}

fn rect_border_cover(x: u64, y: u64, min: Pos, max: Pos, w: i64) -> (r: bool)
    requires
        crate::geometry::pos_wf(min),
        crate::geometry::pos_wf(max),
        0 <= w <= COORD_LIMIT,
        x <= SURFACE_LIMIT,
        y <= SURFACE_LIMIT,
    ensures
        r == spec_rect_border_covered(x as int, y as int, min, max, w as int),
{
    let hw: i64 = w / 2;
    let xi: i64 = x as i64;
    let yi: i64 = y as i64;
    min.x - hw <= xi && xi <= max.x + hw && min.y - hw <= yi && yi <= max.y + hw && !(min.x + hw
        < xi && xi < max.x - hw && min.y + hw < yi && yi < max.y - hw)
}

fn rect_fill_cover(x: u64, y: u64, min: Pos, max: Pos, w: i64) -> (r: bool)
    requires
        crate::geometry::pos_wf(min),
        crate::geometry::pos_wf(max),
        0 <= w <= COORD_LIMIT,
        x <= SURFACE_LIMIT,
        y <= SURFACE_LIMIT,
    ensures
        r == spec_rect_fill_covered(x as int, y as int, min, max, w as int),
{
    let xi: i64 = x as i64;
    let yi: i64 = y as i64;
    min.x + w / 2 - 1 <= xi && xi <= max.x - (w - w / 2) && min.y + w / 2 - 1 <= yi && yi <= max.y
        - (w - w / 2)
}

/// The color `cmd` paints onto pixel `(x, y)`, if any.
fn cmd_pixel(cmd: &ShapeCmd, x: u64, y: u64) -> (r: Option<Color>)
    requires
        spec_cmd_in_range(cmd@),
        x <= SURFACE_LIMIT,
        y <= SURFACE_LIMIT,
    ensures
        r == spec_cmd_color_at(cmd@, x as int, y as int),
{
    match cmd {
        ShapeCmd::Line { a, b, width, color } => {
            if seg_cover(x, y, *a, *b, *width) {
                Some(*color)
            } else {
                None
            }
        },
        ShapeCmd::Circle { center, radius, width, color, fill } => {
            if ring_cover(x, y, *center, *radius, *width) {
                Some(*color)
            } else if !fill.is_transparent() && disc_cover(x, y, *center, *radius, *width) {
                Some(*fill)
            } else {
                None
            }
        },
        ShapeCmd::Rect { min, max, width, color, fill } => {
            if rect_border_cover(x, y, *min, *max, *width) {
                Some(*color)
            } else if !fill.is_transparent() && rect_fill_cover(x, y, *min, *max, *width) {
                Some(*fill)
            } else {
                None
            }
        },
        _ => None,
    }
}

impl Surface {
    /// Paint one command onto every pixel it covers.
    pub fn paint_cmd(&mut self, cmd: &ShapeCmd)
        requires
            old(self).wf(),
            spec_cmd_in_range(cmd@),
        ensures
            final(self).wf(),
            final(self).width == old(self).width,
            final(self).height == old(self).height,
            final(self).pixels@ == spec_paint_one(
                old(self).pixels@,
                old(self).width as int,
                cmd@,
            ),
    {
        let w: u64 = self.width;
        let h: u64 = self.height;
        if w == 0 {
            proof {
                assert(self.pixels@.len() == 0);
                assert(self.pixels@ =~= spec_paint_one(self.pixels@, w as int, cmd@));
            }
            return ;
        }
        let ghost orig = self.pixels@;
        let ghost target = spec_paint_one(orig, w as int, cmd@);
        let mut y: u64 = 0;
        while y < h
            invariant
                y <= h,
                w == self.width && h == self.height,
                1 <= w <= SURFACE_LIMIT && h <= SURFACE_LIMIT,
                spec_cmd_in_range(cmd@),
                self.pixels@.len() == orig.len(),
                orig.len() == w * h,
                target == spec_paint_one(orig, w as int, cmd@),
                target.len() == orig.len(),
                forall|k: int| 0 <= k < y * w ==> self.pixels@[k] == target[k],
                forall|k: int| y * w <= k < orig.len() ==> self.pixels@[k] == orig[k],
            decreases h - y,
        {
            let mut x: u64 = 0;
            proof {
                assert(y * w + x == y * w);
                assert((y + 1) * w == y * w + w) by (nonlinear_arith);
                assert(y * w + w <= h * w) by (nonlinear_arith)
                    requires
                        y < h && 0 <= w,
                ;
                assert(h * w == w * h) by (nonlinear_arith);
            }
            while x < w
                invariant
                    x <= w,
                    y < h,
                    w == self.width && h == self.height,
                    1 <= w <= SURFACE_LIMIT && h <= SURFACE_LIMIT,
                    spec_cmd_in_range(cmd@),
                    self.pixels@.len() == orig.len(),
                    orig.len() == w * h,
                    target == spec_paint_one(orig, w as int, cmd@),
                    target.len() == orig.len(),
                    y * w + w <= orig.len(),
                    forall|k: int| 0 <= k < y * w + x ==> self.pixels@[k] == target[k],
                    forall|k: int| y * w + x <= k < orig.len() ==> self.pixels@[k] == orig[k],
                decreases w - x,
            {
                proof {
                    assert(y * w <= (SURFACE_LIMIT as int) * (SURFACE_LIMIT as int))
                        by (nonlinear_arith)
                        requires
                            0 <= y <= SURFACE_LIMIT && 0 <= w <= SURFACE_LIMIT,
                    ;
                }
                let idx: usize = (y * w + x) as usize;
                proof {
                    vstd::arithmetic::div_mod::lemma_fundamental_div_mod_converse(
                        idx as int,
                        w as int,
                        y as int,
                        x as int,
                    );
                    assert(target[idx as int] == (match spec_cmd_color_at(
                        cmd@,
                        x as int,
                        y as int,
                    ) {
                        Some(c) => c,
                        None => orig[idx as int],
                    }));
                }
                match cmd_pixel(cmd, x, y) {
                    Some(c) => {
                        self.pixels.set(idx, c);
                    },
                    None => {},
                }
                x = x + 1;
            }
            y = y + 1;
        }
        proof {
            assert(y * w == orig.len()) by (nonlinear_arith)
                requires
                    y == h && orig.len() == w * h,
            ;
            assert(self.pixels@ =~= target);
        }
    }

    /// Paint a command list in order.
    pub fn paint_cmds(&mut self, cmds: &Vec<ShapeCmd>)
        requires
            old(self).wf(),
            forall|i: int| 0 <= i < cmds@.len() ==> spec_cmd_in_range((#[trigger] cmds@[i])@),
        ensures
            final(self).wf(),
            final(self).width == old(self).width,
            final(self).height == old(self).height,
            final(self).pixels@ == spec_paint_cmds(
                old(self).pixels@,
                old(self).width as int,
                cmds_model(cmds@),
            ),
    {
        let ghost orig = self.pixels@;
        let ghost w = self.width as int;
        let mut i: usize = 0;
        proof {
            assert(cmds_model(cmds@.subrange(0, 0)) =~= Seq::<CmdModel>::empty());
        }
        while i < cmds.len()
            invariant
                i <= cmds@.len(),
                self.wf(),
                self.width as int == w,
                self.height == old(self).height,
                orig.len() == self.pixels@.len(),
                orig == old(self).pixels@,
                forall|k: int| 0 <= k < cmds@.len() ==> spec_cmd_in_range((#[trigger] cmds@[k])@),
                self.pixels@ == spec_paint_cmds(orig, w, cmds_model(cmds@.subrange(0, i as int))),
            decreases cmds@.len() - i,
        {
            self.paint_cmd(&cmds[i]);
            i = i + 1;
            proof {
                let sub = cmds@.subrange(0, i as int);
                assert(cmds_model(sub).drop_last() =~= cmds_model(cmds@.subrange(0, i - 1)));
                assert(cmds_model(sub).last() == cmds@[i - 1]@);
            }
        }
        proof {
            assert(cmds@.subrange(0, cmds@.len() as int) =~= cmds@);
        }
    }
}

/// The color of pixel `k` of a raw RGBA image.
pub open spec fn spec_image_pixel(img: RawImage, k: int) -> Color {
    Color {
        r: img.pixels@[4 * k],
        g: img.pixels@[4 * k + 1],
        b: img.pixels@[4 * k + 2],
        a: img.pixels@[4 * k + 3],
    }
}

/// The surface pixels after the image was drawn with its top-left
/// corner at `(px, py)`, clipped to the surface.
pub open spec fn spec_blit(
    pixels: Seq<Color>,
    width: int,
    img: RawImage,
    px: int,
    py: int,
) -> Seq<Color> {
    Seq::new(
        pixels.len(),
        |k: int|
            {
                let x = k % width;
                let y = k / width;
                if px <= x < px + img.width && py <= y < py + img.height {
                    spec_image_pixel(img, (y - py) * img.width + (x - px))
                } else {
                    pixels[k]
                }
            },
    )
}

impl Surface {
    /// Draw a raw image onto the surface at the given position,
    /// clipped to the surface bounds.
    pub fn blit(&mut self, img: &RawImage, px: u64, py: u64)
        requires
            old(self).wf(),
            img.wf(),
            px <= SURFACE_LIMIT,
            py <= SURFACE_LIMIT,
        ensures
            final(self).wf(),
            final(self).width == old(self).width,
            final(self).height == old(self).height,
            final(self).pixels@ == spec_blit(
                old(self).pixels@,
                old(self).width as int,
                *img,
                px as int,
                py as int,
            ),
    {
        let w: u64 = self.width;
        let h: u64 = self.height;
        if w == 0 {
            proof {
                assert(self.pixels@.len() == 0);
                assert(self.pixels@ =~= spec_blit(
                    self.pixels@,
                    w as int,
                    *img,
                    px as int,
                    py as int,
                ));
            }
            return ;
        }
        let ghost orig = self.pixels@;
        let ghost target = spec_blit(orig, w as int, *img, px as int, py as int);
        let mut y: u64 = 0;
        while y < h
            invariant
                y <= h,
                w == self.width && h == self.height,
                1 <= w <= SURFACE_LIMIT && h <= SURFACE_LIMIT,
                img.wf(),
                px <= SURFACE_LIMIT && py <= SURFACE_LIMIT,
                self.pixels@.len() == orig.len(),
                orig.len() == w * h,
                target == spec_blit(orig, w as int, *img, px as int, py as int),
                target.len() == orig.len(),
                forall|k: int| 0 <= k < y * w ==> self.pixels@[k] == target[k],
                forall|k: int| y * w <= k < orig.len() ==> self.pixels@[k] == orig[k],
            decreases h - y,
        {
            let mut x: u64 = 0;
            proof {
                assert((y + 1) * w == y * w + w) by (nonlinear_arith);
                assert(y * w + w <= h * w) by (nonlinear_arith)
                    requires
                        y < h && 0 <= w,
                ;
                assert(h * w == w * h) by (nonlinear_arith);
            }
            while x < w
                invariant
                    x <= w,
                    y < h,
                    w == self.width && h == self.height,
                    1 <= w <= SURFACE_LIMIT && h <= SURFACE_LIMIT,
                    img.wf(),
                    px <= SURFACE_LIMIT && py <= SURFACE_LIMIT,
                    self.pixels@.len() == orig.len(),
                    orig.len() == w * h,
                    target == spec_blit(orig, w as int, *img, px as int, py as int),
                    target.len() == orig.len(),
                    y * w + w <= orig.len(),
                    forall|k: int| 0 <= k < y * w + x ==> self.pixels@[k] == target[k],
                    forall|k: int| y * w + x <= k < orig.len() ==> self.pixels@[k] == orig[k],
                decreases w - x,
            {
                proof {
                    assert(y * w <= (SURFACE_LIMIT as int) * (SURFACE_LIMIT as int))
                        by (nonlinear_arith)
                        requires
                            0 <= y <= SURFACE_LIMIT && 0 <= w <= SURFACE_LIMIT,
                    ;
                }
                let idx: usize = (y * w + x) as usize;
                proof {
                    vstd::arithmetic::div_mod::lemma_fundamental_div_mod_converse(
                        idx as int,
                        w as int,
                        y as int,
                        x as int,
                    );
                }
                if px <= x && x < px + img.width && py <= y && y < py + img.height {
                    let sx: u64 = x - px;
                    let sy: u64 = y - py;
                    proof {
                        assert(sy * img.width + sx < img.width * img.height) by (nonlinear_arith)
                            requires
                                0 <= sx < img.width && 0 <= sy < img.height,
                        ;
                        assert(4 * (sy * img.width + sx) + 3 < 4 * (img.width * img.height));
                        assert(img.width * img.height <= (SURFACE_LIMIT as int) * (
                        SURFACE_LIMIT as int)) by (nonlinear_arith)
                            requires
                                0 <= img.width <= SURFACE_LIMIT && 0 <= img.height
                                    <= SURFACE_LIMIT,
                        ;
                    }
                    let src: usize = ((sy * img.width + sx) * 4) as usize;
                    let c: Color = Color {
                        r: img.pixels[src],
                        g: img.pixels[src + 1],
                        b: img.pixels[src + 2],
                        a: img.pixels[src + 3],
                    };
                    self.pixels.set(idx, c);
                }
                x = x + 1;
            }
            y = y + 1;
        }
        proof {
            assert(y * w == orig.len()) by (nonlinear_arith)
                requires
                    y == h && orig.len() == w * h,
            ;
            assert(self.pixels@ =~= target);
        }
    }

    /// The rectangular sub-surface starting at `(x0, y0)`.
    pub fn subset(&self, x0: u64, y0: u64, cw: u64, ch: u64) -> (r: Surface)
        requires
            self.wf(),
            x0 + cw <= self.width,
            y0 + ch <= self.height,
        ensures
            r.wf(),
            r.width == cw && r.height == ch,
            forall|k: int|
                0 <= k < r.pixels@.len() ==> (#[trigger] r.pixels@[k]) == self.pixels@[(y0 + k / (
                cw as int)) * self.width + (x0 + k % (cw as int))],
    {
        let w: u64 = self.width;
        let mut pixels: Vec<Color> = Vec::new();
        if cw == 0 {
            proof {
                assert(cw * ch == 0) by (nonlinear_arith)
                    requires
                        cw == 0,
                ;
            }
            return Surface { width: cw, height: ch, pixels };
        }
        let mut y: u64 = 0;
        while y < ch
            invariant
                y <= ch,
                1 <= cw,
                x0 + cw <= w && y0 + ch <= self.height,
                w == self.width,
                self.wf(),
                pixels@.len() == y * cw,
                forall|k: int|
                    0 <= k < pixels@.len() ==> (#[trigger] pixels@[k]) == self.pixels@[(y0 + k / (
                    cw as int)) * w + (x0 + k % (cw as int))],
            decreases ch - y,
        {
            let mut x: u64 = 0;
            proof {
                assert(y * cw <= (SURFACE_LIMIT as int) * (SURFACE_LIMIT as int))
                    by (nonlinear_arith)
                    requires
                        0 <= y <= SURFACE_LIMIT && 0 <= cw <= SURFACE_LIMIT,
                ;
                assert((y + 1) * cw == y * cw + cw) by (nonlinear_arith);
            }
            while x < cw
                invariant
                    x <= cw,
                    y < ch,
                    1 <= cw,
                    x0 + cw <= w && y0 + ch <= self.height,
                    w == self.width,
                    self.wf(),
                    y * cw <= (SURFACE_LIMIT as int) * (SURFACE_LIMIT as int),
                    pixels@.len() == y * cw + x,
                    forall|k: int|
                        0 <= k < pixels@.len() ==> (#[trigger] pixels@[k]) == self.pixels@[(y0 + k
                            / (cw as int)) * w + (x0 + k % (cw as int))],
                decreases cw - x,
            {
                let sx: u64 = x0 + x;
                let sy: u64 = y0 + y;
                proof {
                    assert(sy * w + sx < w * self.height) by (nonlinear_arith)
                        requires
                            0 <= sx < w && 0 <= sy < self.height,
                    ;
                    assert(w * self.height == self.width * self.height);
                    assert(sy * w <= (SURFACE_LIMIT as int) * (SURFACE_LIMIT as int))
                        by (nonlinear_arith)
                        requires
                            0 <= sy <= SURFACE_LIMIT && 0 <= w <= SURFACE_LIMIT,
                    ;
                }
                let src: usize = (sy * w + sx) as usize;
                pixels.push(self.pixels[src]);
                x = x + 1;
                proof {
                    let k = y * cw + x - 1;
                    vstd::arithmetic::div_mod::lemma_fundamental_div_mod_converse(
                        k as int,
                        cw as int,
                        y as int,
                        (x - 1) as int,
                    );
                }
            }
            y = y + 1;
        }
        proof {
            assert(ch * cw == cw * ch) by (nonlinear_arith);
        }
        Surface { width: cw, height: ch, pixels }
    }

    /// The surface's pixels as raw RGBA bytes, four per pixel.
    pub fn to_rgba(&self) -> (r: Vec<u8>)
        requires
            self.wf(),
        ensures
            r@ == spec_surface_rgba(*self),
    {
        let n: usize = self.pixels.len();
        let mut r: Vec<u8> = Vec::new();
        let mut k: usize = 0;
        while k < n
            invariant
                k <= n,
                n == self.pixels@.len(),
                r@.len() == 4 * k,
                forall|j: int|
                    #![auto]
                    0 <= j < k ==> r@[4 * j] == self.pixels@[j].r && r@[4 * j + 1]
                        == self.pixels@[j].g && r@[4 * j + 2] == self.pixels@[j].b && r@[4 * j + 3]
                        == self.pixels@[j].a,
            decreases n - k,
        {
            let c: Color = self.pixels[k];
            r.push(c.r);
            r.push(c.g);
            r.push(c.b);
            r.push(c.a);
            k = k + 1;
        }
        proof {
            assert(r@ =~= spec_surface_rgba(*self));
        }
        r
    }
}

/// The PNG encoding of an RGBA image: a function of the dimensions and
/// pixel bytes alone.
pub uninterp spec fn png_encoding_of(width: u64, height: u64, rgba: Seq<u8>) -> Seq<u8>;

/// The JPEG (quality 100, alpha dropped) encoding of an RGBA image.
pub uninterp spec fn jpeg_encoding_of(width: u64, height: u64, rgba: Seq<u8>) -> Seq<u8>;

/// The GIF encoding of an RGBA image.
pub uninterp spec fn gif_encoding_of(width: u64, height: u64, rgba: Seq<u8>) -> Seq<u8>;

/// The BMP encoding of an RGBA image.
pub uninterp spec fn bmp_encoding_of(width: u64, height: u64, rgba: Seq<u8>) -> Seq<u8>;

/// What decoding a byte stream yields, as RGBA8: a function of the
/// bytes alone.
pub uninterp spec fn decoded_image_of(bytes: Seq<u8>) -> Option<(u64, u64, Seq<u8>)>;

/// Relies on image's PNG encoder (`RgbaImage::write_to` with the PNG
/// format): deterministic in the dimensions and pixel bytes, and it
/// accepts every nonzero size in range with a matching buffer (the
/// in-memory writer cannot fail, and the encoder's only length check is
/// the equality the precondition gives).
#[verifier::external_body]
fn encode_png(width: u64, height: u64, rgba: &Vec<u8>) -> (r: Option<Vec<u8>>)
    requires
        width <= SURFACE_LIMIT,
        height <= SURFACE_LIMIT,
        rgba@.len() == width * height * 4,
    ensures
        r matches Some(b) ==> b@ == png_encoding_of(width, height, rgba@),
        1 <= width && 1 <= height ==> r is Some,
{
    let img = image::RgbaImage::from_raw(width as u32, height as u32, rgba.clone())?;
    let mut buf = std::io::Cursor::new(Vec::new());
    if img.write_to(&mut buf, image::ImageOutputFormat::Png).is_err() {
        return None;
    }
    Some(buf.into_inner())
}

/// Relies on image's JPEG encoder at quality 100; JPEG carries no
/// alpha, so the pixels are reduced to RGB first. The encoder accepts
/// every nonzero size in range (dimensions fit its sixteen-bit frame
/// header) with a matching buffer.
#[verifier::external_body]
fn encode_jpeg(width: u64, height: u64, rgba: &Vec<u8>) -> (r: Option<Vec<u8>>)
    requires
        width <= SURFACE_LIMIT,
        height <= SURFACE_LIMIT,
        rgba@.len() == width * height * 4,
    ensures
        r matches Some(b) ==> b@ == jpeg_encoding_of(width, height, rgba@),
        1 <= width && 1 <= height ==> r is Some,
{
    let img = image::RgbaImage::from_raw(width as u32, height as u32, rgba.clone())?;
    let rgb = image::DynamicImage::ImageRgba8(img).to_rgb8();
    let mut buf = std::io::Cursor::new(Vec::new());
    if rgb.write_to(&mut buf, image::ImageOutputFormat::Jpeg(100)).is_err() {
        return None;
    }
    Some(buf.into_inner())
}

/// Relies on image's GIF encoder, which accepts every nonzero size in
/// range (dimensions fit its sixteen-bit headers) with a matching
/// buffer; its palette quantization is deterministic.
#[verifier::external_body]
fn encode_gif(width: u64, height: u64, rgba: &Vec<u8>) -> (r: Option<Vec<u8>>)
    requires
        width <= SURFACE_LIMIT,
        height <= SURFACE_LIMIT,
        rgba@.len() == width * height * 4,
    ensures
        r matches Some(b) ==> b@ == gif_encoding_of(width, height, rgba@),
        1 <= width && 1 <= height ==> r is Some,
{
    let img = image::RgbaImage::from_raw(width as u32, height as u32, rgba.clone())?;
    let mut buf = std::io::Cursor::new(Vec::new());
    if img.write_to(&mut buf, image::ImageOutputFormat::Gif).is_err() {
        return None;
    }
    Some(buf.into_inner())
}

/// Relies on image's BMP encoder, which accepts every nonzero size in
/// range with a matching buffer (its only size checks are overflow
/// guards far above these bounds).
#[verifier::external_body]
fn encode_bmp(width: u64, height: u64, rgba: &Vec<u8>) -> (r: Option<Vec<u8>>)
    requires
        width <= SURFACE_LIMIT,
        height <= SURFACE_LIMIT,
        rgba@.len() == width * height * 4,
    ensures
        r matches Some(b) ==> b@ == bmp_encoding_of(width, height, rgba@),
        1 <= width && 1 <= height ==> r is Some,
{
    let img = image::RgbaImage::from_raw(width as u32, height as u32, rgba.clone())?;
    let mut buf = std::io::Cursor::new(Vec::new());
    if img.write_to(&mut buf, image::ImageOutputFormat::Bmp).is_err() {
        return None;
    }
    Some(buf.into_inner())
}

/// Relies on image::load_from_memory followed by `to_rgba8`:
/// deterministic in the bytes, and RGBA8 output has four bytes per
/// pixel. The PNG, GIF and BMP decoders are plain deterministic code;
/// for JPEG, this build selects jpeg-decoder's platform-independent
/// scalar path (its feature named so, steered from the manifest), so no
/// machine-specific arithmetic can vary the pixels.
#[verifier::external_body]
pub fn decode_image(bytes: &Vec<u8>) -> (r: Option<(u64, u64, Vec<u8>)>)
    ensures
        match r {
            Some((w, h, p)) => decoded_image_of(bytes@) == Some((w, h, p@)) && p@.len() == w * h
                * 4,
            None => decoded_image_of(bytes@) is None,
        },
{
    let img = match image::load_from_memory(bytes.as_slice()) {
        Ok(i) => i,
        Err(_) => {
            return None;
        },
    };
    let rgba = img.to_rgba8();
    let (w, h) = rgba.dimensions();
    Some((w as u64, h as u64, rgba.into_raw()))
}

/// What export writes for a file destination: the output path and the
/// encoded bytes, chosen by the destination's extension. PNG and JPEG
/// are produced directly; GIF and BMP re-encode the decoded PNG; any
/// other or missing extension falls back to PNG, renaming the file.
pub open spec fn spec_file_export_ok(
    dest: Seq<char>,
    out_path: Seq<char>,
    out_bytes: Seq<u8>,
    w: u64,
    h: u64,
    rgba: Seq<u8>,
) -> bool {
    let png = png_encoding_of(w, h, rgba);
    match crate::save_destination::spec_extension(dest) {
        Some(e) => if e == "png"@ {
            out_path == dest && out_bytes == png
        } else if e == "jpg"@ {
            out_path == dest && out_bytes == jpeg_encoding_of(w, h, rgba)
        } else if e == "gif"@ {
            out_path == dest && (decoded_image_of(png) matches Some((dw, dh, dp)) && out_bytes
                == gif_encoding_of(dw, dh, dp))
        } else if e == "bmp"@ {
            out_path == dest && (decoded_image_of(png) matches Some((dw, dh, dp)) && out_bytes
                == bmp_encoding_of(dw, dh, dp))
        } else {
            out_path == crate::save_destination::spec_with_png_extension(dest) && (decoded_image_of(
                png,
            ) matches Some((dw, dh, dp)) && out_bytes == png_encoding_of(dw, dh, dp))
        },
        None => out_path == crate::save_destination::spec_with_png_extension(dest) && out_bytes
            == png,
    }
}

/// What leaves the library on export: encoded file bytes with their
/// destination path, or raw clipboard pixels. The shell performs the
/// actual file write or clipboard hand-off.
pub enum ExportOutput {
    FileOutput { path: String, bytes: Vec<u8> },
    ClipboardOutput { width: u64, height: u64, rgba: Vec<u8> },
}

/// The export renderer: a native-resolution surface plus the crop area
/// to subset on export.
pub struct Rasterizer {
    /// Corners of the desired cropped area, in image space.
    pub crop_area: (Pos, Pos),
    /// The rendering surface.
    pub surface: Surface,
}

impl Rasterizer {
    pub open spec fn wf(self) -> bool {
        self.surface.wf()
    }

    /// Whether the crop area actually lies on the surface.
    pub open spec fn spec_crop_valid(self) -> bool {
        &&& 0 <= self.crop_area.0.x <= self.crop_area.1.x <= self.surface.width
        &&& 0 <= self.crop_area.0.y <= self.crop_area.1.y <= self.surface.height
    }

    /// Whether the crop area has pixels at all. An empty subset
    /// rectangle cannot be exported and aborts the export.
    pub open spec fn spec_crop_nonempty(self) -> bool {
        self.crop_area.0.x < self.crop_area.1.x && self.crop_area.0.y < self.crop_area.1.y
    }

    /// A new rasterizer with a blank surface of the canvas size.
    pub fn new(canvas_size: (u64, u64), crop_size: (Pos, Pos)) -> (r: Rasterizer)
        requires
            canvas_size.0 <= SURFACE_LIMIT,
            canvas_size.1 <= SURFACE_LIMIT,
        ensures
            r.wf(),
            r.crop_area == crop_size,
            r.surface.width == canvas_size.0,
            r.surface.height == canvas_size.1,
            forall|k: int|
                0 <= k < r.surface.pixels@.len() ==> (#[trigger] r.surface.pixels@[k]) == (Color {
                    r: 0,
                    g: 0,
                    b: 0,
                    a: 0,
                }),
    {
        Rasterizer { crop_area: crop_size, surface: Surface::new(canvas_size.0, canvas_size.1) }
    }

    /// Draw the captured screenshot onto the surface.
    pub fn add_screenshot(&mut self, image: &RawImage, pos: (u64, u64))
        requires
            old(self).wf(),
            image.wf(),
            pos.0 <= SURFACE_LIMIT,
            pos.1 <= SURFACE_LIMIT,
        ensures
            final(self).wf(),
            final(self).crop_area == old(self).crop_area,
            final(self).surface.width == old(self).surface.width,
            final(self).surface.height == old(self).surface.height,
            final(self).surface.pixels@ == spec_blit(
                old(self).surface.pixels@,
                old(self).surface.width as int,
                *image,
                pos.0 as int,
                pos.1 as int,
            ),
    {
        self.surface.blit(image, pos.0, pos.1);
    }

    /// Replay a snapshot annotation list onto the surface at native
    /// stroke widths: the same geometry the interactive renderer shows
    /// at scale factor one.
    pub fn add_annotations(&mut self, annotations: &Vec<Annotation>)
        requires
            old(self).wf(),
            forall|i: int| 0 <= i < annotations@.len() ==> (#[trigger] annotations@[i]).wf(),
        ensures
            final(self).wf(),
            final(self).crop_area == old(self).crop_area,
            final(self).surface.width == old(self).surface.width,
            final(self).surface.height == old(self).surface.height,
            final(self).surface.pixels@ == spec_paint_cmds(
                old(self).surface.pixels@,
                old(self).surface.width as int,
                spec_native_list(annotations@),
            ),
    {
        let cmds: Vec<ShapeCmd> = render_native_list(annotations);
        proof {
            lemma_native_list_in_range(annotations@);
            assert(forall|i: int|
                0 <= i < cmds@.len() ==> spec_cmd_in_range((#[trigger] cmds@[i])@)) by {
                assert(forall|i: int|
                    0 <= i < cmds@.len() ==> (#[trigger] cmds@[i])@ == cmds_model(cmds@)[i]);
            }
        }
        self.surface.paint_cmds(&cmds);
    }

    /// Subset the surface to the crop area and encode for the
    /// destination. `None` is the aborted export: a crop area off the
    /// surface or without pixels, or a failed encode. Success is owed
    /// for a clipboard destination and for the encode-only file paths
    /// (a `png` or `jpg` extension, or none); the `gif`, `bmp` and
    /// unknown-extension paths re-decode this library's own PNG output,
    /// a round trip the codec contracts deliberately leave open, so no
    /// more than the exact bytes on success can be promised there.
    /// The exported pixels hold the shape strokes and fills; text
    /// blocks travel as geometry commands and are not rasterized here
    /// (glyphs need a font engine the shell may own).
    pub fn export(self, dest: SaveDestination) -> (r: Option<ExportOutput>)
        requires
            self.wf(),
        ensures
            !self.spec_crop_valid() ==> r is None,
            !self.spec_crop_nonempty() ==> r is None,
            self.spec_crop_valid() && self.spec_crop_nonempty() && dest is Clipboard ==> r
                is Some,
            self.spec_crop_valid() && self.spec_crop_nonempty() && (dest matches
                SaveDestination::RealPath(d) && (crate::save_destination::spec_extension(d@)
                == Some("png"@) || crate::save_destination::spec_extension(d@) == Some("jpg"@)
                || crate::save_destination::spec_extension(d@) is None)) ==> r is Some,
            match r {
                Some(out) => self.spec_crop_valid() && self.spec_crop_nonempty() && {
                    let cw = (self.crop_area.1.x - self.crop_area.0.x) as u64;
                    let ch = (self.crop_area.1.y - self.crop_area.0.y) as u64;
                    let rgba = spec_cropped_rgba(self);
                    match out {
                        ExportOutput::FileOutput { path, bytes } => (dest matches
                            SaveDestination::RealPath(d) && spec_file_export_ok(
                            d@,
                            path@,
                            bytes@,
                            cw,
                            ch,
                            rgba,
                        )),
                        ExportOutput::ClipboardOutput { width, height, rgba: out_rgba } => dest
                            is Clipboard && width == cw && height == ch && out_rgba@ == rgba,
                    }
                },
                None => true,
            },
    {
        let c0: Pos = self.crop_area.0;
        let c1: Pos = self.crop_area.1;
        if !(0 <= c0.x && c0.x <= c1.x && c1.x <= self.surface.width as i64 && 0 <= c0.y && c0.y
            <= c1.y && c1.y <= self.surface.height as i64) {
            return None;
        }
        if !(c0.x < c1.x && c0.y < c1.y) {
            return None;
        }
        let cw: u64 = (c1.x - c0.x) as u64;
        let ch: u64 = (c1.y - c0.y) as u64;
        let cropped: Surface = self.surface.subset(c0.x as u64, c0.y as u64, cw, ch);
        let rgba: Vec<u8> = cropped.to_rgba();
        proof {
            assert(cropped.pixels@ =~= spec_cropped_pixels(
                self.surface.pixels@,
                self.surface.width as int,
                c0,
                c1,
            ));
            assert(rgba@ == spec_cropped_rgba(self));
            assert(cropped.pixels@.len() == cw * ch);
        }
        match dest {
            SaveDestination::Clipboard => Some(
                ExportOutput::ClipboardOutput { width: cw, height: ch, rgba },
            ),
            SaveDestination::RealPath(path) => {
                proof {
                    reveal_strlit("png");
                    reveal_strlit("jpg");
                    reveal_strlit("gif");
                    reveal_strlit("bmp");
                }
                let ext: Option<String> = crate::save_destination::extension_of(path.as_str());
                match ext {
                    Option::None => {
                        let out_path: String = crate::save_destination::with_png_extension(
                            path.as_str(),
                        );
                        let bytes: Vec<u8> = encode_png(cw, ch, &rgba)?;
                        Some(ExportOutput::FileOutput { path: out_path, bytes })
                    },
                    Option::Some(e) => {
                        if e.eq(&String::from_str("png")) {
                            let bytes: Vec<u8> = encode_png(cw, ch, &rgba)?;
                            Some(ExportOutput::FileOutput { path, bytes })
                        } else if e.eq(&String::from_str("jpg")) {
                            let bytes: Vec<u8> = encode_jpeg(cw, ch, &rgba)?;
                            Some(ExportOutput::FileOutput { path, bytes })
                        } else {
                            let png_bytes: Vec<u8> = encode_png(cw, ch, &rgba)?;
                            let decoded: (u64, u64, Vec<u8>) = decode_image(&png_bytes)?;
                            let (dw, dh, dp): (u64, u64, Vec<u8>) = decoded;
                            if dw > SURFACE_LIMIT || dh > SURFACE_LIMIT {
                                return None;
                            }
                            if e.eq(&String::from_str("gif")) {
                                let bytes: Vec<u8> = encode_gif(dw, dh, &dp)?;
                                Some(ExportOutput::FileOutput { path, bytes })
                            } else if e.eq(&String::from_str("bmp")) {
                                let bytes: Vec<u8> = encode_bmp(dw, dh, &dp)?;
                                Some(ExportOutput::FileOutput { path, bytes })
                            } else {
                                let out_path: String =
                                    crate::save_destination::with_png_extension(path.as_str());
                                let bytes: Vec<u8> = encode_png(dw, dh, &dp)?;
                                Some(ExportOutput::FileOutput { path: out_path, bytes })
                            }
                        }
                    },
                }
            },
        }
    }
}

/// The pixels of a crop area of a pixel grid, row-major.
pub open spec fn spec_cropped_pixels(pixels: Seq<Color>, width: int, c0: Pos, c1: Pos) -> Seq<
    Color,
> {
    let cw = c1.x - c0.x;
    let ch = c1.y - c0.y;
    Seq::new((cw * ch) as nat, |k: int| pixels[(c0.y + k / cw) * width + (c0.x + k % cw)])
}

/// The RGBA bytes of a crop area of a pixel grid.
pub open spec fn spec_cropped_rgba_of(pixels: Seq<Color>, width: int, c0: Pos, c1: Pos) -> Seq<
    u8,
> {
    spec_rgba_of(spec_cropped_pixels(pixels, width, c0, c1))
}

/// The RGBA bytes of the crop area of a rasterizer's surface.
pub open spec fn spec_cropped_rgba(r: Rasterizer) -> Seq<u8> {
    spec_cropped_rgba_of(
        r.surface.pixels@,
        r.surface.width as int,
        r.crop_area.0,
        r.crop_area.1,
    )
}

/// Every command of a whole native command list stays in the painter's
/// range.
pub proof fn lemma_native_list_in_range(s: Seq<Annotation>)
    requires
        forall|i: int| 0 <= i < s.len() ==> (#[trigger] s[i]).wf(),
    ensures
        forall|i: int|
            0 <= i < spec_native_list(s).len() ==> spec_cmd_in_range(
                #[trigger] spec_native_list(s)[i],
            ),
    decreases s.len(),
{
    if s.len() > 0 {
        lemma_native_list_in_range(s.drop_last());
        lemma_native_cmds_in_range(s.last());
        let pre = spec_native_list(s.drop_last());
        let tail = spec_render_native(s.last());
        assert forall|i: int| 0 <= i < spec_native_list(s).len() implies spec_cmd_in_range(
            spec_native_list(s)[i],
        ) by {
            if i < pre.len() {
                assert(spec_native_list(s)[i] == pre[i]);
            } else {
                assert(spec_native_list(s)[i] == tail[i - pre.len()]);
            }
        }
    }
}

/// The raw RGBA bytes of a pixel sequence, four per pixel.
pub open spec fn spec_rgba_of(pixels: Seq<Color>) -> Seq<u8> {
    Seq::new(
        4 * pixels.len(),
        |j: int|
            {
                let p = pixels[j / 4];
                if j % 4 == 0 {
                    p.r
                } else if j % 4 == 1 {
                    p.g
                } else if j % 4 == 2 {
                    p.b
                } else {
                    p.a
                }
            },
    )
}

/// The raw RGBA bytes of a surface.
pub open spec fn spec_surface_rgba(s: Surface) -> Seq<u8> {
    spec_rgba_of(s.pixels@)
}

} // verus!
