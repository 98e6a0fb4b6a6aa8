//! The annotation model: a closed sum type of geometric records, one per
//! drawing tool, plus the two history-bearing variants `Eraser` and `Crop`.
//!
//! Every variant stores its geometry in image space. An `Eraser` records
//! what was deleted and at which list index it lived; a finished `Crop` is
//! a historical marker that renders nothing.

use vstd::prelude::*;

use crate::geometry::{
    Bounds, Color, Pos, COORD_LIMIT, pos_wf, spec_dist2, spec_isqrt, dist2, isqrt, div_tz,
    spec_div_tz,
};

verus! {

/// One annotation: exactly one variant is active per value.
#[derive(Debug)]
pub enum Annotation {
    Segment(SegmentAnnotation),
    Circle(CircleAnnotation),
    Rect(RectAnnotation),
    Arrow(ArrowAnnotation),
    Pencil(PencilAnnotation),
    Text(TextAnnotation),
    Eraser(EraserAnnotation),
    Crop(CropAnnotation),
    Highlighter(HighlighterAnnotation),
}

#[derive(Clone, Copy, Debug, PartialEq, Eq, Structural)]
pub struct SegmentAnnotation {
    pub starting_pos: Pos,
    pub ending_pos: Pos,
    pub color: Color,
    pub width: i64,
}

#[derive(Clone, Copy, Debug, PartialEq, Eq, Structural)]
pub struct CircleAnnotation {
    pub center: Pos,
    pub radius: i64,
    pub color: Color,
    pub width: i64,
    pub fill_color: Color,
}

#[derive(Clone, Copy, Debug, PartialEq, Eq, Structural)]
pub struct RectAnnotation {
    pub p1: Pos,
    pub p2: Pos,
    pub color: Color,
    pub width: i64,
    pub fill_color: Color,
}

/// The two line segments of an arrow head, materialized once on commit so
/// that later renders cannot jitter.
#[derive(Clone, Copy, Debug, PartialEq)]
pub struct Tip {
    pub line1: (Pos, Pos),
    pub line2: (Pos, Pos),
}

#[derive(Clone, Copy, Debug, PartialEq)]
pub struct ArrowAnnotation {
    pub starting_pos: Pos,
    pub ending_pos: Pos,
    pub color: Color,
    pub width: i64,
    pub tip: Tip,
}

#[derive(Debug)]
pub struct TextAnnotation {
    pub pos: Pos,
    pub text: String,
    pub size: i64,
    pub color: Color,
}

#[derive(Debug)]
pub struct PencilAnnotation {
    pub points: Vec<Pos>,
    pub color: Color,
    pub width: i64,
}

#[derive(Debug)]
pub struct HighlighterAnnotation {
    pub points: Vec<Pos>,
    pub color: Color,
    pub width: i64,
}

/// Records what was deleted and where it lived in the annotation list.
#[derive(Debug)]
pub struct EraserAnnotation {
    pub annotation: Box<Annotation>,
    pub index: usize,
}

/// Corners of a crop, in the current image coordinate space.
/// `resizing` is true during the initial drag-to-define phase; `finished`
/// is true once the crop was committed.
#[derive(Clone, Copy, Debug, PartialEq, Eq, Structural)]
pub struct CropAnnotation {
    pub p1: Pos,
    pub p2: Pos,
    pub resizing: bool,
    pub finished: bool,
}

/// The label of one of the eight crop resize handles.
#[derive(Clone, Copy, Debug, PartialEq, Eq, Structural)]
pub enum Position {
    LeftTop,
    CenterTop,
    RightTop,
    LeftCenter,
    RightCenter,
    LeftBottom,
    CenterBottom,
    RightBottom,
}

/// A crop resize handle: its screen position and which handle it is.
#[derive(Clone, Copy, Debug, PartialEq, Eq, Structural)]
pub struct ControlPoint {
    pub pos: Pos,
    pub label: Position,
}

impl ControlPoint {
    pub fn new(pos: Pos, label: Position) -> (r: ControlPoint)
        ensures
            r == (ControlPoint { pos, label }),
    {
        ControlPoint { pos, label }
    }
}

/// Upper bound on a circle radius: the diagonal of the coordinate box.
pub open spec fn radius_limit() -> int {
    3 * COORD_LIMIT
}

pub open spec fn width_wf(w: i64) -> bool {
    0 <= w <= COORD_LIMIT
}

impl SegmentAnnotation {
    pub open spec fn wf(self) -> bool {
        pos_wf(self.starting_pos) && pos_wf(self.ending_pos) && width_wf(self.width)
    }
}

impl CircleAnnotation {
    pub open spec fn wf(self) -> bool {
        pos_wf(self.center) && 0 <= self.radius <= radius_limit() && width_wf(self.width)
    }
}

impl RectAnnotation {
    pub open spec fn wf(self) -> bool {
        pos_wf(self.p1) && pos_wf(self.p2) && width_wf(self.width)
    }
}

/// A tip point may stick out up to one coordinate box beyond the body.
pub open spec fn tip_pos_wf(p: Pos) -> bool {
    -2 * COORD_LIMIT <= p.x <= 2 * COORD_LIMIT && -2 * COORD_LIMIT <= p.y <= 2 * COORD_LIMIT
}

impl ArrowAnnotation {
    pub open spec fn wf(self) -> bool {
        &&& pos_wf(self.starting_pos)
        &&& pos_wf(self.ending_pos)
        &&& width_wf(self.width)
        &&& tip_pos_wf(self.tip.line1.0)
        &&& tip_pos_wf(self.tip.line1.1)
        &&& tip_pos_wf(self.tip.line2.0)
        &&& tip_pos_wf(self.tip.line2.1)
    }
}

impl TextAnnotation {
    pub open spec fn wf(self) -> bool {
        pos_wf(self.pos) && 0 <= self.size <= COORD_LIMIT
    }
}

impl PencilAnnotation {
    pub open spec fn wf(self) -> bool {
        &&& width_wf(self.width)
        &&& forall|i: int| 0 <= i < self.points@.len() ==> pos_wf(#[trigger] self.points@[i])
    }
}

impl HighlighterAnnotation {
    pub open spec fn wf(self) -> bool {
        &&& width_wf(self.width)
        &&& forall|i: int| 0 <= i < self.points@.len() ==> pos_wf(#[trigger] self.points@[i])
    }
}

impl CropAnnotation {
    pub open spec fn wf(self) -> bool {
        pos_wf(self.p1) && pos_wf(self.p2)
    }
}

impl Annotation {
    /// Well-formedness: all stored geometry lies within the coordinate
    /// box, and what an eraser recorded is itself well-formed.
    pub open spec fn wf(self) -> bool
        decreases self,
    {
        match self {
            Annotation::Segment(s) => s.wf(),
            Annotation::Circle(c) => c.wf(),
            Annotation::Rect(r) => r.wf(),
            Annotation::Arrow(a) => a.wf(),
            Annotation::Pencil(p) => p.wf(),
            Annotation::Text(t) => t.wf(),
            Annotation::Eraser(e) => e.annotation.wf(),
            Annotation::Crop(c) => c.wf(),
            Annotation::Highlighter(h) => h.wf(),
        }
    }

    /// A degenerate shape has zero visual extent at drag-release and is
    /// silently discarded instead of committed.
    pub open spec fn spec_degenerate(self) -> bool {
        match self {
            Annotation::Segment(s) => s.starting_pos == s.ending_pos,
            Annotation::Circle(c) => c.radius == 0,
            Annotation::Rect(r) => r.p1 == r.p2,
            Annotation::Arrow(a) => a.starting_pos == a.ending_pos,
            Annotation::Pencil(p) => p.points@.len() <= 1,
            Annotation::Text(_) => false,
            Annotation::Eraser(_) => false,
            Annotation::Crop(c) => c.p1 == c.p2,
            Annotation::Highlighter(h) => h.points@.len() <= 1,
        }
    }

    pub fn is_degenerate(&self) -> (r: bool)
        ensures
            r == self.spec_degenerate(),
    {
        match self {
            Annotation::Segment(s) => s.starting_pos == s.ending_pos,
            Annotation::Circle(c) => c.radius == 0,
            Annotation::Rect(r) => r.p1 == r.p2,
            Annotation::Arrow(a) => a.starting_pos == a.ending_pos,
            Annotation::Pencil(p) => p.points.len() <= 1,
            Annotation::Text(_) => false,
            Annotation::Eraser(_) => false,
            Annotation::Crop(c) => c.p1 == c.p2,
            Annotation::Highlighter(h) => h.points.len() <= 1,
        }
    }

    /// A new segment, degenerate until the drag moves its end point.
    pub fn segment(starting: Pos, color: Color, width: i64) -> (r: Annotation)
        ensures
            r == Annotation::Segment(
                SegmentAnnotation { starting_pos: starting, ending_pos: starting, color, width },
            ),
    {
        Annotation::Segment(SegmentAnnotation::new(starting, color, width))
    }

    pub fn circle(center: Pos, color: Color, thickness: i64, fill_color: Color) -> (r: Annotation)
        ensures
            r == Annotation::Circle(
                CircleAnnotation { center, radius: 0, color, width: thickness, fill_color },
            ),
    {
        Annotation::Circle(CircleAnnotation::new(center, color, thickness, fill_color))
    }

    pub fn rect(pos: Pos, color: Color, fill_color: Color, thickness: i64) -> (r: Annotation)
        ensures
            r == Annotation::Rect(
                RectAnnotation { p1: pos, p2: pos, color, width: thickness, fill_color },
            ),
    {
        Annotation::Rect(RectAnnotation::new(pos, pos, thickness, color, fill_color))
    }

    pub fn arrow(starting: Pos, color: Color, thickness: i64) -> (r: Annotation)
        ensures
            r == Annotation::Arrow(
                ArrowAnnotation {
                    starting_pos: starting,
                    ending_pos: starting,
                    color,
                    width: thickness,
                    tip: Tip::spec_zero(),
                },
            ),
    {
        Annotation::Arrow(ArrowAnnotation::new(starting, color, thickness))
    }

    pub fn pencil(starting: Pos, color: Color, width: i64) -> (r: Annotation)
        ensures
            r matches Annotation::Pencil(p) && p.points@ == seq![starting] && p.color == color
                && p.width == width,
    {
        Annotation::Pencil(PencilAnnotation::new(starting, color, width))
    }

    pub fn highlighter(starting: Pos, color: Color, width: i64) -> (r: Annotation)
        ensures
            r matches Annotation::Highlighter(h) && h.points@ == seq![starting] && h.color == color
                && h.width == width,
    {
        Annotation::Highlighter(HighlighterAnnotation::new(starting, color, width))
    }

    pub fn text(pos: Pos, color: Color, font_size: i64) -> (r: Annotation)
        ensures
            r matches Annotation::Text(t) && t.pos == pos && t.text@ == Seq::<char>::empty()
                && t.size == font_size && t.color == color,
    {
        Annotation::Text(TextAnnotation::new(pos, color, font_size))
    }

    pub fn eraser(annotation: Annotation, index: usize) -> (r: Annotation)
        ensures
            r matches Annotation::Eraser(e) && *e.annotation == annotation && e.index == index,
    {
        Annotation::Eraser(EraserAnnotation::new(index, Box::new(annotation)))
    }

    pub fn crop(pos: Pos) -> (r: Annotation)
        ensures
            r == Annotation::Crop(
                CropAnnotation { p1: pos, p2: pos, resizing: true, finished: false },
            ),
    {
        Annotation::Crop(CropAnnotation::new(pos, pos))
    }
}

impl SegmentAnnotation {
    pub fn new(starting: Pos, color: Color, width: i64) -> (r: SegmentAnnotation)
        ensures
            r == (SegmentAnnotation {
                starting_pos: starting,
                ending_pos: starting,
                color,
                width,
            }),
    {
        SegmentAnnotation { starting_pos: starting, ending_pos: starting, color, width }
    }

    pub fn update_ending(&mut self, updating: Pos)
        ensures
            *final(self) == (SegmentAnnotation { ending_pos: updating, ..*old(self) }),
    {
        self.ending_pos = updating;
    }
}

impl CircleAnnotation {
    pub fn new(center: Pos, color: Color, width: i64, fill_color: Color) -> (r: CircleAnnotation)
        ensures
            r == (CircleAnnotation { center, radius: 0, color, width, fill_color }),
    {
        CircleAnnotation { center, radius: 0, color, width, fill_color }
    }

    pub fn update_center(&mut self, center: Pos)
        ensures
            *final(self) == (CircleAnnotation { center, ..*old(self) }),
    {
        self.center = center;
    }

    /// Set the radius to the integer distance from the center to `pos`.
    pub fn update_radius(&mut self, pos: Pos)
        requires
            pos_wf(old(self).center),
            pos_wf(pos),
        ensures
            *final(self) == (CircleAnnotation {
                radius: spec_isqrt(spec_dist2(old(self).center, pos) as nat) as i64,
                ..*old(self)
            }),
            0 <= final(self).radius <= radius_limit(),
    {
        let d2: u64 = dist2(self.center, pos);
        proof {
            let dx = pos.x - self.center.x;
            let dy = pos.y - self.center.y;
            assert(dx * dx + dy * dy <= 8 * COORD_LIMIT * COORD_LIMIT) by (nonlinear_arith)
                requires
                    -2 * COORD_LIMIT <= dx <= 2 * COORD_LIMIT,
                    -2 * COORD_LIMIT <= dy <= 2 * COORD_LIMIT,
            ;
        }
        let r: u64 = isqrt(d2);
        proof {
            assert(r <= 3 * COORD_LIMIT) by (nonlinear_arith)
                requires
                    0 <= r,
                    r * r <= 8 * COORD_LIMIT * COORD_LIMIT,
            ;
        }
        self.radius = r as i64;
    }
}

impl RectAnnotation {
    pub fn new(p1: Pos, p2: Pos, width: i64, color: Color, fill_color: Color) -> (r:
        RectAnnotation)
        ensures
            r == (RectAnnotation { p1, p2, color, width, fill_color }),
    {
        RectAnnotation { p1, p2, color, width, fill_color }
    }

    pub fn update_p2(&mut self, p2: Pos)
        ensures
            *final(self) == (RectAnnotation { p2, ..*old(self) }),
    {
        self.p2 = p2;
    }

    pub fn update_color(&mut self, color: Color)
        ensures
            *final(self) == (RectAnnotation { color, ..*old(self) }),
    {
        self.color = color;
    }
}

impl Tip {
    /// The tip of a not-yet-consolidated arrow: four coincident points at
    /// the origin.
    pub fn zero() -> (r: Tip)
        ensures
            r == Tip::spec_zero(),
    {
        let o = Pos { x: 0, y: 0 };
        Tip { line1: (o, o), line2: (o, o) }
    }

    pub open spec fn spec_zero() -> Tip {
        let o = Pos { x: 0, y: 0 };
        Tip { line1: (o, o), line2: (o, o) }
    }

    pub fn set_line1(&mut self, line1: (Pos, Pos))
        ensures
            *final(self) == (Tip { line1, ..*old(self) }),
    {
        self.line1 = line1;
    }

    pub fn set_line2(&mut self, line2: (Pos, Pos))
        ensures
            *final(self) == (Tip { line2, ..*old(self) }),
    {
        self.line2 = line2;
    }
}

impl ArrowAnnotation {
    pub fn new(starting: Pos, color: Color, width: i64) -> (r: ArrowAnnotation)
        ensures
            r == (ArrowAnnotation {
                starting_pos: starting,
                ending_pos: starting,
                color,
                width,
                tip: Tip::spec_zero(),
            }),
    {
        ArrowAnnotation {
            starting_pos: starting,
            ending_pos: starting,
            color,
            width,
            tip: Tip::zero(),
        }
    }

    pub fn update_ending(&mut self, updating: Pos)
        ensures
            *final(self) == (ArrowAnnotation { ending_pos: updating, ..*old(self) }),
    {
        self.ending_pos = updating;
    }

    /// The arrow's tip is consolidated once its stored head matches the
    /// head the tip formula yields for its current body.
    pub open spec fn spec_consolidated(self) -> bool {
        self.tip == spec_tip_of(self.starting_pos, self.ending_pos)
    }

    /// Materialize the tip geometry from the current body, so that later
    /// renders are stable. Done once, at commit time.
    pub fn consolidate(&mut self)
        requires
            pos_wf(old(self).starting_pos),
            pos_wf(old(self).ending_pos),
        ensures
            *final(self) == (ArrowAnnotation {
                tip: spec_tip_of(old(self).starting_pos, old(self).ending_pos),
                ..*old(self)
            }),
            final(self).spec_consolidated(),
            tip_pos_wf(final(self).tip.line1.0),
            tip_pos_wf(final(self).tip.line1.1),
            tip_pos_wf(final(self).tip.line2.0),
            tip_pos_wf(final(self).tip.line2.1),
    {
        self.tip = compute_tip(self.starting_pos, self.ending_pos);
    }
}

/// Compute the arrow head for a body from `start` to `end`. Its points
/// reach out at most one coordinate box beyond the end point.
pub fn compute_tip(start: Pos, end: Pos) -> (r: Tip)
    requires
        pos_wf(start),
        pos_wf(end),
    ensures
        r == spec_tip_of(start, end),
        -2 * COORD_LIMIT <= r.line1.0.x <= 2 * COORD_LIMIT,
        -2 * COORD_LIMIT <= r.line1.0.y <= 2 * COORD_LIMIT,
        -2 * COORD_LIMIT <= r.line1.1.x <= 2 * COORD_LIMIT,
        -2 * COORD_LIMIT <= r.line1.1.y <= 2 * COORD_LIMIT,
        -2 * COORD_LIMIT <= r.line2.0.x <= 2 * COORD_LIMIT,
        -2 * COORD_LIMIT <= r.line2.0.y <= 2 * COORD_LIMIT,
        -2 * COORD_LIMIT <= r.line2.1.x <= 2 * COORD_LIMIT,
        -2 * COORD_LIMIT <= r.line2.1.y <= 2 * COORD_LIMIT,
{
    let dx: i64 = end.x - start.x;
    let dy: i64 = end.y - start.y;
    let d2: u64 = dist2(start, end);
    let len: u64 = isqrt(d2);
    if len == 0 {
        Tip { line1: (end, end), line2: (end, end) }
    } else {
        proof {
            assert(dx * dx + dy * dy <= 8 * COORD_LIMIT * COORD_LIMIT) by (nonlinear_arith)
                requires
                    -2 * COORD_LIMIT <= dx <= 2 * COORD_LIMIT,
                    -2 * COORD_LIMIT <= dy <= 2 * COORD_LIMIT,
            ;
            assert(len <= 3 * COORD_LIMIT) by (nonlinear_arith)
                requires
                    0 <= len,
                    len * len <= 8 * COORD_LIMIT * COORD_LIMIT,
            ;
        }
        let tip_len: i64 = (len / 4) as i64;
        let li: i64 = len as i64;
        let u1x: i64 = 809 * dx - 588 * dy;
        let u1y: i64 = 588 * dx + 809 * dy;
        let u2x: i64 = 809 * dx + 588 * dy;
        let u2y: i64 = 809 * dy - 588 * dx;
        proof {
            lemma_tip_product_bound(tip_len as int, u1x as int);
            lemma_tip_product_bound(tip_len as int, u1y as int);
            lemma_tip_product_bound(tip_len as int, u2x as int);
            lemma_tip_product_bound(tip_len as int, u2y as int);
        }
        let q1x: i64 = div_tz(tip_len * u1x, 1000 * li);
        let q1y: i64 = div_tz(tip_len * u1y, 1000 * li);
        let q2x: i64 = div_tz(tip_len * u2x, 1000 * li);
        let q2y: i64 = div_tz(tip_len * u2y, 1000 * li);
        proof {
            lemma_tip_quotient_in_box(tip_len as int, u1x as int, li as int);
            lemma_tip_quotient_in_box(tip_len as int, u1y as int, li as int);
            lemma_tip_quotient_in_box(tip_len as int, u2x as int, li as int);
            lemma_tip_quotient_in_box(tip_len as int, u2y as int, li as int);
        }
        let e1: Pos = Pos { x: end.x - q1x, y: end.y - q1y };
        let e2: Pos = Pos { x: end.x - q2x, y: end.y - q2y };
        Tip { line1: (end, e1), line2: (end, e2) }
    }
}

/// A tip offset is at most one coordinate box long: the numerator stays
/// under `1000 * len` times the box.
proof fn lemma_tip_quotient_in_box(t: int, u: int, len: int)
    requires
        1 <= len,
        0 <= t,
        4 * t <= len,
        -2794 * COORD_LIMIT <= u <= 2794 * COORD_LIMIT,
    ensures
        -COORD_LIMIT <= spec_div_tz(t * u, 1000 * len) <= COORD_LIMIT,
{
    assert(-((1000 * len) * COORD_LIMIT) <= t * u <= (1000 * len) * COORD_LIMIT)
        by (nonlinear_arith)
        requires
            1 <= len,
            0 <= t,
            4 * t <= len,
            -2794 * COORD_LIMIT <= u <= 2794 * COORD_LIMIT,
    ;
    crate::geometry::lemma_div_tz_quotient_bound(t * u, 1000 * len, COORD_LIMIT as int);
}

/// The head of an arrow from `start` to `end`: two segments leaving the
/// end point, each a quarter of the body's length, rotated 36 degrees to
/// either side of the body (cos/sin in fixed-point thousandths).
pub open spec fn spec_tip_of(start: Pos, end: Pos) -> Tip {
    let dx = end.x - start.x;
    let dy = end.y - start.y;
    let len = spec_isqrt(spec_dist2(start, end) as nat) as int;
    if len == 0 {
        Tip { line1: (end, end), line2: (end, end) }
    } else {
        let tip_len = len / 4;
        let e1 = Pos {
            x: (end.x - spec_div_tz(tip_len * (809 * dx - 588 * dy), 1000 * len)) as i64,
            y: (end.y - spec_div_tz(tip_len * (588 * dx + 809 * dy), 1000 * len)) as i64,
        };
        let e2 = Pos {
            x: (end.x - spec_div_tz(tip_len * (809 * dx + 588 * dy), 1000 * len)) as i64,
            y: (end.y - spec_div_tz(tip_len * (809 * dy - 588 * dx), 1000 * len)) as i64,
        };
        Tip { line1: (end, e1), line2: (end, e2) }
    }
}

/// A tip numerator stays far inside the i64 range.
proof fn lemma_tip_product_bound(t: int, u: int)
    requires
        0 <= t <= COORD_LIMIT,
        -2794 * COORD_LIMIT <= u <= 2794 * COORD_LIMIT,
    ensures
        -3 * COORD_LIMIT * 2794 * COORD_LIMIT <= t * u <= 3 * COORD_LIMIT * 2794 * COORD_LIMIT,
        -0x4000_0000_0000_0000 <= t * u <= 0x4000_0000_0000_0000,
{
    assert(-3 * COORD_LIMIT * 2794 * COORD_LIMIT <= t * u <= 3 * COORD_LIMIT * 2794 * COORD_LIMIT)
        by (nonlinear_arith)
        requires
            0 <= t <= COORD_LIMIT,
            -2794 * COORD_LIMIT <= u <= 2794 * COORD_LIMIT,
    ;
}

impl TextAnnotation {
    pub fn new(pos: Pos, color: Color, font_size: i64) -> (r: TextAnnotation)
        ensures
            r.pos == pos && r.text@ == Seq::<char>::empty() && r.size == font_size && r.color
                == color,
    {
        TextAnnotation { pos, text: String::new(), size: font_size, color }
    }

    /// Append typed text to the annotation while it is being edited.
    pub fn update_text(&mut self, new_text: &String)
        ensures
            final(self).text@ == old(self).text@ + new_text@,
            final(self).pos == old(self).pos,
            final(self).size == old(self).size,
            final(self).color == old(self).color,
    {
        self.text.append(new_text.as_str());
    }

    /// Remove the last character, if any (backspace).
    pub fn delete_char(&mut self)
        ensures
            old(self).text@.len() == 0 ==> final(self).text@ == old(self).text@,
            old(self).text@.len() > 0 ==> final(self).text@ == old(self).text@.drop_last(),
            final(self).pos == old(self).pos,
            final(self).size == old(self).size,
            final(self).color == old(self).color,
    {
        let n: usize = self.text.as_str().unicode_len();
        if n > 0 {
            let shorter: String = String::from_str(self.text.as_str().substring_char(0, n - 1));
            proof {
                assert(shorter@ =~= self.text@.drop_last());
            }
            self.text = shorter;
        }
    }
}

impl PencilAnnotation {
    pub fn new(pos: Pos, color: Color, width: i64) -> (r: PencilAnnotation)
        ensures
            r.points@ == seq![pos] && r.color == color && r.width == width,
    {
        let mut points: Vec<Pos> = Vec::new();
        points.push(pos);
        proof {
            assert(points@ =~= seq![pos]);
        }
        PencilAnnotation { points, color, width }
    }

    /// Record the next drag point; a point equal to the last is dropped.
    pub fn update_points(&mut self, pos: Pos)
        ensures
            final(self).color == old(self).color && final(self).width == old(self).width,
            old(self).points@.len() > 0 && old(self).points@.last() == pos ==> final(self).points@
                == old(self).points@,
            !(old(self).points@.len() > 0 && old(self).points@.last() == pos)
                ==> final(self).points@ == old(self).points@.push(pos),
    {
        if self.points.len() > 0 {
            let last: &Pos = &self.points[self.points.len() - 1];
            if pos == *last {
                return ;
            }
        }
        self.points.push(pos);
    }
}

impl HighlighterAnnotation {
    pub fn new(pos: Pos, color: Color, width: i64) -> (r: HighlighterAnnotation)
        ensures
            r.points@ == seq![pos] && r.color == color && r.width == width,
    {
        let mut points: Vec<Pos> = Vec::new();
        points.push(pos);
        proof {
            assert(points@ =~= seq![pos]);
        }
        HighlighterAnnotation { points, color, width }
    }

    /// Record the next drag point; a point equal to the last is dropped.
    pub fn update_points(&mut self, pos: Pos)
        ensures
            final(self).color == old(self).color && final(self).width == old(self).width,
            old(self).points@.len() > 0 && old(self).points@.last() == pos ==> final(self).points@
                == old(self).points@,
            !(old(self).points@.len() > 0 && old(self).points@.last() == pos)
                ==> final(self).points@ == old(self).points@.push(pos),
    {
        if self.points.len() > 0 {
            let last: &Pos = &self.points[self.points.len() - 1];
            if pos == *last {
                return ;
            }
        }
        self.points.push(pos);
    }
}

impl EraserAnnotation {
    pub fn new(index: usize, annotation: Box<Annotation>) -> (r: EraserAnnotation)
        ensures
            r.index == index && r.annotation == annotation,
    {
        EraserAnnotation { index, annotation }
    }
}

impl CropAnnotation {
    pub fn new(p1: Pos, p2: Pos) -> (r: CropAnnotation)
        ensures
            r == (CropAnnotation { p1, p2, resizing: true, finished: false }),
    {
        CropAnnotation { p1, p2, resizing: true, finished: false }
    }

    /// Re-normalize the two corners to (min, max) order.
    pub fn reset_points(&mut self)
        ensures
            *final(self) == (CropAnnotation {
                p1: Bounds::spec_from_two_pos(old(self).p1, old(self).p2).min,
                p2: Bounds::spec_from_two_pos(old(self).p1, old(self).p2).max,
                ..*old(self)
            }),
    {
        let rect: Bounds = Bounds::from_two_pos(self.p1, self.p2);
        self.p1 = rect.min;
        self.p2 = rect.max;
    }

    pub fn update(&mut self, pos: Pos)
        ensures
            *final(self) == (CropAnnotation { p2: pos, ..*old(self) }),
    {
        self.p2 = pos;
    }

    pub fn update_resize(&mut self, value: bool)
        ensures
            *final(self) == (CropAnnotation { resizing: value, ..*old(self) }),
    {
        self.resizing = value;
    }

    pub fn update_finished(&mut self, value: bool)
        ensures
            *final(self) == (CropAnnotation { finished: value, ..*old(self) }),
    {
        self.finished = value;
    }

    /// The normalized rectangle the crop covers.
    pub fn get_rect(&self) -> (r: Bounds)
        ensures
            r == Bounds::spec_from_two_pos(self.p1, self.p2),
    {
        Bounds::from_two_pos(self.p1, self.p2)
    }
}

/// The smallest box holding every point of a non-empty list, built from
/// the front.
pub open spec fn spec_points_box(s: Seq<Pos>) -> Bounds
    recommends
        s.len() >= 1,
    decreases s.len(),
{
    if s.len() <= 1 {
        Bounds { min: s[0], max: s[0] }
    } else {
        let b = spec_points_box(s.drop_last());
        let p = s.last();
        Bounds {
            min: Pos {
                x: crate::geometry::spec_min_i64(b.min.x, p.x),
                y: crate::geometry::spec_min_i64(b.min.y, p.y),
            },
            max: Pos {
                x: crate::geometry::spec_max_i64(b.max.x, p.x),
                y: crate::geometry::spec_max_i64(b.max.y, p.y),
            },
        }
    }
}

fn points_box(points: &Vec<Pos>) -> (r: Bounds)
    requires
        points@.len() >= 1,
    ensures
        r == spec_points_box(points@),
{
    let mut b: Bounds = Bounds { min: points[0], max: points[0] };
    let mut i: usize = 1;
    proof {
        assert(points@.subrange(0, 1) =~= seq![points@[0]]);
        assert(b == spec_points_box(points@.subrange(0, 1)));
    }
    while i < points.len()
        invariant
            1 <= i <= points@.len(),
            b == spec_points_box(points@.subrange(0, i as int)),
        decreases points@.len() - i,
    {
        let p: Pos = points[i];
        b = Bounds {
            min: Pos {
                x: crate::geometry::min_i64(b.min.x, p.x),
                y: crate::geometry::min_i64(b.min.y, p.y),
            },
            max: Pos {
                x: crate::geometry::max_i64(b.max.x, p.x),
                y: crate::geometry::max_i64(b.max.y, p.y),
            },
        };
        i = i + 1;
        proof {
            let pre = points@.subrange(0, i as int);
            assert(pre.drop_last() =~= points@.subrange(0, i - 1));
            assert(pre.last() == points@[i - 1]);
        }
    }
    proof {
        assert(points@.subrange(0, points@.len() as int) =~= points@);
    }
    b
}

/// The number of times `c` occurs in `s`.
pub open spec fn spec_count_char(s: Seq<char>, c: char) -> int
    decreases s.len(),
{
    if s.len() == 0 {
        0
    } else {
        spec_count_char(s.drop_last(), c) + if s.last() == c {
            1int
        } else {
            0int
        }
    }
}

proof fn lemma_count_char_bound(s: Seq<char>, c: char)
    ensures
        0 <= spec_count_char(s, c) <= s.len(),
    decreases s.len(),
{
    if s.len() > 0 {
        lemma_count_char_bound(s.drop_last(), c);
    }
}

fn count_char(s: &str, c: char) -> (r: u64)
    requires
        s@.len() <= u64::MAX,
    ensures
        r == spec_count_char(s@, c),
{
    let n: usize = s.unicode_len();
    let mut i: usize = 0;
    let mut r: u64 = 0;
    while i < n
        invariant
            0 <= i <= n,
            n == s@.len(),
            s@.len() <= u64::MAX,
            r == spec_count_char(s@.subrange(0, i as int), c),
        decreases n - i,
    {
        proof {
            lemma_count_char_bound(s@.subrange(0, i as int), c);
        }
        let ch: char = s.get_char(i);
        i = i + 1;
        proof {
            let pre = s@.subrange(0, i as int);
            assert(pre.drop_last() =~= s@.subrange(0, i - 1));
            assert(pre.last() == s@[i - 1]);
        }
        if ch == c {
            r = r + 1;
        }
    }
    proof {
        assert(s@.subrange(0, s@.len() as int) =~= s@);
    }
    r
}

/// Cap for the estimated extent of a text block's box.
pub open spec fn text_extent_cap() -> int {
    8 * COORD_LIMIT
}

pub open spec fn spec_min_int(a: int, b: int) -> int {
    if a <= b {
        a
    } else {
        b
    }
}

impl TextAnnotation {
    /// The estimated visual box of a text block under a monospace metric:
    /// three fifths of an em per character wide, one em per line high.
    pub open spec fn spec_text_box(self) -> Bounds {
        let w = spec_min_int(3 * self.size * self.text@.len() / 5, text_extent_cap());
        let h = spec_min_int(
            self.size * (1 + spec_count_char(self.text@, '\n')),
            text_extent_cap(),
        );
        Bounds {
            min: self.pos,
            max: Pos { x: (self.pos.x + w) as i64, y: (self.pos.y + h) as i64 },
        }
    }

    pub fn text_box(&self) -> (r: Bounds)
        requires
            self.wf(),
        ensures
            r == self.spec_text_box(),
            r.min == self.pos,
            self.pos.x <= r.max.x <= self.pos.x + text_extent_cap(),
            self.pos.y <= r.max.y <= self.pos.y + text_extent_cap(),
    {
        let len: u64 = self.text.as_str().unicode_len() as u64;
        let cap: u128 = (8 * COORD_LIMIT) as u128;
        proof {
            assert(3 * (self.size as int) * (len as int) <= 0x400000 * 0xffff_ffff_ffff_ffff)
                by (nonlinear_arith)
                requires
                    0 <= self.size <= COORD_LIMIT,
                    0 <= len <= u64::MAX,
            ;
        }
        let west: u128 = 3 * (self.size as u128) * (len as u128) / 5;
        let w: i64 = if west <= cap {
            west as i64
        } else {
            8 * COORD_LIMIT
        };
        let newlines: u64 = count_char(self.text.as_str(), '\n');
        proof {
            lemma_count_char_bound(self.text@, '\n');
        }
        proof {
            assert((self.size as int) * (1 + newlines as int) <= 0x100000 * 0x1_0000_0000_0000_0000)
                by (nonlinear_arith)
                requires
                    0 <= self.size <= COORD_LIMIT,
                    0 <= newlines <= u64::MAX,
            ;
        }
        let hest: u128 = (self.size as u128) * (1 + newlines as u128);
        let h: i64 = if hest <= cap {
            hest as i64
        } else {
            8 * COORD_LIMIT
        };
        Bounds { min: self.pos, max: Pos { x: self.pos.x + w, y: self.pos.y + h } }
    }
}

/// Grow a box by `e` on every side.
pub open spec fn spec_expand_box(b: Bounds, e: int) -> Bounds {
    Bounds {
        min: Pos { x: (b.min.x - e) as i64, y: (b.min.y - e) as i64 },
        max: Pos { x: (b.max.x + e) as i64, y: (b.max.y + e) as i64 },
    }
}

fn expand_box(b: Bounds, e: i64) -> (r: Bounds)
    requires
        0 <= e <= 4 * COORD_LIMIT,
        -8 * COORD_LIMIT <= b.min.x <= 8 * COORD_LIMIT,
        -8 * COORD_LIMIT <= b.min.y <= 8 * COORD_LIMIT,
        -8 * COORD_LIMIT <= b.max.x <= 9 * COORD_LIMIT,
        -8 * COORD_LIMIT <= b.max.y <= 9 * COORD_LIMIT,
    ensures
        r == spec_expand_box(b, e as int),
{
    Bounds {
        min: Pos { x: b.min.x - e, y: b.min.y - e },
        max: Pos { x: b.max.x + e, y: b.max.y + e },
    }
}

impl Annotation {
    /// The visual box the eraser's hit test uses, if the annotation draws
    /// anything: its geometry expanded by half its stroke width. Erasers
    /// and finished crops draw nothing and can never be hit.
    pub open spec fn spec_hit_box(self) -> Option<Bounds> {
        match self {
            Annotation::Segment(s) => Some(
                spec_expand_box(
                    Bounds::spec_from_two_pos(s.starting_pos, s.ending_pos),
                    s.width / 2,
                ),
            ),
            Annotation::Circle(c) => Some(
                spec_expand_box(
                    Bounds { min: c.center, max: c.center },
                    c.radius + c.width / 2,
                ),
            ),
            Annotation::Rect(r) => Some(
                spec_expand_box(Bounds::spec_from_two_pos(r.p1, r.p2), r.width / 2),
            ),
            Annotation::Arrow(a) => Some(
                spec_expand_box(
                    spec_points_box(
                        seq![a.starting_pos, a.ending_pos, a.tip.line1.1, a.tip.line2.1],
                    ),
                    a.width / 2,
                ),
            ),
            Annotation::Pencil(p) => if p.points@.len() == 0 {
                None
            } else {
                Some(spec_expand_box(spec_points_box(p.points@), p.width / 2))
            },
            Annotation::Text(t) => Some(t.spec_text_box()),
            Annotation::Eraser(_) => None,
            Annotation::Crop(c) => if c.finished {
                None
            } else {
                Some(Bounds::spec_from_two_pos(c.p1, c.p2))
            },
            Annotation::Highlighter(h) => if h.points@.len() == 0 {
                None
            } else {
                Some(spec_expand_box(spec_points_box(h.points@), h.width / 2))
            },
        }
    }

    /// Whether a click hits the annotation's visual box. Used only by the
    /// eraser tool; the box over-selects for thin diagonal shapes, which
    /// mirrors hit-testing against the rendered shape's bounding box.
    pub open spec fn spec_check_click(self, click: Pos) -> bool {
        match self.spec_hit_box() {
            Some(b) => b.spec_contains(click),
            None => false,
        }
    }

    pub fn check_click(&self, click: Pos) -> (r: bool)
        requires
            self.wf(),
        ensures
            r == self.spec_check_click(click),
    {
        match self {
            Annotation::Segment(s) => {
                let b = expand_box(
                    Bounds::from_two_pos(s.starting_pos, s.ending_pos),
                    s.width / 2,
                );
                b.contains(click)
            },
            Annotation::Circle(c) => {
                let b = expand_box(
                    Bounds { min: c.center, max: c.center },
                    c.radius + c.width / 2,
                );
                b.contains(click)
            },
            Annotation::Rect(r) => {
                let b = expand_box(Bounds::from_two_pos(r.p1, r.p2), r.width / 2);
                b.contains(click)
            },
            Annotation::Arrow(a) => {
                let mut pts: Vec<Pos> = Vec::new();
                pts.push(a.starting_pos);
                pts.push(a.ending_pos);
                pts.push(a.tip.line1.1);
                pts.push(a.tip.line2.1);
                proof {
                    assert(pts@ =~= seq![
                        a.starting_pos,
                        a.ending_pos,
                        a.tip.line1.1,
                        a.tip.line2.1,
                    ]);
                    assert(forall|i: int| 0 <= i < pts@.len() ==> tip_pos_wf(#[trigger] pts@[i]));
                    lemma_points_box_in_range(pts@);
                }
                let b = expand_box(points_box(&pts), a.width / 2);
                b.contains(click)
            },
            Annotation::Pencil(p) => {
                if p.points.len() == 0 {
                    false
                } else {
                    proof {
                        lemma_points_box_in_range(p.points@);
                    }
                    let b = expand_box(points_box(&p.points), p.width / 2);
                    b.contains(click)
                }
            },
            Annotation::Text(t) => {
                let b = t.text_box();
                b.contains(click)
            },
            Annotation::Eraser(_) => false,
            Annotation::Crop(c) => {
                if c.finished {
                    false
                } else {
                    let b = Bounds::from_two_pos(c.p1, c.p2);
                    b.contains(click)
                }
            },
            Annotation::Highlighter(h) => {
                if h.points.len() == 0 {
                    false
                } else {
                    proof {
                        lemma_points_box_in_range(h.points@);
                    }
                    let b = expand_box(points_box(&h.points), h.width / 2);
                    b.contains(click)
                }
            },
        }
    }
}

/// The box of a list of in-range points stays in range.
proof fn lemma_points_box_in_range(s: Seq<Pos>)
    requires
        s.len() >= 1,
        forall|i: int| 0 <= i < s.len() ==> tip_pos_wf(#[trigger] s[i]),
    ensures
        tip_pos_wf(spec_points_box(s).min),
        tip_pos_wf(spec_points_box(s).max),
    decreases s.len(),
{
    if s.len() > 1 {
        lemma_points_box_in_range(s.drop_last());
    }
}

/// The mathematical value of an annotation: the same record with point
/// lists and text as sequences. Cloning preserves it; the editor's laws
/// are stated over it.
pub enum AnnotationModel {
    Segment(SegmentAnnotation),
    Circle(CircleAnnotation),
    Rect(RectAnnotation),
    Arrow(ArrowAnnotation),
    Pencil { points: Seq<Pos>, color: Color, width: i64 },
    Text { pos: Pos, text: Seq<char>, size: i64, color: Color },
    Eraser { annotation: Box<AnnotationModel>, index: int },
    Crop(CropAnnotation),
    Highlighter { points: Seq<Pos>, color: Color, width: i64 },
}

/// The mathematical value of an annotation.
pub open spec fn abs_annotation(a: Annotation) -> AnnotationModel
    decreases a,
{
    match a {
        Annotation::Segment(x) => AnnotationModel::Segment(x),
        Annotation::Circle(x) => AnnotationModel::Circle(x),
        Annotation::Rect(x) => AnnotationModel::Rect(x),
        Annotation::Arrow(x) => AnnotationModel::Arrow(x),
        Annotation::Pencil(x) => AnnotationModel::Pencil {
            points: x.points@,
            color: x.color,
            width: x.width,
        },
        Annotation::Text(x) => AnnotationModel::Text {
            pos: x.pos,
            text: x.text@,
            size: x.size,
            color: x.color,
        },
        Annotation::Eraser(x) => AnnotationModel::Eraser {
            annotation: Box::new(abs_annotation(*x.annotation)),
            index: x.index as int,
        },
        Annotation::Crop(x) => AnnotationModel::Crop(x),
        Annotation::Highlighter(x) => AnnotationModel::Highlighter {
            points: x.points@,
            color: x.color,
            width: x.width,
        },
    }
}

impl View for Annotation {
    type V = AnnotationModel;

    open spec fn view(&self) -> AnnotationModel {
        abs_annotation(*self)
    }
}

/// The mathematical values of an annotation list.
pub open spec fn anns_model(s: Seq<Annotation>) -> Seq<AnnotationModel> {
    s.map_values(|a: Annotation| a@)
}

impl AnnotationModel {
    /// `spec_degenerate`, at the level of mathematical values.
    pub open spec fn degenerate(self) -> bool {
        match self {
            AnnotationModel::Segment(s) => s.starting_pos == s.ending_pos,
            AnnotationModel::Circle(c) => c.radius == 0,
            AnnotationModel::Rect(r) => r.p1 == r.p2,
            AnnotationModel::Arrow(a) => a.starting_pos == a.ending_pos,
            AnnotationModel::Pencil { points, .. } => points.len() <= 1,
            AnnotationModel::Text { .. } => false,
            AnnotationModel::Eraser { .. } => false,
            AnnotationModel::Crop(c) => c.p1 == c.p2,
            AnnotationModel::Highlighter { points, .. } => points.len() <= 1,
        }
    }
}

/// An annotation is degenerate exactly when its mathematical value is.
pub proof fn lemma_degenerate_model(a: Annotation)
    ensures
        a.spec_degenerate() == a@.degenerate(),
{
}

fn clone_pos_vec(v: &Vec<Pos>) -> (r: Vec<Pos>)
    ensures
        r@ == v@,
{
    let mut r: Vec<Pos> = Vec::new();
    let mut i: usize = 0;
    while i < v.len()
        invariant
            i <= v.len(),
            r@ == v@.subrange(0, i as int),
        decreases v.len() - i,
    {
        r.push(v[i]);
        i = i + 1;
        proof {
            assert(r@ =~= v@.subrange(0, i as int));
        }
    }
    proof {
        assert(r@ =~= v@);
    }
    r
}

impl Annotation {
    /// Runtime test of well-formedness, for callers outside the
    /// verified world.
    pub fn check_wf(&self) -> (r: bool)
        ensures
            r == self.wf(),
        decreases *self,
    {
        match self {
            Annotation::Segment(s) => {
                pos_ok(s.starting_pos) && pos_ok(s.ending_pos) && width_ok(s.width)
            },
            Annotation::Circle(c) => {
                pos_ok(c.center) && 0 <= c.radius && c.radius <= 3 * COORD_LIMIT && width_ok(
                    c.width,
                )
            },
            Annotation::Rect(r) => pos_ok(r.p1) && pos_ok(r.p2) && width_ok(r.width),
            Annotation::Arrow(a) => {
                pos_ok(a.starting_pos) && pos_ok(a.ending_pos) && width_ok(a.width) && tip_pos_ok(
                    a.tip.line1.0,
                ) && tip_pos_ok(a.tip.line1.1) && tip_pos_ok(a.tip.line2.0) && tip_pos_ok(
                    a.tip.line2.1,
                )
            },
            Annotation::Pencil(p) => width_ok(p.width) && points_ok(&p.points),
            Annotation::Text(t) => pos_ok(t.pos) && 0 <= t.size && t.size <= COORD_LIMIT,
            Annotation::Eraser(e) => e.annotation.check_wf(),
            Annotation::Crop(c) => pos_ok(c.p1) && pos_ok(c.p2),
            Annotation::Highlighter(h) => width_ok(h.width) && points_ok(&h.points),
        }
    }
}

fn pos_ok(p: Pos) -> (r: bool)
    ensures
        r == pos_wf(p),
{
    -COORD_LIMIT <= p.x && p.x <= COORD_LIMIT && -COORD_LIMIT <= p.y && p.y <= COORD_LIMIT
}

fn tip_pos_ok(p: Pos) -> (r: bool)
    ensures
        r == tip_pos_wf(p),
{
    -2 * COORD_LIMIT <= p.x && p.x <= 2 * COORD_LIMIT && -2 * COORD_LIMIT <= p.y && p.y <= 2
        * COORD_LIMIT
}

fn width_ok(w: i64) -> (r: bool)
    ensures
        r == width_wf(w),
{
    0 <= w && w <= COORD_LIMIT
}

fn points_ok(points: &Vec<Pos>) -> (r: bool)
    ensures
        r == forall|i: int| 0 <= i < points@.len() ==> pos_wf(#[trigger] points@[i]),
{
    let mut i: usize = 0;
    while i < points.len()
        invariant
            i <= points@.len(),
            forall|j: int| 0 <= j < i ==> pos_wf(#[trigger] points@[j]),
        decreases points@.len() - i,
    {
        if !pos_ok(points[i]) {
            return false;
        }
        i = i + 1;
    }
    true
}

/// Runtime test that every annotation of a list is well-formed.
pub fn annotations_wf(v: &Vec<Annotation>) -> (r: bool)
    ensures
        r == forall|i: int| 0 <= i < v@.len() ==> (#[trigger] v@[i]).wf(),
{
    let mut i: usize = 0;
    while i < v.len()
        invariant
            i <= v@.len(),
            forall|j: int| 0 <= j < i ==> (#[trigger] v@[j]).wf(),
        decreases v@.len() - i,
    {
        if !v[i].check_wf() {
            return false;
        }
        i = i + 1;
    }
    true
}

/// A deep copy of an annotation, preserving its whole content.
pub fn clone_annotation(a: &Annotation) -> (r: Annotation)
    ensures
        r@ == a@,
        a.wf() ==> r.wf(),
    decreases *a,
{
    match a {
        Annotation::Segment(s) => Annotation::Segment(*s),
        Annotation::Circle(c) => Annotation::Circle(*c),
        Annotation::Rect(re) => Annotation::Rect(*re),
        Annotation::Arrow(ar) => Annotation::Arrow(*ar),
        Annotation::Pencil(p) => Annotation::Pencil(
            PencilAnnotation { points: clone_pos_vec(&p.points), color: p.color, width: p.width },
        ),
        Annotation::Text(t) => Annotation::Text(
            TextAnnotation { pos: t.pos, text: t.text.clone(), size: t.size, color: t.color },
        ),
        Annotation::Eraser(e) => Annotation::Eraser(
            EraserAnnotation {
                index: e.index,
                annotation: Box::new(clone_annotation(&e.annotation)),
            },
        ),
        Annotation::Crop(c) => Annotation::Crop(*c),
        Annotation::Highlighter(h) => Annotation::Highlighter(
            HighlighterAnnotation {
                points: clone_pos_vec(&h.points),
                color: h.color,
                width: h.width,
            },
        ),
    }
}

impl Clone for Annotation {
    fn clone(&self) -> (r: Self)
        ensures
            r@ == self@,
    {
        clone_annotation(self)
    }
}

impl Clone for EraserAnnotation {
    fn clone(&self) -> (r: Self)
        ensures
            r.index == self.index && r.annotation@ == self.annotation@,
    {
        EraserAnnotation {
            index: self.index,
            annotation: Box::new(clone_annotation(&self.annotation)),
        }
    }
}

impl Clone for TextAnnotation {
    fn clone(&self) -> (r: Self)
        ensures
            r.pos == self.pos && r.text@ == self.text@ && r.size == self.size && r.color
                == self.color,
    {
        TextAnnotation { pos: self.pos, text: self.text.clone(), size: self.size, color: self.color }
    }
}

impl Clone for PencilAnnotation {
    fn clone(&self) -> (r: Self)
        ensures
            r.points@ == self.points@ && r.color == self.color && r.width == self.width,
    {
        PencilAnnotation { points: clone_pos_vec(&self.points), color: self.color, width: self.width }
    }
}

impl Clone for HighlighterAnnotation {
    fn clone(&self) -> (r: Self)
        ensures
            r.points@ == self.points@ && r.color == self.color && r.width == self.width,
    {
        HighlighterAnnotation {
            points: clone_pos_vec(&self.points),
            color: self.color,
            width: self.width,
        }
    }
}

fn pos_vec_eq(a: &Vec<Pos>, b: &Vec<Pos>) -> (r: bool)
    ensures
        r == (a@ == b@),
{
    if a.len() != b.len() {
        proof {
            assert(a@.len() != b@.len());
        }
        return false;
    }
    let mut i: usize = 0;
    while i < a.len()
        invariant
            i <= a.len(),
            a@.len() == b@.len(),
            forall|j: int| 0 <= j < i ==> a@[j] == b@[j],
        decreases a.len() - i,
    {
        if a[i] != b[i] {
            return false;
        }
        i = i + 1;
    }
    proof {
        assert(a@ =~= b@);
    }
    true
}

impl Annotation {
    /// Whether two annotations hold the same content.
    pub fn same_as(&self, other: &Annotation) -> (r: bool)
        ensures
            r == (self@ == other@),
        decreases *self,
    {
        match (self, other) {
            (Annotation::Segment(x), Annotation::Segment(y)) => *x == *y,
            (Annotation::Circle(x), Annotation::Circle(y)) => *x == *y,
            (Annotation::Rect(x), Annotation::Rect(y)) => *x == *y,
            (Annotation::Arrow(x), Annotation::Arrow(y)) => {
                x.starting_pos == y.starting_pos && x.ending_pos == y.ending_pos && x.color
                    == y.color && x.width == y.width && x.tip.line1.0 == y.tip.line1.0
                    && x.tip.line1.1 == y.tip.line1.1 && x.tip.line2.0 == y.tip.line2.0
                    && x.tip.line2.1 == y.tip.line2.1
            },
            (Annotation::Pencil(x), Annotation::Pencil(y)) => {
                pos_vec_eq(&x.points, &y.points) && x.color == y.color && x.width == y.width
            },
            (Annotation::Text(x), Annotation::Text(y)) => {
                x.pos == y.pos && x.text == y.text && x.size == y.size && x.color == y.color
            },
            (Annotation::Eraser(x), Annotation::Eraser(y)) => {
                x.index == y.index && x.annotation.same_as(&y.annotation)
            },
            (Annotation::Crop(x), Annotation::Crop(y)) => *x == *y,
            (Annotation::Highlighter(x), Annotation::Highlighter(y)) => {
                pos_vec_eq(&x.points, &y.points) && x.color == y.color && x.width == y.width
            },
            _ => false,
        }
    }
}

} // verus!
