//! The dual-renderer contract. Both renderers reduce an annotation to a
//! list of drawable shape commands built from the same geometric
//! formulas; the interactive renderer applies the display transform and
//! scales stroke widths, the export renderer keeps native resolution.
//! At scale one they yield identical geometry (`lemma_renderer_parity`).

use vstd::prelude::*;

use crate::annotation::{
    Annotation, CropAnnotation, ControlPoint, Position, TextAnnotation, compute_tip, spec_tip_of,
    spec_expand_box,
};
use crate::geometry::{
    Bounds, Color, Pos, Transform, COORD_LIMIT, div_tz, spec_div_tz, pos_wf,
    lemma_identity_transform,
};

verus! {

/// One drawable primitive, in the coordinate space of whichever renderer
/// produced it.
#[derive(Clone, Debug, PartialEq)]
pub enum ShapeCmd {
    /// A stroked line segment.
    Line { a: Pos, b: Pos, width: i64, color: Color },
    /// A circle: filled with `fill` unless transparent, stroked with
    /// `color`.
    Circle { center: Pos, radius: i64, width: i64, color: Color, fill: Color },
    /// An axis-aligned rectangle: filled with `fill` unless transparent,
    /// stroked with `color`.
    Rect { min: Pos, max: Pos, width: i64, color: Color, fill: Color },
    /// A text block anchored at its top-left corner.
    Text { pos: Pos, size: i64, color: Color, text: String },
    /// The dashed outline around a text block while it is being edited.
    DashedBox { min: Pos, max: Pos },
    /// A filled crop resize handle.
    Handle { center: Pos, radius: i64 },
    /// A translucent dimming overlay outside the crop area.
    Shade { min: Pos, max: Pos },
}

/// The mathematical value of a shape command: the same record with the
/// text content as a character sequence.
pub enum CmdModel {
    Line { a: Pos, b: Pos, width: i64, color: Color },
    Circle { center: Pos, radius: i64, width: i64, color: Color, fill: Color },
    Rect { min: Pos, max: Pos, width: i64, color: Color, fill: Color },
    Text { pos: Pos, size: i64, color: Color, text: Seq<char> },
    DashedBox { min: Pos, max: Pos },
    Handle { center: Pos, radius: i64 },
    Shade { min: Pos, max: Pos },
}

impl View for ShapeCmd {
    type V = CmdModel;

    open spec fn view(&self) -> CmdModel {
        match *self {
            ShapeCmd::Line { a, b, width, color } => CmdModel::Line { a, b, width, color },
            ShapeCmd::Circle { center, radius, width, color, fill } => CmdModel::Circle {
                center,
                radius,
                width,
                color,
                fill,
            },
            ShapeCmd::Rect { min, max, width, color, fill } => CmdModel::Rect {
                min,
                max,
                width,
                color,
                fill,
            },
            ShapeCmd::Text { pos, size, color, ref text } => CmdModel::Text {
                pos,
                size,
                color,
                text: text@,
            },
            ShapeCmd::DashedBox { min, max } => CmdModel::DashedBox { min, max },
            ShapeCmd::Handle { center, radius } => CmdModel::Handle { center, radius },
            ShapeCmd::Shade { min, max } => CmdModel::Shade { min, max },
        }
    }
}

/// The mathematical values of a command list.
pub open spec fn cmds_model(s: Seq<ShapeCmd>) -> Seq<CmdModel> {
    s.map_values(|c: ShapeCmd| c@)
}

/// A scaled stroke width as the renderers store it.
pub open spec fn spec_scaled_w(t: Transform, w: i64) -> i64 {
    t.spec_scale_width(w as int) as i64
}

/// The line segments of an open polyline through `points`.
pub open spec fn spec_polyline(points: Seq<Pos>, width: i64, color: Color) -> Seq<CmdModel> {
    Seq::new(
        if points.len() == 0 {
            0
        } else {
            (points.len() - 1) as nat
        },
        |i: int| CmdModel::Line { a: points[i], b: points[i + 1], width, color },
    )
}

/// How far the crop dimming overlay reaches: effectively everything.
pub open spec fn shade_extent() -> int {
    8 * COORD_LIMIT
}

/// The eight resize-handle positions of a screen-space rectangle:
/// corners and edge midpoints, reading order.
pub open spec fn spec_handle_points(b: Bounds) -> Seq<Pos> {
    let cx = spec_div_tz(b.min.x + b.max.x, 2) as i64;
    let cy = spec_div_tz(b.min.y + b.max.y, 2) as i64;
    seq![
        Pos { x: b.min.x, y: b.min.y },
        Pos { x: cx, y: b.min.y },
        Pos { x: b.max.x, y: b.min.y },
        Pos { x: b.min.x, y: cy },
        Pos { x: b.max.x, y: cy },
        Pos { x: b.min.x, y: b.max.y },
        Pos { x: cx, y: b.max.y },
        Pos { x: b.max.x, y: b.max.y },
    ]
}

/// The overlay of a crop still being adjusted: its eight handles, four
/// dimming shades around it, and a thin border. Screen-space values are
/// not rescaled; the overlay is a virtual decoration.
pub open spec fn spec_render_crop_overlay(c: CropAnnotation, t: Transform) -> Seq<CmdModel> {
    let sr = Bounds::spec_from_two_pos(t.spec_apply(c.p1), t.spec_apply(c.p2));
    let pts = spec_handle_points(sr);
    let white = Color { r: 255, g: 255, b: 255, a: 255 };
    let shade: i64 = shade_extent() as i64;
    Seq::new(8, |i: int| CmdModel::Handle { center: pts[i], radius: 5 }) + seq![
        CmdModel::Shade {
            min: Pos { x: (-shade) as i64, y: (-shade) as i64 },
            max: Pos { x: shade, y: sr.min.y },
        },
        CmdModel::Shade { min: Pos { x: (-shade) as i64, y: sr.max.y }, max: Pos { x: shade, y: shade } },
        CmdModel::Shade { min: Pos { x: (-shade) as i64, y: sr.min.y }, max: Pos { x: sr.min.x, y: sr.max.y } },
        CmdModel::Shade { min: Pos { x: sr.max.x, y: sr.min.y }, max: Pos { x: shade, y: sr.max.y } },
        CmdModel::Rect {
            min: sr.min,
            max: sr.max,
            width: 1,
            color: white,
            fill: Color { r: 0, g: 0, b: 0, a: 0 },
        },
    ]
}

/// A text block under the interactive renderer: the text command, and
/// while it is being edited, a dashed outline four pixels outside the
/// estimated text box.
pub open spec fn spec_render_text(tx: TextAnnotation, t: Transform, editing: bool) -> Seq<
    CmdModel,
> {
    let cmd = CmdModel::Text {
        pos: t.spec_apply(tx.pos),
        size: spec_scaled_w(t, tx.size),
        color: tx.color,
        text: tx.text@,
    };
    if editing {
        let b = tx.spec_text_box();
        let sb = Bounds::spec_from_two_pos(t.spec_apply(b.min), t.spec_apply(b.max));
        seq![CmdModel::DashedBox { min: spec_expand_box(sb, 4).min, max: spec_expand_box(sb, 4).max }, cmd]
    } else {
        seq![cmd]
    }
}

/// What the interactive renderer draws for one annotation under the
/// display transform `t`. Stroke widths are scaled by the transform's
/// scale factor; erasers and finished crops draw nothing.
pub open spec fn spec_render_interactive(a: Annotation, t: Transform, editing: bool) -> Seq<
    CmdModel,
> {
    match a {
        Annotation::Segment(s) => seq![
            CmdModel::Line {
                a: t.spec_apply(s.starting_pos),
                b: t.spec_apply(s.ending_pos),
                width: spec_scaled_w(t, s.width),
                color: s.color,
            },
        ],
        Annotation::Circle(c) => seq![
            CmdModel::Circle {
                center: t.spec_apply(c.center),
                radius: spec_scaled_w(t, c.radius),
                width: spec_scaled_w(t, c.width),
                color: c.color,
                fill: c.fill_color,
            },
        ],
        Annotation::Rect(r) => {
            let b = Bounds::spec_from_two_pos(t.spec_apply(r.p1), t.spec_apply(r.p2));
            seq![
                CmdModel::Rect {
                    min: b.min,
                    max: b.max,
                    width: spec_scaled_w(t, r.width),
                    color: r.color,
                    fill: r.fill_color,
                },
            ]
        },
        Annotation::Arrow(ar) => {
            let tip = spec_tip_of(ar.starting_pos, ar.ending_pos);
            let w = spec_scaled_w(t, ar.width);
            seq![
                CmdModel::Line {
                    a: t.spec_apply(ar.starting_pos),
                    b: t.spec_apply(ar.ending_pos),
                    width: w,
                    color: ar.color,
                },
                CmdModel::Line {
                    a: t.spec_apply(tip.line1.0),
                    b: t.spec_apply(tip.line1.1),
                    width: w,
                    color: ar.color,
                },
                CmdModel::Line {
                    a: t.spec_apply(tip.line2.0),
                    b: t.spec_apply(tip.line2.1),
                    width: w,
                    color: ar.color,
                },
            ]
        },
        Annotation::Pencil(p) => spec_polyline(
            p.points@.map_values(|q: Pos| t.spec_apply(q)),
            spec_scaled_w(t, p.width),
            p.color,
        ),
        Annotation::Text(tx) => spec_render_text(tx, t, editing),
        Annotation::Eraser(_) => Seq::empty(),
        Annotation::Crop(c) => if c.finished {
            Seq::empty()
        } else {
            spec_render_crop_overlay(c, t)
        },
        Annotation::Highlighter(h) => spec_polyline(
            h.points@.map_values(|q: Pos| t.spec_apply(q)),
            spec_scaled_w(t, h.width),
            h.color,
        ),
    }
}

/// What the export rasterizer draws for one annotation: the same
/// geometric formulas at native resolution, with the arrow's stored
/// (consolidated) tip. Erasers and crops draw nothing.
pub open spec fn spec_render_native(a: Annotation) -> Seq<CmdModel> {
    match a {
        Annotation::Segment(s) => seq![
            CmdModel::Line {
                a: s.starting_pos,
                b: s.ending_pos,
                width: s.width,
                color: s.color,
            },
        ],
        Annotation::Circle(c) => seq![
            CmdModel::Circle {
                center: c.center,
                radius: c.radius,
                width: c.width,
                color: c.color,
                fill: c.fill_color,
            },
        ],
        Annotation::Rect(r) => {
            let b = Bounds::spec_from_two_pos(r.p1, r.p2);
            seq![
                CmdModel::Rect {
                    min: b.min,
                    max: b.max,
                    width: r.width,
                    color: r.color,
                    fill: r.fill_color,
                },
            ]
        },
        Annotation::Arrow(ar) => seq![
            CmdModel::Line {
                a: ar.starting_pos,
                b: ar.ending_pos,
                width: ar.width,
                color: ar.color,
            },
            CmdModel::Line {
                a: ar.tip.line1.0,
                b: ar.tip.line1.1,
                width: ar.width,
                color: ar.color,
            },
            CmdModel::Line {
                a: ar.tip.line2.0,
                b: ar.tip.line2.1,
                width: ar.width,
                color: ar.color,
            },
        ],
        Annotation::Pencil(p) => spec_polyline(p.points@, p.width, p.color),
        Annotation::Text(tx) => seq![
            CmdModel::Text { pos: tx.pos, size: tx.size, color: tx.color, text: tx.text@ },
        ],
        Annotation::Eraser(_) => Seq::empty(),
        Annotation::Crop(_) => Seq::empty(),
        Annotation::Highlighter(h) => spec_polyline(h.points@, h.width, h.color),
    }
}

/// Renderer parity: at scale factor one, the interactive renderer and
/// the export rasterizer place every shape of an annotation identically,
/// with identical stroke widths. For arrows this holds once their tip is
/// consolidated, which commit guarantees.
pub proof fn lemma_renderer_parity(a: Annotation, t: Transform)
    requires
        a.wf(),
        t.wf(),
        t.spec_is_identity(),
        a matches Annotation::Arrow(ar) ==> ar.spec_consolidated(),
        a matches Annotation::Crop(c) ==> c.finished,
    ensures
        spec_render_interactive(a, t, false) == spec_render_native(a),
{
    match a {
        Annotation::Segment(s) => {
            lemma_identity_transform(t, s.starting_pos, s.width as int);
            lemma_identity_transform(t, s.ending_pos, 0);
            assert(spec_render_interactive(a, t, false) =~= spec_render_native(a));
        },
        Annotation::Circle(c) => {
            lemma_identity_transform(t, c.center, c.width as int);
            lemma_identity_transform(t, c.center, c.radius as int);
            assert(spec_render_interactive(a, t, false) =~= spec_render_native(a));
        },
        Annotation::Rect(r) => {
            lemma_identity_transform(t, r.p1, r.width as int);
            lemma_identity_transform(t, r.p2, 0);
            assert(spec_render_interactive(a, t, false) =~= spec_render_native(a));
        },
        Annotation::Arrow(ar) => {
            let tip = spec_tip_of(ar.starting_pos, ar.ending_pos);
            lemma_identity_transform(t, ar.starting_pos, ar.width as int);
            lemma_identity_transform(t, ar.ending_pos, 0);
            lemma_identity_transform(t, tip.line1.0, 0);
            lemma_identity_transform(t, tip.line1.1, 0);
            lemma_identity_transform(t, tip.line2.0, 0);
            lemma_identity_transform(t, tip.line2.1, 0);
            assert(spec_render_interactive(a, t, false) =~= spec_render_native(a));
        },
        Annotation::Pencil(p) => {
            lemma_identity_transform(t, p.points@[0], p.width as int);
            assert forall|i: int| 0 <= i < p.points@.len() implies #[trigger] t.spec_apply(
                p.points@[i],
            ) == p.points@[i] by {
                lemma_identity_transform(t, p.points@[i], 0);
            }
            assert(p.points@.map_values(|q: Pos| t.spec_apply(q)) =~= p.points@);
            assert(spec_render_interactive(a, t, false) =~= spec_render_native(a));
        },
        Annotation::Text(tx) => {
            lemma_identity_transform(t, tx.pos, tx.size as int);
            assert(spec_render_interactive(a, t, false) =~= spec_render_native(a));
        },
        Annotation::Eraser(_) => {},
        Annotation::Crop(_) => {},
        Annotation::Highlighter(h) => {
            lemma_identity_transform(t, h.points@[0], h.width as int);
            assert forall|i: int| 0 <= i < h.points@.len() implies #[trigger] t.spec_apply(
                h.points@[i],
            ) == h.points@[i] by {
                lemma_identity_transform(t, h.points@[i], 0);
            }
            assert(h.points@.map_values(|q: Pos| t.spec_apply(q)) =~= h.points@);
            assert(spec_render_interactive(a, t, false) =~= spec_render_native(a));
        },
    }
}

/// What the interactive renderer draws for a whole annotation list:
/// every entry in z-order, crop markers excluded.
pub open spec fn spec_interactive_list(s: Seq<Annotation>, t: Transform) -> Seq<CmdModel>
    decreases s.len(),
{
    if s.len() == 0 {
        Seq::empty()
    } else {
        spec_interactive_list(s.drop_last(), t) + (if s.last() is Crop {
            Seq::empty()
        } else {
            spec_render_interactive(s.last(), t, false)
        })
    }
}

/// What the export rasterizer draws for a whole snapshot list.
pub open spec fn spec_native_list(s: Seq<Annotation>) -> Seq<CmdModel>
    decreases s.len(),
{
    if s.len() == 0 {
        Seq::empty()
    } else {
        spec_native_list(s.drop_last()) + spec_render_native(s.last())
    }
}

/// Renderer parity for a whole annotation list at scale factor one.
pub proof fn lemma_renderer_parity_list(s: Seq<Annotation>, t: Transform)
    requires
        t.wf(),
        t.spec_is_identity(),
        forall|i: int| 0 <= i < s.len() ==> (#[trigger] s[i]).wf(),
        forall|i: int|
            0 <= i < s.len() ==> ((#[trigger] s[i]) matches Annotation::Arrow(ar)
                ==> ar.spec_consolidated()),
    ensures
        spec_interactive_list(s, t) == spec_native_list(s),
    decreases s.len(),
{
    if s.len() > 0 {
        lemma_renderer_parity_list(s.drop_last(), t);
        if !(s.last() is Crop) {
            lemma_renderer_parity(s.last(), t);
        }
        assert(spec_interactive_list(s, t) =~= spec_native_list(s));
    }
}

impl CropAnnotation {
    /// The eight resize-handle positions in screen space.
    pub fn get_points(&self, to_screen: &Transform) -> (r: Vec<Pos>)
        requires
            self.wf(),
            to_screen.wf(),
        ensures
            r@ == spec_handle_points(
                Bounds::spec_from_two_pos(
                    to_screen.spec_apply(self.p1),
                    to_screen.spec_apply(self.p2),
                ),
            ),
    {
        let sr: Bounds = Bounds::from_two_pos(to_screen.apply(self.p1), to_screen.apply(self.p2));
        let cx: i64 = div_tz(sr.min.x + sr.max.x, 2);
        let cy: i64 = div_tz(sr.min.y + sr.max.y, 2);
        let mut r: Vec<Pos> = Vec::new();
        r.push(Pos { x: sr.min.x, y: sr.min.y });
        r.push(Pos { x: cx, y: sr.min.y });
        r.push(Pos { x: sr.max.x, y: sr.min.y });
        r.push(Pos { x: sr.min.x, y: cy });
        r.push(Pos { x: sr.max.x, y: cy });
        r.push(Pos { x: sr.min.x, y: sr.max.y });
        r.push(Pos { x: cx, y: sr.max.y });
        r.push(Pos { x: sr.max.x, y: sr.max.y });
        proof {
            assert(r@ =~= spec_handle_points(sr));
        }
        r
    }

    /// The eight resize handles in screen space, each with its label.
    pub fn get_control_points(&self, to_screen: &Transform) -> (r: Vec<ControlPoint>)
        requires
            self.wf(),
            to_screen.wf(),
        ensures
            ({
                let pts = spec_handle_points(
                    Bounds::spec_from_two_pos(
                        to_screen.spec_apply(self.p1),
                        to_screen.spec_apply(self.p2),
                    ),
                );
                r@.len() == 8 && forall|i: int|
                    0 <= i < 8 ==> (#[trigger] r@[i]).pos == pts[i] && r@[i].label
                        == spec_handle_label(i)
            }),
    {
        let pts: Vec<Pos> = self.get_points(to_screen);
        let mut r: Vec<ControlPoint> = Vec::new();
        r.push(ControlPoint::new(pts[0], Position::LeftTop));
        r.push(ControlPoint::new(pts[1], Position::CenterTop));
        r.push(ControlPoint::new(pts[2], Position::RightTop));
        r.push(ControlPoint::new(pts[3], Position::LeftCenter));
        r.push(ControlPoint::new(pts[4], Position::RightCenter));
        r.push(ControlPoint::new(pts[5], Position::LeftBottom));
        r.push(ControlPoint::new(pts[6], Position::CenterBottom));
        r.push(ControlPoint::new(pts[7], Position::RightBottom));
        r
    }
}

impl Annotation {
    /// What the interactive renderer draws for this annotation under the
    /// display transform, in the order it is painted.
    pub fn render(&self, t: &Transform, editing: bool) -> (r: Vec<ShapeCmd>)
        requires
            self.wf(),
            t.wf(),
        ensures
            cmds_model(r@) == spec_render_interactive(*self, *t, editing),
    {
        let mut r: Vec<ShapeCmd> = Vec::new();
        match self {
            Annotation::Segment(s) => {
                r.push(
                    ShapeCmd::Line {
                        a: t.apply(s.starting_pos),
                        b: t.apply(s.ending_pos),
                        width: t.scale_width(s.width),
                        color: s.color,
                    },
                );
                proof {
                    assert(cmds_model(r@) =~= spec_render_interactive(*self, *t, editing));
                }
            },
            Annotation::Circle(c) => {
                r.push(
                    ShapeCmd::Circle {
                        center: t.apply(c.center),
                        radius: t.scale_width(c.radius),
                        width: t.scale_width(c.width),
                        color: c.color,
                        fill: c.fill_color,
                    },
                );
                proof {
                    assert(cmds_model(r@) =~= spec_render_interactive(*self, *t, editing));
                }
            },
            Annotation::Rect(re) => {
                let b: Bounds = Bounds::from_two_pos(t.apply(re.p1), t.apply(re.p2));
                r.push(
                    ShapeCmd::Rect {
                        min: b.min,
                        max: b.max,
                        width: t.scale_width(re.width),
                        color: re.color,
                        fill: re.fill_color,
                    },
                );
                proof {
                    assert(cmds_model(r@) =~= spec_render_interactive(*self, *t, editing));
                }
            },
            Annotation::Arrow(ar) => {
                let tip = compute_tip(ar.starting_pos, ar.ending_pos);
                let w: i64 = t.scale_width(ar.width);
                r.push(
                    ShapeCmd::Line {
                        a: t.apply(ar.starting_pos),
                        b: t.apply(ar.ending_pos),
                        width: w,
                        color: ar.color,
                    },
                );
                r.push(
                    ShapeCmd::Line {
                        a: t.apply(tip.line1.0),
                        b: t.apply(tip.line1.1),
                        width: w,
                        color: ar.color,
                    },
                );
                r.push(
                    ShapeCmd::Line {
                        a: t.apply(tip.line2.0),
                        b: t.apply(tip.line2.1),
                        width: w,
                        color: ar.color,
                    },
                );
                proof {
                    assert(cmds_model(r@) =~= spec_render_interactive(*self, *t, editing));
                }
            },
            Annotation::Pencil(p) => {
                r = render_polyline(&p.points, t, t.scale_width(p.width), p.color);
            },
            Annotation::Text(tx) => {
                let cmd = ShapeCmd::Text {
                    pos: t.apply(tx.pos),
                    size: t.scale_width(tx.size),
                    color: tx.color,
                    text: tx.text.clone(),
                };
                if editing {
                    let b: Bounds = tx.text_box();
                    let sb: Bounds = Bounds::from_two_pos(t.apply(b.min), t.apply(b.max));
                    r.push(
                        ShapeCmd::DashedBox {
                            min: Pos { x: sb.min.x - 4, y: sb.min.y - 4 },
                            max: Pos { x: sb.max.x + 4, y: sb.max.y + 4 },
                        },
                    );
                }
                r.push(cmd);
                proof {
                    assert(cmds_model(r@) =~= spec_render_interactive(*self, *t, editing));
                }
            },
            Annotation::Eraser(_) => {
                proof {
                    assert(cmds_model(r@) =~= spec_render_interactive(*self, *t, editing));
                }
            },
            Annotation::Crop(c) => {
                if !c.finished {
                    let sr: Bounds = Bounds::from_two_pos(t.apply(c.p1), t.apply(c.p2));
                    let pts: Vec<Pos> = c.get_points(t);
                    let mut i: usize = 0;
                    while i < 8
                        invariant
                            i <= 8,
                            pts@.len() == 8,
                            r@.len() == i,
                            forall|j: int|
                                0 <= j < i ==> r@[j]@ == (CmdModel::Handle {
                                    center: pts@[j],
                                    radius: 5,
                                }),
                        decreases 8 - i,
                    {
                        r.push(ShapeCmd::Handle { center: pts[i], radius: 5 });
                        i = i + 1;
                    }
                    let ext: i64 = 8 * COORD_LIMIT;
                    r.push(
                        ShapeCmd::Shade {
                            min: Pos { x: -ext, y: -ext },
                            max: Pos { x: ext, y: sr.min.y },
                        },
                    );
                    r.push(
                        ShapeCmd::Shade {
                            min: Pos { x: -ext, y: sr.max.y },
                            max: Pos { x: ext, y: ext },
                        },
                    );
                    r.push(
                        ShapeCmd::Shade {
                            min: Pos { x: -ext, y: sr.min.y },
                            max: Pos { x: sr.min.x, y: sr.max.y },
                        },
                    );
                    r.push(
                        ShapeCmd::Shade {
                            min: Pos { x: sr.max.x, y: sr.min.y },
                            max: Pos { x: ext, y: sr.max.y },
                        },
                    );
                    r.push(
                        ShapeCmd::Rect {
                            min: sr.min,
                            max: sr.max,
                            width: 1,
                            color: Color { r: 255, g: 255, b: 255, a: 255 },
                            fill: Color { r: 0, g: 0, b: 0, a: 0 },
                        },
                    );
                }
                proof {
                    assert(cmds_model(r@) =~= spec_render_interactive(*self, *t, editing));
                }
            },
            Annotation::Highlighter(h) => {
                r = render_polyline(&h.points, t, t.scale_width(h.width), h.color);
            },
        }
        r
    }

    /// What the export rasterizer draws for this annotation, at native
    /// resolution.
    pub fn render_native(&self) -> (r: Vec<ShapeCmd>)
        requires
            self.wf(),
        ensures
            cmds_model(r@) == spec_render_native(*self),
    {
        let t: Transform = Transform::identity();
        proof {
            lemma_renderer_parity_native(*self, t);
        }
        match self {
            Annotation::Arrow(ar) => {
                let mut r: Vec<ShapeCmd> = Vec::new();
                r.push(
                    ShapeCmd::Line {
                        a: ar.starting_pos,
                        b: ar.ending_pos,
                        width: ar.width,
                        color: ar.color,
                    },
                );
                r.push(
                    ShapeCmd::Line {
                        a: ar.tip.line1.0,
                        b: ar.tip.line1.1,
                        width: ar.width,
                        color: ar.color,
                    },
                );
                r.push(
                    ShapeCmd::Line {
                        a: ar.tip.line2.0,
                        b: ar.tip.line2.1,
                        width: ar.width,
                        color: ar.color,
                    },
                );
                proof {
                    assert(cmds_model(r@) =~= spec_render_native(*self));
                }
                r
            },
            Annotation::Crop(_) => {
                let r: Vec<ShapeCmd> = Vec::new();
                proof {
                    assert(cmds_model(r@) =~= spec_render_native(*self));
                }
                r
            },
            _ => {
                let r: Vec<ShapeCmd> = self.render(&t, false);
                r
            },
        }
    }
}

/// Parity restated for the variants whose native rendering reuses the
/// interactive path at the identity transform: everything but arrows
/// (whose stored tip may differ from the formula) and crops.
proof fn lemma_renderer_parity_native(a: Annotation, t: Transform)
    requires
        a.wf(),
        t.wf(),
        t.spec_is_identity(),
    ensures
        !(a is Arrow) && !(a is Crop) ==> spec_render_interactive(a, t, false)
            == spec_render_native(a),
{
    if !(a is Arrow) && !(a is Crop) {
        lemma_renderer_parity(a, t);
    }
}

/// The stroked segments of an open polyline, transformed.
fn render_polyline(points: &Vec<Pos>, t: &Transform, width: i64, color: Color) -> (r: Vec<
    ShapeCmd,
>)
    requires
        t.wf(),
        forall|i: int| 0 <= i < points@.len() ==> pos_wf(#[trigger] points@[i]),
    ensures
        cmds_model(r@) == spec_polyline(
            points@.map_values(|q: Pos| t.spec_apply(q)),
            width,
            color,
        ),
{
    let mut r: Vec<ShapeCmd> = Vec::new();
    let n: usize = points.len();
    let mut i: usize = 1;
    while i < n
        invariant
            1 <= i,
            n == points@.len(),
            i <= n || (n == 0 && i == 1),
            t.wf(),
            forall|k: int| 0 <= k < points@.len() ==> pos_wf(#[trigger] points@[k]),
            r@.len() == i - 1 || (n == 0 && r@.len() == 0),
            n > 0 ==> r@.len() == i - 1,
            forall|j: int|
                0 <= j < r@.len() ==> r@[j]@ == (CmdModel::Line {
                    a: t.spec_apply(points@[j]),
                    b: t.spec_apply(points@[j + 1]),
                    width,
                    color,
                }),
        decreases n - i,
    {
        r.push(
            ShapeCmd::Line {
                a: t.apply(points[i - 1]),
                b: t.apply(points[i]),
                width,
                color,
            },
        );
        i = i + 1;
    }
    proof {
        assert(cmds_model(r@) =~= spec_polyline(
            points@.map_values(|q: Pos| t.spec_apply(q)),
            width,
            color,
        ));
    }
    r
}

/// What the interactive renderer draws for a whole annotation list: each
/// entry in z-order via the display transform, crop markers excluded.
pub fn render_command_list(annotations: &Vec<Annotation>, t: &Transform) -> (r: Vec<ShapeCmd>)
    requires
        t.wf(),
        forall|i: int| 0 <= i < annotations@.len() ==> (#[trigger] annotations@[i]).wf(),
    ensures
        cmds_model(r@) == spec_interactive_list(annotations@, *t),
{
    let mut r: Vec<ShapeCmd> = Vec::new();
    let mut i: usize = 0;
    proof {
        assert(annotations@.subrange(0, 0) =~= Seq::<Annotation>::empty());
    }
    while i < annotations.len()
        invariant
            i <= annotations@.len(),
            t.wf(),
            forall|k: int| 0 <= k < annotations@.len() ==> (#[trigger] annotations@[k]).wf(),
            cmds_model(r@) == spec_interactive_list(annotations@.subrange(0, i as int), *t),
        decreases annotations@.len() - i,
    {
        let a: &Annotation = &annotations[i];
        let ghost pre = cmds_model(r@);
        if !(matches!(a, Annotation::Crop(_))) {
            let mut cmds: Vec<ShapeCmd> = a.render(t, false);
            let ghost cv = cmds_model(cmds@);
            r.append(&mut cmds);
            proof {
                assert(cmds_model(r@) =~= pre + cv);
            }
        }
        i = i + 1;
        proof {
            let sub = annotations@.subrange(0, i as int);
            assert(sub.drop_last() =~= annotations@.subrange(0, i - 1));
            assert(sub.last() == annotations@[i - 1]);
            if annotations@[i - 1] is Crop {
                assert(cmds_model(r@) =~= spec_interactive_list(sub, *t));
            }
        }
    }
    proof {
        assert(annotations@.subrange(0, annotations@.len() as int) =~= annotations@);
    }
    r
}

/// What the export rasterizer draws for a whole snapshot list.
pub fn render_native_list(annotations: &Vec<Annotation>) -> (r: Vec<ShapeCmd>)
    requires
        forall|i: int| 0 <= i < annotations@.len() ==> (#[trigger] annotations@[i]).wf(),
    ensures
        cmds_model(r@) == spec_native_list(annotations@),
{
    let mut r: Vec<ShapeCmd> = Vec::new();
    let mut i: usize = 0;
    proof {
        assert(annotations@.subrange(0, 0) =~= Seq::<Annotation>::empty());
    }
    while i < annotations.len()
        invariant
            i <= annotations@.len(),
            forall|k: int| 0 <= k < annotations@.len() ==> (#[trigger] annotations@[k]).wf(),
            cmds_model(r@) == spec_native_list(annotations@.subrange(0, i as int)),
        decreases annotations@.len() - i,
    {
        let a: &Annotation = &annotations[i];
        let ghost pre = cmds_model(r@);
        let mut cmds: Vec<ShapeCmd> = a.render_native();
        let ghost cv = cmds_model(cmds@);
        r.append(&mut cmds);
        i = i + 1;
        proof {
            assert(cmds_model(r@) =~= pre + cv);
            let sub = annotations@.subrange(0, i as int);
            assert(sub.drop_last() =~= annotations@.subrange(0, i - 1));
            assert(sub.last() == annotations@[i - 1]);
        }
    }
    proof {
        assert(annotations@.subrange(0, annotations@.len() as int) =~= annotations@);
    }
    r
}

/// The handle label at each position of the handle-point list.
pub open spec fn spec_handle_label(i: int) -> Position {
    if i == 0 {
        Position::LeftTop
    } else if i == 1 {
        Position::CenterTop
    } else if i == 2 {
        Position::RightTop
    } else if i == 3 {
        Position::LeftCenter
    } else if i == 4 {
        Position::RightCenter
    } else if i == 5 {
        Position::LeftBottom
    } else if i == 6 {
        Position::CenterBottom
    } else {
        Position::RightBottom
    }
}

} // verus!
