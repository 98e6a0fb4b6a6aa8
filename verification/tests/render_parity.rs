use screen_grabber::annotation::{Annotation, ArrowAnnotation, CircleAnnotation,
    CropAnnotation, PencilAnnotation, RectAnnotation, SegmentAnnotation, TextAnnotation,
    compute_tip};
use screen_grabber::geometry::{Color, Pos, Transform};
use screen_grabber::render::ShapeCmd;

fn p(x: i64, y: i64) -> Pos {
    Pos { x, y }
}

fn red() -> Color {
    Color { r: 255, g: 0, b: 0, a: 255 }
}

fn blue() -> Color {
    Color { r: 0, g: 0, b: 255, a: 255 }
}

fn sample_annotations() -> Vec<Annotation> {
    let mut v = Vec::new();
    v.push(Annotation::Segment(SegmentAnnotation {
        starting_pos: p(10, 10),
        ending_pos: p(90, 40),
        color: red(),
        width: 4,
    }));
    v.push(Annotation::Circle(CircleAnnotation {
        center: p(50, 50),
        radius: 20,
        color: red(),
        width: 3,
        fill_color: blue(),
    }));
    v.push(Annotation::Rect(RectAnnotation {
        p1: p(80, 70),
        p2: p(20, 30),
        color: red(),
        width: 2,
        fill_color: Color { r: 0, g: 0, b: 0, a: 0 },
    }));
    let mut arrow = ArrowAnnotation {
        starting_pos: p(10, 80),
        ending_pos: p(70, 20),
        color: blue(),
        width: 5,
        tip: compute_tip(p(10, 80), p(70, 20)),
    };
    arrow.tip = compute_tip(arrow.starting_pos, arrow.ending_pos);
    v.push(Annotation::Arrow(arrow));
    v.push(Annotation::Pencil(PencilAnnotation {
        points: vec![p(1, 1), p(2, 3), p(5, 4)],
        color: red(),
        width: 2,
    }));
    v.push(Annotation::Text(TextAnnotation {
        pos: p(12, 14),
        text: String::from("note"),
        size: 16,
        color: blue(),
    }));
    v
}

#[test]
fn interactive_and_export_geometry_agree_at_scale_one() {
    // The renderer parity law, on concrete shapes: at scale factor one
    // the interactive renderer and the export rasterizer produce the
    // same command list - same endpoints, same stroke widths.
    let t = Transform::identity();
    for a in sample_annotations() {
        let interactive: Vec<ShapeCmd> = a.render(&t, false);
        let native: Vec<ShapeCmd> = a.render_native();
        assert_eq!(interactive, native, "parity failed for {:?}", a);
    }
}

#[test]
fn scaled_rendering_scales_positions_and_widths() {
    // At scale two, endpoints and stroke widths double.
    let t = Transform::new(p(0, 0), p(0, 0), 2, 1);
    let a = Annotation::Segment(SegmentAnnotation {
        starting_pos: p(10, 10),
        ending_pos: p(40, 30),
        color: red(),
        width: 4,
    });
    match a.render(&t, false).as_slice() {
        [ShapeCmd::Line { a: s, b: e, width, color }] => {
            assert_eq!(*s, p(20, 20));
            assert_eq!(*e, p(80, 60));
            assert_eq!(*width, 8);
            assert_eq!(*color, red());
        },
        other => panic!("expected one line command, got {:?}", other),
    }
}

#[test]
fn transform_offsets_move_into_screen_space() {
    // A half-scale transform anchored inside the image, targeting a
    // shifted viewport.
    let t = Transform::new(p(100, 100), p(7, 9), 1, 2);
    let a = Annotation::Segment(SegmentAnnotation {
        starting_pos: p(100, 100),
        ending_pos: p(160, 140),
        color: red(),
        width: 8,
    });
    match a.render(&t, false).as_slice() {
        [ShapeCmd::Line { a: s, b: e, width, .. }] => {
            assert_eq!(*s, p(7, 9));
            assert_eq!(*e, p(37, 29));
            assert_eq!(*width, 4);
        },
        other => panic!("expected one line command, got {:?}", other),
    }
}

#[test]
fn erasers_and_finished_crops_render_nothing() {
    let t = Transform::identity();
    let eraser = Annotation::eraser(
        Annotation::Segment(SegmentAnnotation {
            starting_pos: p(1, 1),
            ending_pos: p(2, 2),
            color: red(),
            width: 1,
        }),
        0,
    );
    assert!(eraser.render(&t, false).is_empty());
    assert!(eraser.render_native().is_empty());
    let done = Annotation::Crop(CropAnnotation {
        p1: p(0, 0),
        p2: p(10, 10),
        resizing: false,
        finished: true,
    });
    assert!(done.render(&t, false).is_empty());
    assert!(done.render_native().is_empty());
}

#[test]
fn unfinished_crop_overlay_has_handles_shades_and_border() {
    let t = Transform::identity();
    let c = Annotation::Crop(CropAnnotation {
        p1: p(10, 10),
        p2: p(50, 30),
        resizing: false,
        finished: false,
    });
    let cmds = c.render(&t, false);
    assert_eq!(cmds.len(), 13);
    let handles = cmds.iter().filter(|c| matches!(c, ShapeCmd::Handle { .. })).count();
    let shades = cmds.iter().filter(|c| matches!(c, ShapeCmd::Shade { .. })).count();
    assert_eq!(handles, 8);
    assert_eq!(shades, 4);
    match &cmds[12] {
        ShapeCmd::Rect { min, max, width, .. } => {
            assert_eq!(*min, p(10, 10));
            assert_eq!(*max, p(50, 30));
            assert_eq!(*width, 1);
        },
        other => panic!("expected the border last, got {:?}", other),
    }
}

#[test]
fn text_editing_overlay_adds_dashed_box() {
    let t = Transform::identity();
    let a = Annotation::Text(TextAnnotation {
        pos: p(20, 20),
        text: String::from("ab"),
        size: 10,
        color: red(),
    });
    let plain = a.render(&t, false);
    assert_eq!(plain.len(), 1);
    let editing = a.render(&t, true);
    assert_eq!(editing.len(), 2);
    assert!(matches!(editing[0], ShapeCmd::DashedBox { .. }));
    match &editing[1] {
        ShapeCmd::Text { pos, size, text, .. } => {
            assert_eq!(*pos, p(20, 20));
            assert_eq!(*size, 10);
            assert_eq!(text, "ab");
        },
        other => panic!("expected the text command, got {:?}", other),
    }
}

#[test]
fn eraser_hit_test_uses_visual_boxes_topmost_first() {
    let seg = Annotation::Segment(SegmentAnnotation {
        starting_pos: p(10, 10),
        ending_pos: p(30, 10),
        color: red(),
        width: 4,
    });
    // Inside the stroked box (expanded by half the width).
    assert!(seg.check_click(p(20, 12)));
    // Outside it.
    assert!(!seg.check_click(p(20, 30)));
    let circle = Annotation::Circle(CircleAnnotation {
        center: p(50, 50),
        radius: 10,
        color: red(),
        width: 2,
        fill_color: blue(),
    });
    assert!(circle.check_click(p(60, 55)));
    assert!(!circle.check_click(p(70, 70)));
    // Erasers are never erasable.
    let eraser = Annotation::eraser(seg, 0);
    assert!(!eraser.check_click(p(20, 12)));
}

#[test]
fn crop_handle_points_follow_the_transform() {
    let c = CropAnnotation { p1: p(10, 10), p2: p(30, 20), resizing: false, finished: false };
    let t = Transform::new(p(0, 0), p(0, 0), 2, 1);
    let pts = c.get_points(&t);
    assert_eq!(pts.len(), 8);
    assert_eq!(pts[0], p(20, 20));
    assert_eq!(pts[1], p(40, 20));
    assert_eq!(pts[2], p(60, 20));
    assert_eq!(pts[7], p(60, 40));
    let cps = c.get_control_points(&t);
    assert_eq!(cps.len(), 8);
    assert_eq!(cps[0].pos, pts[0]);
    assert!(matches!(cps[0].label, screen_grabber::annotation::Position::LeftTop));
    assert!(matches!(cps[7].label, screen_grabber::annotation::Position::RightBottom));
}

#[test]
fn scene_render_skips_crops_and_overlays_current() {
    let mut ed = screen_grabber::editor::Editor::default();
    ed.reset_for_new_image(200, 200);
    ed.manage_segment(screen_grabber::editor::DragEvent::Started(p(10, 10)));
    ed.manage_segment(screen_grabber::editor::DragEvent::Released(p(50, 50)));
    ed.annotations.push(Annotation::Crop(CropAnnotation {
        p1: p(0, 0),
        p2: p(100, 100),
        resizing: false,
        finished: true,
    }));
    // An in-progress text block renders last, in its editing style.
    ed.manage_text(&screen_grabber::editor::TextEvent::Clicked(p(20, 20)));
    let cmds = ed.manage_render(&Transform::identity());
    // One line for the segment, nothing for the crop marker, then the
    // dashed box and the text block of the annotation in progress.
    assert_eq!(cmds.len(), 3);
    assert!(matches!(cmds[0], ShapeCmd::Line { .. }));
    assert!(matches!(cmds[1], ShapeCmd::DashedBox { .. }));
    assert!(matches!(cmds[2], ShapeCmd::Text { .. }));
}
