use screen_grabber::annotation::{Annotation, SegmentAnnotation};
use screen_grabber::editor::{CropEvent, DragEvent, Editor, EditorInput, Mode, TextEvent, TextureUpdate};
use screen_grabber::geometry::Pos;

fn fresh_editor() -> Editor {
    let mut ed = Editor::default();
    ed.reset_for_new_image(200, 200);
    ed
}

fn p(x: i64, y: i64) -> Pos {
    Pos { x, y }
}

#[test]
fn rect_commit_undo_redo_cycle() {
    // Draw Rect{p1=(10,10), p2=(110,60), color=red, width=4} and commit.
    let mut ed = fresh_editor();
    ed.current_width = 4;
    ed.manage_rect(DragEvent::Started(p(10, 10)));
    ed.manage_rect(DragEvent::Dragged(p(60, 30)));
    ed.manage_rect(DragEvent::Released(p(110, 60)));
    assert_eq!(ed.annotations.len(), 1);
    assert!(ed.undone_annotations.is_empty());
    assert!(ed.current_annotation.is_none());
    match &ed.annotations[0] {
        Annotation::Rect(r) => {
            assert_eq!(r.p1, p(10, 10));
            assert_eq!(r.p2, p(110, 60));
            assert_eq!(r.color, ed.current_color);
            assert_eq!(r.width, 4);
        },
        other => panic!("expected a rectangle, got {:?}", other),
    }
    // Undo: the list empties, the redo stack holds the rectangle.
    let tex = ed.undo();
    assert!(tex.is_none());
    assert!(ed.annotations.is_empty());
    assert_eq!(ed.undone_annotations.len(), 1);
    assert!(matches!(ed.undone_annotations[0], Annotation::Rect(_)));
    // Redo: the rectangle returns, the redo stack empties.
    let tex = ed.redo();
    assert!(tex.is_none());
    assert_eq!(ed.annotations.len(), 1);
    assert!(ed.undone_annotations.is_empty());
    match &ed.annotations[0] {
        Annotation::Rect(r) => {
            assert_eq!(r.p1, p(10, 10));
            assert_eq!(r.p2, p(110, 60));
        },
        other => panic!("expected a rectangle, got {:?}", other),
    }
}

#[test]
fn erase_records_index_and_undo_reinserts_in_order() {
    // Commit Segment A, then Circle B, erase A (now at index 0).
    let mut ed = fresh_editor();
    ed.manage_segment(DragEvent::Started(p(10, 10)));
    ed.manage_segment(DragEvent::Released(p(20, 20)));
    ed.manage_circle(DragEvent::Started(p(150, 150)));
    ed.manage_circle(DragEvent::Released(p(150, 160)));
    assert_eq!(ed.annotations.len(), 2);
    ed.manage_eraser(p(15, 15));
    assert_eq!(ed.annotations.len(), 2);
    assert!(matches!(ed.annotations[0], Annotation::Circle(_)));
    match &ed.annotations[1] {
        Annotation::Eraser(e) => {
            assert_eq!(e.index, 0);
            assert!(matches!(*e.annotation, Annotation::Segment(_)));
        },
        other => panic!("expected an eraser record, got {:?}", other),
    }
    // Undo reinserts A at index 0, restoring the original z-order.
    ed.undo();
    assert_eq!(ed.annotations.len(), 2);
    assert!(matches!(ed.annotations[0], Annotation::Segment(_)));
    assert!(matches!(ed.annotations[1], Annotation::Circle(_)));
    // Redo removes A at index 0 again.
    ed.redo();
    assert_eq!(ed.annotations.len(), 2);
    assert!(matches!(ed.annotations[0], Annotation::Circle(_)));
    assert!(matches!(ed.annotations[1], Annotation::Eraser(_)));
}

#[test]
fn degenerate_shapes_are_discarded() {
    let mut ed = fresh_editor();
    // A zero-length segment.
    ed.manage_segment(DragEvent::Started(p(50, 50)));
    ed.manage_segment(DragEvent::Released(p(50, 50)));
    assert!(ed.annotations.is_empty());
    assert!(ed.current_annotation.is_none());
    // A zero-radius circle.
    ed.manage_circle(DragEvent::Started(p(50, 50)));
    ed.manage_circle(DragEvent::Released(p(50, 50)));
    assert!(ed.annotations.is_empty());
    // A zero-extent rectangle.
    ed.manage_rect(DragEvent::Started(p(50, 50)));
    ed.manage_rect(DragEvent::Released(p(50, 50)));
    assert!(ed.annotations.is_empty());
    // A zero-length arrow.
    ed.manage_arrow(DragEvent::Started(p(50, 50)));
    ed.manage_arrow(DragEvent::Released(p(50, 50)));
    assert!(ed.annotations.is_empty());
    // A single-point pencil stroke.
    ed.manage_pencil(DragEvent::Started(p(50, 50)));
    ed.manage_pencil(DragEvent::Released(p(50, 50)));
    assert!(ed.annotations.is_empty());
    // A single-point highlighter stroke.
    ed.manage_highlighter(DragEvent::Started(p(50, 50)));
    ed.manage_highlighter(DragEvent::Released(p(50, 50)));
    assert!(ed.annotations.is_empty());
}

#[test]
fn new_commit_clears_redo_stack() {
    let mut ed = fresh_editor();
    ed.manage_segment(DragEvent::Started(p(10, 10)));
    ed.manage_segment(DragEvent::Released(p(40, 40)));
    ed.manage_segment(DragEvent::Started(p(60, 60)));
    ed.manage_segment(DragEvent::Released(p(90, 90)));
    ed.undo();
    assert_eq!(ed.undone_annotations.len(), 1);
    // Committing anything new invalidates the redo history.
    ed.manage_rect(DragEvent::Started(p(20, 20)));
    ed.manage_rect(DragEvent::Released(p(30, 40)));
    assert!(ed.undone_annotations.is_empty());
    assert_eq!(ed.annotations.len(), 2);
}

#[test]
fn many_commits_undo_all_redo_all() {
    let mut ed = fresh_editor();
    for i in 0..5i64 {
        ed.manage_segment(DragEvent::Started(p(10 + i, 10)));
        ed.manage_segment(DragEvent::Released(p(10 + i, 90)));
    }
    assert_eq!(ed.annotations.len(), 5);
    for _ in 0..5 {
        ed.undo();
    }
    assert!(ed.annotations.is_empty());
    assert_eq!(ed.undone_annotations.len(), 5);
    // The redo stack holds the commits in reverse commit order.
    match (&ed.undone_annotations[0], &ed.undone_annotations[4]) {
        (Annotation::Segment(last), Annotation::Segment(first)) => {
            assert_eq!(last.starting_pos, p(14, 10));
            assert_eq!(first.starting_pos, p(10, 10));
        },
        _ => panic!("expected segments on the redo stack"),
    }
    for _ in 0..5 {
        ed.redo();
    }
    assert!(ed.undone_annotations.is_empty());
    assert_eq!(ed.annotations.len(), 5);
    for i in 0..5i64 {
        match &ed.annotations[i as usize] {
            Annotation::Segment(s) => assert_eq!(s.starting_pos, p(10 + i, 10)),
            other => panic!("expected a segment, got {:?}", other),
        }
    }
}

#[test]
fn crop_commit_sets_display_bounds_and_keeps_coordinates() {
    let mut ed = fresh_editor();
    // A segment drawn before the crop keeps its stored coordinates.
    ed.manage_segment(DragEvent::Started(p(10, 10)));
    ed.manage_segment(DragEvent::Released(p(90, 90)));
    ed.manage_crop(CropEvent::Drag(DragEvent::Started(p(0, 0))));
    ed.manage_crop(CropEvent::Drag(DragEvent::Released(p(100, 100))));
    match &ed.current_annotation {
        Some(Annotation::Crop(c)) => {
            assert!(!c.resizing);
            assert!(!c.finished);
        },
        other => panic!("expected a crop in progress, got {:?}", other),
    }
    // Committing the crop asks the shell to re-derive the texture for
    // the new display bounds.
    let reload = ed.manage_crop(CropEvent::Commit);
    assert!(reload.is_some());
    assert_eq!(ed.crop_rect.min, p(0, 0));
    assert_eq!(ed.crop_rect.max, p(100, 100));
    assert_eq!(ed.annotations.len(), 2);
    match &ed.annotations[0] {
        Annotation::Segment(s) => {
            assert_eq!(s.starting_pos, p(10, 10));
            assert_eq!(s.ending_pos, p(90, 90));
        },
        other => panic!("expected the segment unchanged, got {:?}", other),
    }
    match &ed.annotations[1] {
        Annotation::Crop(c) => {
            assert!(c.finished);
            assert_eq!(c.p1, p(0, 0));
            assert_eq!(c.p2, p(100, 100));
        },
        other => panic!("expected the crop marker, got {:?}", other),
    }
    // Undo of the crop restores the full display bounds.
    let tex = ed.undo();
    assert!(tex.is_some());
    assert_eq!(ed.crop_rect.min, p(0, 0));
    assert_eq!(ed.crop_rect.max, p(200, 200));
    // Redo re-applies the crop bounds.
    let tex = ed.redo();
    assert!(tex.is_some());
    assert_eq!(ed.crop_rect.max, p(100, 100));
}

#[test]
fn crop_handle_drag_adjusts_and_clamps() {
    let mut ed = fresh_editor();
    ed.manage_crop(CropEvent::Drag(DragEvent::Started(p(50, 50))));
    ed.manage_crop(CropEvent::Drag(DragEvent::Released(p(150, 150))));
    // Drag the top-left handle up beyond the image: both corners clamp.
    ed.manage_crop(CropEvent::HandleDragged(
        screen_grabber::annotation::Position::LeftTop,
        -100,
        -100,
    ));
    match &ed.current_annotation {
        Some(Annotation::Crop(c)) => {
            assert_eq!(c.p1, p(0, 0));
            assert_eq!(c.p2, p(150, 150));
        },
        other => panic!("expected the crop in progress, got {:?}", other),
    }
    ed.manage_crop(CropEvent::HandleReleased);
    let reload = ed.manage_crop(CropEvent::Commit);
    assert!(reload.is_some());
    assert_eq!(ed.crop_rect.min, p(0, 0));
    assert_eq!(ed.crop_rect.max, p(150, 150));
}

#[test]
fn degenerate_crop_drag_is_discarded() {
    let mut ed = fresh_editor();
    ed.manage_crop(CropEvent::Drag(DragEvent::Started(p(50, 50))));
    ed.manage_crop(CropEvent::Drag(DragEvent::Released(p(50, 50))));
    assert!(ed.current_annotation.is_none());
    assert!(ed.annotations.is_empty());
}

#[test]
fn text_tool_types_deletes_and_commits() {
    let mut ed = fresh_editor();
    ed.manage_text(&TextEvent::Clicked(p(30, 30)));
    ed.manage_text(&TextEvent::Insert(String::from("hi!")));
    ed.manage_text(&TextEvent::Backspace);
    ed.manage_text(&TextEvent::ShiftEnter);
    ed.manage_text(&TextEvent::Insert(String::from("there")));
    match &ed.current_annotation {
        Some(Annotation::Text(t)) => {
            assert_eq!(t.text, "hi\nthere");
            assert_eq!(t.pos, p(30, 30));
            assert_eq!(t.size, 32);
        },
        other => panic!("expected the text in progress, got {:?}", other),
    }
    ed.manage_text(&TextEvent::Enter);
    assert!(ed.current_annotation.is_none());
    assert_eq!(ed.annotations.len(), 1);
    match &ed.annotations[0] {
        Annotation::Text(t) => assert_eq!(t.text, "hi\nthere"),
        other => panic!("expected the committed text, got {:?}", other),
    }
}

#[test]
fn highlighter_switches_width_range_and_widens_stroke() {
    let mut ed = fresh_editor();
    ed.current_width = 5;
    ed.manage_highlighter(DragEvent::Started(p(10, 10)));
    assert_eq!(ed.width_min, 10);
    assert_eq!(ed.width_max, 50);
    ed.manage_highlighter(DragEvent::Dragged(p(40, 10)));
    ed.manage_highlighter(DragEvent::Released(p(80, 10)));
    match &ed.annotations[0] {
        Annotation::Highlighter(h) => {
            assert_eq!(h.width, 15);
            assert_eq!(h.points.len(), 3);
        },
        other => panic!("expected a highlighter stroke, got {:?}", other),
    }
    // Using another tool restores the default range via the dispatcher.
    ed.mode = Mode::DrawLine;
    ed.current_width = 40;
    ed.manage_input(&screen_grabber::editor::EditorInput::Drag(DragEvent::Started(p(5, 5))));
    assert_eq!(ed.width_min, 1);
    assert_eq!(ed.width_max, 10);
    assert_eq!(ed.current_width, 10);
}

#[test]
fn pencil_drops_repeated_points() {
    let mut ed = fresh_editor();
    ed.manage_pencil(DragEvent::Started(p(10, 10)));
    ed.manage_pencil(DragEvent::Dragged(p(11, 10)));
    ed.manage_pencil(DragEvent::Dragged(p(11, 10)));
    ed.manage_pencil(DragEvent::Released(p(12, 10)));
    match &ed.annotations[0] {
        Annotation::Pencil(pc) => {
            assert_eq!(pc.points, vec![p(10, 10), p(11, 10), p(12, 10)]);
        },
        other => panic!("expected a pencil stroke, got {:?}", other),
    }
}

#[test]
fn arrow_commit_consolidates_tip() {
    let mut ed = fresh_editor();
    ed.manage_arrow(DragEvent::Started(p(10, 10)));
    ed.manage_arrow(DragEvent::Released(p(110, 10)));
    match &ed.annotations[0] {
        Annotation::Arrow(a) => {
            assert_eq!(a.starting_pos, p(10, 10));
            assert_eq!(a.ending_pos, p(110, 10));
            // The tip was materialized at commit: it leaves the end
            // point backwards at an angle.
            assert_eq!(a.tip.line1.0, p(110, 10));
            assert_eq!(a.tip.line2.0, p(110, 10));
            assert!(a.tip.line1.1.x < 110);
            assert!(a.tip.line2.1.x < 110);
            assert!(a.tip.line1.1.y != a.tip.line2.1.y);
        },
        other => panic!("expected an arrow, got {:?}", other),
    }
}

#[test]
fn select_tool_toggles_and_discards_current() {
    let mut ed = fresh_editor();
    ed.manage_segment(DragEvent::Started(p(10, 10)));
    assert!(ed.current_annotation.is_some());
    ed.select_tool(Mode::DrawLine);
    assert!(ed.current_annotation.is_none());
    assert_eq!(ed.mode, Mode::DrawLine);
    ed.select_tool(Mode::DrawLine);
    assert_eq!(ed.mode, Mode::Idle);
}

#[test]
fn input_is_clamped_to_display_bounds() {
    let mut ed = fresh_editor();
    ed.manage_segment(DragEvent::Started(p(-50, 300)));
    match &ed.current_annotation {
        Some(Annotation::Segment(s)) => assert_eq!(s.starting_pos, p(0, 200)),
        other => panic!("expected a segment in progress, got {:?}", other),
    }
}

#[test]
fn annotations_same_as_compares_content() {
    let a = Annotation::Segment(SegmentAnnotation {
        starting_pos: p(1, 2),
        ending_pos: p(3, 4),
        color: screen_grabber::geometry::Color { r: 1, g: 2, b: 3, a: 4 },
        width: 5,
    });
    let b = a.clone();
    assert!(a.same_as(&b));
    let c = Annotation::Segment(SegmentAnnotation {
        starting_pos: p(9, 2),
        ending_pos: p(3, 4),
        color: screen_grabber::geometry::Color { r: 1, g: 2, b: 3, a: 4 },
        width: 5,
    });
    assert!(!a.same_as(&c));
}

#[test]
fn enter_commits_even_empty_text() {
    let mut ed = fresh_editor();
    ed.manage_text(&TextEvent::Clicked(p(40, 40)));
    ed.manage_text(&TextEvent::Enter);
    assert_eq!(ed.annotations.len(), 1);
    match &ed.annotations[0] {
        Annotation::Text(t) => assert!(t.text.is_empty()),
        other => panic!("expected the empty text committed, got {:?}", other),
    }
}

#[test]
fn undo_and_redo_on_empty_stacks_do_nothing() {
    let mut ed = fresh_editor();
    assert!(ed.undo().is_none());
    assert!(ed.redo().is_none());
    assert!(ed.annotations.is_empty());
    assert!(ed.undone_annotations.is_empty());
}

#[test]
fn backspace_on_empty_text_is_harmless() {
    let mut ed = fresh_editor();
    ed.manage_text(&TextEvent::Clicked(p(40, 40)));
    ed.manage_text(&TextEvent::Backspace);
    match &ed.current_annotation {
        Some(Annotation::Text(t)) => assert!(t.text.is_empty()),
        other => panic!("expected the empty text in progress, got {:?}", other),
    }
}

#[test]
fn dispatcher_forwards_crop_commit_reload() {
    let mut ed = fresh_editor();
    ed.mode = Mode::Crop;
    assert!(ed.manage_input(&EditorInput::Drag(DragEvent::Started(p(10, 10)))).is_none());
    assert!(ed.manage_input(&EditorInput::Drag(DragEvent::Released(p(60, 60)))).is_none());
    let reload = ed.manage_input(&EditorInput::Crop(CropEvent::Commit));
    match reload {
        Some(TextureUpdate::Reload(b)) => {
            assert_eq!(b.min, p(10, 10));
            assert_eq!(b.max, p(60, 60));
        },
        None => panic!("a committed crop must request a texture reload"),
    }
    assert_eq!(ed.crop_rect.max, p(60, 60));
}
