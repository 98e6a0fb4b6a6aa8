//! The interactive engine: tool modes, the in-progress annotation, the
//! committed annotation list and the redo stack, the per-tool input
//! state machines, and undo/redo with the index- and region-sensitive
//! restore semantics of `Eraser` and `Crop` entries.
//!
//! Input reaches the editor as image-space events; the surrounding shell
//! translates pointer and key input and performs texture loading, which
//! the editor requests through `TextureUpdate` values.

use vstd::prelude::*;

use crate::annotation::{
    Annotation, AnnotationModel, CropAnnotation, EraserAnnotation, Position, SegmentAnnotation,
    anns_model,
};
use crate::geometry::{Bounds, Color, Pos, Transform, COORD_LIMIT, bounds_wf, pos_wf};
use crate::render::{ShapeCmd, cmds_model, render_command_list, spec_interactive_list,
    spec_render_interactive};

verus! {

/// The momentary tool selection.
#[derive(Clone, Copy, Debug, PartialEq, Eq, Structural)]
pub enum Mode {
    Crop,
    DrawArrow,
    DrawCircle,
    DrawFree,
    DrawLine,
    DrawRect,
    Erase,
    Highlight,
    Idle,
    InsertText,
    Redo,
    Undo,
}

/// Which color, if any, fills closed shapes.
#[derive(Clone, Copy, Debug, PartialEq, Eq, Structural)]
pub enum FillType {
    Primary,
    Secondary,
    NoFill,
}

/// One step of a pointer drag, in image space.
#[derive(Clone, Copy, Debug)]
pub enum DragEvent {
    Started(Pos),
    Dragged(Pos),
    Released(Pos),
}

/// One input event for the text tool.
#[derive(Clone, Debug)]
pub enum TextEvent {
    Clicked(Pos),
    Insert(String),
    Backspace,
    Enter,
    ShiftEnter,
}

/// One input event for the crop tool.
#[derive(Clone, Copy, Debug)]
pub enum CropEvent {
    Drag(DragEvent),
    /// A resize handle was dragged by an image-space delta.
    HandleDragged(Position, i64, i64),
    HandleReleased,
    /// Enter was pressed: commit the crop.
    Commit,
}

/// A request to the shell to re-derive the display texture from the raw
/// image, cropped to the given image-space area.
#[derive(Clone, Copy, Debug, PartialEq, Eq, Structural)]
pub enum TextureUpdate {
    Reload(Bounds),
}

/// Committing an annotation appends it and invalidates the redo stack.
pub open spec fn commit_lists(anns: Seq<AnnotationModel>, a: AnnotationModel) -> (
    Seq<AnnotationModel>,
    Seq<AnnotationModel>,
) {
    (anns.push(a), Seq::empty())
}

/// The commit policy at drag-release: a degenerate shape is silently
/// discarded, any other is committed.
pub open spec fn commit_policy_lists(
    anns: Seq<AnnotationModel>,
    undone: Seq<AnnotationModel>,
    a: AnnotationModel,
) -> (Seq<AnnotationModel>, Seq<AnnotationModel>) {
    if a.degenerate() {
        (anns, undone)
    } else {
        commit_lists(anns, a)
    }
}

/// Erasing the entry at index `i` removes it and appends an `Eraser`
/// record holding it, as a new committed edit.
pub open spec fn erase_lists(anns: Seq<AnnotationModel>, i: int) -> (
    Seq<AnnotationModel>,
    Seq<AnnotationModel>,
)
    recommends
        0 <= i < anns.len(),
{
    (
        anns.remove(i).push(AnnotationModel::Eraser { annotation: Box::new(anns[i]), index: i }),
        Seq::empty(),
    )
}

/// Undo pops the last entry onto the redo stack; an `Eraser` entry also
/// reinserts what it removed at its recorded index, preserving z-order.
pub open spec fn undo_lists(anns: Seq<AnnotationModel>, undone: Seq<AnnotationModel>) -> (
    Seq<AnnotationModel>,
    Seq<AnnotationModel>,
) {
    if anns.len() == 0 {
        (anns, undone)
    } else {
        let popped = anns.last();
        let rest = anns.drop_last();
        let restored = match popped {
            AnnotationModel::Eraser { annotation, index } => if 0 <= index <= rest.len() {
                rest.insert(index, *annotation)
            } else {
                rest.push(*annotation)
            },
            _ => rest,
        };
        (restored, undone.push(popped))
    }
}

/// Redo pops the last undone entry back onto the list; an `Eraser` entry
/// also removes its target at the recorded index again.
pub open spec fn redo_lists(anns: Seq<AnnotationModel>, undone: Seq<AnnotationModel>) -> (
    Seq<AnnotationModel>,
    Seq<AnnotationModel>,
) {
    if undone.len() == 0 {
        (anns, undone)
    } else {
        let popped = undone.last();
        let rest = undone.drop_last();
        let removed = match popped {
            AnnotationModel::Eraser { index, .. } => if 0 <= index < anns.len() {
                anns.remove(index)
            } else {
                anns
            },
            _ => anns,
        };
        (removed.push(popped), rest)
    }
}

/// `n` commits in order.
pub open spec fn commit_n(anns: Seq<AnnotationModel>, items: Seq<AnnotationModel>) -> (
    Seq<AnnotationModel>,
    Seq<AnnotationModel>,
)
    decreases items.len(),
{
    if items.len() == 0 {
        (anns, Seq::empty())
    } else {
        let prev = commit_n(anns, items.drop_last());
        commit_lists(prev.0, items.last())
    }
}

/// `n` undos in order.
pub open spec fn undo_n(anns: Seq<AnnotationModel>, undone: Seq<AnnotationModel>, n: nat) -> (
    Seq<AnnotationModel>,
    Seq<AnnotationModel>,
)
    decreases n,
{
    if n == 0 {
        (anns, undone)
    } else {
        let s = undo_lists(anns, undone);
        undo_n(s.0, s.1, (n - 1) as nat)
    }
}

/// `n` redos in order.
pub open spec fn redo_n(anns: Seq<AnnotationModel>, undone: Seq<AnnotationModel>, n: nat) -> (
    Seq<AnnotationModel>,
    Seq<AnnotationModel>,
)
    decreases n,
{
    if n == 0 {
        (anns, undone)
    } else {
        let s = redo_lists(anns, undone);
        redo_n(s.0, s.1, (n - 1) as nat)
    }
}

/// Degenerate-shape law: a shape with zero extent at drag-release leaves
/// the annotation list (and the redo stack) exactly as they were.
pub proof fn lemma_degenerate_discard(
    anns: Seq<AnnotationModel>,
    undone: Seq<AnnotationModel>,
    a: AnnotationModel,
)
    requires
        a.degenerate(),
    ensures
        commit_policy_lists(anns, undone, a) == (anns, undone),
{
}

/// Redo invalidation law: committing any new annotation, by drawing or
/// by erasing, leaves the redo stack empty.
pub proof fn lemma_commit_clears_redo(anns: Seq<AnnotationModel>, a: AnnotationModel, i: int)
    ensures
        commit_lists(anns, a).1 =~= Seq::<AnnotationModel>::empty(),
        erase_lists(anns, i).1 =~= Seq::<AnnotationModel>::empty(),
{
}

/// Eraser index law: erasing the entry at index `i` and then undoing
/// reinserts it at index `i`, restoring the list exactly.
pub proof fn lemma_eraser_index(anns: Seq<AnnotationModel>, i: int)
    requires
        0 <= i < anns.len(),
    ensures
        undo_lists(erase_lists(anns, i).0, erase_lists(anns, i).1).0 == anns,
        undo_lists(erase_lists(anns, i).0, erase_lists(anns, i).1).1 == seq![
            AnnotationModel::Eraser { annotation: Box::new(anns[i]), index: i },
        ],
{
    let e = erase_lists(anns, i);
    let marker = AnnotationModel::Eraser { annotation: Box::new(anns[i]), index: i };
    assert(e.0.last() == marker);
    assert(e.0.drop_last() =~= anns.remove(i));
    assert(anns.remove(i).insert(i, anns[i]) =~= anns);
    assert(undo_lists(e.0, e.1).1 =~= seq![marker]);
}

/// Undo followed immediately by redo restores both lists exactly, for
/// any topmost entry: a plain shape, a crop marker, or an eraser whose
/// recorded index lies within the remaining list, as every eraser the
/// editor commits records it.
pub proof fn lemma_undo_then_redo(anns: Seq<AnnotationModel>, undone: Seq<AnnotationModel>)
    requires
        anns.len() > 0,
        anns.last() matches AnnotationModel::Eraser { index, .. } ==> 0 <= index <= anns.len()
            - 1,
    ensures
        redo_lists(undo_lists(anns, undone).0, undo_lists(anns, undone).1) == (anns, undone),
{
    let t = anns.last();
    let rest = anns.drop_last();
    let a1 = undo_lists(anns, undone).0;
    let u1 = undo_lists(anns, undone).1;
    assert(u1 == undone.push(t));
    assert(u1.last() == t);
    assert(u1.drop_last() =~= undone);
    match t {
        AnnotationModel::Eraser { annotation, index } => {
            assert(0 <= index <= rest.len());
            assert(a1 == rest.insert(index, *annotation));
            assert(index < a1.len());
            assert(a1.remove(index) =~= rest);
            assert(a1.remove(index).push(t) =~= anns);
        },
        _ => {
            assert(a1 == rest);
            assert(rest.push(t) =~= anns);
        },
    }
    assert(redo_lists(a1, u1).0 =~= anns);
    assert(redo_lists(a1, u1).1 =~= undone);
}

/// Undo/redo inverse law: from a state with an empty redo stack, `n`
/// commits followed by `n` undos restore the original list, with the
/// commits on the redo stack in reverse commit order; `n` redos then
/// restore the committed list exactly, including z-order.
pub proof fn lemma_undo_redo_inverse(anns0: Seq<AnnotationModel>, items: Seq<AnnotationModel>)
    requires
        forall|i: int| 0 <= i < items.len() ==> !((#[trigger] items[i]) is Eraser),
    ensures
        items.len() > 0 ==> commit_n(anns0, items) == (anns0 + items, Seq::<
            AnnotationModel,
        >::empty()),
        undo_n(anns0 + items, Seq::empty(), items.len()) == (anns0, items.reverse()),
        redo_n(anns0, items.reverse(), items.len()) == (anns0 + items, Seq::<
            AnnotationModel,
        >::empty()),
{
    lemma_commit_n_appends(anns0, items);
    lemma_undo_n_pops(anns0, items, Seq::empty());
    assert(Seq::empty() + items.reverse() =~= items.reverse());
    lemma_redo_n_restores(anns0, items, Seq::empty());
}

proof fn lemma_commit_n_appends(anns0: Seq<AnnotationModel>, items: Seq<AnnotationModel>)
    ensures
        items.len() > 0 ==> commit_n(anns0, items) == (anns0 + items, Seq::<
            AnnotationModel,
        >::empty()),
    decreases items.len(),
{
    if items.len() > 0 {
        lemma_commit_n_appends(anns0, items.drop_last());
        if items.len() == 1 {
            assert(commit_n(anns0, items.drop_last()) == (anns0, Seq::<AnnotationModel>::empty()))
                by {
                reveal_with_fuel(commit_n, 2);
            }
            assert(anns0 + items =~= anns0.push(items.last()));
        } else {
            assert(anns0 + items =~= (anns0 + items.drop_last()).push(items.last()));
        }
        assert(commit_n(anns0, items).0 =~= anns0 + items);
    }
}

proof fn lemma_undo_n_pops(
    anns0: Seq<AnnotationModel>,
    items: Seq<AnnotationModel>,
    undone0: Seq<AnnotationModel>,
)
    requires
        forall|i: int| 0 <= i < items.len() ==> !((#[trigger] items[i]) is Eraser),
    ensures
        undo_n(anns0 + items, undone0, items.len()) == (anns0, undone0 + items.reverse()),
    decreases items.len(),
{
    if items.len() == 0 {
        assert(anns0 + items =~= anns0);
        assert(undone0 + items.reverse() =~= undone0);
    } else {
        let whole = anns0 + items;
        assert(whole.len() > 0);
        assert(whole.last() == items.last());
        assert(!(whole.last() is Eraser));
        assert(whole.drop_last() =~= anns0 + items.drop_last());
        let step = undo_lists(whole, undone0);
        assert(step.0 == anns0 + items.drop_last());
        assert(step.1 == undone0.push(items.last()));
        lemma_undo_n_pops(anns0, items.drop_last(), undone0.push(items.last()));
        assert(undone0.push(items.last()) + items.drop_last().reverse() =~= undone0
            + items.reverse());
    }
}

proof fn lemma_redo_n_restores(
    anns0: Seq<AnnotationModel>,
    items: Seq<AnnotationModel>,
    undone0: Seq<AnnotationModel>,
)
    requires
        forall|i: int| 0 <= i < items.len() ==> !((#[trigger] items[i]) is Eraser),
    ensures
        redo_n(anns0, undone0 + items.reverse(), items.len()) == (anns0 + items, undone0),
    decreases items.len(),
{
    if items.len() == 0 {
        assert(undone0 + items.reverse() =~= undone0);
        assert(anns0 + items =~= anns0);
    } else {
        let stack = undone0 + items.reverse();
        assert(stack.len() > 0);
        assert(items.reverse()[items.len() - 1] == items[0]);
        assert(stack.last() == items[0]);
        assert(!(items[0] is Eraser));
        let step = redo_lists(anns0, stack);
        assert(step.0 == anns0.push(items[0]));
        assert(stack.drop_last() =~= undone0 + items.drop_first().reverse()) by {
            assert forall|j: int| 0 <= j < stack.len() - 1 implies stack.drop_last()[j] == (undone0
                + items.drop_first().reverse())[j] by {
                if j >= undone0.len() {
                    assert(stack.drop_last()[j] == items.reverse()[j - undone0.len()]);
                    assert(items.reverse()[j - undone0.len()] == items[items.len() - 1 - (j
                        - undone0.len())]);
                    assert(items.drop_first().reverse()[j - undone0.len()] == items.drop_first()[
                        items.len() - 2 - (j - undone0.len())]);
                }
            }
        }
        assert(forall|i: int|
            0 <= i < items.drop_first().len() ==> !((#[trigger] items.drop_first()[i]) is Eraser));
        lemma_redo_n_restores(anns0.push(items[0]), items.drop_first(), undone0);
        assert(anns0.push(items[0]) + items.drop_first() =~= anns0 + items);
        assert(step.1 == stack.drop_last());
    }
}

/// The interactive editor's whole state. The raw captured image and the
/// display texture live in the shell; the editor keeps their size and
/// the image-space bounds of what is displayed.
pub struct Editor {
    pub mode: Mode,
    /// Image-space bounds of the currently displayed (possibly cropped)
    /// texture: the valid coordinate space for input.
    pub crop_rect: Bounds,
    /// Width and height of the captured raw image, once one exists.
    pub image_size: Option<(u64, u64)>,
    /// The annotation actively being drawn or typed.
    pub current_annotation: Option<Annotation>,
    /// Committed annotations: insertion order is z-order is undo order.
    pub annotations: Vec<Annotation>,
    /// The redo stack, cleared by every new commit.
    pub undone_annotations: Vec<Annotation>,
    pub current_color: Color,
    pub current_width: i64,
    pub current_fill_color: Color,
    pub current_font_size: i64,
    pub width_min: i64,
    pub width_max: i64,
    pub fill_type: FillType,
}

/// Stroke width range of the ordinary drawing tools.
pub const WIDTH_MIN_DEFAULT: i64 = 1;

pub const WIDTH_MAX_DEFAULT: i64 = 10;

/// Stroke width range of the highlighter.
pub const WIDTH_MIN_HIGHLIGHTER: i64 = 10;

pub const WIDTH_MAX_HIGHLIGHTER: i64 = 50;

/// How much wider a highlighter stroke is than the selected width.
pub const HIGHLIGHTER_EXTRA_WIDTH: i64 = 10;

/// Font size given to a text annotation placed by a click.
pub const TEXT_CLICK_FONT_SIZE: i64 = 32;

impl Editor {
    pub open spec fn wf(self) -> bool {
        &&& bounds_wf(self.crop_rect)
        &&& (self.image_size matches Some((w, h)) ==> w <= COORD_LIMIT && h <= COORD_LIMIT)
        &&& forall|i: int|
            0 <= i < self.annotations@.len() ==> (#[trigger] self.annotations@[i]).wf()
        &&& forall|i: int|
            0 <= i < self.undone_annotations@.len() ==> (
            #[trigger] self.undone_annotations@[i]).wf()
        &&& (self.current_annotation matches Some(a) ==> a.wf())
        &&& 1 <= self.width_min <= self.width_max <= 1000
        &&& 0 <= self.current_width <= 2000
        &&& 1 <= self.current_font_size <= 1024
    }

    /// The tool configuration: everything but the annotation lists, the
    /// in-progress annotation and the displayed area.
    pub open spec fn same_style(a: Editor, b: Editor) -> bool {
        &&& a.mode == b.mode
        &&& a.current_color == b.current_color
        &&& a.current_width == b.current_width
        &&& a.current_fill_color == b.current_fill_color
        &&& a.current_font_size == b.current_font_size
        &&& a.width_min == b.width_min
        &&& a.width_max == b.width_max
        &&& a.fill_type == b.fill_type
    }

    /// The displayed area: the crop bounds and the raw image size.
    pub open spec fn same_surface(a: Editor, b: Editor) -> bool {
        a.crop_rect == b.crop_rect && a.image_size == b.image_size
    }

    /// Both history lists, unchanged.
    pub open spec fn same_history(a: Editor, b: Editor) -> bool {
        a.annotations@ == b.annotations@ && a.undone_annotations@ == b.undone_annotations@
    }

    /// Commit an annotation: append it, clear the redo stack, clear the
    /// annotation in progress.
    pub fn add_annotation(&mut self, annotation: Annotation)
        ensures
            final(self).annotations@ == old(self).annotations@.push(annotation),
            (
                anns_model(final(self).annotations@),
                anns_model(final(self).undone_annotations@),
            ) == commit_lists(anns_model(old(self).annotations@), annotation@),
            final(self).undone_annotations@ == Seq::<Annotation>::empty(),
            final(self).current_annotation is None,
            Editor::same_style(*old(self), *final(self)),
            Editor::same_surface(*old(self), *final(self)),
    {
        self.annotations.push(annotation);
        self.undone_annotations = Vec::new();
        self.current_annotation = None;
        proof {
            lemma_anns_model_push(old(self).annotations@, annotation);
            assert(anns_model(self.undone_annotations@) =~= Seq::<AnnotationModel>::empty());
        }
    }

    /// Undo the last committed edit. Pops it onto the redo stack; an
    /// `Eraser` entry reinserts what it removed at its recorded index; a
    /// `Crop` entry re-derives the displayed area from the most recent
    /// remaining crop, or the full image, and asks the shell to reload
    /// the texture.
    pub fn undo(&mut self) -> (r: Option<TextureUpdate>)
        requires
            old(self).wf(),
            old(self).image_size is Some,
        ensures
            final(self).wf(),
            Editor::same_style(*old(self), *final(self)),
            final(self).image_size == old(self).image_size,
            final(self).current_annotation == old(self).current_annotation,
            (
                anns_model(final(self).annotations@),
                anns_model(final(self).undone_annotations@),
            ) == undo_lists(
                anns_model(old(self).annotations@),
                anns_model(old(self).undone_annotations@),
            ),
            old(self).annotations@.len() == 0 ==> r is None && Editor::same_history(
                *old(self),
                *final(self),
            ) && final(self).crop_rect == old(self).crop_rect,
            old(self).annotations@.len() > 0 ==> {
                let popped = old(self).annotations@.last();
                if popped is Crop {
                    &&& final(self).crop_rect == spec_derived_crop_rect(
                        old(self).annotations@.drop_last(),
                        old(self).image_size->0,
                    )
                    &&& r == Some(TextureUpdate::Reload(final(self).crop_rect))
                } else {
                    r is None && final(self).crop_rect == old(self).crop_rect
                }
            },
    {
        if self.annotations.len() == 0 {
            return None;
        }
        let ghost anns0 = self.annotations@;
        let ghost undone0 = self.undone_annotations@;
        let ghost m0 = anns_model(anns0);
        let popped: Annotation = self.annotations.pop().unwrap();
        proof {
            assert(anns0.drop_last() =~= self.annotations@);
            assert(m0.drop_last() =~= anns_model(self.annotations@));
        }
        let mut result: Option<TextureUpdate> = None;
        match popped {
            Annotation::Eraser(e) => {
                let stack_copy: Annotation = crate::annotation::clone_annotation(&e.annotation);
                let index: usize = e.index;
                let inner: Annotation = *e.annotation;
                let ghost rest = self.annotations@;
                if index <= self.annotations.len() {
                    self.annotations.insert(index, inner);
                    proof {
                        lemma_anns_model_insert(rest, index as int, inner);
                        assert(0 <= index as int <= rest.len() && self.annotations@ == rest.insert(
                            index as int,
                            inner,
                        ));
                    }
                } else {
                    self.annotations.push(inner);
                    proof {
                        lemma_anns_model_push(rest, inner);
                        assert(rest.push(inner) =~= rest.insert(rest.len() as int, inner));
                        assert(0 <= rest.len() as int <= rest.len() && self.annotations@
                            == rest.insert(rest.len() as int, inner));
                    }
                }
                let marker: Annotation = Annotation::Eraser(
                    EraserAnnotation { index, annotation: Box::new(stack_copy) },
                );
                proof {
                    assert(marker@ == anns0.last()@);
                    lemma_anns_model_push(undone0, marker);
                    assert(anns_model(self.annotations@) =~= undo_lists(
                        m0,
                        anns_model(undone0),
                    ).0);
                    assert forall|i: int| 0 <= i < self.annotations@.len() implies (
                    #[trigger] self.annotations@[i]).wf() by {
                        lemma_wf_after_insert(rest, self.annotations@, inner, i);
                    }
                }
                self.undone_annotations.push(marker);
            },
            Annotation::Crop(c) => {
                let rect: Bounds = self.derive_crop_rect();
                self.crop_rect = rect;
                result = Some(TextureUpdate::Reload(rect));
                proof {
                    lemma_anns_model_push(undone0, Annotation::Crop(c));
                }
                self.undone_annotations.push(Annotation::Crop(c));
            },
            other => {
                proof {
                    lemma_anns_model_push(undone0, other);
                }
                self.undone_annotations.push(other);
            },
        }
        result
    }

    /// Redo the most recently undone edit. Pops it back onto the list;
    /// an `Eraser` entry removes its target at the recorded index again;
    /// a `Crop` entry re-applies its crop and asks the shell to reload
    /// the texture.
    pub fn redo(&mut self) -> (r: Option<TextureUpdate>)
        requires
            old(self).wf(),
            old(self).image_size is Some,
        ensures
            final(self).wf(),
            Editor::same_style(*old(self), *final(self)),
            final(self).image_size == old(self).image_size,
            final(self).current_annotation == old(self).current_annotation,
            (
                anns_model(final(self).annotations@),
                anns_model(final(self).undone_annotations@),
            ) == redo_lists(
                anns_model(old(self).annotations@),
                anns_model(old(self).undone_annotations@),
            ),
            old(self).undone_annotations@.len() == 0 ==> r is None && Editor::same_history(
                *old(self),
                *final(self),
            ) && final(self).crop_rect == old(self).crop_rect,
            old(self).undone_annotations@.len() > 0 ==> match old(self).undone_annotations@.last() {
                Annotation::Crop(c) => final(self).crop_rect == Bounds::spec_from_two_pos(
                    c.p1,
                    c.p2,
                ) && r == Some(TextureUpdate::Reload(final(self).crop_rect)),
                _ => r is None && final(self).crop_rect == old(self).crop_rect,
            },
    {
        if self.undone_annotations.len() == 0 {
            return None;
        }
        let ghost anns0 = self.annotations@;
        let ghost undone0 = self.undone_annotations@;
        let redone: Annotation = self.undone_annotations.pop().unwrap();
        proof {
            assert(undone0.drop_last() =~= self.undone_annotations@);
            assert(anns_model(undone0).drop_last() =~= anns_model(self.undone_annotations@));
            assert(anns_model(undone0).last() == undone0.last()@);
        }
        let mut result: Option<TextureUpdate> = None;
        match &redone {
            Annotation::Eraser(e) => {
                if e.index < self.annotations.len() {
                    self.annotations.remove(e.index);
                    proof {
                        lemma_anns_model_remove(anns0, e.index as int);
                    }
                }
            },
            Annotation::Crop(c) => {
                let rect: Bounds = c.get_rect();
                self.crop_rect = rect;
                result = Some(TextureUpdate::Reload(rect));
            },
            _ => {},
        }
        let ghost before_push = self.annotations@;
        self.annotations.push(redone);
        proof {
            lemma_anns_model_push(before_push, undone0.last());
            assert(anns_model(self.annotations@) =~= redo_lists(
                anns_model(anns0),
                anns_model(undone0),
            ).0);
            assert forall|i: int| 0 <= i < self.annotations@.len() implies (
            #[trigger] self.annotations@[i]).wf() by {
                if i < before_push.len() {
                    lemma_wf_after_remove(anns0, before_push, i);
                }
            }
        }
        result
    }

    /// The displayed area that the history implies: the most recent
    /// remaining crop's rectangle, or the full image if none remains.
    fn derive_crop_rect(&self) -> (r: Bounds)
        requires
            self.wf(),
            self.image_size is Some,
        ensures
            r == spec_derived_crop_rect(self.annotations@, self.image_size->0),
            bounds_wf(r),
    {
        let mut i: usize = self.annotations.len();
        proof {
            assert(self.annotations@.subrange(0, self.annotations@.len() as int)
                =~= self.annotations@);
        }
        while i > 0
            invariant
                i <= self.annotations@.len(),
                self.wf(),
                spec_find_last_crop(self.annotations@) == spec_find_last_crop(
                    self.annotations@.subrange(0, i as int),
                ),
            decreases i,
        {
            let ghost pre = self.annotations@.subrange(0, i as int);
            match &self.annotations[i - 1] {
                Annotation::Crop(c) => {
                    proof {
                        assert(pre.last() == self.annotations@[i - 1]);
                    }
                    return c.get_rect();
                },
                _ => {},
            }
            i = i - 1;
            proof {
                assert(pre.last() == self.annotations@[i as int]);
                assert(pre.drop_last() =~= self.annotations@.subrange(0, i as int));
            }
        }
        proof {
            assert(self.annotations@.subrange(0, 0) =~= Seq::<Annotation>::empty());
        }
        let (w, h): (u64, u64) = self.image_size.unwrap();
        Bounds { min: Pos { x: 0, y: 0 }, max: Pos { x: w as i64, y: h as i64 } }
    }
}

/// Any editor input event, dispatched to the active tool.
#[derive(Clone, Debug)]
pub enum EditorInput {
    Drag(DragEvent),
    Crop(CropEvent),
    Text(TextEvent),
    Click(Pos),
}

impl Default for Editor {
    /// A fresh session: no capture yet, idle tool, red stroke of width
    /// eight, blue secondary fill, default width range, no fill.
    fn default() -> (r: Editor)
        ensures
            r.wf(),
            r.mode == Mode::Idle,
            r.crop_rect == (Bounds { min: Pos { x: 0, y: 0 }, max: Pos { x: 0, y: 0 } }),
            r.image_size is None,
            r.current_annotation is None,
            r.annotations@ == Seq::<Annotation>::empty(),
            r.undone_annotations@ == Seq::<Annotation>::empty(),
            r.current_color == (Color { r: 255, g: 0, b: 0, a: 255 }),
            r.current_width == 8,
            r.current_fill_color == (Color { r: 0, g: 0, b: 255, a: 255 }),
            r.current_font_size == 16,
            r.width_min == WIDTH_MIN_DEFAULT,
            r.width_max == WIDTH_MAX_DEFAULT,
            r.fill_type == FillType::NoFill,
    {
        Editor {
            mode: Mode::Idle,
            crop_rect: Bounds { min: Pos { x: 0, y: 0 }, max: Pos { x: 0, y: 0 } },
            image_size: None,
            current_annotation: None,
            annotations: Vec::new(),
            undone_annotations: Vec::new(),
            current_color: Color { r: 255, g: 0, b: 0, a: 255 },
            current_width: 8,
            current_fill_color: Color { r: 0, g: 0, b: 255, a: 255 },
            current_font_size: 16,
            width_min: WIDTH_MIN_DEFAULT,
            width_max: WIDTH_MAX_DEFAULT,
            fill_type: FillType::NoFill,
        }
    }
}

impl Editor {
    /// The fill closed shapes receive under the current fill mode.
    pub open spec fn spec_active_fill(self) -> Color {
        match self.fill_type {
            FillType::Primary => self.current_color,
            FillType::Secondary => self.current_fill_color,
            FillType::NoFill => Color { r: 0, g: 0, b: 0, a: 0 },
        }
    }

    fn active_fill(&self) -> (c: Color)
        ensures
            c == self.spec_active_fill(),
    {
        match self.fill_type {
            FillType::Primary => self.current_color,
            FillType::Secondary => self.current_fill_color,
            FillType::NoFill => Color::transparent(),
        }
    }

    /// Pointer input clamped into the displayed area.
    pub open spec fn spec_clamped(self, p: Pos) -> Pos {
        self.crop_rect.spec_clamp(p)
    }

    fn clamped(&self, p: Pos) -> (r: Pos)
        requires
            self.wf(),
        ensures
            r == self.spec_clamped(p),
            pos_wf(r),
    {
        self.crop_rect.clamp(p)
    }

    /// A new capture arrived: remember its size, display it whole, and
    /// drop the stale history of the previous capture.
    pub fn reset_for_new_image(&mut self, width: u64, height: u64)
        requires
            width <= COORD_LIMIT as u64,
            height <= COORD_LIMIT as u64,
        ensures
            old(self).wf() ==> final(self).wf(),
            final(self).image_size == Some((width, height)),
            final(self).crop_rect == (Bounds {
                min: Pos { x: 0, y: 0 },
                max: Pos { x: width as i64, y: height as i64 },
            }),
            final(self).annotations@ == Seq::<Annotation>::empty(),
            final(self).undone_annotations@ == Seq::<Annotation>::empty(),
            final(self).current_annotation == old(self).current_annotation,
            Editor::same_style(*old(self), *final(self)),
    {
        self.image_size = Some((width, height));
        self.crop_rect = Bounds {
            min: Pos { x: 0, y: 0 },
            max: Pos { x: width as i64, y: height as i64 },
        };
        self.annotations = Vec::new();
        self.undone_annotations = Vec::new();
    }

    /// The line tool: drag start begins a degenerate segment at the
    /// clamped point, dragging moves its end, release commits it unless
    /// it is still degenerate.
    pub fn manage_segment(&mut self, ev: DragEvent)
        requires
            old(self).wf(),
            old(self).image_size is Some,
        ensures
            final(self).wf(),
            Editor::same_style(*old(self), *final(self)),
            Editor::same_surface(*old(self), *final(self)),
            match ev {
                DragEvent::Started(p) => {
                    let q = old(self).spec_clamped(p);
                    final(self).current_annotation == Some(
                        Annotation::Segment(
                            SegmentAnnotation {
                                starting_pos: q,
                                ending_pos: q,
                                color: old(self).current_color,
                                width: old(self).current_width,
                            },
                        ),
                    ) && Editor::same_history(*old(self), *final(self))
                },
                DragEvent::Dragged(p) => match old(self).current_annotation {
                    Some(Annotation::Segment(s)) => final(self).current_annotation == Some(
                        Annotation::Segment(
                            SegmentAnnotation { ending_pos: old(self).spec_clamped(p), ..s },
                        ),
                    ) && Editor::same_history(*old(self), *final(self)),
                    _ => *final(self) == *old(self),
                },
                DragEvent::Released(p) => match old(self).current_annotation {
                    Some(Annotation::Segment(s)) => {
                        let s2 = SegmentAnnotation { ending_pos: old(self).spec_clamped(p), ..s };
                        &&& final(self).current_annotation is None
                        &&& (
                            anns_model(final(self).annotations@),
                            anns_model(final(self).undone_annotations@),
                        ) == commit_policy_lists(
                            anns_model(old(self).annotations@),
                            anns_model(old(self).undone_annotations@),
                            Annotation::Segment(s2)@,
                        )
                        &&& (s2.starting_pos != s2.ending_pos ==> final(self).annotations@ == old(self).annotations@.push(Annotation::Segment(s2)))
                        &&& (s2.starting_pos == s2.ending_pos ==> Editor::same_history(
                            *old(self),
                            *final(self),
                        ))
                    },
                    _ => *final(self) == *old(self),
                },
            },
    {
        match ev {
            DragEvent::Started(p) => {
                let q: Pos = self.clamped(p);
                self.current_annotation = Some(
                    Annotation::segment(q, self.current_color, self.current_width),
                );
            },
            DragEvent::Dragged(p) => {
                let q: Pos = self.clamped(p);
                let cur = self.current_annotation.take();
                match cur {
                    Some(Annotation::Segment(mut s)) => {
                        s.update_ending(q);
                        self.current_annotation = Some(Annotation::Segment(s));
                    },
                    other => {
                        self.current_annotation = other;
                    },
                }
            },
            DragEvent::Released(p) => {
                let q: Pos = self.clamped(p);
                let cur = self.current_annotation.take();
                match cur {
                    Some(Annotation::Segment(mut s)) => {
                        s.update_ending(q);
                        if s.starting_pos != s.ending_pos {
                            self.add_annotation(Annotation::Segment(s));
                        }
                    },
                    other => {
                        self.current_annotation = other;
                    },
                }
            },
        }
    }

    /// The circle tool: drag start places a zero-radius circle, dragging
    /// sets the radius to the distance dragged, release commits unless
    /// the radius is still zero.
    pub fn manage_circle(&mut self, ev: DragEvent)
        requires
            old(self).wf(),
            old(self).image_size is Some,
        ensures
            final(self).wf(),
            Editor::same_style(*old(self), *final(self)),
            Editor::same_surface(*old(self), *final(self)),
            match ev {
                DragEvent::Started(p) => {
                    let q = old(self).spec_clamped(p);
                    final(self).current_annotation == Some(
                        Annotation::Circle(
                            crate::annotation::CircleAnnotation {
                                center: q,
                                radius: 0,
                                color: old(self).current_color,
                                width: old(self).current_width,
                                fill_color: old(self).spec_active_fill(),
                            },
                        ),
                    ) && Editor::same_history(*old(self), *final(self))
                },
                DragEvent::Dragged(p) => match old(self).current_annotation {
                    Some(Annotation::Circle(c)) => final(self).current_annotation == Some(
                        Annotation::Circle(
                            crate::annotation::CircleAnnotation {
                                radius: crate::geometry::spec_isqrt(
                                    crate::geometry::spec_dist2(
                                        c.center,
                                        old(self).spec_clamped(p),
                                    ) as nat,
                                ) as i64,
                                ..c
                            },
                        ),
                    ) && Editor::same_history(*old(self), *final(self)),
                    _ => *final(self) == *old(self),
                },
                DragEvent::Released(p) => match old(self).current_annotation {
                    Some(Annotation::Circle(c)) => {
                        let c2 = crate::annotation::CircleAnnotation {
                            radius: crate::geometry::spec_isqrt(
                                crate::geometry::spec_dist2(
                                    c.center,
                                    old(self).spec_clamped(p),
                                ) as nat,
                            ) as i64,
                            ..c
                        };
                        &&& final(self).current_annotation is None
                        &&& (
                            anns_model(final(self).annotations@),
                            anns_model(final(self).undone_annotations@),
                        ) == commit_policy_lists(
                            anns_model(old(self).annotations@),
                            anns_model(old(self).undone_annotations@),
                            Annotation::Circle(c2)@,
                        )
                        &&& (c2.radius != 0 ==> final(self).annotations@ == old(self).annotations@.push(Annotation::Circle(c2)))
                        &&& (c2.radius == 0 ==> Editor::same_history(*old(self), *final(self)))
                    },
                    _ => *final(self) == *old(self),
                },
            },
    {
        match ev {
            DragEvent::Started(p) => {
                let q: Pos = self.clamped(p);
                let fill: Color = self.active_fill();
                self.current_annotation = Some(
                    Annotation::circle(q, self.current_color, self.current_width, fill),
                );
            },
            DragEvent::Dragged(p) => {
                let q: Pos = self.clamped(p);
                let cur = self.current_annotation.take();
                match cur {
                    Some(Annotation::Circle(mut c)) => {
                        c.update_radius(q);
                        self.current_annotation = Some(Annotation::Circle(c));
                    },
                    other => {
                        self.current_annotation = other;
                    },
                }
            },
            DragEvent::Released(p) => {
                let q: Pos = self.clamped(p);
                let cur = self.current_annotation.take();
                match cur {
                    Some(Annotation::Circle(mut c)) => {
                        c.update_radius(q);
                        if c.radius != 0 {
                            self.add_annotation(Annotation::Circle(c));
                        }
                    },
                    other => {
                        self.current_annotation = other;
                    },
                }
            },
        }
    }

    /// The rectangle tool: drag start places a degenerate rectangle,
    /// dragging moves the second corner, release commits unless the
    /// corners still coincide.
    pub fn manage_rect(&mut self, ev: DragEvent)
        requires
            old(self).wf(),
            old(self).image_size is Some,
        ensures
            final(self).wf(),
            Editor::same_style(*old(self), *final(self)),
            Editor::same_surface(*old(self), *final(self)),
            match ev {
                DragEvent::Started(p) => {
                    let q = old(self).spec_clamped(p);
                    final(self).current_annotation == Some(
                        Annotation::Rect(
                            crate::annotation::RectAnnotation {
                                p1: q,
                                p2: q,
                                color: old(self).current_color,
                                width: old(self).current_width,
                                fill_color: old(self).spec_active_fill(),
                            },
                        ),
                    ) && Editor::same_history(*old(self), *final(self))
                },
                DragEvent::Dragged(p) => match old(self).current_annotation {
                    Some(Annotation::Rect(re)) => final(self).current_annotation == Some(
                        Annotation::Rect(
                            crate::annotation::RectAnnotation {
                                p2: old(self).spec_clamped(p),
                                ..re
                            },
                        ),
                    ) && Editor::same_history(*old(self), *final(self)),
                    _ => *final(self) == *old(self),
                },
                DragEvent::Released(p) => match old(self).current_annotation {
                    Some(Annotation::Rect(re)) => {
                        let r2 = crate::annotation::RectAnnotation {
                            p2: old(self).spec_clamped(p),
                            ..re
                        };
                        &&& final(self).current_annotation is None
                        &&& (
                            anns_model(final(self).annotations@),
                            anns_model(final(self).undone_annotations@),
                        ) == commit_policy_lists(
                            anns_model(old(self).annotations@),
                            anns_model(old(self).undone_annotations@),
                            Annotation::Rect(r2)@,
                        )
                        &&& (r2.p1 != r2.p2 ==> final(self).annotations@ == old(self).annotations@.push(Annotation::Rect(r2)))
                        &&& (r2.p1 == r2.p2 ==> Editor::same_history(*old(self), *final(self)))
                    },
                    _ => *final(self) == *old(self),
                },
            },
    {
        match ev {
            DragEvent::Started(p) => {
                let q: Pos = self.clamped(p);
                let fill: Color = self.active_fill();
                self.current_annotation = Some(
                    Annotation::rect(q, self.current_color, fill, self.current_width),
                );
            },
            DragEvent::Dragged(p) => {
                let q: Pos = self.clamped(p);
                let cur = self.current_annotation.take();
                match cur {
                    Some(Annotation::Rect(mut re)) => {
                        re.update_p2(q);
                        self.current_annotation = Some(Annotation::Rect(re));
                    },
                    other => {
                        self.current_annotation = other;
                    },
                }
            },
            DragEvent::Released(p) => {
                let q: Pos = self.clamped(p);
                let cur = self.current_annotation.take();
                match cur {
                    Some(Annotation::Rect(mut re)) => {
                        re.update_p2(q);
                        if re.p1 != re.p2 {
                            self.add_annotation(Annotation::Rect(re));
                        }
                    },
                    other => {
                        self.current_annotation = other;
                    },
                }
            },
        }
    }

    /// The arrow tool: like the line tool, but commit first consolidates
    /// the tip geometry so later renders are stable.
    pub fn manage_arrow(&mut self, ev: DragEvent)
        requires
            old(self).wf(),
            old(self).image_size is Some,
        ensures
            final(self).wf(),
            Editor::same_style(*old(self), *final(self)),
            Editor::same_surface(*old(self), *final(self)),
            match ev {
                DragEvent::Started(p) => {
                    let q = old(self).spec_clamped(p);
                    final(self).current_annotation == Some(
                        Annotation::Arrow(
                            crate::annotation::ArrowAnnotation {
                                starting_pos: q,
                                ending_pos: q,
                                color: old(self).current_color,
                                width: old(self).current_width,
                                tip: crate::annotation::Tip::spec_zero(),
                            },
                        ),
                    ) && Editor::same_history(*old(self), *final(self))
                },
                DragEvent::Dragged(p) => match old(self).current_annotation {
                    Some(Annotation::Arrow(a)) => final(self).current_annotation == Some(
                        Annotation::Arrow(
                            crate::annotation::ArrowAnnotation {
                                ending_pos: old(self).spec_clamped(p),
                                ..a
                            },
                        ),
                    ) && Editor::same_history(*old(self), *final(self)),
                    _ => *final(self) == *old(self),
                },
                DragEvent::Released(p) => match old(self).current_annotation {
                    Some(Annotation::Arrow(a)) => {
                        let q = old(self).spec_clamped(p);
                        let a2 = crate::annotation::ArrowAnnotation {
                            ending_pos: q,
                            tip: crate::annotation::spec_tip_of(a.starting_pos, q),
                            ..a
                        };
                        &&& final(self).current_annotation is None
                        &&& (a2.starting_pos != a2.ending_pos ==> final(self).annotations@ == old(self).annotations@.push(Annotation::Arrow(a2)) && final(self).undone_annotations@ == Seq::<Annotation>::empty())
                        &&& (a2.starting_pos == a2.ending_pos ==> Editor::same_history(
                            *old(self),
                            *final(self),
                        ))
                        &&& (
                            anns_model(final(self).annotations@),
                            anns_model(final(self).undone_annotations@),
                        ) == commit_policy_lists(
                            anns_model(old(self).annotations@),
                            anns_model(old(self).undone_annotations@),
                            Annotation::Arrow(a2)@,
                        )
                    },
                    _ => *final(self) == *old(self),
                },
            },
    {
        match ev {
            DragEvent::Started(p) => {
                let q: Pos = self.clamped(p);
                self.current_annotation = Some(
                    Annotation::arrow(q, self.current_color, self.current_width),
                );
            },
            DragEvent::Dragged(p) => {
                let q: Pos = self.clamped(p);
                let cur = self.current_annotation.take();
                match cur {
                    Some(Annotation::Arrow(mut a)) => {
                        a.update_ending(q);
                        self.current_annotation = Some(Annotation::Arrow(a));
                    },
                    other => {
                        self.current_annotation = other;
                    },
                }
            },
            DragEvent::Released(p) => {
                let q: Pos = self.clamped(p);
                let cur = self.current_annotation.take();
                match cur {
                    Some(Annotation::Arrow(mut a)) => {
                        a.update_ending(q);
                        if a.starting_pos != a.ending_pos {
                            a.consolidate();
                            self.add_annotation(Annotation::Arrow(a));
                        }
                    },
                    other => {
                        self.current_annotation = other;
                    },
                }
            },
        }
    }

    /// The pencil tool: drag start begins a one-point stroke, dragging
    /// appends de-duplicated points, release commits unless only one
    /// point was recorded.
    pub fn manage_pencil(&mut self, ev: DragEvent)
        requires
            old(self).wf(),
            old(self).image_size is Some,
        ensures
            final(self).wf(),
            Editor::same_style(*old(self), *final(self)),
            Editor::same_surface(*old(self), *final(self)),
            match ev {
                DragEvent::Started(p) => {
                    let q = old(self).spec_clamped(p);
                    (final(self).current_annotation matches Some(a2) && a2@
                        == AnnotationModel::Pencil {
                        points: seq![q],
                        color: old(self).current_color,
                        width: old(self).current_width,
                    }) && Editor::same_history(*old(self), *final(self))
                },
                DragEvent::Dragged(p) => match old(self).current_annotation {
                    Some(Annotation::Pencil(pc)) => {
                        let q = old(self).spec_clamped(p);
                        let pts2 = spec_points_after(pc.points@, q);
                        (final(self).current_annotation matches Some(a2) && a2@
                            == AnnotationModel::Pencil {
                            points: pts2,
                            color: pc.color,
                            width: pc.width,
                        }) && Editor::same_history(*old(self), *final(self))
                    },
                    _ => *final(self) == *old(self),
                },
                DragEvent::Released(p) => match old(self).current_annotation {
                    Some(Annotation::Pencil(pc)) => {
                        let q = old(self).spec_clamped(p);
                        let pts2 = spec_points_after(pc.points@, q);
                        let m2 = AnnotationModel::Pencil {
                            points: pts2,
                            color: pc.color,
                            width: pc.width,
                        };
                        &&& final(self).current_annotation is None
                        &&& (
                            anns_model(final(self).annotations@),
                            anns_model(final(self).undone_annotations@),
                        ) == commit_policy_lists(
                            anns_model(old(self).annotations@),
                            anns_model(old(self).undone_annotations@),
                            m2,
                        )
                    },
                    _ => *final(self) == *old(self),
                },
            },
    {
        match ev {
            DragEvent::Started(p) => {
                let q: Pos = self.clamped(p);
                self.current_annotation = Some(
                    Annotation::pencil(q, self.current_color, self.current_width),
                );
            },
            DragEvent::Dragged(p) => {
                let q: Pos = self.clamped(p);
                let cur = self.current_annotation.take();
                match cur {
                    Some(Annotation::Pencil(mut pc)) => {
                        pc.update_points(q);
                        self.current_annotation = Some(Annotation::Pencil(pc));
                    },
                    other => {
                        self.current_annotation = other;
                    },
                }
            },
            DragEvent::Released(p) => {
                let q: Pos = self.clamped(p);
                let cur = self.current_annotation.take();
                match cur {
                    Some(Annotation::Pencil(mut pc)) => {
                        pc.update_points(q);
                        if pc.points.len() > 1 {
                            self.add_annotation(Annotation::Pencil(pc));
                        }
                    },
                    other => {
                        self.current_annotation = other;
                    },
                }
            },
        }
    }

    /// The highlighter: like the pencil, but with its own width range
    /// and an extra-wide stroke.
    pub fn manage_highlighter(&mut self, ev: DragEvent)
        requires
            old(self).wf(),
            old(self).image_size is Some,
        ensures
            final(self).wf(),
            final(self).width_min == WIDTH_MIN_HIGHLIGHTER,
            final(self).width_max == WIDTH_MAX_HIGHLIGHTER,
            final(self).mode == old(self).mode,
            final(self).current_color == old(self).current_color,
            final(self).current_width == old(self).current_width,
            final(self).current_fill_color == old(self).current_fill_color,
            final(self).current_font_size == old(self).current_font_size,
            final(self).fill_type == old(self).fill_type,
            Editor::same_surface(*old(self), *final(self)),
            match ev {
                DragEvent::Started(p) => {
                    let q = old(self).spec_clamped(p);
                    (final(self).current_annotation matches Some(a2) && a2@
                        == AnnotationModel::Highlighter {
                        points: seq![q],
                        color: old(self).current_color,
                        width: (old(self).current_width + HIGHLIGHTER_EXTRA_WIDTH) as i64,
                    }) && Editor::same_history(*old(self), *final(self))
                },
                DragEvent::Dragged(p) => match old(self).current_annotation {
                    Some(Annotation::Highlighter(h)) => {
                        let q = old(self).spec_clamped(p);
                        let pts2 = spec_points_after(h.points@, q);
                        (final(self).current_annotation matches Some(a2) && a2@
                            == AnnotationModel::Highlighter {
                            points: pts2,
                            color: h.color,
                            width: h.width,
                        }) && Editor::same_history(*old(self), *final(self))
                    },
                    _ => final(self).current_annotation == old(self).current_annotation
                        && Editor::same_history(*old(self), *final(self)),
                },
                DragEvent::Released(p) => match old(self).current_annotation {
                    Some(Annotation::Highlighter(h)) => {
                        let q = old(self).spec_clamped(p);
                        let pts2 = spec_points_after(h.points@, q);
                        let m2 = AnnotationModel::Highlighter {
                            points: pts2,
                            color: h.color,
                            width: h.width,
                        };
                        &&& final(self).current_annotation is None
                        &&& (
                            anns_model(final(self).annotations@),
                            anns_model(final(self).undone_annotations@),
                        ) == commit_policy_lists(
                            anns_model(old(self).annotations@),
                            anns_model(old(self).undone_annotations@),
                            m2,
                        )
                    },
                    _ => final(self).current_annotation == old(self).current_annotation
                        && Editor::same_history(*old(self), *final(self)),
                },
            },
    {
        if self.width_min != WIDTH_MIN_HIGHLIGHTER || self.width_max != WIDTH_MAX_HIGHLIGHTER {
            self.width_min = WIDTH_MIN_HIGHLIGHTER;
            self.width_max = WIDTH_MAX_HIGHLIGHTER;
        }
        match ev {
            DragEvent::Started(p) => {
                let q: Pos = self.clamped(p);
                self.current_annotation = Some(
                    Annotation::highlighter(
                        q,
                        self.current_color,
                        self.current_width + HIGHLIGHTER_EXTRA_WIDTH,
                    ),
                );
            },
            DragEvent::Dragged(p) => {
                let q: Pos = self.clamped(p);
                let cur = self.current_annotation.take();
                match cur {
                    Some(Annotation::Highlighter(mut h)) => {
                        h.update_points(q);
                        self.current_annotation = Some(Annotation::Highlighter(h));
                    },
                    other => {
                        self.current_annotation = other;
                    },
                }
            },
            DragEvent::Released(p) => {
                let q: Pos = self.clamped(p);
                let cur = self.current_annotation.take();
                match cur {
                    Some(Annotation::Highlighter(mut h)) => {
                        h.update_points(q);
                        if h.points.len() > 1 {
                            self.add_annotation(Annotation::Highlighter(h));
                        }
                    },
                    other => {
                        self.current_annotation = other;
                    },
                }
            },
        }
    }
}

impl Editor {
    /// The text tool: a click places an empty text block at the clamped
    /// point; typed text and backspace mutate it in place; Enter commits
    /// it; Shift+Enter inserts a literal newline instead.
    pub fn manage_text(&mut self, ev: &TextEvent)
        requires
            old(self).wf(),
            old(self).image_size is Some,
        ensures
            final(self).wf(),
            Editor::same_style(*old(self), *final(self)),
            Editor::same_surface(*old(self), *final(self)),
            match *ev {
                TextEvent::Clicked(p) => {
                    let q = old(self).spec_clamped(p);
                    (final(self).current_annotation matches Some(a2) && a2@
                        == AnnotationModel::Text {
                        pos: q,
                        text: Seq::empty(),
                        size: TEXT_CLICK_FONT_SIZE as i64,
                        color: old(self).current_color,
                    }) && Editor::same_history(*old(self), *final(self))
                },
                TextEvent::Insert(ref s) => match old(self).current_annotation {
                    Some(Annotation::Text(t)) => (final(self).current_annotation matches Some(a2)
                        && a2@ == AnnotationModel::Text {
                        pos: t.pos,
                        text: t.text@ + s@,
                        size: t.size,
                        color: t.color,
                    }) && Editor::same_history(*old(self), *final(self)),
                    _ => *final(self) == *old(self),
                },
                TextEvent::Backspace => match old(self).current_annotation {
                    Some(Annotation::Text(t)) => (final(self).current_annotation matches Some(a2)
                        && a2@ == AnnotationModel::Text {
                        pos: t.pos,
                        text: if t.text@.len() == 0 {
                            t.text@
                        } else {
                            t.text@.drop_last()
                        },
                        size: t.size,
                        color: t.color,
                    }) && Editor::same_history(*old(self), *final(self)),
                    _ => *final(self) == *old(self),
                },
                TextEvent::Enter => match old(self).current_annotation {
                    Some(a) => final(self).current_annotation is None && final(self).annotations@
                        == old(self).annotations@.push(a) && (
                    anns_model(final(self).annotations@), anns_model(
                        final(self).undone_annotations@,
                    )) == commit_lists(anns_model(old(self).annotations@), a@),
                    None => *final(self) == *old(self),
                },
                TextEvent::ShiftEnter => match old(self).current_annotation {
                    Some(Annotation::Text(t)) => (final(self).current_annotation matches Some(a2)
                        && a2@ == AnnotationModel::Text {
                        pos: t.pos,
                        text: t.text@ + seq!['\n'],
                        size: t.size,
                        color: t.color,
                    }) && Editor::same_history(*old(self), *final(self)),
                    _ => *final(self) == *old(self),
                },
            },
    {
        match ev {
            TextEvent::Clicked(p) => {
                let q: Pos = self.clamped(*p);
                self.current_annotation = Some(
                    Annotation::text(q, self.current_color, TEXT_CLICK_FONT_SIZE),
                );
            },
            TextEvent::Insert(s) => {
                let cur = self.current_annotation.take();
                match cur {
                    Some(Annotation::Text(mut t)) => {
                        t.update_text(s);
                        self.current_annotation = Some(Annotation::Text(t));
                    },
                    other => {
                        self.current_annotation = other;
                    },
                }
            },
            TextEvent::Backspace => {
                let cur = self.current_annotation.take();
                match cur {
                    Some(Annotation::Text(mut t)) => {
                        t.delete_char();
                        self.current_annotation = Some(Annotation::Text(t));
                    },
                    other => {
                        self.current_annotation = other;
                    },
                }
            },
            TextEvent::Enter => {
                let cur = self.current_annotation.take();
                match cur {
                    Some(a) => {
                        self.add_annotation(a);
                    },
                    None => {},
                }
            },
            TextEvent::ShiftEnter => {
                let cur = self.current_annotation.take();
                match cur {
                    Some(Annotation::Text(mut t)) => {
                        let newline: String = String::from_str("\n");
                        proof {
                            reveal_strlit("\n");
                            assert(newline@ =~= seq!['\n']);
                        }
                        t.update_text(&newline);
                        self.current_annotation = Some(Annotation::Text(t));
                    },
                    other => {
                        self.current_annotation = other;
                    },
                }
            },
        }
    }

    /// The eraser: a click hit-tests the committed annotations from the
    /// most recently added down; the topmost hit is removed and an
    /// `Eraser` record of it is committed in its place.
    pub fn manage_eraser(&mut self, click: Pos)
        requires
            old(self).wf(),
            old(self).image_size is Some,
        ensures
            final(self).wf(),
            Editor::same_style(*old(self), *final(self)),
            Editor::same_surface(*old(self), *final(self)),
            match spec_topmost_hit(old(self).annotations@, click) {
                Option::None => *final(self) == *old(self),
                Option::Some(i) => {
                    &&& final(self).current_annotation is None
                    &&& final(self).annotations@ == old(self).annotations@.remove(i).push(
                        Annotation::Eraser(
                            EraserAnnotation {
                                annotation: Box::new(old(self).annotations@[i]),
                                index: i as usize,
                            },
                        ),
                    )
                    &&& (
                        anns_model(final(self).annotations@),
                        anns_model(final(self).undone_annotations@),
                    ) == erase_lists(anns_model(old(self).annotations@), i)
                },
            },
    {
        let hit: Option<usize> = topmost_hit(&self.annotations, click);
        match hit {
            Option::None => {},
            Option::Some(index) => {
                let ghost anns0 = self.annotations@;
                let removed: Annotation = self.annotations.remove(index);
                let marker: Annotation = Annotation::eraser(removed, index);
                proof {
                    lemma_anns_model_remove(anns0, index as int);
                }
                let ghost before_push = self.annotations@;
                self.add_annotation(marker);
                proof {
                    assert(anns_model(self.annotations@) =~= erase_lists(
                        anns_model(anns0),
                        index as int,
                    ).0);
                    assert forall|i: int| 0 <= i < self.annotations@.len() implies (
                    #[trigger] self.annotations@[i]).wf() by {
                        if i < before_push.len() {
                            lemma_wf_after_remove(anns0, before_push, i);
                        }
                    }
                }
            },
        }
    }
}

/// Where a dragged resize handle moves the crop's corners: each handle
/// adjusts one or two coordinates of `p1`/`p2`, and both corners are
/// then clamped into the displayed area.
pub open spec fn spec_adjust_crop(
    c: CropAnnotation,
    label: Position,
    dx: i64,
    dy: i64,
    area: Bounds,
) -> CropAnnotation {
    let p1 = match label {
        Position::LeftTop => Pos { x: (c.p1.x + dx) as i64, y: (c.p1.y + dy) as i64 },
        Position::CenterTop => Pos { x: c.p1.x, y: (c.p1.y + dy) as i64 },
        Position::RightTop => Pos { x: c.p1.x, y: (c.p1.y + dy) as i64 },
        Position::LeftCenter => Pos { x: (c.p1.x + dx) as i64, y: c.p1.y },
        Position::RightCenter => c.p1,
        Position::LeftBottom => Pos { x: (c.p1.x + dx) as i64, y: c.p1.y },
        Position::CenterBottom => c.p1,
        Position::RightBottom => c.p1,
    };
    let p2 = match label {
        Position::LeftTop => c.p2,
        Position::CenterTop => c.p2,
        Position::RightTop => Pos { x: (c.p2.x + dx) as i64, y: c.p2.y },
        Position::LeftCenter => c.p2,
        Position::RightCenter => Pos { x: (c.p2.x + dx) as i64, y: c.p2.y },
        Position::LeftBottom => Pos { x: c.p2.x, y: (c.p2.y + dy) as i64 },
        Position::CenterBottom => Pos { x: c.p2.x, y: (c.p2.y + dy) as i64 },
        Position::RightBottom => Pos { x: (c.p2.x + dx) as i64, y: (c.p2.y + dy) as i64 },
    };
    CropAnnotation { p1: area.spec_clamp(p1), p2: area.spec_clamp(p2), ..c }
}

/// A crop with its corners re-normalized to (min, max) order.
pub open spec fn spec_crop_normalized(c: CropAnnotation) -> CropAnnotation {
    CropAnnotation {
        p1: Bounds::spec_from_two_pos(c.p1, c.p2).min,
        p2: Bounds::spec_from_two_pos(c.p1, c.p2).max,
        ..c
    }
}

impl Editor {
    /// The crop tool's two-phase state machine. Phase A: a drag defines
    /// the corners of a new crop (`resizing` set). Phase B: the eight
    /// resize handles adjust the corners, clamped to the displayed area;
    /// releasing a handle re-normalizes the corners; Enter commits the
    /// crop, making its rectangle the new displayed area and appending
    /// the finished crop as a history marker.
    pub fn manage_crop(&mut self, ev: CropEvent) -> (r: Option<TextureUpdate>)
        requires
            old(self).wf(),
            old(self).image_size is Some,
            ev matches CropEvent::HandleDragged(l, dx, dy) ==> -COORD_LIMIT <= dx <= COORD_LIMIT
                && -COORD_LIMIT <= dy <= COORD_LIMIT,
        ensures
            final(self).wf(),
            Editor::same_style(*old(self), *final(self)),
            final(self).image_size == old(self).image_size,
            r is Some <==> (old(self).current_annotation matches Some(Annotation::Crop(c))
                && !c.resizing && ev is Commit),
            r matches Some(u) ==> u == TextureUpdate::Reload(final(self).crop_rect),
            match old(self).current_annotation {
                Some(Annotation::Crop(c)) => if c.resizing {
                    final(self).crop_rect == old(self).crop_rect && match ev {
                        CropEvent::Drag(de) => match de {
                            DragEvent::Started(p) => final(self).current_annotation == Some(
                                Annotation::Crop(
                                    CropAnnotation { p2: old(self).spec_clamped(p), ..c },
                                ),
                            ) && Editor::same_history(*old(self), *final(self)),
                            DragEvent::Dragged(p) => final(self).current_annotation == Some(
                                Annotation::Crop(
                                    CropAnnotation { p2: old(self).spec_clamped(p), ..c },
                                ),
                            ) && Editor::same_history(*old(self), *final(self)),
                            DragEvent::Released(p) => {
                                let c2 = CropAnnotation { p2: old(self).spec_clamped(p), ..c };
                                &&& Editor::same_history(*old(self), *final(self))
                                &&& (c2.p1 != c2.p2 ==> final(self).current_annotation == Some(
                                    Annotation::Crop(
                                        spec_crop_normalized(
                                            CropAnnotation { resizing: false, ..c2 },
                                        ),
                                    ),
                                ))
                                &&& (c2.p1 == c2.p2 ==> final(self).current_annotation is None)
                            },
                        },
                        _ => *final(self) == *old(self),
                    }
                } else {
                    match ev {
                        CropEvent::Drag(_) => *final(self) == *old(self),
                        CropEvent::HandleDragged(label, dx, dy) => final(self).crop_rect == old(self).crop_rect && final(self).current_annotation == Some(
                            Annotation::Crop(
                                spec_adjust_crop(c, label, dx, dy, old(self).crop_rect),
                            ),
                        ) && Editor::same_history(*old(self), *final(self)),
                        CropEvent::HandleReleased => final(self).crop_rect == old(self).crop_rect
                            && final(self).current_annotation == Some(
                            Annotation::Crop(spec_crop_normalized(c)),
                        ) && Editor::same_history(*old(self), *final(self)),
                        CropEvent::Commit => {
                            let c2 = CropAnnotation {
                                finished: true,
                                ..spec_crop_normalized(c)
                            };
                            &&& final(self).crop_rect == Bounds::spec_from_two_pos(c.p1, c.p2)
                            &&& final(self).current_annotation is None
                            &&& final(self).annotations@ == old(self).annotations@.push(
                                Annotation::Crop(c2),
                            )
                            &&& (
                                anns_model(final(self).annotations@),
                                anns_model(final(self).undone_annotations@),
                            ) == commit_lists(
                                anns_model(old(self).annotations@),
                                AnnotationModel::Crop(c2),
                            )
                        },
                    }
                },
                _ => {
                    final(self).crop_rect == old(self).crop_rect && match ev {
                        CropEvent::Drag(DragEvent::Started(p)) => final(self).current_annotation
                            == Some(
                            Annotation::Crop(
                                CropAnnotation {
                                    p1: old(self).spec_clamped(p),
                                    p2: old(self).spec_clamped(p),
                                    resizing: true,
                                    finished: false,
                                },
                            ),
                        ) && Editor::same_history(*old(self), *final(self)),
                        _ => *final(self) == *old(self),
                    }
                },
            },
    {
        let mut result: Option<TextureUpdate> = None;
        let cur = self.current_annotation.take();
        match cur {
            Some(Annotation::Crop(mut c)) => {
                if c.resizing {
                    match ev {
                        CropEvent::Drag(DragEvent::Started(p)) => {
                            let q: Pos = self.clamped(p);
                            c.update(q);
                            self.current_annotation = Some(Annotation::Crop(c));
                        },
                        CropEvent::Drag(DragEvent::Dragged(p)) => {
                            let q: Pos = self.clamped(p);
                            c.update(q);
                            self.current_annotation = Some(Annotation::Crop(c));
                        },
                        CropEvent::Drag(DragEvent::Released(p)) => {
                            let q: Pos = self.clamped(p);
                            c.update(q);
                            if c.p1 != c.p2 {
                                c.update_resize(false);
                                c.reset_points();
                                self.current_annotation = Some(Annotation::Crop(c));
                            }
                        },
                        _ => {
                            self.current_annotation = Some(Annotation::Crop(c));
                        },
                    }
                } else {
                    match ev {
                        CropEvent::Drag(_) => {
                            self.current_annotation = Some(Annotation::Crop(c));
                        },
                        CropEvent::HandleDragged(label, dx, dy) => {
                            let p1: Pos = match label {
                                Position::LeftTop => Pos { x: c.p1.x + dx, y: c.p1.y + dy },
                                Position::CenterTop => Pos { x: c.p1.x, y: c.p1.y + dy },
                                Position::RightTop => Pos { x: c.p1.x, y: c.p1.y + dy },
                                Position::LeftCenter => Pos { x: c.p1.x + dx, y: c.p1.y },
                                Position::RightCenter => c.p1,
                                Position::LeftBottom => Pos { x: c.p1.x + dx, y: c.p1.y },
                                Position::CenterBottom => c.p1,
                                Position::RightBottom => c.p1,
                            };
                            let p2: Pos = match label {
                                Position::LeftTop => c.p2,
                                Position::CenterTop => c.p2,
                                Position::RightTop => Pos { x: c.p2.x + dx, y: c.p2.y },
                                Position::LeftCenter => c.p2,
                                Position::RightCenter => Pos { x: c.p2.x + dx, y: c.p2.y },
                                Position::LeftBottom => Pos { x: c.p2.x, y: c.p2.y + dy },
                                Position::CenterBottom => Pos { x: c.p2.x, y: c.p2.y + dy },
                                Position::RightBottom => Pos { x: c.p2.x + dx, y: c.p2.y + dy },
                            };
                            c.p1 = self.crop_rect.clamp(p1);
                            c.p2 = self.crop_rect.clamp(p2);
                            self.current_annotation = Some(Annotation::Crop(c));
                        },
                        CropEvent::HandleReleased => {
                            c.reset_points();
                            self.current_annotation = Some(Annotation::Crop(c));
                        },
                        CropEvent::Commit => {
                            c.reset_points();
                            c.update_finished(true);
                            let rect: Bounds = c.get_rect();
                            self.crop_rect = rect;
                            self.add_annotation(Annotation::Crop(c));
                            result = Some(TextureUpdate::Reload(rect));
                        },
                    }
                }
            },
            other => {
                match ev {
                    CropEvent::Drag(DragEvent::Started(p)) => {
                        let q: Pos = self.clamped(p);
                        self.current_annotation = Some(Annotation::crop(q));
                    },
                    _ => {
                        self.current_annotation = other;
                    },
                }
            },
        }
        result
    }
}

/// Crop coordinate law: committing a crop appends its marker and leaves
/// every previously drawn annotation's stored coordinates untouched;
/// only the displayed area, the coordinate space of subsequent input,
/// changes.
pub proof fn lemma_crop_commit_preserves(anns: Seq<AnnotationModel>, c: CropAnnotation)
    ensures
        commit_lists(anns, AnnotationModel::Crop(c)).0.len() == anns.len() + 1,
        forall|i: int|
            0 <= i < anns.len() ==> commit_lists(anns, AnnotationModel::Crop(c)).0[i] == anns[i],
        commit_lists(anns, AnnotationModel::Crop(c)).1 =~= Seq::<AnnotationModel>::empty(),
{
}

/// The topmost committed annotation whose visual box contains the click:
/// the last hit in z-order, or nothing.
pub open spec fn spec_topmost_hit(s: Seq<Annotation>, p: Pos) -> Option<int>
    decreases s.len(),
{
    if s.len() == 0 {
        None
    } else if s.last().spec_check_click(p) {
        Some(s.len() - 1)
    } else {
        spec_topmost_hit(s.drop_last(), p)
    }
}

fn topmost_hit(annotations: &Vec<Annotation>, p: Pos) -> (r: Option<usize>)
    requires
        forall|i: int| 0 <= i < annotations@.len() ==> (#[trigger] annotations@[i]).wf(),
    ensures
        match r {
            Option::Some(i) => i < annotations@.len() && spec_topmost_hit(annotations@, p)
                == Some(i as int),
            Option::None => spec_topmost_hit(annotations@, p) is None,
        },
{
    let mut i: usize = annotations.len();
    proof {
        assert(annotations@.subrange(0, annotations@.len() as int) =~= annotations@);
    }
    while i > 0
        invariant
            i <= annotations@.len(),
            forall|k: int| 0 <= k < annotations@.len() ==> (#[trigger] annotations@[k]).wf(),
            spec_topmost_hit(annotations@, p) == spec_topmost_hit(
                annotations@.subrange(0, i as int),
                p,
            ),
        decreases i,
    {
        let ghost pre = annotations@.subrange(0, i as int);
        if annotations[i - 1].check_click(p) {
            proof {
                assert(pre.last() == annotations@[i - 1]);
            }
            return Some(i - 1);
        }
        i = i - 1;
        proof {
            assert(pre.last() == annotations@[i as int]);
            assert(pre.drop_last() =~= annotations@.subrange(0, i as int));
        }
    }
    proof {
        assert(annotations@.subrange(0, 0) =~= Seq::<Annotation>::empty());
    }
    None
}

/// The point list after one drag step: a point equal to the last is
/// dropped, any other is appended.
pub open spec fn spec_points_after(points: Seq<Pos>, q: Pos) -> Seq<Pos> {
    if points.len() > 0 && points.last() == q {
        points
    } else {
        points.push(q)
    }
}

/// The most recent `Crop` entry of a list, if any remains.
pub open spec fn spec_find_last_crop(s: Seq<Annotation>) -> Option<CropAnnotation>
    decreases s.len(),
{
    if s.len() == 0 {
        None
    } else {
        match s.last() {
            Annotation::Crop(c) => Some(c),
            _ => spec_find_last_crop(s.drop_last()),
        }
    }
}

/// The displayed area a history implies: the most recent crop's
/// rectangle, or the whole image.
pub open spec fn spec_derived_crop_rect(s: Seq<Annotation>, image_size: (u64, u64)) -> Bounds {
    match spec_find_last_crop(s) {
        Some(c) => Bounds::spec_from_two_pos(c.p1, c.p2),
        None => Bounds {
            min: Pos { x: 0, y: 0 },
            max: Pos { x: image_size.0 as i64, y: image_size.1 as i64 },
        },
    }
}

/// Mapping a list to its mathematical values commutes with `push`.
pub proof fn lemma_anns_model_push(s: Seq<Annotation>, a: Annotation)
    ensures
        anns_model(s.push(a)) == anns_model(s).push(a@),
{
    assert(anns_model(s.push(a)) =~= anns_model(s).push(a@));
}

/// Mapping a list to its mathematical values commutes with `insert`.
pub proof fn lemma_anns_model_insert(s: Seq<Annotation>, i: int, a: Annotation)
    requires
        0 <= i <= s.len(),
    ensures
        anns_model(s.insert(i, a)) == anns_model(s).insert(i, a@),
{
    assert(anns_model(s.insert(i, a)) =~= anns_model(s).insert(i, a@));
}

/// Mapping a list to its mathematical values commutes with `remove`.
pub proof fn lemma_anns_model_remove(s: Seq<Annotation>, i: int)
    requires
        0 <= i < s.len(),
    ensures
        anns_model(s.remove(i)) == anns_model(s).remove(i),
{
    assert(anns_model(s.remove(i)) =~= anns_model(s).remove(i));
}

impl Editor {
    /// Select a tool. Clicking the active tool again returns to Idle;
    /// the Undo and Redo buttons perform their action instead of
    /// becoming a mode. Any annotation in progress is discarded.
    pub fn select_tool(&mut self, mode: Mode) -> (r: Option<TextureUpdate>)
        requires
            old(self).wf(),
            old(self).image_size is Some,
        ensures
            final(self).wf(),
            final(self).current_annotation is None,
            final(self).image_size == old(self).image_size,
            mode != Mode::Undo && mode != Mode::Redo ==> {
                &&& final(self).mode == (if old(self).mode == mode {
                    Mode::Idle
                } else {
                    mode
                })
                &&& Editor::same_history(*old(self), *final(self))
                &&& final(self).crop_rect == old(self).crop_rect
                &&& r is None
            },
            mode == Mode::Undo ==> final(self).mode == old(self).mode && (
            anns_model(final(self).annotations@), anns_model(final(self).undone_annotations@))
                == undo_lists(
                anns_model(old(self).annotations@),
                anns_model(old(self).undone_annotations@),
            ) && (old(self).annotations@.len() > 0 && old(self).annotations@.last() is Crop
                ==> final(self).crop_rect == spec_derived_crop_rect(
                old(self).annotations@.drop_last(),
                old(self).image_size->0,
            ) && r == Some(TextureUpdate::Reload(final(self).crop_rect))) && (!(old(self).annotations@.len() > 0 && old(self).annotations@.last() is Crop) ==> final(self).crop_rect == old(self).crop_rect && r is None),
            mode == Mode::Redo ==> final(self).mode == old(self).mode && (
            anns_model(final(self).annotations@), anns_model(final(self).undone_annotations@))
                == redo_lists(
                anns_model(old(self).annotations@),
                anns_model(old(self).undone_annotations@),
            ) && (match old(self).undone_annotations@.last() {
                Annotation::Crop(c) => old(self).undone_annotations@.len() > 0 ==> final(self).crop_rect == Bounds::spec_from_two_pos(c.p1, c.p2) && r == Some(
                    TextureUpdate::Reload(final(self).crop_rect),
                ),
                _ => final(self).crop_rect == old(self).crop_rect && r is None,
            }),
    {
        let mut r: Option<TextureUpdate> = None;
        match mode {
            Mode::Undo => {
                r = self.undo();
            },
            Mode::Redo => {
                r = self.redo();
            },
            _ => {
                if self.mode == mode {
                    self.mode = Mode::Idle;
                } else {
                    self.mode = mode;
                }
            },
        }
        self.current_annotation = None;
        r
    }

    /// Dispatch one input event to the active tool. Away from the
    /// highlighter, its special width range is first reset to the
    /// default, clamping the current width into it. The Idle, Undo and
    /// Redo modes consume no input. The contract pins the width reset
    /// and each mode's drag-start, click and commit outcome; the
    /// per-tool functions (`manage_segment` and the rest) carry the
    /// complete per-event contracts and are the ones to reason against.
    /// The stroke width after the dispatcher's width-range reset: away
    /// from the highlighter, its special range gives way to the default
    /// one, and a width outside it snaps to the new maximum.
    pub open spec fn spec_width_after_reset_def(self) -> i64 {
        if self.mode != Mode::Highlight && self.width_min == WIDTH_MIN_HIGHLIGHTER
            && self.width_max == WIDTH_MAX_HIGHLIGHTER {
            if WIDTH_MIN_DEFAULT <= self.current_width <= WIDTH_MAX_DEFAULT {
                self.current_width
            } else {
                WIDTH_MAX_DEFAULT
            }
        } else {
            self.current_width
        }
    }

    pub fn manage_input(&mut self, ev: &EditorInput) -> (r: Option<TextureUpdate>)
        requires
            old(self).wf(),
            old(self).image_size is Some,
            ev matches EditorInput::Crop(ce) ==> (ce matches CropEvent::HandleDragged(l, dx, dy)
                ==> -COORD_LIMIT <= *dx <= COORD_LIMIT && -COORD_LIMIT <= *dy <= COORD_LIMIT),
        ensures
            final(self).wf(),
            old(self).mode != Mode::Crop ==> r is None,
            r matches Some(u) ==> old(self).mode == Mode::Crop && u == TextureUpdate::Reload(
                final(self).crop_rect,
            ),
            final(self).mode == old(self).mode,
            final(self).image_size == old(self).image_size,
            final(self).current_color == old(self).current_color,
            final(self).current_fill_color == old(self).current_fill_color,
            final(self).current_font_size == old(self).current_font_size,
            final(self).fill_type == old(self).fill_type,
            old(self).mode == Mode::Idle || old(self).mode == Mode::Undo || old(self).mode
                == Mode::Redo ==> Editor::same_history(*old(self), *final(self)) && final(self).current_annotation == old(self).current_annotation && final(self).crop_rect == old(self).crop_rect && final(self).current_width == old(self).spec_width_after_reset_def(),
            old(self).mode == Mode::DrawLine ==> match *ev {
                EditorInput::Drag(DragEvent::Started(p)) => final(self).current_annotation
                    == Some(
                    Annotation::Segment(
                        SegmentAnnotation {
                            starting_pos: old(self).spec_clamped(p),
                            ending_pos: old(self).spec_clamped(p),
                            color: old(self).current_color,
                            width: old(self).spec_width_after_reset_def(),
                        },
                    ),
                ) && Editor::same_history(*old(self), *final(self)),
                EditorInput::Drag(DragEvent::Released(p)) => match old(self).current_annotation {
                    Some(Annotation::Segment(sg)) => {
                        let s2 = SegmentAnnotation { ending_pos: old(self).spec_clamped(p), ..sg };
                        &&& final(self).current_annotation is None
                        &&& (
                            anns_model(final(self).annotations@),
                            anns_model(final(self).undone_annotations@),
                        ) == commit_policy_lists(
                            anns_model(old(self).annotations@),
                            anns_model(old(self).undone_annotations@),
                            Annotation::Segment(s2)@,
                        )
                    },
                    _ => Editor::same_history(*old(self), *final(self)) && final(self).current_annotation == old(self).current_annotation,
                },
                _ => true,
            },
            old(self).mode == Mode::DrawRect ==> match *ev {
                EditorInput::Drag(DragEvent::Started(p)) => (final(self).current_annotation
                    matches Some(a2) && a2@ == AnnotationModel::Rect(
                    crate::annotation::RectAnnotation {
                        p1: old(self).spec_clamped(p),
                        p2: old(self).spec_clamped(p),
                        color: old(self).current_color,
                        width: old(self).spec_width_after_reset_def(),
                        fill_color: old(self).spec_active_fill(),
                    },
                )) && Editor::same_history(*old(self), *final(self)),
                EditorInput::Drag(DragEvent::Released(p)) => match old(self).current_annotation {
                    Some(Annotation::Rect(re)) => {
                        let r2 = crate::annotation::RectAnnotation {
                            p2: old(self).spec_clamped(p),
                            ..re
                        };
                        &&& final(self).current_annotation is None
                        &&& (
                            anns_model(final(self).annotations@),
                            anns_model(final(self).undone_annotations@),
                        ) == commit_policy_lists(
                            anns_model(old(self).annotations@),
                            anns_model(old(self).undone_annotations@),
                            Annotation::Rect(r2)@,
                        )
                    },
                    _ => Editor::same_history(*old(self), *final(self)) && final(self).current_annotation == old(self).current_annotation,
                },
                _ => true,
            },
            old(self).mode == Mode::DrawCircle ==> match *ev {
                EditorInput::Drag(DragEvent::Started(p)) => (final(self).current_annotation
                    matches Some(a2) && a2@ == AnnotationModel::Circle(
                    crate::annotation::CircleAnnotation {
                        center: old(self).spec_clamped(p),
                        radius: 0,
                        color: old(self).current_color,
                        width: old(self).spec_width_after_reset_def(),
                        fill_color: old(self).spec_active_fill(),
                    },
                )) && Editor::same_history(*old(self), *final(self)),
                EditorInput::Drag(DragEvent::Released(p)) => match old(self).current_annotation {
                    Some(Annotation::Circle(ci)) => {
                        let c2 = crate::annotation::CircleAnnotation {
                            radius: crate::geometry::spec_isqrt(
                                crate::geometry::spec_dist2(
                                    ci.center,
                                    old(self).spec_clamped(p),
                                ) as nat,
                            ) as i64,
                            ..ci
                        };
                        &&& final(self).current_annotation is None
                        &&& (
                            anns_model(final(self).annotations@),
                            anns_model(final(self).undone_annotations@),
                        ) == commit_policy_lists(
                            anns_model(old(self).annotations@),
                            anns_model(old(self).undone_annotations@),
                            Annotation::Circle(c2)@,
                        )
                    },
                    _ => Editor::same_history(*old(self), *final(self)) && final(self).current_annotation == old(self).current_annotation,
                },
                _ => true,
            },
            old(self).mode == Mode::DrawArrow ==> match *ev {
                EditorInput::Drag(DragEvent::Started(p)) => (final(self).current_annotation
                    matches Some(a2) && a2@ == AnnotationModel::Arrow(
                    crate::annotation::ArrowAnnotation {
                        starting_pos: old(self).spec_clamped(p),
                        ending_pos: old(self).spec_clamped(p),
                        color: old(self).current_color,
                        width: old(self).spec_width_after_reset_def(),
                        tip: crate::annotation::Tip::spec_zero(),
                    },
                )) && Editor::same_history(*old(self), *final(self)),
                EditorInput::Drag(DragEvent::Released(p)) => match old(self).current_annotation {
                    Some(Annotation::Arrow(ar)) => {
                        let q = old(self).spec_clamped(p);
                        let a2 = crate::annotation::ArrowAnnotation {
                            ending_pos: q,
                            tip: crate::annotation::spec_tip_of(ar.starting_pos, q),
                            ..ar
                        };
                        &&& final(self).current_annotation is None
                        &&& (
                            anns_model(final(self).annotations@),
                            anns_model(final(self).undone_annotations@),
                        ) == commit_policy_lists(
                            anns_model(old(self).annotations@),
                            anns_model(old(self).undone_annotations@),
                            Annotation::Arrow(a2)@,
                        )
                    },
                    _ => Editor::same_history(*old(self), *final(self)) && final(self).current_annotation == old(self).current_annotation,
                },
                _ => true,
            },
            old(self).mode == Mode::DrawFree ==> match *ev {
                EditorInput::Drag(DragEvent::Started(p)) => (final(self).current_annotation
                    matches Some(a2) && a2@ == AnnotationModel::Pencil {
                    points: seq![old(self).spec_clamped(p)],
                    color: old(self).current_color,
                    width: old(self).spec_width_after_reset_def(),
                }) && Editor::same_history(*old(self), *final(self)),
                EditorInput::Drag(DragEvent::Released(p)) => match old(self).current_annotation {
                    Some(Annotation::Pencil(pc)) => {
                        let m2 = AnnotationModel::Pencil {
                            points: spec_points_after(pc.points@, old(self).spec_clamped(p)),
                            color: pc.color,
                            width: pc.width,
                        };
                        &&& final(self).current_annotation is None
                        &&& (
                            anns_model(final(self).annotations@),
                            anns_model(final(self).undone_annotations@),
                        ) == commit_policy_lists(
                            anns_model(old(self).annotations@),
                            anns_model(old(self).undone_annotations@),
                            m2,
                        )
                    },
                    _ => Editor::same_history(*old(self), *final(self)) && final(self).current_annotation == old(self).current_annotation,
                },
                _ => true,
            },
            old(self).mode == Mode::Highlight ==> match *ev {
                EditorInput::Drag(DragEvent::Started(p)) => (final(self).current_annotation
                    matches Some(a2) && a2@ == AnnotationModel::Highlighter {
                    points: seq![old(self).spec_clamped(p)],
                    color: old(self).current_color,
                    width: (old(self).current_width + HIGHLIGHTER_EXTRA_WIDTH) as i64,
                }) && Editor::same_history(*old(self), *final(self)),
                EditorInput::Drag(DragEvent::Released(p)) => match old(self).current_annotation {
                    Some(Annotation::Highlighter(h)) => {
                        let m2 = AnnotationModel::Highlighter {
                            points: spec_points_after(h.points@, old(self).spec_clamped(p)),
                            color: h.color,
                            width: h.width,
                        };
                        &&& final(self).current_annotation is None
                        &&& (
                            anns_model(final(self).annotations@),
                            anns_model(final(self).undone_annotations@),
                        ) == commit_policy_lists(
                            anns_model(old(self).annotations@),
                            anns_model(old(self).undone_annotations@),
                            m2,
                        )
                    },
                    _ => Editor::same_history(*old(self), *final(self)) && final(self).current_annotation == old(self).current_annotation,
                },
                _ => true,
            },
            old(self).mode == Mode::Erase ==> match *ev {
                EditorInput::Click(p) => match spec_topmost_hit(old(self).annotations@, p) {
                    Option::Some(i) => (
                        anns_model(final(self).annotations@),
                        anns_model(final(self).undone_annotations@),
                    ) == erase_lists(anns_model(old(self).annotations@), i),
                    Option::None => Editor::same_history(*old(self), *final(self)),
                },
                _ => true,
            },
            old(self).mode == Mode::InsertText ==> match *ev {
                EditorInput::Text(TextEvent::Enter) => match old(self).current_annotation {
                    Some(a) => final(self).current_annotation is None && final(self).annotations@
                        == old(self).annotations@.push(a) && (
                        anns_model(final(self).annotations@),
                        anns_model(final(self).undone_annotations@),
                    ) == commit_lists(anns_model(old(self).annotations@), a@),
                    None => Editor::same_history(*old(self), *final(self)),
                },
                _ => true,
            },
            old(self).mode == Mode::Crop ==> match *ev {
                EditorInput::Drag(DragEvent::Started(p)) => !(old(self).current_annotation
                    matches Some(a) && a is Crop) ==> final(self).current_annotation == Some(
                    Annotation::Crop(
                        CropAnnotation {
                            p1: old(self).spec_clamped(p),
                            p2: old(self).spec_clamped(p),
                            resizing: true,
                            finished: false,
                        },
                    ),
                ) && Editor::same_history(*old(self), *final(self)),
                EditorInput::Crop(CropEvent::Commit) => match old(self).current_annotation {
                    Some(Annotation::Crop(c)) => !c.resizing ==> {
                        let c2 = CropAnnotation { finished: true, ..spec_crop_normalized(c) };
                        &&& final(self).crop_rect == Bounds::spec_from_two_pos(c.p1, c.p2)
                        &&& final(self).current_annotation is None
                        &&& (
                            anns_model(final(self).annotations@),
                            anns_model(final(self).undone_annotations@),
                        ) == commit_lists(
                            anns_model(old(self).annotations@),
                            AnnotationModel::Crop(c2),
                        )
                        &&& r == Some(TextureUpdate::Reload(final(self).crop_rect))
                    },
                    _ => true,
                },
                _ => true,
            },
    {
        if !(matches!(self.mode, Mode::Highlight)) && self.width_min == WIDTH_MIN_HIGHLIGHTER
            && self.width_max == WIDTH_MAX_HIGHLIGHTER {
            self.width_min = WIDTH_MIN_DEFAULT;
            self.width_max = WIDTH_MAX_DEFAULT;
            if !(self.width_min <= self.current_width && self.current_width <= self.width_max) {
                self.current_width = self.width_max;
            }
        }
        let mut result: Option<TextureUpdate> = None;
        match self.mode {
            Mode::Crop => {
                match ev {
                    EditorInput::Drag(d) => {
                        result = self.manage_crop(CropEvent::Drag(*d));
                    },
                    EditorInput::Crop(ce) => {
                        result = self.manage_crop(*ce);
                    },
                    _ => {},
                }
            },
            Mode::DrawArrow => {
                match ev {
                    EditorInput::Drag(d) => self.manage_arrow(*d),
                    _ => {},
                }
            },
            Mode::DrawCircle => {
                match ev {
                    EditorInput::Drag(d) => self.manage_circle(*d),
                    _ => {},
                }
            },
            Mode::DrawFree => {
                match ev {
                    EditorInput::Drag(d) => self.manage_pencil(*d),
                    _ => {},
                }
            },
            Mode::DrawLine => {
                match ev {
                    EditorInput::Drag(d) => self.manage_segment(*d),
                    _ => {},
                }
            },
            Mode::DrawRect => {
                match ev {
                    EditorInput::Drag(d) => self.manage_rect(*d),
                    _ => {},
                }
            },
            Mode::Erase => {
                match ev {
                    EditorInput::Click(p) => self.manage_eraser(*p),
                    _ => {},
                }
            },
            Mode::Highlight => {
                match ev {
                    EditorInput::Drag(d) => self.manage_highlighter(*d),
                    _ => {},
                }
            },
            Mode::Idle => {},
            Mode::InsertText => {
                match ev {
                    EditorInput::Text(te) => self.manage_text(te),
                    EditorInput::Click(p) => self.manage_text(&TextEvent::Clicked(*p)),
                    _ => {},
                }
            },
            Mode::Redo => {},
            Mode::Undo => {},
        }
        result
    }

    /// Everything the interactive renderer paints this frame: every
    /// committed annotation except crop markers, in z-order, then the
    /// annotation in progress in its editing style.
    pub fn manage_render(&self, to_screen: &Transform) -> (r: Vec<ShapeCmd>)
        requires
            self.wf(),
            to_screen.wf(),
        ensures
            cmds_model(r@) == spec_interactive_list(self.annotations@, *to_screen) + (
            match self.current_annotation {
                Some(a) => spec_render_interactive(a, *to_screen, true),
                None => Seq::empty(),
            }),
    {
        let mut r: Vec<ShapeCmd> = render_command_list(&self.annotations, to_screen);
        let ghost base = cmds_model(r@);
        match &self.current_annotation {
            Some(a) => {
                let mut overlay: Vec<ShapeCmd> = a.render(to_screen, true);
                let ghost ov = cmds_model(overlay@);
                r.append(&mut overlay);
                proof {
                    assert(cmds_model(r@) =~= base + ov);
                }
            },
            None => {
                proof {
                    assert(cmds_model(r@) =~= base + Seq::<crate::render::CmdModel>::empty());
                }
            },
        }
        r
    }
}

/// Entries stay well-formed when a well-formed one is inserted.
proof fn lemma_wf_after_insert(
    before: Seq<Annotation>,
    after: Seq<Annotation>,
    x: Annotation,
    i: int,
)
    requires
        forall|j: int| 0 <= j < before.len() ==> (#[trigger] before[j]).wf(),
        x.wf(),
        exists|k: int| 0 <= k <= before.len() && after == before.insert(k, x),
        0 <= i < after.len(),
    ensures
        after[i].wf(),
{
    let k = choose|k: int| 0 <= k <= before.len() && after == before.insert(k, x);
    if i < k {
        assert(after[i] == before[i]);
    } else if i == k {
        assert(after[i] == x);
    } else {
        assert(after[i] == before[i - 1]);
    }
}

/// Entries stay well-formed when one is removed.
proof fn lemma_wf_after_remove(before: Seq<Annotation>, after: Seq<Annotation>, i: int)
    requires
        forall|j: int| 0 <= j < before.len() ==> (#[trigger] before[j]).wf(),
        after == before || exists|k: int| 0 <= k < before.len() && after == before.remove(k),
        0 <= i < after.len(),
    ensures
        after[i].wf(),
{
    if after != before {
        let k = choose|k: int| 0 <= k < before.len() && after == before.remove(k);
        if i < k {
            assert(after[i] == before[i]);
        } else {
            assert(after[i] == before[i + 1]);
        }
    }
}

} // verus!
