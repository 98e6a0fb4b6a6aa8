//! The application session around the editor: the visible page, the
//! capture and save latches that keep at most one request of each kind
//! in flight, the reactions to worker replies, and the in-app hotkey
//! actions. The shell owns the channels, threads, dialogs, clipboard
//! and texture; it polls this state machine every frame.

use vstd::prelude::*;

use crate::annotation::{Annotation, clone_annotation, anns_model};
use crate::config::Config;
use crate::editor::Editor;
use crate::geometry::{Bounds, COORD_LIMIT, Pos};
use crate::keybinds::HotKeyAction;
use crate::pages::{PageType, SettingType};
use crate::raster::{RawImage, SURFACE_LIMIT};
use crate::save_destination::{SaveDestination, spec_with_png_extension};
use crate::sync::{MasterSignal, SaveImageData, SlaveSignal};

verus! {

/// What the session asks the shell to do beyond sending a signal.
pub enum UiRequest {
    /// Send this signal on the capture/save channel.
    SendSignal(MasterSignal),
    /// Open the save-as dialog, then call `save_as` with its result.
    OpenSaveDialog,
}

/// The session: the editor plus the interface state around it.
pub struct ScreenGrabber {
    pub current_page: PageType,
    pub is_minimized: bool,
    /// Latch: a save request is in flight.
    pub is_saving: bool,
    /// Latch: a capture request is in flight.
    pub is_capturing: bool,
    /// A keybinding is being recorded; in-app hotkeys pause.
    pub is_binding: bool,
    /// Delay before a requested capture, in milliseconds.
    pub capture_delay_ms: u64,
    pub editor: Editor,
    pub active_section: SettingType,
    pub config: Config,
    pub prev_config: Config,
}

impl Default for ScreenGrabber {
    /// A fresh session on the launcher page, with default configuration
    /// and a 300 millisecond capture delay.
    fn default() -> (r: ScreenGrabber)
        ensures
            r.wf(),
            r.current_page is Launcher,
            !r.is_minimized && !r.is_saving && !r.is_capturing && !r.is_binding,
            r.capture_delay_ms == 300,
            r.editor.image_size is None,
            r.active_section is General,
    {
        ScreenGrabber {
            current_page: PageType::Launcher,
            is_minimized: false,
            is_saving: false,
            is_capturing: false,
            is_binding: false,
            capture_delay_ms: 300,
            editor: Editor::default(),
            active_section: SettingType::General,
            config: Config::default(),
            prev_config: Config::default(),
        }
    }
}

impl ScreenGrabber {
    pub open spec fn wf(self) -> bool {
        self.editor.wf()
    }

    /// Everything except the editor and the latches, unchanged.
    pub open spec fn same_shell(a: ScreenGrabber, b: ScreenGrabber) -> bool {
        &&& a.current_page == b.current_page
        &&& a.is_minimized == b.is_minimized
        &&& a.is_binding == b.is_binding
        &&& a.capture_delay_ms == b.capture_delay_ms
        &&& a.active_section == b.active_section
        &&& a.config == b.config
        &&& a.prev_config == b.prev_config
    }

    /// What every save request carries, from the editor state at request
    /// time: the canvas is the captured image, the crop area the
    /// displayed bounds, and the annotation list an owned, well-formed,
    /// content-equal snapshot.
    pub open spec fn spec_save_payload(e0: Editor, data: SaveImageData) -> bool {
        &&& data.canvas_size == e0.image_size->0
        &&& data.crop_area == (e0.crop_rect.min, e0.crop_rect.max)
        &&& anns_model(data.annotations@) == anns_model(e0.annotations@)
        &&& forall|i: int|
            0 <= i < data.annotations@.len() ==> (#[trigger] data.annotations@[i]).wf()
    }

    pub fn set_page(&mut self, page: PageType)
        ensures
            *final(self) == (ScreenGrabber { current_page: page, ..*old(self) }),
    {
        self.current_page = page;
    }

    pub fn set_active_section(&mut self, session: SettingType)
        ensures
            *final(self) == (ScreenGrabber { active_section: session, ..*old(self) }),
    {
        self.active_section = session;
    }

    /// Whether an edited capture is on display: no capture in flight
    /// and the editor holds an image.
    pub open spec fn spec_has_captured_image(self) -> bool {
        !self.is_capturing && self.editor.image_size is Some
    }

    pub fn has_captured_image(&self) -> (r: bool)
        ensures
            r == self.spec_has_captured_image(),
    {
        !self.is_capturing && self.editor.image_size.is_some()
    }

    /// The captured image's size, or zero before any capture.
    pub fn get_original_size(&self) -> (r: (u64, u64))
        ensures
            match self.editor.image_size {
                Some(wh) => r == wh,
                None => r == (0u64, 0u64),
            },
    {
        match self.editor.image_size {
            Some(wh) => wh,
            None => (0, 0),
        }
    }

    /// Hand the editor a replacement display image of the given size.
    pub fn set_new_captured_image(&mut self, width: u64, height: u64)
        requires
            width <= COORD_LIMIT as u64,
            height <= COORD_LIMIT as u64,
        ensures
            final(self).editor.image_size == Some((width, height)),
            *final(self) == (ScreenGrabber { editor: final(self).editor, ..*old(self) }),
            final(self).editor == (Editor {
                image_size: Some((width, height)),
                ..old(self).editor
            }),
    {
        self.editor.image_size = Some((width, height));
    }

    /// Request a capture. The latch keeps at most one in flight: while
    /// one is pending this is a no-op and nothing is sent.
    pub fn capture(&mut self) -> (r: Option<MasterSignal>)
        ensures
            old(self).is_capturing ==> r is None && *final(self) == *old(self),
            !old(self).is_capturing ==> {
                &&& final(self).is_capturing
                &&& *final(self) == (ScreenGrabber { is_capturing: true, ..*old(self) })
                &&& (r matches Some(MasterSignal::StartCaptureAfter(d)) && d == old(self).capture_delay_ms)
            },
    {
        if self.is_capturing {
            return None;
        }
        self.is_capturing = true;
        Some(MasterSignal::StartCaptureAfter(self.capture_delay_ms))
    }

    /// Build the export request for the current editor state: the
    /// canvas is the captured image, the crop area the displayed
    /// bounds, and the annotation list an owned snapshot. Sets the save
    /// latch; the shell sends the returned signal.
    fn request_save(&mut self, path: SaveDestination) -> (r: MasterSignal)
        requires
            old(self).wf(),
            old(self).editor.image_size is Some,
        ensures
            final(self).wf(),
            *final(self) == (ScreenGrabber { is_saving: true, ..*old(self) }),
            r matches MasterSignal::SaveImage(data) && data.path == path
                && ScreenGrabber::spec_save_payload(old(self).editor, data),
    {
        let size: (u64, u64) = self.editor.image_size.unwrap();
        let annotations: Vec<Annotation> = snapshot_annotations(&self.editor.annotations);
        let data: SaveImageData = SaveImageData::new(
            path,
            (self.editor.crop_rect.min, self.editor.crop_rect.max),
            size,
            annotations,
        );
        self.is_saving = true;
        MasterSignal::SaveImage(data)
    }

    /// Export to the default directory under the default filename with
    /// a `png` extension. The timestamp text comes from the shell's
    /// clock. A no-op without a captured image.
    pub fn save_default(&mut self, ts: &str) -> (r: Option<MasterSignal>)
        requires
            old(self).wf(),
        ensures
            final(self).wf(),
            !old(self).spec_has_captured_image() ==> r is None && *final(self) == *old(self),
            old(self).spec_has_captured_image() ==> {
                &&& *final(self) == (ScreenGrabber { is_saving: true, ..*old(self) })
                &&& (r matches Some(MasterSignal::SaveImage(data)) && data.path matches
                    SaveDestination::RealPath(p) && p@ == spec_with_png_extension(
                    old(self).config.default_path@ + "/"@ + crate::config::spec_filename(
                        old(self).config.default_filename,
                        ts@,
                    ),
                ) && ScreenGrabber::spec_save_payload(old(self).editor, data))
            },
    {
        if !self.has_captured_image() {
            return None;
        }
        let name: String = self.config.default_filename.to_name(ts);
        let mut full: String = self.config.default_path.clone();
        full.append("/");
        full.append(name.as_str());
        let with_ext: String = crate::save_destination::with_png_extension(full.as_str());
        Some(self.request_save(SaveDestination::RealPath(with_ext)))
    }

    /// Export to a path the user chose in the save dialog. A no-op
    /// without a captured image or when the dialog was cancelled.
    pub fn save_as(&mut self, chosen: Option<String>) -> (r: Option<MasterSignal>)
        requires
            old(self).wf(),
        ensures
            final(self).wf(),
            !old(self).spec_has_captured_image() || chosen is None ==> r is None && *final(self)
                == *old(self),
            match chosen {
                Option::Some(p) => old(self).spec_has_captured_image() ==> {
                    &&& *final(self) == (ScreenGrabber { is_saving: true, ..*old(self) })
                    &&& (r matches Some(MasterSignal::SaveImage(data)) && data.path matches
                        SaveDestination::RealPath(q) && q@ == p@
                        && ScreenGrabber::spec_save_payload(old(self).editor, data))
                },
                Option::None => true,
            },
    {
        if !self.has_captured_image() {
            return None;
        }
        match chosen {
            Option::None => None,
            Option::Some(p) => Some(self.request_save(SaveDestination::RealPath(p))),
        }
    }

    /// Export to the clipboard. A no-op without a captured image.
    pub fn save_clipboard(&mut self) -> (r: Option<MasterSignal>)
        requires
            old(self).wf(),
        ensures
            final(self).wf(),
            !old(self).spec_has_captured_image() ==> r is None && *final(self) == *old(self),
            old(self).spec_has_captured_image() ==> {
                &&& *final(self) == (ScreenGrabber { is_saving: true, ..*old(self) })
                &&& (r matches Some(MasterSignal::SaveImage(data)) && data.path is Clipboard
                    && ScreenGrabber::spec_save_payload(old(self).editor, data))
            },
    {
        if !self.has_captured_image() {
            return None;
        }
        Some(self.request_save(SaveDestination::Clipboard))
    }

    /// React to a reply on the capture/save channel. A finished capture
    /// resets the editor for the new image, clears the latch and shows
    /// the capture page; the image travels back to the shell for the
    /// texture and the shared cell. `Aborted` clears both latches;
    /// `SaveDone` clears the save latch.
    pub fn handle_save_signal(&mut self, signal: SlaveSignal) -> (r: Option<RawImage>)
        requires
            old(self).wf(),
        ensures
            final(self).wf(),
            match signal {
                SlaveSignal::CaptureDone(img) => if img.wf() && img.width <= COORD_LIMIT as u64
                    && img.height <= COORD_LIMIT as u64 {
                    &&& final(self).editor.image_size == Some((img.width, img.height))
                    &&& final(self).editor.crop_rect == (Bounds {
                        min: Pos { x: 0, y: 0 },
                        max: Pos { x: img.width as i64, y: img.height as i64 },
                    })
                    &&& final(self).editor.annotations@ == Seq::<Annotation>::empty()
                    &&& final(self).editor.undone_annotations@ == Seq::<Annotation>::empty()
                    &&& !final(self).is_capturing
                    &&& final(self).current_page is Capture
                    &&& (r matches Some(out) && out.width == img.width && out.height == img.height
                        && out.pixels@ == img.pixels@)
                } else {
                    r is None && !final(self).is_capturing && !final(self).is_saving
                        && ScreenGrabber::same_shell(*old(self), *final(self))
                },
                SlaveSignal::Aborted => r is None && !final(self).is_capturing && !final(self).is_saving && final(self).editor == old(self).editor
                    && ScreenGrabber::same_shell(*old(self), *final(self)),
                SlaveSignal::SaveDone => r is None && *final(self) == (ScreenGrabber {
                    is_saving: false,
                    ..*old(self)
                }),
                _ => r is None && *final(self) == *old(self),
            },
    {
        match signal {
            SlaveSignal::CaptureDone(img) => {
                let plausible: bool = img.width <= COORD_LIMIT as u64 && img.height
                    <= COORD_LIMIT as u64 && img.width <= SURFACE_LIMIT && img.height
                    <= SURFACE_LIMIT && img.pixels.len() as u64 == rgba_len(
                    img.width,
                    img.height,
                );
                if plausible {
                    self.editor.reset_for_new_image(img.width, img.height);
                    self.is_capturing = false;
                    self.current_page = PageType::Capture;
                    Some(img)
                } else {
                    self.is_capturing = false;
                    self.is_saving = false;
                    None
                }
            },
            SlaveSignal::Aborted => {
                self.is_capturing = false;
                self.is_saving = false;
                None
            },
            SlaveSignal::SaveDone => {
                self.is_saving = false;
                None
            },
            _ => None,
        }
    }

    /// React to a reply on the hotkey channel: a resolved capture
    /// press requests a capture, anything else is ignored.
    pub fn handle_hotkey_signal(&mut self, signal: SlaveSignal) -> (r: Option<MasterSignal>)
        ensures
            match signal {
                SlaveSignal::KeyPressed(action) => if action is Capture {
                    (old(self).is_capturing ==> r is None && *final(self) == *old(self)) && (!old(self).is_capturing ==> final(self).is_capturing && *final(self) == (ScreenGrabber {
                        is_capturing: true,
                        ..*old(self)
                    }) && (r matches Some(MasterSignal::StartCaptureAfter(d)) && d == old(self).capture_delay_ms))
                } else {
                    r is None && *final(self) == *old(self)
                },
                _ => r is None && *final(self) == *old(self),
            },
    {
        match signal {
            SlaveSignal::KeyPressed(action) => {
                match action {
                    HotKeyAction::Capture => self.capture(),
                    _ => None,
                }
            },
            _ => None,
        }
    }

    /// Keep the window minimized exactly while a capture is pending.
    /// `Some(m)` asks the shell to set the minimized state to `m`.
    pub fn manage_window_status(&mut self) -> (r: Option<bool>)
        ensures
            old(self).is_capturing && !old(self).is_minimized ==> r == Some(true) && *final(self)
                == (ScreenGrabber { is_minimized: true, ..*old(self) }),
            !old(self).is_capturing && old(self).is_minimized ==> r == Some(false) && *final(self)
                == (ScreenGrabber { is_minimized: false, ..*old(self) }),
            old(self).is_capturing == old(self).is_minimized ==> r is None && *final(self) == *old(self),
    {
        if self.is_capturing && !self.is_minimized {
            self.is_minimized = true;
            Some(true)
        } else if !self.is_capturing && self.is_minimized {
            self.is_minimized = false;
            Some(false)
        } else {
            None
        }
    }

    /// Perform one pressed in-app hotkey action. The shell detects the
    /// press and supplies the timestamp text for a default save; a
    /// `Save` action comes back as a dialog request.
    pub fn apply_in_app_action(&mut self, action: HotKeyAction, ts: &str) -> (r: Option<
        UiRequest,
    >)
        requires
            old(self).wf(),
        ensures
            final(self).wf(),
            match action {
                HotKeyAction::Editor => r is None && (old(self).spec_has_captured_image()
                    ==> *final(self) == (ScreenGrabber {
                    current_page: PageType::Capture,
                    ..*old(self)
                })) && (!old(self).spec_has_captured_image() ==> *final(self) == *old(self)),
                HotKeyAction::Settings => r is None && *final(self) == (ScreenGrabber {
                    current_page: PageType::Settings,
                    ..*old(self)
                }),
                HotKeyAction::Save => (old(self).spec_has_captured_image() ==> r == Some(
                    UiRequest::OpenSaveDialog,
                ) && *final(self) == *old(self)) && (!old(self).spec_has_captured_image() ==> r
                    is None && *final(self) == *old(self)),
                HotKeyAction::Clipboard => (old(self).spec_has_captured_image() ==> {
                    &&& *final(self) == (ScreenGrabber { is_saving: true, ..*old(self) })
                    &&& (r matches Some(UiRequest::SendSignal(MasterSignal::SaveImage(data)))
                        && data.path is Clipboard && ScreenGrabber::spec_save_payload(
                        old(self).editor,
                        data,
                    ))
                }) && (!old(self).spec_has_captured_image() ==> r is None && *final(self) == *old(self)),
                HotKeyAction::SaveDefault => (old(self).spec_has_captured_image() ==> {
                    &&& *final(self) == (ScreenGrabber { is_saving: true, ..*old(self) })
                    &&& (r matches Some(UiRequest::SendSignal(MasterSignal::SaveImage(data)))
                        && data.path matches SaveDestination::RealPath(p) && p@
                        == spec_with_png_extension(
                        old(self).config.default_path@ + "/"@ + crate::config::spec_filename(
                            old(self).config.default_filename,
                            ts@,
                        ),
                    ) && ScreenGrabber::spec_save_payload(old(self).editor, data))
                }) && (!old(self).spec_has_captured_image() ==> r is None && *final(self) == *old(self)),
                HotKeyAction::Reset => r is None,
                _ => r is None && *final(self) == *old(self),
            },
    {
        match action {
            HotKeyAction::Editor => {
                if self.has_captured_image() {
                    self.set_page(PageType::Capture);
                }
                None
            },
            HotKeyAction::Clipboard => {
                if self.has_captured_image() {
                    match self.save_clipboard() {
                        Some(sig) => Some(UiRequest::SendSignal(sig)),
                        None => None,
                    }
                } else {
                    None
                }
            },
            HotKeyAction::Save => {
                if self.has_captured_image() {
                    Some(UiRequest::OpenSaveDialog)
                } else {
                    None
                }
            },
            HotKeyAction::SaveDefault => {
                if self.has_captured_image() {
                    match self.save_default(ts) {
                        Some(sig) => Some(UiRequest::SendSignal(sig)),
                        None => None,
                    }
                } else {
                    None
                }
            },
            HotKeyAction::Settings => {
                self.set_page(PageType::Settings);
                None
            },
            HotKeyAction::Reset => {
                if matches!(self.current_page, PageType::Settings) {
                    let fresh: Config = Config::default();
                    if !self.prev_config.eq(&fresh) {
                        self.config.status = crate::config::Status::ToReset;
                    }
                }
                None
            },
            _ => None,
        }
    }
}

/// The byte length of an RGBA image of the given size.
fn rgba_len(w: u64, h: u64) -> (r: u64)
    requires
        w <= SURFACE_LIMIT,
        h <= SURFACE_LIMIT,
    ensures
        r == w * h * 4,
{
    proof {
        assert(w * h <= SURFACE_LIMIT * SURFACE_LIMIT) by (nonlinear_arith)
            requires
                0 <= w <= SURFACE_LIMIT && 0 <= h <= SURFACE_LIMIT,
        ;
    }
    w * h * 4
}

/// An owned, content-equal, well-formed copy of an annotation list: the
/// export snapshot.
pub fn snapshot_annotations(v: &Vec<Annotation>) -> (r: Vec<Annotation>)
    requires
        forall|i: int| 0 <= i < v@.len() ==> (#[trigger] v@[i]).wf(),
    ensures
        anns_model(r@) == anns_model(v@),
        forall|i: int| 0 <= i < r@.len() ==> (#[trigger] r@[i]).wf(),
{
    let mut r: Vec<Annotation> = Vec::new();
    let mut i: usize = 0;
    while i < v.len()
        invariant
            i <= v@.len(),
            r@.len() == i,
            forall|k: int| 0 <= k < v@.len() ==> (#[trigger] v@[k]).wf(),
            forall|j: int| 0 <= j < i ==> (#[trigger] r@[j])@ == v@[j]@ && r@[j].wf(),
        decreases v@.len() - i,
    {
        r.push(clone_annotation(&v[i]));
        i = i + 1;
    }
    proof {
        assert(anns_model(r@) =~= anns_model(v@));
    }
    r
}

} // verus!
