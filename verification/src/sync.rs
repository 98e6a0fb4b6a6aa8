//! The capture/export worker protocol: the typed signals exchanged
//! between the interface thread and the two background workers, and the
//! workers' decision logic. The channels, threads, sleeps and the
//! shared image cell live in the shell; each worker calls into here to
//! decide what a received signal means and to run the export itself.

use vstd::prelude::*;

use crate::annotation::{Annotation, annotations_wf};
use crate::geometry::Pos;
use crate::keybinds::Binding;
use crate::raster::{ExportOutput, Rasterizer, RawImage, SURFACE_LIMIT, spec_blit,
    spec_paint_cmds, spec_cropped_rgba_of, spec_file_export_ok};
use crate::render::spec_native_list;
use crate::save_destination::SaveDestination;

verus! {

/// Everything an export needs, snapshot at request time. The shared
/// read handle to the captured raw image stays in the shell; the
/// annotation list is an owned copy, so later edits cannot race the
/// export.
pub struct SaveImageData {
    pub path: SaveDestination,
    pub canvas_size: (u64, u64),
    pub crop_area: (Pos, Pos),
    pub annotations: Vec<Annotation>,
}

impl SaveImageData {
    pub fn new(
        path: SaveDestination,
        crop_area: (Pos, Pos),
        canvas_size: (u64, u64),
        annotations: Vec<Annotation>,
    ) -> (r: SaveImageData)
        ensures
            r.path == path && r.canvas_size == canvas_size && r.crop_area == crop_area
                && r.annotations@ == annotations@,
    {
        SaveImageData { path, canvas_size, crop_area, annotations }
    }
}

/// Signals sent from the interface thread to the worker threads.
pub enum MasterSignal {
    /// Capture the screen after this many milliseconds.
    StartCaptureAfter(u64),
    /// Replace the registered system-wide hotkeys.
    SetHotkeys(Vec<Binding>),
    /// Export and save the image described by the data.
    SaveImage(SaveImageData),
    /// Leave the receive loop and terminate, so the thread can be
    /// joined on exit.
    Shutdown,
}

/// Signals sent from the worker threads back to the interface thread.
pub enum SlaveSignal {
    CaptureDone(RawImage),
    SaveDone,
    KeyPressed(crate::keybinds::HotKeyAction),
    KeyReleased(u32),
    Aborted,
}

/// What the capture/save worker does with a received signal.
pub enum SaveWorkerStep {
    /// Sleep for the delay, capture the screen, reply `CaptureDone`.
    Capture { delay_ms: u64 },
    /// Run the export over the shared image and reply with the result.
    RunSave(SaveImageData),
    /// Leave the loop.
    Stop,
    /// Not addressed to this worker.
    Ignore,
}

/// The capture/save worker's decision for one received signal.
pub fn save_worker_decide(signal: MasterSignal) -> (r: SaveWorkerStep)
    ensures
        match signal {
            MasterSignal::StartCaptureAfter(d) => r matches SaveWorkerStep::Capture { delay_ms }
                && delay_ms == d,
            MasterSignal::SaveImage(data) => (r matches SaveWorkerStep::RunSave(d) && d.path
                == data.path && d.canvas_size == data.canvas_size && d.crop_area == data.crop_area
                && d.annotations@ == data.annotations@),
            MasterSignal::Shutdown => r is Stop,
            MasterSignal::SetHotkeys(_) => r is Ignore,
        },
{
    match signal {
        MasterSignal::StartCaptureAfter(d) => SaveWorkerStep::Capture { delay_ms: d },
        MasterSignal::SaveImage(data) => SaveWorkerStep::RunSave(data),
        MasterSignal::Shutdown => SaveWorkerStep::Stop,
        MasterSignal::SetHotkeys(_) => SaveWorkerStep::Ignore,
    }
}

/// What the hotkey worker does with a received signal.
pub enum HotkeyWorkerStep {
    /// Unregister the previous bindings and register these.
    Register(Vec<Binding>),
    /// Leave the loop.
    Stop,
    /// Not addressed to this worker.
    Ignore,
}

/// The hotkey worker's decision for one received signal.
pub fn hotkey_worker_decide(signal: MasterSignal) -> (r: HotkeyWorkerStep)
    ensures
        match signal {
            MasterSignal::SetHotkeys(bs) => (r matches HotkeyWorkerStep::Register(b) && b@
                == bs@),
            MasterSignal::Shutdown => r is Stop,
            _ => r is Ignore,
        },
{
    match signal {
        MasterSignal::SetHotkeys(bs) => HotkeyWorkerStep::Register(bs),
        MasterSignal::Shutdown => HotkeyWorkerStep::Stop,
        _ => HotkeyWorkerStep::Ignore,
    }
}

/// A blank canvas of the given size.
pub open spec fn spec_blank_canvas(w: u64, h: u64) -> Seq<crate::geometry::Color> {
    Seq::new((w * h) as nat, |k: int| crate::geometry::Color { r: 0, g: 0, b: 0, a: 0 })
}

/// The export surface an accepted save request produces: the screenshot
/// drawn at the origin on a blank canvas, then the snapshot annotations
/// replayed at native resolution.
pub open spec fn spec_save_surface(data: SaveImageData, img: RawImage) -> Seq<
    crate::geometry::Color,
> {
    spec_paint_cmds(
        spec_blit(
            spec_blank_canvas(data.canvas_size.0, data.canvas_size.1),
            data.canvas_size.0 as int,
            img,
            0,
            0,
        ),
        data.canvas_size.0 as int,
        spec_native_list(data.annotations@),
    )
}

/// Whether the request's crop area lies on the canvas and has pixels:
/// what the export itself demands beyond an accepted request.
pub open spec fn spec_save_crop_usable(data: SaveImageData) -> bool {
    &&& 0 <= data.crop_area.0.x < data.crop_area.1.x <= data.canvas_size.0
    &&& 0 <= data.crop_area.0.y < data.crop_area.1.y <= data.canvas_size.1
}

/// Whether a save request is one the worker accepts: the image is
/// present and plausible, the canvas fits a surface, and the snapshot
/// annotations are well-formed.
pub open spec fn spec_save_accepted(data: SaveImageData, image: Option<RawImage>) -> bool {
    &&& image matches Some(img) && img.wf()
    &&& data.canvas_size.0 <= SURFACE_LIMIT
    &&& data.canvas_size.1 <= SURFACE_LIMIT
    &&& forall|i: int| 0 <= i < data.annotations@.len() ==> (#[trigger] data.annotations@[i]).wf()
}

/// Run one export request on the capture/save worker: compose the
/// surface, subset it to the crop area, encode for the destination.
/// Every failure — a missing or implausible image, an off-surface or
/// empty crop, a failed encode — becomes the `Aborted` reply; nothing
/// here panics. Success is owed for a usable crop with a clipboard
/// destination or an encode-only file path (`png`, `jpg` or no
/// extension). Text blocks are exported as geometry, not pixels: glyph
/// rasterization needs a font engine the shell may own.
pub fn process_save(data: SaveImageData, image: Option<RawImage>) -> (r: (
    SlaveSignal,
    Option<ExportOutput>,
))
    ensures
        r.1 is Some <==> r.0 is SaveDone,
        r.0 is SaveDone || r.0 is Aborted,
        !spec_save_accepted(data, image) ==> r.0 is Aborted,
        data.crop_area.0.x == data.crop_area.1.x || data.crop_area.0.y == data.crop_area.1.y
            ==> r.0 is Aborted,
        spec_save_crop_usable(data) && spec_save_accepted(data, image) && data.path is Clipboard
            ==> r.0 is SaveDone,
        spec_save_crop_usable(data) && spec_save_accepted(data, image) && (data.path matches
            SaveDestination::RealPath(d) && (crate::save_destination::spec_extension(d@) == Some(
            "png"@,
        ) || crate::save_destination::spec_extension(d@) == Some("jpg"@)
            || crate::save_destination::spec_extension(d@) is None)) ==> r.0 is SaveDone,
        match r.1 {
            Some(out) => spec_save_accepted(data, image) && {
                let img = image->0;
                let pixels = spec_save_surface(data, img);
                let c0 = data.crop_area.0;
                let c1 = data.crop_area.1;
                let valid_crop = 0 <= c0.x <= c1.x <= data.canvas_size.0 && 0 <= c0.y <= c1.y
                    <= data.canvas_size.1;
                let rgba = spec_cropped_rgba_of(pixels, data.canvas_size.0 as int, c0, c1);
                &&& valid_crop
                &&& match out {
                    ExportOutput::FileOutput { path, bytes } => (data.path matches
                        SaveDestination::RealPath(d) && spec_file_export_ok(
                        d@,
                        path@,
                        bytes@,
                        (c1.x - c0.x) as u64,
                        (c1.y - c0.y) as u64,
                        rgba,
                    )),
                    ExportOutput::ClipboardOutput { width, height, rgba: out_rgba } => data.path
                        is Clipboard && width == c1.x - c0.x && height == c1.y - c0.y && out_rgba@
                        == rgba,
                }
            },
            None => true,
        },
{
    let img: RawImage = match image {
        Some(i) => i,
        None => {
            return (SlaveSignal::Aborted, None);
        },
    };
    if !(img.width <= SURFACE_LIMIT && img.height <= SURFACE_LIMIT) {
        return (SlaveSignal::Aborted, None);
    }
    proof {
        assert(img.width * img.height <= SURFACE_LIMIT * SURFACE_LIMIT) by (nonlinear_arith)
            requires
                0 <= img.width <= SURFACE_LIMIT && 0 <= img.height <= SURFACE_LIMIT,
        ;
    }
    if img.pixels.len() as u64 != img.width * img.height * 4 {
        return (SlaveSignal::Aborted, None);
    }
    if !(data.canvas_size.0 <= SURFACE_LIMIT && data.canvas_size.1 <= SURFACE_LIMIT) {
        return (SlaveSignal::Aborted, None);
    }
    if !annotations_wf(&data.annotations) {
        return (SlaveSignal::Aborted, None);
    }
    let mut rasterizer: Rasterizer = Rasterizer::new(data.canvas_size, data.crop_area);
    proof {
        assert(rasterizer.surface.pixels@ =~= spec_blank_canvas(
            data.canvas_size.0,
            data.canvas_size.1,
        ));
    }
    rasterizer.add_screenshot(&img, (0, 0));
    proof {
        assert(rasterizer.surface.pixels@ == spec_blit(
            spec_blank_canvas(data.canvas_size.0, data.canvas_size.1),
            data.canvas_size.0 as int,
            img,
            0,
            0,
        ));
    }
    rasterizer.add_annotations(&data.annotations);
    proof {
        assert(rasterizer.surface.pixels@ =~= spec_save_surface(data, img));
        assert(spec_cropped_rgba_of(
            rasterizer.surface.pixels@,
            data.canvas_size.0 as int,
            data.crop_area.0,
            data.crop_area.1,
        ) == spec_cropped_rgba_of(
            spec_save_surface(data, img),
            data.canvas_size.0 as int,
            data.crop_area.0,
            data.crop_area.1,
        ));
    }
    match rasterizer.export(data.path) {
        Some(out) => (SlaveSignal::SaveDone, Some(out)),
        None => (SlaveSignal::Aborted, None),
    }
}

} // verus!
