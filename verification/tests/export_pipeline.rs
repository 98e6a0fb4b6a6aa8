use screen_grabber::annotation::{Annotation, SegmentAnnotation};
use screen_grabber::geometry::{Color, Pos};
use screen_grabber::raster::{ExportOutput, RawImage, decode_image};
use screen_grabber::save_destination::SaveDestination;
use screen_grabber::sync::{MasterSignal, SaveImageData, SlaveSignal, process_save,
    save_worker_decide, SaveWorkerStep, hotkey_worker_decide, HotkeyWorkerStep};

fn white_image(w: u64, h: u64) -> RawImage {
    RawImage { width: w, height: h, pixels: vec![255u8; (w * h * 4) as usize] }
}

fn red() -> Color {
    Color { r: 255, g: 0, b: 0, a: 255 }
}

fn diagonal_segment() -> Annotation {
    Annotation::Segment(SegmentAnnotation {
        starting_pos: Pos { x: 10, y: 10 },
        ending_pos: Pos { x: 90, y: 90 },
        color: red(),
        width: 4,
    })
}

fn decoded_pixel(pixels: &[u8], width: u64, x: u64, y: u64) -> (u8, u8, u8, u8) {
    let k = ((y * width + x) * 4) as usize;
    (pixels[k], pixels[k + 1], pixels[k + 2], pixels[k + 3])
}

#[test]
fn export_crops_canvas_and_draws_segment() {
    // A 200x200 canvas, crop (0,0)-(100,100), one diagonal segment:
    // the export is a 100x100 image with the segment reproduced at
    // (10,10)-(90,90) in the cropped frame.
    let data = SaveImageData::new(
        SaveDestination::RealPath(String::from("shot.png")),
        (Pos { x: 0, y: 0 }, Pos { x: 100, y: 100 }),
        (200, 200),
        vec![diagonal_segment()],
    );
    let (signal, output) = process_save(data, Some(white_image(200, 200)));
    assert!(matches!(signal, SlaveSignal::SaveDone));
    let (path, bytes) = match output {
        Some(ExportOutput::FileOutput { path, bytes }) => (path, bytes),
        other => panic!("expected file output, got {:?}", other.is_some()),
    };
    assert_eq!(path, "shot.png");
    let (w, h, pixels) = decode_image(&bytes).expect("the export must decode back");
    assert_eq!((w, h), (100, 100));
    // On the diagonal: the segment's color.
    assert_eq!(decoded_pixel(&pixels, w, 10, 10), (255, 0, 0, 255));
    assert_eq!(decoded_pixel(&pixels, w, 50, 50), (255, 0, 0, 255));
    assert_eq!(decoded_pixel(&pixels, w, 90, 90), (255, 0, 0, 255));
    // Far from the segment: the screenshot's white.
    assert_eq!(decoded_pixel(&pixels, w, 90, 10), (255, 255, 255, 255));
    assert_eq!(decoded_pixel(&pixels, w, 5, 95), (255, 255, 255, 255));
}

#[test]
fn export_to_clipboard_returns_raw_pixels() {
    let data = SaveImageData::new(
        SaveDestination::Clipboard,
        (Pos { x: 0, y: 0 }, Pos { x: 8, y: 8 }),
        (8, 8),
        Vec::new(),
    );
    let (signal, output) = process_save(data, Some(white_image(8, 8)));
    assert!(matches!(signal, SlaveSignal::SaveDone));
    match output {
        Some(ExportOutput::ClipboardOutput { width, height, rgba }) => {
            assert_eq!((width, height), (8, 8));
            assert_eq!(rgba, vec![255u8; 8 * 8 * 4]);
        },
        other => panic!("expected clipboard output, got {:?}", other.is_some()),
    }
}

#[test]
fn export_without_image_aborts() {
    let data = SaveImageData::new(
        SaveDestination::Clipboard,
        (Pos { x: 0, y: 0 }, Pos { x: 8, y: 8 }),
        (8, 8),
        Vec::new(),
    );
    let (signal, output) = process_save(data, None);
    assert!(matches!(signal, SlaveSignal::Aborted));
    assert!(output.is_none());
}

#[test]
fn export_with_empty_crop_aborts() {
    // A crop rectangle with no pixels cannot be subset: the export is
    // the aborted reply, not an empty image.
    for crop in [
        (Pos { x: 0, y: 0 }, Pos { x: 0, y: 4 }),
        (Pos { x: 0, y: 0 }, Pos { x: 4, y: 0 }),
        (Pos { x: 3, y: 3 }, Pos { x: 3, y: 3 }),
    ] {
        let data = SaveImageData::new(SaveDestination::Clipboard, crop, (8, 8), Vec::new());
        let (signal, output) = process_save(data, Some(white_image(8, 8)));
        assert!(matches!(signal, SlaveSignal::Aborted));
        assert!(output.is_none());
    }
}

#[test]
fn export_with_crop_off_canvas_aborts() {
    let data = SaveImageData::new(
        SaveDestination::Clipboard,
        (Pos { x: 0, y: 0 }, Pos { x: 50, y: 50 }),
        (8, 8),
        Vec::new(),
    );
    let (signal, output) = process_save(data, Some(white_image(8, 8)));
    assert!(matches!(signal, SlaveSignal::Aborted));
    assert!(output.is_none());
}

#[test]
fn export_with_mismatched_image_buffer_aborts() {
    let broken = RawImage { width: 8, height: 8, pixels: vec![255u8; 17] };
    let data = SaveImageData::new(
        SaveDestination::Clipboard,
        (Pos { x: 0, y: 0 }, Pos { x: 8, y: 8 }),
        (8, 8),
        Vec::new(),
    );
    let (signal, _) = process_save(data, Some(broken));
    assert!(matches!(signal, SlaveSignal::Aborted));
}

#[test]
fn unknown_extension_falls_back_to_png() {
    let data = SaveImageData::new(
        SaveDestination::RealPath(String::from("dir/shot.webp")),
        (Pos { x: 0, y: 0 }, Pos { x: 8, y: 8 }),
        (8, 8),
        Vec::new(),
    );
    let (signal, output) = process_save(data, Some(white_image(8, 8)));
    assert!(matches!(signal, SlaveSignal::SaveDone));
    match output {
        Some(ExportOutput::FileOutput { path, bytes }) => {
            assert_eq!(path, "dir/shot.png");
            let (w, h, _) = decode_image(&bytes).expect("fallback must still decode");
            assert_eq!((w, h), (8, 8));
        },
        other => panic!("expected file output, got {:?}", other.is_some()),
    }
}

#[test]
fn gif_and_bmp_exports_decode_back() {
    for (name, ext) in [("shot.gif", "gif"), ("shot.bmp", "bmp")] {
        let data = SaveImageData::new(
            SaveDestination::RealPath(String::from(name)),
            (Pos { x: 0, y: 0 }, Pos { x: 8, y: 8 }),
            (8, 8),
            Vec::new(),
        );
        let (signal, output) = process_save(data, Some(white_image(8, 8)));
        assert!(matches!(signal, SlaveSignal::SaveDone), "{} must save", ext);
        match output {
            Some(ExportOutput::FileOutput { path, bytes }) => {
                assert_eq!(path, name);
                let (w, h, pixels) = decode_image(&bytes).expect("re-encoded image must decode");
                assert_eq!((w, h), (8, 8));
                assert_eq!(decoded_pixel(&pixels, w, 0, 0).0, 255);
            },
            other => panic!("expected file output, got {:?}", other.is_some()),
        }
    }
}

#[test]
fn jpeg_export_produces_decodable_bytes() {
    let data = SaveImageData::new(
        SaveDestination::RealPath(String::from("shot.jpg")),
        (Pos { x: 0, y: 0 }, Pos { x: 16, y: 16 }),
        (16, 16),
        Vec::new(),
    );
    let (signal, output) = process_save(data, Some(white_image(16, 16)));
    assert!(matches!(signal, SlaveSignal::SaveDone));
    match output {
        Some(ExportOutput::FileOutput { path, bytes }) => {
            assert_eq!(path, "shot.jpg");
            let (w, h, pixels) = decode_image(&bytes).expect("the JPEG must decode");
            assert_eq!((w, h), (16, 16));
            // JPEG is lossy but white stays essentially white.
            let (r, g, b, _) = decoded_pixel(&pixels, w, 8, 8);
            assert!(r > 240 && g > 240 && b > 240);
        },
        other => panic!("expected file output, got {:?}", other.is_some()),
    }
}

#[test]
fn png_round_trip_preserves_pixels_and_reencodes() {
    // Distinct pixels through the whole pipeline: the encoded bytes are
    // a real PNG (not the raw buffer handed back), and decoding them
    // restores the pixels exactly.
    let mut img = white_image(2, 2);
    img.pixels = vec![
        255, 0, 0, 255, 0, 255, 0, 255, 0, 0, 255, 255, 9, 8, 7, 255,
    ];
    let raw = img.pixels.clone();
    let data = SaveImageData::new(
        SaveDestination::RealPath(String::from("two.png")),
        (Pos { x: 0, y: 0 }, Pos { x: 2, y: 2 }),
        (2, 2),
        Vec::new(),
    );
    let (_, output) = process_save(data, Some(img));
    let bytes = match output {
        Some(ExportOutput::FileOutput { bytes, .. }) => bytes,
        other => panic!("expected file output, got {:?}", other.is_some()),
    };
    assert_ne!(bytes, raw);
    assert_eq!(&bytes[..4], &[0x89u8, b'P', b'N', b'G']);
    let (w, h, pixels) = decode_image(&bytes).expect("PNG must decode");
    assert_eq!((w, h), (2, 2));
    assert_eq!(pixels, raw);
}

#[test]
fn worker_decisions_follow_signals() {
    match save_worker_decide(MasterSignal::StartCaptureAfter(250)) {
        SaveWorkerStep::Capture { delay_ms } => assert_eq!(delay_ms, 250),
        _ => panic!("a capture request must trigger a capture"),
    }
    assert!(matches!(save_worker_decide(MasterSignal::Shutdown), SaveWorkerStep::Stop));
    assert!(matches!(
        save_worker_decide(MasterSignal::SetHotkeys(Vec::new())),
        SaveWorkerStep::Ignore
    ));
    assert!(matches!(
        hotkey_worker_decide(MasterSignal::SetHotkeys(Vec::new())),
        HotkeyWorkerStep::Register(_)
    ));
    assert!(matches!(hotkey_worker_decide(MasterSignal::Shutdown), HotkeyWorkerStep::Stop));
    assert!(matches!(
        hotkey_worker_decide(MasterSignal::StartCaptureAfter(1)),
        HotkeyWorkerStep::Ignore
    ));
}
