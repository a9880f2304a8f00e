use base64::Engine;
use pixport::engine::{convert, ConversionError};
use pixport::format::Format;
use pixport::processor::QueueProcessor;
use pixport::raster::{decode, DecodeFailure};
use pixport::store::{DrainOutcome, ImageStore, IngestError, Stage};

fn sample_png_bytes(w: u32, h: u32) -> Vec<u8> {
    let img = image::RgbaImage::from_fn(w, h, |x, y| {
        image::Rgba([(x * 40) as u8, (y * 40) as u8, 128, 255])
    });
    let mut cursor = std::io::Cursor::new(Vec::new());
    image::DynamicImage::ImageRgba8(img)
        .write_to(&mut cursor, image::ImageFormat::Png)
        .unwrap();
    cursor.into_inner()
}

fn store_with_uploads(n: usize) -> ImageStore {
    let mut store = ImageStore::new();
    let mut scratch = Vec::new();
    let bytes = sample_png_bytes(3, 2);
    for i in 0..n {
        store
            .ingest_file(format!("img{}.png", i), &bytes, &mut scratch)
            .unwrap();
    }
    store
}

#[test]
fn decode_detects_png() {
    let bytes = sample_png_bytes(5, 4);
    let (raster, fmt) = decode(&bytes).unwrap();
    assert_eq!(fmt, Format::Png);
    assert_eq!(raster.width(), 5);
    assert_eq!(raster.height(), 4);
}

#[test]
fn decode_rejects_unrecognized_content() {
    let bytes: Vec<u8> = b"not an image at all".to_vec();
    assert!(matches!(decode(&bytes), Err(DecodeFailure::UnrecognizedFormat)));
    let empty: Vec<u8> = Vec::new();
    assert!(matches!(decode(&empty), Err(DecodeFailure::UnrecognizedFormat)));
}

#[test]
fn decode_rejects_corrupt_recognized_content() {
    // A valid PNG signature followed by garbage: recognized, but invalid.
    let mut bytes = sample_png_bytes(3, 2);
    bytes.truncate(16);
    assert!(matches!(decode(&bytes), Err(DecodeFailure::InvalidData)));
}

#[test]
fn convert_round_trips_dimensions() {
    // Decode, convert to several supported formats, re-decode: the
    // dimensions survive the round trip.
    let bytes = sample_png_bytes(7, 3);
    let (raster, _) = decode(&bytes).unwrap();
    // Targets whose encoders accept 8-bit RGBA and whose output the
    // content sniffer recognizes again.
    for target in [Format::Png, Format::Bmp, Format::Tiff, Format::Qoi, Format::Gif] {
        let encoded = convert(&raster, target).unwrap();
        let (back, fmt) = decode(&encoded).unwrap();
        assert_eq!(fmt, target);
        assert_eq!(back.width(), 7, "width lost converting to {:?}", target);
        assert_eq!(back.height(), 3, "height lost converting to {:?}", target);
    }
}

#[test]
fn convert_jpeg_drops_alpha_keeps_dimensions() {
    let bytes = sample_png_bytes(6, 5);
    let (raster, _) = decode(&bytes).unwrap();
    let encoded = convert(&raster, Format::Jpeg).unwrap();
    let (back, fmt) = decode(&encoded).unwrap();
    assert_eq!(fmt, Format::Jpeg);
    assert_eq!(back.width(), 6);
    assert_eq!(back.height(), 5);
}

#[test]
fn convert_webp_fails_explicitly() {
    let bytes = sample_png_bytes(3, 2);
    let (raster, _) = decode(&bytes).unwrap();
    assert_eq!(
        convert(&raster, Format::WebP),
        Err(ConversionError::Unsupported)
    );
}

#[test]
fn raster_exposes_dimensions_color_and_pixels() {
    let bytes = sample_png_bytes(4, 3);
    let (raster, _) = decode(&bytes).unwrap();
    assert_eq!(raster.width(), 4);
    assert_eq!(raster.height(), 3);
    assert_eq!(raster.color(), pixport::raster::ColorModel::Rgba8);
    // Four bytes per RGBA8 pixel.
    assert_eq!(raster.pixel_bytes().len(), 4 * 3 * 4);
}

#[test]
fn ingest_assigns_distinct_ids() {
    let store = store_with_uploads(5);
    let uploaded = store.uploaded();
    assert_eq!(uploaded.len(), 5);
    for i in 0..uploaded.len() {
        for j in 0..uploaded.len() {
            if i != j {
                assert_ne!(uploaded[i].id, uploaded[j].id);
            }
        }
    }
}

#[test]
fn ingest_skips_bad_file_without_aborting_batch() {
    let mut store = ImageStore::new();
    let mut scratch = Vec::new();
    let good = sample_png_bytes(3, 2);
    let bad: Vec<u8> = b"garbage".to_vec();
    assert!(store.ingest_file("a.png".to_string(), &good, &mut scratch).is_ok());
    assert_eq!(
        store.ingest_file("b.png".to_string(), &bad, &mut scratch),
        Err(IngestError::UnrecognizedFormat)
    );
    assert!(store.ingest_file("c.png".to_string(), &good, &mut scratch).is_ok());
    assert_eq!(store.uploaded().len(), 2);
}

#[test]
fn ingest_reports_corrupt_recognized_content() {
    let mut store = ImageStore::new();
    let mut scratch = Vec::new();
    let mut corrupt = sample_png_bytes(3, 2);
    corrupt.truncate(16);
    assert_eq!(
        store.ingest_file("broken.png".to_string(), &corrupt, &mut scratch),
        Err(IngestError::InvalidData)
    );
    assert!(store.uploaded().is_empty());
}

#[test]
fn encoder_refusal_surfaces_as_encoder_error() {
    // The farbfeld encoder takes only 16-bit RGBA; an 8-bit RGBA raster is
    // refused at encoder level, not dropped and not a crash.
    let bytes = sample_png_bytes(3, 2);
    let (raster, _) = decode(&bytes).unwrap();
    assert_eq!(
        convert(&raster, Format::Farbfeld),
        Err(ConversionError::Encoder)
    );
}

#[test]
fn drain_survives_an_encoder_failure() {
    let mut store = store_with_uploads(2);
    store.toggle_select_all(Stage::Uploaded, true);
    store.queue_selected(Format::Farbfeld);
    assert_eq!(store.drain_one_to_output(1), DrainOutcome::Failed);
    // The loop stays alive: the next entity is still drained.
    assert_eq!(store.drain_one_to_output(2), DrainOutcome::Failed);
    assert_eq!(store.failed().len(), 2);
    assert_eq!(store.failed()[0].error, ConversionError::Encoder);
}

#[test]
fn ingested_entity_starts_unselected_without_target() {
    let store = store_with_uploads(1);
    let e = &store.uploaded()[0];
    assert!(!e.selected);
    assert!(e.target_format.is_none());
    assert!(e.encoded_result.is_empty());
    assert!(e.completed_at.is_none());
    assert_eq!(e.source_format, Format::Png);
    assert_eq!(e.name, "img0.png");
}

#[test]
fn preview_is_png_data_uri() {
    let store = store_with_uploads(1);
    let preview = &store.uploaded()[0].preview;
    let prefix = "data:image/png;base64,";
    assert!(preview.starts_with(prefix));
    // The base64 payload must decode to a PNG no larger than 64 by 64.
    let payload = base64::engine::general_purpose::STANDARD
        .decode(&preview[prefix.len()..])
        .unwrap();
    let thumb = image::load_from_memory(&payload).unwrap();
    assert_eq!(image::guess_format(&payload).unwrap(), image::ImageFormat::Png);
    assert!(thumb.width() <= 64 && thumb.height() <= 64);
}

#[test]
fn queue_selected_moves_exactly_the_selected() {
    let mut store = store_with_uploads(3);
    store.set_selected(Stage::Uploaded, 0, true);
    store.set_selected(Stage::Uploaded, 2, true);
    let kept_id = store.uploaded()[1].id;
    let moved_ids = [store.uploaded()[0].id, store.uploaded()[2].id];
    store.queue_selected(Format::Bmp);

    assert_eq!(store.uploaded().len(), 1);
    assert_eq!(store.uploaded()[0].id, kept_id);
    assert!(store.uploaded()[0].target_format.is_none());

    assert_eq!(store.queued().len(), 2);
    for (k, q) in store.queued().iter().enumerate() {
        assert_eq!(q.id, moved_ids[k]);
        assert_eq!(q.target_format, Some(Format::Bmp));
        assert!(!q.selected, "selection is reset on transfer");
    }
}

#[test]
fn queue_selected_preserves_id_union() {
    let mut store = store_with_uploads(4);
    store.set_selected(Stage::Uploaded, 1, true);
    store.set_selected(Stage::Uploaded, 3, true);
    let mut before: Vec<u64> = store.uploaded().iter().map(|e| e.id).collect();
    before.sort();
    store.queue_selected(Format::Png);
    let mut after: Vec<u64> = store
        .uploaded()
        .iter()
        .map(|e| e.id)
        .chain(store.queued().iter().map(|e| e.id))
        .collect();
    after.sort();
    assert_eq!(before, after);
}

#[test]
fn drain_converts_oldest_queued_first() {
    let mut store = store_with_uploads(2);
    store.toggle_select_all(Stage::Uploaded, true);
    store.queue_selected(Format::Bmp);
    let first_id = store.queued()[0].id;
    let outcome = store.drain_one_to_output(11);
    assert_eq!(outcome, DrainOutcome::Converted);
    assert_eq!(store.queued().len(), 1);
    assert_eq!(store.output().len(), 1);
    let done = &store.output()[0];
    assert_eq!(done.id, first_id, "the queue drains oldest-first");
    assert_eq!(done.target_format, Some(Format::Bmp));
    assert_eq!(done.completed_at, Some(11));
    assert!(!done.encoded_result.is_empty());
    assert!(!done.selected);
    assert!(store.failed().is_empty());
}

#[test]
fn drain_failure_keeps_entity_visible() {
    let mut store = store_with_uploads(1);
    store.toggle_select_all(Stage::Uploaded, true);
    store.queue_selected(Format::WebP);
    let id = store.queued()[0].id;
    let outcome = store.drain_one_to_output(5);
    assert_eq!(outcome, DrainOutcome::Failed);
    assert!(store.queued().is_empty());
    assert!(store.output().is_empty());
    assert_eq!(store.failed().len(), 1);
    let record = &store.failed()[0];
    assert_eq!(record.entity.id, id);
    assert_eq!(record.error, ConversionError::Unsupported);
    assert!(record.entity.encoded_result.is_empty());
}

#[test]
fn drain_on_empty_queue_is_a_no_op() {
    let mut store = ImageStore::new();
    assert_eq!(store.drain_one_to_output(1), DrainOutcome::Empty);
    assert!(store.uploaded().is_empty());
    assert!(store.output().is_empty());
    assert!(store.failed().is_empty());
}

#[test]
fn processor_steps_only_while_running() {
    let mut store = store_with_uploads(1);
    store.toggle_select_all(Stage::Uploaded, true);
    store.queue_selected(Format::Png);

    let mut processor = QueueProcessor::new();
    assert!(!processor.running());
    assert_eq!(processor.step(&mut store, 1), DrainOutcome::Empty);
    assert_eq!(store.queued().len(), 1, "a stopped processor changes nothing");

    processor.start();
    assert!(processor.running());
    assert_eq!(processor.step(&mut store, 2), DrainOutcome::Converted);
    assert_eq!(store.queued().len(), 0);
    assert_eq!(store.output().len(), 1);
    assert_eq!(processor.step(&mut store, 3), DrainOutcome::Empty);

    processor.stop();
    assert!(!processor.running());
}

#[test]
fn select_all_then_unselect_all_clears_every_flag() {
    let mut store = store_with_uploads(3);
    // Mixed starting state.
    store.set_selected(Stage::Uploaded, 1, true);
    store.toggle_select_all(Stage::Uploaded, true);
    assert!(store.uploaded().iter().all(|e| e.selected));
    store.toggle_select_all(Stage::Uploaded, false);
    assert!(store.uploaded().iter().all(|e| !e.selected));
}

#[test]
fn toggle_touches_only_the_given_collection() {
    let mut store = store_with_uploads(2);
    store.set_selected(Stage::Uploaded, 0, true);
    store.queue_selected(Format::Png);
    store.toggle_select_all(Stage::Queued, true);
    assert!(store.queued().iter().all(|e| e.selected));
    assert!(store.uploaded().iter().all(|e| !e.selected));
}
