use pixport::archive::{build_archive, entry_name};
use pixport::format::{parse_label, Format};
use pixport::store::{ImageStore, Stage};

fn sample_png_bytes(w: u32, h: u32) -> Vec<u8> {
    let img = image::RgbImage::from_fn(w, h, |x, y| image::Rgb([(x * 9) as u8, (y * 9) as u8, 7]));
    let mut cursor = std::io::Cursor::new(Vec::new());
    image::DynamicImage::ImageRgb8(img)
        .write_to(&mut cursor, image::ImageFormat::Png)
        .unwrap();
    cursor.into_inner()
}

#[test]
fn entry_name_strips_matching_source_extension() {
    assert_eq!(
        entry_name("vacation.jpg", Format::Jpeg, Format::Png),
        "vacation.png"
    );
}

#[test]
fn entry_name_keeps_name_without_extension() {
    assert_eq!(entry_name("photo", Format::Jpeg, Format::Png), "photo.png");
}

#[test]
fn entry_name_keeps_foreign_extension() {
    // ".jpeg" is not the canonical "jpg" extension, so nothing is stripped.
    assert_eq!(
        entry_name("shot.jpeg", Format::Jpeg, Format::Png),
        "shot.jpeg.png"
    );
}

#[test]
fn entry_name_truncates_to_64_characters() {
    let long: String = std::iter::repeat('a').take(100).collect();
    let expected: String = std::iter::repeat('a').take(64).collect::<String>() + ".png";
    assert_eq!(entry_name(&long, Format::Jpeg, Format::Png), expected);
}

#[test]
fn entry_name_truncation_counts_characters_not_bytes() {
    // 100 two-byte characters; truncation keeps 64 characters, never
    // cutting through a character.
    let long: String = std::iter::repeat('\u{e9}').take(100).collect::<String>() + ".jpg";
    let expected: String = std::iter::repeat('\u{e9}').take(64).collect::<String>() + ".png";
    assert_eq!(entry_name(&long, Format::Jpeg, Format::Png), expected);
}

#[test]
fn build_archive_of_empty_selection_is_a_no_op() {
    let empty = Vec::new();
    assert_eq!(build_archive(&empty), Ok(None));
    let store = ImageStore::new();
    assert_eq!(store.build_selected_archive(), Ok(None));
}

#[test]
fn unselected_outputs_produce_no_archive() {
    let mut store = ImageStore::new();
    let mut scratch = Vec::new();
    let bytes = sample_png_bytes(4, 4);
    store
        .ingest_file("pic.png".to_string(), &bytes, &mut scratch)
        .unwrap();
    store.toggle_select_all(Stage::Uploaded, true);
    store.queue_selected(Format::Bmp);
    store.drain_one_to_output(1);
    // Output exists but nothing is selected.
    assert_eq!(store.build_selected_archive(), Ok(None));
}

#[test]
fn archive_holds_selected_entries_with_mode_and_content() {
    let mut store = ImageStore::new();
    let mut scratch = Vec::new();
    let bytes = sample_png_bytes(4, 4);
    store
        .ingest_file("first.png".to_string(), &bytes, &mut scratch)
        .unwrap();
    store
        .ingest_file("second.png".to_string(), &bytes, &mut scratch)
        .unwrap();
    store.toggle_select_all(Stage::Uploaded, true);
    store.queue_selected(Format::Bmp);
    store.drain_one_to_output(1);
    store.drain_one_to_output(2);
    assert_eq!(store.output().len(), 2);
    // Select only the first output entity.
    let first_bmp = store.output()[0].encoded_result.clone();
    store.set_selected(Stage::Output, 0, true);

    let archive_bytes = store.build_selected_archive().unwrap().unwrap();

    let mut archive = tar::Archive::new(std::io::Cursor::new(archive_bytes));
    let mut entries: Vec<(String, u32, Vec<u8>)> = Vec::new();
    for entry in archive.entries().unwrap() {
        let mut entry = entry.unwrap();
        let path = entry.path().unwrap().to_str().unwrap().to_string();
        let mode = entry.header().mode().unwrap();
        let mut data = Vec::new();
        std::io::Read::read_to_end(&mut entry, &mut data).unwrap();
        entries.push((path, mode, data));
    }
    assert_eq!(entries.len(), 1);
    assert_eq!(entries[0].0, "first.bmp");
    assert_eq!(entries[0].1, 0o644);
    assert_eq!(entries[0].2, first_bmp);
    assert!(image::load_from_memory(&entries[0].2).is_ok());
}

#[test]
fn overlong_entry_name_fails_the_whole_archive() {
    // 64 two-byte characters exceed the 100 bytes a tar header name holds,
    // so the archive fails whole rather than shipping a corrupted entry.
    let mut store = ImageStore::new();
    let mut scratch = Vec::new();
    let bytes = sample_png_bytes(4, 4);
    let long_name: String = std::iter::repeat('\u{e9}').take(80).collect::<String>() + ".png";
    store.ingest_file(long_name, &bytes, &mut scratch).unwrap();
    store.toggle_select_all(Stage::Uploaded, true);
    store.queue_selected(Format::Bmp);
    store.drain_one_to_output(1);
    store.toggle_select_all(Stage::Output, true);
    assert_eq!(
        store.build_selected_archive(),
        Err(pixport::archive::ArchiveError::Entry)
    );
}

#[test]
fn parse_label_maps_the_selectable_formats() {
    assert_eq!(parse_label("PNG"), Some(Format::Png));
    assert_eq!(parse_label("BMP"), Some(Format::Bmp));
    assert_eq!(parse_label("GIF"), Some(Format::Gif));
    assert_eq!(parse_label("HDR"), Some(Format::Hdr));
    assert_eq!(parse_label("ICO"), Some(Format::Ico));
    assert_eq!(parse_label("JPEG"), Some(Format::Jpeg));
    assert_eq!(parse_label("EXR"), Some(Format::OpenExr));
    assert_eq!(parse_label("PNM"), Some(Format::Pnm));
    assert_eq!(parse_label("TGA"), Some(Format::Tga));
    assert_eq!(parse_label("TIFF"), Some(Format::Tiff));
    assert_eq!(parse_label("WEBP"), Some(Format::WebP));
    assert_eq!(parse_label("png"), None);
    assert_eq!(parse_label(""), None);
}

#[test]
fn canonical_extensions_match_the_imaging_library() {
    for (fmt, imf) in [
        (Format::Png, image::ImageFormat::Png),
        (Format::Jpeg, image::ImageFormat::Jpeg),
        (Format::Gif, image::ImageFormat::Gif),
        (Format::Pnm, image::ImageFormat::Pnm),
        (Format::Tiff, image::ImageFormat::Tiff),
        (Format::Tga, image::ImageFormat::Tga),
        (Format::Bmp, image::ImageFormat::Bmp),
        (Format::Ico, image::ImageFormat::Ico),
        (Format::Hdr, image::ImageFormat::Hdr),
        (Format::OpenExr, image::ImageFormat::OpenExr),
        (Format::Farbfeld, image::ImageFormat::Farbfeld),
        (Format::Avif, image::ImageFormat::Avif),
        (Format::Qoi, image::ImageFormat::Qoi),
        (Format::WebP, image::ImageFormat::WebP),
    ] {
        assert_eq!(fmt.ext_str(), imf.extensions_str()[0]);
    }
}
