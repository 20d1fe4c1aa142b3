use bevy::image::Image;
use bevy_pmx::import::texture_plans;
use bevy_pmx::loader::{texture_or_placeholder, PLACEHOLDER_TEXTURE_PIXEL};
use bevy_pmx::texture::decode_texture;
use bevy_pmx::resolver::PmxProbe;
use bevy_pmx::source::archive::{read_zip_listing, PmxZipListing};
use bevy_pmx::source::names::ZipNameEncoding;
use bevy_pmx::source::{PmxSource, PmxSourceLocation};
use bevy_pmx::{
    import_pmx, Pmx, PmxDocument, PmxError, PmxImportContext, PmxIoErrorKind, PmxResolvedPath,
};
use std::io::{Cursor, Write};
use zip::{write::SimpleFileOptions, ZipWriter};

fn tiny_png_bytes() -> &'static [u8] {
    &[
        0x89, 0x50, 0x4E, 0x47, 0x0D, 0x0A, 0x1A, 0x0A, 0x00, 0x00, 0x00, 0x0D, 0x49, 0x48, 0x44,
        0x52, 0x00, 0x00, 0x00, 0x01, 0x00, 0x00, 0x00, 0x01, 0x08, 0x06, 0x00, 0x00, 0x00, 0x1F,
        0x15, 0xC4, 0x89, 0x00, 0x00, 0x00, 0x0B, 0x49, 0x44, 0x41, 0x54, 0x78, 0x9C, 0x63, 0xF8,
        0x0F, 0x04, 0x00, 0x09, 0xFB, 0x03, 0xFD, 0xFB, 0x5E, 0x6B, 0x2B, 0x00, 0x00, 0x00, 0x00,
        0x49, 0x45, 0x4E, 0x44, 0xAE, 0x42, 0x60, 0x82,
    ]
}

fn push_i32(bytes: &mut Vec<u8>, value: i32) {
    bytes.extend_from_slice(&value.to_le_bytes());
}

fn push_f32(bytes: &mut Vec<u8>, value: f32) {
    bytes.extend_from_slice(&value.to_le_bytes());
}

fn push_text(bytes: &mut Vec<u8>, value: &str) {
    push_i32(bytes, value.len() as i32);
    bytes.extend_from_slice(value.as_bytes());
}

fn push_vertex(bytes: &mut Vec<u8>, position: [f32; 3], uv: [f32; 2]) {
    for v in position {
        push_f32(bytes, v);
    }
    for v in [0.0, 0.0, 1.0] {
        push_f32(bytes, v);
    }
    for v in uv {
        push_f32(bytes, v);
    }
    bytes.push(0);
    push_i32(bytes, -1);
    push_f32(bytes, 1.0);
}

fn push_material(bytes: &mut Vec<u8>, texture_index: i32) {
    push_text(bytes, "material");
    push_text(bytes, "material");
    for v in [1.0, 1.0, 1.0, 1.0, 0.0, 0.0, 0.0, 1.0, 0.0, 0.0, 0.0] {
        push_f32(bytes, v);
    }
    bytes.push(0);
    for v in [0.0, 0.0, 0.0, 0.0, 1.0] {
        push_f32(bytes, v);
    }
    push_i32(bytes, texture_index);
    push_i32(bytes, -1);
    bytes.push(0);
    bytes.push(0);
    push_i32(bytes, -1);
    push_text(bytes, "");
    push_i32(bytes, 3);
}

fn build_minimal_pmx_bytes(texture_paths: &[&str]) -> Vec<u8> {
    let mut bytes = Vec::new();
    bytes.extend_from_slice(b"PMX ");
    push_f32(&mut bytes, 2.0);
    bytes.push(8);
    bytes.push(1);
    bytes.push(0);
    bytes.extend_from_slice(&[4, 4, 4, 4, 4, 4]);
    push_text(&mut bytes, "zip support sample");
    push_text(&mut bytes, "zip support sample");
    push_text(&mut bytes, "");
    push_text(&mut bytes, "");

    push_i32(&mut bytes, 3);
    push_vertex(&mut bytes, [0.0, 0.0, 0.0], [0.0, 0.0]);
    push_vertex(&mut bytes, [1.0, 0.0, 0.0], [1.0, 0.0]);
    push_vertex(&mut bytes, [0.0, 1.0, 0.0], [0.0, 1.0]);

    push_i32(&mut bytes, 3);
    for i in 0..3 {
        bytes.extend_from_slice(&(i as u32).to_le_bytes());
    }

    push_i32(&mut bytes, texture_paths.len() as i32);
    for path in texture_paths {
        push_text(&mut bytes, path);
    }

    push_i32(&mut bytes, 1);
    push_material(&mut bytes, if texture_paths.is_empty() { -1 } else { 0 });

    for _ in 0..5 {
        push_i32(&mut bytes, 0);
    }
    bytes
}

fn zip_bytes(entries: &[(&str, &[u8])]) -> Vec<u8> {
    let mut writer = ZipWriter::new(Cursor::new(Vec::new()));
    for (name, bytes) in entries {
        writer.start_file(*name, SimpleFileOptions::default()).expect("should add zip entry");
        writer.write_all(bytes).expect("should write zip entry");
    }
    writer.finish().expect("should finish zip archive").into_inner()
}

/// Answers probes from the archive listing; nothing exists on disk here.
fn answer(probe: &PmxProbe, entries: &PmxZipListing) -> Option<PmxSourceLocation> {
    match probe {
        PmxProbe::Holds { source, location } => {
            if source.contains_location(location, false, entries) {
                Some(location.clone())
            } else {
                None
            }
        }
        PmxProbe::CaseInsensitive { source, path } => match source {
            PmxSource::Zip(zip) => zip.resolve_case_insensitive(path, entries),
            _ => None,
        },
    }
}

fn read(source: &PmxSource, location: &PmxSourceLocation, archive: &[u8]) -> Result<Vec<u8>, PmxError> {
    match (source, location) {
        (PmxSource::Zip(zip), PmxSourceLocation::Zip { entry, .. }) => zip.read_bytes(entry, archive),
        _ => Err(PmxError::Io(PmxIoErrorKind::InvalidInput)),
    }
}

fn import_model(source: &PmxSource, archive: &[u8], model_entry: &str) -> Pmx {
    let model_location = source.resolve(model_entry);
    let document = PmxDocument::from_bytes(
        &read(source, &model_location, archive).expect("should read the PMX document from the source"),
    )
    .expect("should parse the PMX document");
    let entries = read_zip_listing(archive).expect("archive should list");
    let context = PmxImportContext { source: Some(source.clone()), ..PmxImportContext::default() };
    let answers: Vec<Vec<Option<PmxSourceLocation>>> = texture_plans(&document, &context)
        .iter()
        .map(|plan| {
            let mut answers = Vec::new();
            for probe in &plan.probes {
                let found = answer(probe, &entries);
                let done = found.is_some();
                answers.push(found);
                if done {
                    break;
                }
            }
            answers
        })
        .collect();
    import_pmx(document, &context, &answers).model
}

fn placeholder_texture_image() -> Image {
    let mut image = Image::default();
    image.data = Some(PLACEHOLDER_TEXTURE_PIXEL.to_vec());
    image
}

fn decode_texture_or_placeholder(location: &PmxSourceLocation, bytes: &[u8]) -> Image {
    texture_or_placeholder(decode_texture(location, bytes), placeholder_texture_image())
}

fn load_texture_or_placeholder(source: &PmxSource, texture: &PmxResolvedPath, archive: &[u8]) -> Image {
    match read(source, texture.location(), archive) {
        Ok(bytes) => decode_texture_or_placeholder(texture.location(), &bytes),
        Err(_) => placeholder_texture_image(),
    }
}

fn is_placeholder_texture(image: &Image) -> bool {
    let size = image.texture_descriptor.size;
    size.width == 1
        && size.height == 1
        && size.depth_or_array_layers == 1
        && image.texture_descriptor.format == Image::default().texture_descriptor.format
        && image.data.as_deref() == Some(&[255, 0, 255, 255][..])
}

#[test]
fn zip_archive_pmx_and_textures_round_trip_through_the_source_abstraction() {
    let texture_bytes = tiny_png_bytes();
    let pmx_bytes = build_minimal_pmx_bytes(&["texture/valid.png"]);
    let archive = zip_bytes(&[
        ("Model/model.pmx", pmx_bytes.as_slice()),
        ("Model/Texture/Valid.PNG", texture_bytes),
    ]);
    let source = PmxSource::zip_with_encoding("fixture.zip", "Model", ZipNameEncoding::Auto);
    let model = import_model(&source, &archive, "model.pmx");

    assert_eq!(model.texture_paths.len(), 1);
    let texture = &model.texture_paths[0];
    assert_eq!(texture.resolved_path(), "Model/Texture/Valid.PNG");
    assert_eq!(texture.location(), &PmxSourceLocation::zip("fixture.zip", "Model/Texture/Valid.PNG"));
    let entries = read_zip_listing(&archive).expect("archive should list");
    assert!(source.contains_location(texture.location(), false, &entries));

    let bytes = read(&source, texture.location(), &archive)
        .expect("should read texture bytes from the zip archive");
    assert_eq!(bytes, texture_bytes);
    let image = decode_texture_or_placeholder(texture.location(), &bytes);

    assert_eq!(image.texture_descriptor.size.width, 1);
    assert_eq!(image.texture_descriptor.size.height, 1);
    assert!(!is_placeholder_texture(&image));
}

#[test]
fn missing_or_bad_zip_resources_fall_back_to_placeholder_images() {
    let pmx_bytes = build_minimal_pmx_bytes(&["texture/valid.png", "texture/bad.png", "texture/missing.png"]);
    let texture_bytes = tiny_png_bytes();
    let archive = zip_bytes(&[
        ("Model/model.pmx", pmx_bytes.as_slice()),
        ("Model/Texture/Valid.PNG", texture_bytes),
        ("Model/Texture/Bad.PNG", b"not an image"),
    ]);
    let source = PmxSource::zip_with_encoding("fixture.zip", "Model", ZipNameEncoding::Auto);
    let model = import_model(&source, &archive, "model.pmx");

    assert_eq!(model.texture_paths.len(), 3);
    let reads: Vec<Result<Vec<u8>, PmxError>> = model
        .texture_paths
        .iter()
        .map(|texture| read(&source, texture.location(), &archive))
        .collect();

    assert_eq!(reads[0].as_deref(), Ok(texture_bytes));
    assert_eq!(reads[1].as_deref(), Ok(&b"not an image"[..]));
    assert_eq!(
        model.texture_paths[2].location(),
        &PmxSourceLocation::zip("fixture.zip", "Model/texture/missing.png")
    );
    assert_eq!(reads[2], Err(PmxError::Io(PmxIoErrorKind::NotFound)));

    let images: Vec<Image> = model
        .texture_paths
        .iter()
        .map(|texture| load_texture_or_placeholder(&source, texture, &archive))
        .collect();
    assert!(!is_placeholder_texture(&images[0]));
    assert!(is_placeholder_texture(&images[1]));
    assert!(is_placeholder_texture(&images[2]));
    assert_eq!(
        decode_texture(model.texture_paths[1].location(), b"not an image").err(),
        Some(PmxError::Io(PmxIoErrorKind::InvalidData))
    );
    assert_eq!(
        decode_texture(&PmxSourceLocation::zip("fixture.zip", "Model/noext"), texture_bytes).err(),
        Some(PmxError::Io(PmxIoErrorKind::InvalidInput))
    );
}
