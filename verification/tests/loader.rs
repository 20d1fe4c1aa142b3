use bevy_pmx::loader::{texture_or_placeholder, PLACEHOLDER_TEXTURE_PIXEL};
use bevy_pmx::loader::{archive_path_for, source_for, source_root_for};
use bevy_pmx::{Pmx, PmxAssetLabel, PmxPrimitive, PmxResolvedPath, PmxSourceLocation};
use bevy_pmx::loader::{is_zip_asset, load_zip_document, split_zip_asset_path};
use bevy_pmx::source::names::ZipNameEncoding;
use bevy_pmx::source::PmxSource;
use bevy_pmx::{PmxError, PmxLoader, PmxLoaderSettings, PmxPlugin};
use std::io::{Cursor, Write};
use zip::{write::SimpleFileOptions, ZipWriter};

fn zip_bytes(entries: &[(&str, &[u8])]) -> Vec<u8> {
    let mut writer = ZipWriter::new(Cursor::new(Vec::new()));
    for (name, bytes) in entries {
        writer.start_file(*name, SimpleFileOptions::default()).expect("should add zip entry");
        writer.write_all(bytes).expect("should write zip entry");
    }
    writer.finish().expect("should finish zip archive").into_inner()
}

fn minimal_pmx() -> Vec<u8> {
    let mut bytes = Vec::new();
    bytes.extend_from_slice(b"PMX ");
    bytes.extend_from_slice(&2.0f32.to_le_bytes());
    bytes.push(8);
    bytes.push(1);
    bytes.push(0);
    bytes.extend_from_slice(&[4, 4, 4, 4, 4, 4]);
    for _ in 0..13 {
        bytes.extend_from_slice(&0i32.to_le_bytes());
    }
    bytes
}

#[test]
fn loader_settings_default_to_loading_everything() {
    let settings = PmxLoaderSettings::default();
    assert!(settings.load_textures && settings.load_materials && settings.load_meshes);
    assert!(settings.load_bones && settings.load_morphs && settings.load_physics);
    assert!(settings.keep_raw_document);
    assert_eq!(settings.zip_name_encoding, ZipNameEncoding::Auto);
    assert!(settings.resolver.prefer_model_directory && settings.resolver.allow_case_fallbacks);
    assert_eq!(PmxLoader::default().settings, settings);
    assert_eq!(PmxLoader::from(settings).settings, settings);
    assert_eq!(PmxPlugin::new().settings, settings);
    assert_eq!(PmxPlugin::default().settings, settings);
    let custom = PmxLoaderSettings { load_physics: false, ..settings };
    assert_eq!(PmxPlugin::with_settings(custom).settings, custom);
    assert_eq!(PmxLoader::new(custom).settings, custom);
}

#[test]
fn zip_assets_are_recognized_by_extension() {
    assert!(is_zip_asset("models/pack.ZIP"));
    assert!(is_zip_asset("pack.zip"));
    assert!(!is_zip_asset("model.pmx"));
    assert!(!is_zip_asset(".zip"));
}

#[test]
fn zip_asset_paths_split_into_archive_and_model_directory() {
    assert_eq!(
        split_zip_asset_path("chars/pack.zip/Model/model.pmx"),
        Some(("chars/pack.zip".to_owned(), "Model".to_owned()))
    );
    assert_eq!(
        split_zip_asset_path("/abs/Pack.Zip/model.pmx"),
        Some(("/abs/Pack.Zip".to_owned(), String::new()))
    );
    assert_eq!(split_zip_asset_path("chars/pack.zip"), None);
    assert_eq!(split_zip_asset_path("chars/model.pmx"), None);
}

#[test]
fn zip_documents_load_from_their_first_pmx_entry() {
    let archive = zip_bytes(&[("notes.txt", b"x"), ("Pack/model.pmx", &minimal_pmx())]);

    let (document, source) =
        load_zip_document("assets/pack.zip", &archive, ZipNameEncoding::Auto).expect("should load");

    assert!(document.vertices.is_empty());
    assert_eq!(source, PmxSource::zip("assets/pack.zip", "Pack"));
}

#[test]
fn zip_documents_report_missing_and_broken_models() {
    let without_model = zip_bytes(&[("notes.txt", b"x")]);
    assert_eq!(
        load_zip_document("a.zip", &without_model, ZipNameEncoding::Auto).err(),
        Some(PmxError::InvalidFormat("zip archive does not contain a PMX file"))
    );

    let broken = zip_bytes(&[("model.pmx", b"PMY ")]);
    assert_eq!(
        load_zip_document("a.zip", &broken, ZipNameEncoding::Auto).err(),
        Some(PmxError::InvalidMagic(*b"PMY "))
    );
}

#[test]
fn loaders_make_the_sub_assets_their_settings_ask_for() {

    let mut model = Pmx::default();
    model.texture_paths.push(PmxResolvedPath::new(
        "a.png",
        PmxSourceLocation::disk("a.png"),
    ));
    model.primitives.push(PmxPrimitive::default());

    let everything = PmxLoader::default().sub_assets(&model);
    assert_eq!(everything, vec![PmxAssetLabel::Texture(0), PmxAssetLabel::Mesh]);

    let nothing = PmxLoader::new(PmxLoaderSettings {
        load_textures: false,
        load_meshes: false,
        ..PmxLoaderSettings::default()
    })
    .sub_assets(&model);
    assert!(nothing.is_empty());
}

#[test]
fn loaded_assets_read_textures_next_to_themselves() {

    assert_eq!(source_root_for("models/miku/miku.pmx", false), "assets/models/miku");
    assert_eq!(source_root_for("models/miku/miku.pmx", true), "models/miku");
    assert_eq!(source_root_for("miku.pmx", false), "assets/");
    assert_eq!(source_for("models/miku.pmx", None), PmxSource::folder("assets/models"));
    assert_eq!(
        source_for("packs/miku.zip/Model/miku.pmx", Some("zip")),
        PmxSource::zip("packs/miku.zip", "Model")
    );
    assert_eq!(
        source_for("packs/miku.zip/Model/miku.pmx", Some("remote")),
        PmxSource::folder("packs/miku.zip/Model")
    );
    assert_eq!(archive_path_for("packs/miku.zip", false), "assets/packs/miku.zip");
}

#[test]
fn failed_textures_become_the_magenta_placeholder() {
    let placeholder = PLACEHOLDER_TEXTURE_PIXEL.to_vec();
    assert_eq!(placeholder, vec![255, 0, 255, 255]);
    let loaded: Result<Vec<u8>, String> = Ok(vec![1, 2, 3, 4]);
    assert_eq!(texture_or_placeholder(loaded, placeholder.clone()), vec![1, 2, 3, 4]);
    let failed: Result<Vec<u8>, String> = Err("cannot decode".to_owned());
    assert_eq!(texture_or_placeholder(failed, placeholder.clone()), placeholder);
}
