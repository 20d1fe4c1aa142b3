use bevy_pmx::source::PmxCaseLookup;
use bevy_pmx::source::archive::{
    find_first_pmx_zip_entry_root, find_listed_entry, find_zip_entry, read_zip_entry_bytes,
    read_zip_listing, PmxZipEntry, PmxZipListing,
};
use bevy_pmx::source::names::{
    decode_zip_entry_candidates, decode_zip_name, is_pmx_entry_name, is_zip_noise_entry,
    join_zip_entry_lossy, join_zip_entry_strict, normalize_zip_entry_lossy,
    normalize_zip_entry_name, ZipNameEncoding,
};
use bevy_pmx::source::{PmxFolderSource, PmxSource, PmxSourceLocation, PmxZipSource};
use bevy_pmx::{PmxError, PmxIoErrorKind};
use encoding_rs::{GBK, SHIFT_JIS};
use std::io::{Cursor, Write};
use zip::{write::SimpleFileOptions, ZipWriter};

fn write_u16(buf: &mut Vec<u8>, value: u16) {
    buf.extend_from_slice(&value.to_le_bytes());
}

fn write_u32(buf: &mut Vec<u8>, value: u32) {
    buf.extend_from_slice(&value.to_le_bytes());
}

/// An archive of empty stored entries whose names are the given raw bytes.
fn raw_name_zip(entries: Vec<&[u8]>) -> Vec<u8> {
    let mut file_bytes = Vec::new();
    let mut central_directory = Vec::new();
    let mut local_header_offset = 0u32;
    let entry_count = u16::try_from(entries.len()).expect("entry count should fit in ZIP header");

    for name in entries {
        let name_length = u16::try_from(name.len()).expect("name should fit in ZIP header");

        write_u32(&mut file_bytes, 0x0403_4b50);
        write_u16(&mut file_bytes, 20);
        for _ in 0..5 {
            write_u16(&mut file_bytes, 0);
        }
        for _ in 0..3 {
            write_u32(&mut file_bytes, 0);
        }
        write_u16(&mut file_bytes, name_length);
        write_u16(&mut file_bytes, 0);
        file_bytes.extend_from_slice(name);

        write_u32(&mut central_directory, 0x0201_4b50);
        write_u16(&mut central_directory, 20);
        write_u16(&mut central_directory, 20);
        for _ in 0..4 {
            write_u16(&mut central_directory, 0);
        }
        for _ in 0..3 {
            write_u32(&mut central_directory, 0);
        }
        write_u16(&mut central_directory, name_length);
        for _ in 0..4 {
            write_u16(&mut central_directory, 0);
        }
        write_u32(&mut central_directory, 0);
        write_u32(&mut central_directory, local_header_offset);
        central_directory.extend_from_slice(name);

        local_header_offset += 30 + u32::from(name_length);
    }

    let central_directory_offset = u32::try_from(file_bytes.len()).expect("offset should fit");
    let central_directory_size = u32::try_from(central_directory.len()).expect("size should fit");
    file_bytes.extend_from_slice(&central_directory);

    write_u32(&mut file_bytes, 0x0605_4b50);
    write_u16(&mut file_bytes, 0);
    write_u16(&mut file_bytes, 0);
    write_u16(&mut file_bytes, entry_count);
    write_u16(&mut file_bytes, entry_count);
    write_u32(&mut file_bytes, central_directory_size);
    write_u32(&mut file_bytes, central_directory_offset);
    write_u16(&mut file_bytes, 0);
    file_bytes
}

/// An archive written by the zip crate, with the given entries and contents.
fn zip_bytes(entries: &[(&str, &[u8])]) -> Vec<u8> {
    let mut writer = ZipWriter::new(Cursor::new(Vec::new()));
    for (name, bytes) in entries {
        writer.start_file(*name, SimpleFileOptions::default()).expect("should add zip entry");
        writer.write_all(bytes).expect("should write zip entry");
    }
    writer.finish().expect("should finish zip archive").into_inner()
}

fn no_listing() -> PmxZipListing {
    PmxZipListing { entries: Vec::new(), complete: true }
}

/// The archive with the local header of the entry at `index` overwritten, so that the reader
/// cannot locate that entry's data.
fn with_broken_entry(entries: Vec<&[u8]>, index: usize) -> Vec<u8> {
    let offset: usize = entries[..index].iter().map(|name| 30 + name.len()).sum();
    let mut archive = raw_name_zip(entries);
    archive[offset..offset + 4].copy_from_slice(b"XXXX");
    archive
}

fn zip_source(root: &str, encoding: ZipNameEncoding) -> PmxZipSource {
    match PmxSource::zip_with_encoding("fixture.zip", root, encoding) {
        PmxSource::Zip(source) => source,
        other => panic!("expected a zip source, got {other:?}"),
    }
}

#[test]
fn zip_name_normalization_unifies_separators_and_ignores_mac_noise() {
    assert_eq!(
        normalize_zip_entry_name(r"Texture\Face.PNG").as_deref(),
        Some("Texture/Face.PNG")
    );
    assert_eq!(normalize_zip_entry_name("__MACOSX/._Face.PNG"), None);
}

#[test]
fn normalization_resolves_dots_and_rejects_climbing_out() {
    assert_eq!(normalize_zip_entry_name("a/./b//c/../d").as_deref(), Some("a/b/d"));
    assert_eq!(normalize_zip_entry_name("/lead/slash").as_deref(), Some("lead/slash"));
    assert_eq!(normalize_zip_entry_name("../outside"), None);
    assert_eq!(normalize_zip_entry_name("Model/._thumb.png"), None);
    assert_eq!(normalize_zip_entry_name("").as_deref(), Some(""));
}

#[test]
fn normalizing_a_normalized_name_changes_nothing() {
    for name in [r"A\.\B//c.png", "x/../y/z", "./q", "Model/Texture/Face.PNG"] {
        let once = normalize_zip_entry_name(name).expect("should normalize");
        assert_eq!(normalize_zip_entry_name(&once).as_deref(), Some(once.as_str()));
    }
}

#[test]
fn lossy_normalization_falls_back_to_forward_slashes() {
    assert_eq!(normalize_zip_entry_lossy(r"a\b"), "a/b");
    assert_eq!(normalize_zip_entry_lossy(r"..\x"), "../x");
    assert_eq!(join_zip_entry_lossy("Model", r"tex\a.png"), "Model/tex/a.png");
    assert_eq!(join_zip_entry_lossy("", "a.png"), "a.png");
    assert_eq!(join_zip_entry_lossy("Model", "."), "Model");
    assert_eq!(join_zip_entry_strict("Model", "../../x"), None);
    assert_eq!(join_zip_entry_strict("Model", "a/b.png").as_deref(), Some("Model/a/b.png"));
}

#[test]
fn noise_entries_and_pmx_names_are_recognized() {
    assert!(is_zip_noise_entry(b"__MACOSX/Model/model.pmx"));
    assert!(is_zip_noise_entry(br"Model\._model.pmx"));
    assert!(!is_zip_noise_entry(b"Model/model.pmx"));
    assert!(!is_zip_noise_entry(&[0xFF, b'/', b'_', b'_']));
    let pmx: Vec<char> = "Model/MODEL.PmX".chars().collect();
    let png: Vec<char> = "Model/model.png".chars().collect();
    let hidden: Vec<char> = ".pmx".chars().collect();
    assert!(is_pmx_entry_name(&pmx));
    assert!(!is_pmx_entry_name(&png));
    assert!(!is_pmx_entry_name(&hidden));
}

#[test]
fn zip_name_encoding_auto_decodes_shift_jis_names() {
    let (raw, _, _) = SHIFT_JIS.encode("Texture/\u{65E9}.png");

    assert_eq!(
        ZipNameEncoding::Auto.decode_name(raw.as_ref()).as_deref(),
        Some("Texture/\u{65E9}.png")
    );
}

#[test]
fn explicit_zip_name_encoding_does_not_guess_other_encodings() {
    let (raw, _, _) = SHIFT_JIS.encode("Texture/\u{65E9}.png");

    assert!(ZipNameEncoding::Utf8.decode_name(raw.as_ref()).is_none());
}

#[test]
fn explicit_encodings_decode_their_own_charset() {
    let (sjis, _, _) = SHIFT_JIS.encode("\u{3042}.png");
    let (gbk, _, _) = GBK.encode("\u{6C49}.png");
    assert_eq!(ZipNameEncoding::ShiftJis.decode_name(&sjis).as_deref(), Some("\u{3042}.png"));
    assert_eq!(ZipNameEncoding::Cp932.decode_name(&sjis).as_deref(), Some("\u{3042}.png"));
    assert_eq!(ZipNameEncoding::Gbk.decode_name(&gbk).as_deref(), Some("\u{6C49}.png"));
    assert_eq!(ZipNameEncoding::Utf8.decode_name("a.png".as_bytes()).as_deref(), Some("a.png"));
    assert_eq!(ZipNameEncoding::default(), ZipNameEncoding::Auto);
    assert_eq!(decode_zip_name(&[0x82], ZipNameEncoding::ShiftJis), None);
    assert_eq!(decode_zip_name(&sjis, ZipNameEncoding::ShiftJis).as_deref(), Some("\u{3042}.png"));
}

#[test]
fn candidates_are_tried_once_each_in_order() {
    let (sjis, _, _) = SHIFT_JIS.encode("\u{3042}.png");
    let auto = decode_zip_entry_candidates(false, &sjis, &None, ZipNameEncoding::Auto);
    assert_eq!(auto[0], "\u{3042}.png");
    assert_eq!(auto.iter().filter(|c| c.as_str() == "\u{3042}.png").count(), 1);
    let ascii = decode_zip_entry_candidates(false, b"a.png", &Some("a.png".to_owned()), ZipNameEncoding::Auto);
    assert_eq!(ascii, vec!["a.png".to_owned()]);
    let gbk_only = decode_zip_entry_candidates(false, &sjis, &None, ZipNameEncoding::Gbk);
    assert!(gbk_only.len() <= 1);
    assert!(gbk_only.iter().all(|c| c != "\u{3042}.png"));
}

#[test]
fn auto_zip_source_resolves_shift_jis_entry_names() {
    let (name, _, _) = SHIFT_JIS.encode("Texture/\u{3042}.png");
    let archive = raw_name_zip(vec![name.as_ref()]);
    let entries = read_zip_listing(&archive).expect("archive should list");
    let source = zip_source("", ZipNameEncoding::Auto);

    let resolved = source
        .resolve_case_insensitive("Texture/\u{3042}.png", &entries)
        .expect("auto should resolve a shift-jis entry");

    assert_eq!(
        resolved,
        PmxSourceLocation::Zip {
            archive: "fixture.zip".to_owned(),
            entry: "Texture/\u{3042}.png".to_owned(),
        }
    );
}

#[test]
fn explicit_zip_encoding_does_not_guess_other_encodings() {
    let (name, _, _) = SHIFT_JIS.encode("Texture/\u{3042}.png");
    let archive = raw_name_zip(vec![name.as_ref()]);
    let entries = read_zip_listing(&archive).expect("archive should list");
    let source = zip_source("", ZipNameEncoding::Gbk);

    assert!(
        source.resolve_case_insensitive("Texture/\u{3042}.png", &entries).is_none(),
        "gbk should not guess a shift-jis entry"
    );
}

#[test]
fn explicit_zip_encoding_reads_the_specified_charset() {
    let (name, _, _) = GBK.encode("Texture/\u{6C49}.png");
    let archive = raw_name_zip(vec![name.as_ref()]);
    let entries = read_zip_listing(&archive).expect("archive should list");
    let source = zip_source("", ZipNameEncoding::Gbk);

    let resolved = source
        .resolve_case_insensitive("Texture/\u{6C49}.png", &entries)
        .expect("gbk source should resolve a gbk entry");

    assert_eq!(
        resolved,
        PmxSourceLocation::Zip {
            archive: "fixture.zip".to_owned(),
            entry: "Texture/\u{6C49}.png".to_owned(),
        }
    );
}

#[test]
fn exact_names_win_over_case_insensitive_ones() {
    let archive = zip_bytes(&[("m/TEX.png", b"upper"), ("m/tex.png", b"lower")]);
    let entries = read_zip_listing(&archive).expect("archive should list").entries;

    let exact = find_zip_entry(&entries, "m/tex.png", ZipNameEncoding::Auto, true).expect("exact");
    assert_eq!(exact.index, 1);
    assert_eq!(exact.entry, "m/tex.png");
    let folded = find_zip_entry(&entries, "m/Tex.PNG", ZipNameEncoding::Auto, true).expect("folded");
    assert_eq!(folded.index, 0);
    assert!(find_zip_entry(&entries, "m/Tex.PNG", ZipNameEncoding::Auto, false).is_none());
    assert!(find_zip_entry(&entries, "../m/tex.png", ZipNameEncoding::Auto, true).is_none());
}

#[test]
fn directories_and_mac_metadata_are_never_matched() {
    let archive = zip_bytes(&[("__MACOSX/m/a.png", b"meta"), ("m/a.png", b"real")]);
    let mut entries = read_zip_listing(&archive).expect("archive should list").entries;
    entries.push(PmxZipEntry { is_dir: true, name_raw: b"m/b/".to_vec(), name: Some("m/b/".to_owned()) });

    let found = find_zip_entry(&entries, "m/a.png", ZipNameEncoding::Auto, true).expect("found");
    assert_eq!(found.index, 1);
    assert!(find_zip_entry(&entries, "m/b", ZipNameEncoding::Auto, true).is_none());
}

#[test]
fn zip_sources_read_entries_and_report_each_failure() {
    let archive = zip_bytes(&[("Model/Texture/Face.PNG", b"face bytes")]);
    let source = zip_source("Model", ZipNameEncoding::Auto);

    assert_eq!(
        source.read_bytes("Model/Texture/Face.PNG", &archive),
        Ok(b"face bytes".to_vec())
    );
    assert_eq!(
        source.read_bytes("Model/Texture/Missing.PNG", &archive),
        Err(PmxError::Io(PmxIoErrorKind::NotFound))
    );
    assert_eq!(
        source.read_bytes("__MACOSX/Face.PNG", &archive),
        Err(PmxError::Io(PmxIoErrorKind::InvalidInput))
    );
    assert_eq!(
        source.read_bytes("Model/Texture/Face.PNG", b"not a zip archive"),
        Err(PmxError::Io(PmxIoErrorKind::Other))
    );
}

#[test]
fn archives_list_their_entries_and_contents() {
    let archive = zip_bytes(&[("a.txt", b"alpha"), ("dir/b.txt", b"beta")]);
    let entries = read_zip_listing(&archive).expect("archive should list").entries;

    assert_eq!(entries.len(), 2);
    assert_eq!(entries[1].name_raw, b"dir/b.txt".to_vec());
    assert_eq!(entries[1].name.as_deref(), Some("dir/b.txt"));
    assert!(!entries[0].is_dir);
    assert_eq!(read_zip_entry_bytes(&archive, 1), Ok(b"beta".to_vec()));
    assert_eq!(read_zip_entry_bytes(&archive, 2), Err(PmxError::Io(PmxIoErrorKind::Other)));
    assert!(read_zip_listing(b"garbage").is_err());
    assert!(read_zip_listing(&archive).expect("archive should list").complete);
}

#[test]
fn the_first_pmx_entry_gives_the_model_root() {
    let archive = zip_bytes(&[
        ("readme.txt", b"hi"),
        ("__MACOSX/Pack/._model.pmx", b"meta"),
        ("Pack/Model/model.PMX", b"pmx"),
        ("Pack/other.pmx", b"pmx"),
    ]);

    let found = find_first_pmx_zip_entry_root(&archive, ZipNameEncoding::Auto)
        .expect("archive should list")
        .expect("a pmx entry");
    assert_eq!(found, (2, "Pack/Model/model.PMX".to_owned(), "Pack/Model".to_owned()));

    let flat = zip_bytes(&[("model.pmx", b"pmx")]);
    let found = find_first_pmx_zip_entry_root(&flat, ZipNameEncoding::Auto).unwrap().unwrap();
    assert_eq!(found.2, "");

    let none = zip_bytes(&[("model.txt", b"x")]);
    assert_eq!(find_first_pmx_zip_entry_root(&none, ZipNameEncoding::Auto), Ok(None));
}

#[test]
fn sources_resolve_paths_where_they_would_hold_them() {
    let folder = PmxSource::folder("models/sample");
    assert_eq!(folder.resolve("Texture/a.png"), PmxSourceLocation::disk("models/sample/Texture/a.png"));
    assert_eq!(folder.resolve("/abs/a.png"), PmxSourceLocation::disk("/abs/a.png"));
    assert_eq!(folder.root(), "models/sample");
    assert_eq!(folder.root_path(), Some("models/sample"));

    let zip = PmxSource::zip("pack.zip", r"Model\");
    assert_eq!(zip.resolve(r"tex\a.png"), PmxSourceLocation::zip("pack.zip", "Model/tex/a.png"));
    assert_eq!(zip.root(), "pack.zip");
    assert_eq!(zip.root_path(), None);
    assert!(zip.as_folder().is_none());
    assert_eq!(zip.as_zip().map(|z| z.root()), Some("Model"));
    assert_eq!(PmxSource::default(), PmxSource::Folder(PmxFolderSource::new(".")));
    assert_eq!(PmxFolderSource::default().resolve("a"), "./a");
}

#[test]
fn locations_report_their_parts() {
    let disk = PmxSourceLocation::disk("dir/face.PNG");
    let zip = PmxSourceLocation::zip("pack.zip", "Model/toon.bmp");

    assert_eq!(disk.as_disk_path(), Some("dir/face.PNG"));
    assert_eq!(disk.archive(), None);
    assert_eq!(disk.extension().as_deref(), Some("PNG"));
    assert_eq!(disk.to_string(), "dir/face.PNG");
    assert_eq!(zip.as_disk_path(), None);
    assert_eq!(zip.archive(), Some("pack.zip"));
    assert_eq!(zip.entry(), Some("Model/toon.bmp"));
    assert_eq!(zip.as_path(), "Model/toon.bmp");
    assert_eq!(zip.extension().as_deref(), Some("bmp"));
    assert_eq!(zip.to_string(), "pack.zip::Model/toon.bmp");
    assert_eq!(zip.clone().into_path(), "Model/toon.bmp");
    assert_eq!(PmxSourceLocation::disk("dir/.hidden").extension(), None);
}

#[test]
fn sources_hold_locations_of_their_own_kind() {
    let archive = zip_bytes(&[("Model/a.png", b"a")]);
    let entries = read_zip_listing(&archive).expect("archive should list");
    let zip = PmxSource::zip("pack.zip", "Model");
    let folder = PmxSource::folder("Model");

    assert!(zip.contains_location(&PmxSourceLocation::zip("pack.zip", "Model/a.png"), false, &entries));
    assert!(!zip.contains_location(&PmxSourceLocation::zip("other.zip", "Model/a.png"), false, &entries));
    assert!(!zip.contains_location(&PmxSourceLocation::zip("pack.zip", "Model/A.png"), false, &entries));
    assert!(!folder.contains_location(&PmxSourceLocation::zip("pack.zip", "Model/a.png"), true, &entries));
    assert!(folder.contains_location(&PmxSourceLocation::disk("Model/a.png"), true, &no_listing()));
    assert!(!folder.contains_location(&PmxSourceLocation::disk("Model/a.png"), false, &no_listing()));
}

#[test]
fn case_lookups_depend_on_the_kind_of_source() {

    let archive = zip_bytes(&[("Model/Tex/A.png", b"a")]);
    let entries = read_zip_listing(&archive).expect("archive should list");
    let zip = PmxSource::zip("pack.zip", "Model");
    match zip.resolve_case_insensitive("tex/a.PNG", &entries) {
        PmxCaseLookup::Decided(found) => {
            assert_eq!(found, Some(PmxSourceLocation::zip("pack.zip", "Model/Tex/A.png")))
        }
        _ => panic!("an archive decides from its listing"),
    }
    assert!(matches!(
        PmxSource::folder("Model").resolve_case_insensitive("tex/a.png", &no_listing()),
        PmxCaseLookup::Walk(_)
    ));
    match zip.resolve_case_insensitive("/abs/a.png", &entries) {
        PmxCaseLookup::Absolute(path) => assert_eq!(path, "/abs/a.png"),
        _ => panic!("absolute paths are checked as they are"),
    }
}

#[test]
fn archive_entries_are_read_only_through_their_own_archive() {
    let archive = zip_bytes(&[("Model/a.png", b"a")]);
    let zip = PmxSource::zip("pack.zip", "Model");

    assert_eq!(zip.read_archive_entry("pack.zip", "Model/a.png", &archive), Ok(b"a".to_vec()));
    assert_eq!(
        zip.read_archive_entry("other.zip", "Model/a.png", &archive),
        Err(PmxError::Io(PmxIoErrorKind::InvalidInput))
    );
    assert_eq!(
        PmxSource::folder("Model").read_archive_entry("pack.zip", "Model/a.png", &archive),
        Err(PmxError::Io(PmxIoErrorKind::InvalidInput))
    );
}

#[test]
fn a_broken_entry_ends_the_listing() {
    let archive = with_broken_entry(vec![b"a.png", b"b.pmx", b"c.png"], 1);
    let listing = read_zip_listing(&archive).expect("the central directory reads");

    assert_eq!(listing.entries.len(), 1);
    assert_eq!(listing.entries[0].name_raw, b"a.png".to_vec());
    assert!(!listing.complete);
}

#[test]
fn lookups_before_a_broken_entry_still_succeed() {
    let archive = with_broken_entry(vec![b"a.png", b"b.png", b"c.png"], 1);
    let listing = read_zip_listing(&archive).expect("the central directory reads");
    let source = zip_source("", ZipNameEncoding::Auto);

    let found = find_listed_entry(&listing, "a.png", ZipNameEncoding::Auto, true)
        .expect("an exact match comes before the broken entry")
        .expect("found");
    assert_eq!(found.index, 0);
    assert_eq!(
        find_listed_entry(&listing, "c.png", ZipNameEncoding::Auto, false),
        Err(PmxError::Io(PmxIoErrorKind::Other))
    );
    assert_eq!(
        find_listed_entry(&listing, "A.PNG", ZipNameEncoding::Auto, true),
        Err(PmxError::Io(PmxIoErrorKind::Other))
    );
    assert_eq!(find_listed_entry(&listing, "../x", ZipNameEncoding::Auto, true), Ok(None));

    assert!(source.contains_entry("a.png", &listing));
    assert!(!source.contains_entry("c.png", &listing));
    assert_eq!(source.resolve_case_insensitive("A.PNG", &listing), None);
    assert_eq!(source.read_bytes("a.png", &archive), Ok(Vec::new()));
    assert_eq!(source.read_bytes("c.png", &archive), Err(PmxError::Io(PmxIoErrorKind::Other)));
}

#[test]
fn the_model_search_stops_at_a_broken_entry() {
    let first = with_broken_entry(vec![b"m.pmx", b"b.png", b"c.pmx"], 1);
    assert_eq!(
        find_first_pmx_zip_entry_root(&first, ZipNameEncoding::Auto),
        Ok(Some((0, "m.pmx".to_owned(), String::new())))
    );

    let after = with_broken_entry(vec![b"a.png", b"b.png", b"c.pmx"], 1);
    assert_eq!(
        find_first_pmx_zip_entry_root(&after, ZipNameEncoding::Auto),
        Err(PmxError::Io(PmxIoErrorKind::Other))
    );
}

#[test]
fn a_checksum_mismatch_reads_as_invalid_data() {
    let mut writer = ZipWriter::new(Cursor::new(Vec::new()));
    let options = SimpleFileOptions::default().compression_method(zip::CompressionMethod::Stored);
    writer.start_file("a.txt", options).expect("should add zip entry");
    writer.write_all(b"checksummed contents").expect("should write zip entry");
    let mut archive = writer.finish().expect("should finish zip archive").into_inner();
    let at = archive
        .windows(b"checksummed".len())
        .position(|w| w == b"checksummed")
        .expect("the stored contents are in the archive");
    archive[at] = b'C';

    assert_eq!(read_zip_entry_bytes(&archive, 0), Err(PmxError::Io(PmxIoErrorKind::InvalidData)));
    assert_eq!(
        zip_source("", ZipNameEncoding::Auto).read_bytes("a.txt", &archive),
        Err(PmxError::Io(PmxIoErrorKind::InvalidData))
    );
}
