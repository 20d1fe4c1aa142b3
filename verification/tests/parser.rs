use bevy_pmx::format::{parse_pmx, PmxTextEncoding, PMX_VERSION_2_0_BITS, PMX_VERSION_2_1_BITS};
use bevy_pmx::format::PmxSoftBodyAeroModel;
use bevy_pmx::{PmxDocument, PmxError, PmxIoErrorKind};

fn push_f32(bytes: &mut Vec<u8>, value: f32) {
    bytes.extend_from_slice(&value.to_le_bytes());
}

fn push_i32(bytes: &mut Vec<u8>, value: i32) {
    bytes.extend_from_slice(&value.to_le_bytes());
}

fn header(version: f32, encoding: u8) -> Vec<u8> {
    let mut bytes = Vec::new();
    bytes.extend_from_slice(b"PMX ");
    push_f32(&mut bytes, version);
    bytes.push(8);
    bytes.push(encoding);
    bytes.push(0);
    bytes.extend_from_slice(&[4, 4, 4, 4, 4, 4]);
    bytes
}

fn minimal_document_bytes() -> Vec<u8> {
    let mut bytes = header(2.0, 1);
    for _ in 0..4 {
        push_i32(&mut bytes, 0);
    }
    for _ in 0..9 {
        push_i32(&mut bytes, 0);
    }
    bytes
}

#[test]
fn parses_minimal_pmx_20_document() {
    let bytes = minimal_document_bytes();

    let document = parse_pmx(&bytes).expect("minimal PMX should parse");
    assert_eq!(document.header.magic, *b"PMX ");
    assert_eq!(document.header.version, 2.0f32.to_bits());
    assert_eq!(document.header.header_size, 8);
    assert!(document.vertices.is_empty());
    assert!(document.indices.is_empty());
    assert!(document.textures.is_empty());
    assert!(document.materials.is_empty());
    assert!(document.bones.is_empty());
    assert!(document.morphs.is_empty());
    assert!(document.display_frames.is_empty());
    assert!(document.rigid_bodies.is_empty());
    assert!(document.joints.is_empty());
    assert!(document.soft_bodies.is_empty());
}

#[test]
fn version_constants_are_the_bit_patterns_of_the_supported_versions() {
    assert_eq!(PMX_VERSION_2_0_BITS, 2.0f32.to_bits());
    assert_eq!(PMX_VERSION_2_1_BITS, 2.1f32.to_bits());
}

#[test]
fn from_bytes_agrees_with_parse_pmx() {
    let bytes = minimal_document_bytes();
    assert_eq!(PmxDocument::from_bytes(&bytes), parse_pmx(&bytes));
}

#[test]
fn header_texts_are_decoded_in_the_declared_encoding() {
    let mut bytes = header(2.0, 0);
    // UTF-16LE "AB", then three empty texts.
    push_i32(&mut bytes, 4);
    bytes.extend_from_slice(&[0x41, 0x00, 0x42, 0x00]);
    for _ in 0..3 {
        push_i32(&mut bytes, 0);
    }
    for _ in 0..9 {
        push_i32(&mut bytes, 0);
    }

    let document = parse_pmx(&bytes).expect("UTF-16 header should parse");
    assert_eq!(document.header.encoding, PmxTextEncoding::Utf16Le);
    assert_eq!(document.header.model_name, "AB");
}

#[test]
fn wrong_magic_is_rejected() {
    let mut bytes = minimal_document_bytes();
    bytes[3] = b'!';
    assert_eq!(parse_pmx(&bytes), Err(PmxError::InvalidMagic(*b"PMX!")));
}

#[test]
fn unsupported_versions_are_rejected() {
    let mut bytes = header(3.0, 1);
    for _ in 0..13 {
        push_i32(&mut bytes, 0);
    }
    assert_eq!(parse_pmx(&bytes), Err(PmxError::UnsupportedVersion(3.0f32.to_bits())));
}

#[test]
fn truncated_input_reports_unexpected_eof() {
    let bytes = minimal_document_bytes();
    assert_eq!(
        parse_pmx(&bytes[..bytes.len() - 1]),
        Err(PmxError::Io(PmxIoErrorKind::UnexpectedEof))
    );
}

#[test]
fn invalid_utf8_text_is_rejected() {
    let mut bytes = header(2.0, 1);
    push_i32(&mut bytes, 1);
    bytes.push(0xFF);
    assert_eq!(parse_pmx(&bytes), Err(PmxError::InvalidFormat("invalid UTF-8 text")));
}

#[test]
fn unpaired_utf16_surrogates_are_rejected() {
    let mut bytes = header(2.0, 0);
    push_i32(&mut bytes, 2);
    bytes.extend_from_slice(&[0x00, 0xD8]);
    assert_eq!(parse_pmx(&bytes), Err(PmxError::InvalidFormat("invalid UTF-16LE text")));
}

#[test]
fn soft_body_aerodynamics_models_outside_the_known_ones_are_kept() {
    let mut bytes = header(2.1, 1);
    for _ in 0..4 {
        push_i32(&mut bytes, 0);
    }
    for _ in 0..9 {
        push_i32(&mut bytes, 0);
    }
    push_i32(&mut bytes, 1);
    push_i32(&mut bytes, 0);
    push_i32(&mut bytes, 0);
    bytes.push(0);
    push_i32(&mut bytes, -1);
    bytes.push(3);
    bytes.extend_from_slice(&0xFFFFu16.to_le_bytes());
    bytes.push(0);
    push_i32(&mut bytes, 2);
    push_i32(&mut bytes, 1);
    push_f32(&mut bytes, 1.0);
    push_f32(&mut bytes, 0.5);
    push_i32(&mut bytes, 5);
    for _ in 0..18 {
        push_f32(&mut bytes, 0.0);
    }
    for _ in 0..4 {
        push_i32(&mut bytes, 0);
    }
    for _ in 0..3 {
        push_f32(&mut bytes, 0.0);
    }
    push_i32(&mut bytes, 0);
    push_i32(&mut bytes, 0);

    let document = parse_pmx(&bytes).expect("an unknown aerodynamics model is accepted");
    assert_eq!(document.soft_bodies.len(), 1);
    assert_eq!(document.soft_bodies[0].aero_model, PmxSoftBodyAeroModel::Other(5));
    assert_eq!(document.soft_bodies[0].group, 3);
}
