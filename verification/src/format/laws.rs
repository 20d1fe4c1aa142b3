//! Properties that every successfully parsed document has.

use vstd::prelude::*;

use super::model::{
    PMX_VERSION_2_0_BITS, PMX_VERSION_2_1_BITS, PmxBoneFlags, PmxJointKind,
    PmxMaterialMorphOperation, PmxMorphKind, PmxMorphOffset, PmxMorphPanel, PmxRigidBodyMode,
    PmxRigidBodyShape, PmxSoftBodyAeroModel, PmxSoftBodyShape, PmxSphereMode, PmxTextEncoding,
    PmxVertexWeight, PmxDisplayFrameItem, SpecBone, SpecDocument, SpecHeader, SpecMaterial,
    SpecMorph, SpecVertex,
};
use super::parser::{
    bone_item, material_item, morph_item, morph_offset_item, spec_bone, spec_geometry_sections,
    spec_header, spec_material, spec_morph, spec_morph_offset, spec_names, spec_parse_pmx,
    spec_rigid_body_mode, spec_encoding, spec_sphere_mode, spec_morph_panel, spec_morph_kind,
    spec_material_morph_operation, spec_rigid_body_shape, spec_joint_kind, spec_soft_body_shape,
    spec_soft_body_aero_model, spec_weight, spec_display_frame_item,
    spec_vertex, vec4_item, vertex_item,
};
use super::reader::{PRes, counted, repeat, spec_len, spec_u8};

verus! {

/// Every item of a successful repetition is a value that the item reader can produce.
pub proof fn lemma_repeat_all<T>(n: nat, p: int, f: spec_fn(int) -> PRes<T>, pred: spec_fn(T) -> bool)
    requires
        forall|q: int| #[trigger] f(q) matches Ok((x, _)) ==> pred(x),
    ensures
        repeat(n, p, f) matches Ok((xs, _)) ==> xs.len() == n && forall|i: int| 0 <= i < xs.len() ==> pred(#[trigger] xs[i]),
    decreases n,
{
    if n > 0 {
        lemma_repeat_all((n - 1) as nat, p, f, pred);
        if let Ok((xs, q)) = repeat((n - 1) as nat, p, f) {
            if let Ok((x, r)) = f(q) {
                assert forall|i: int| 0 <= i < xs.push(x).len() implies pred(#[trigger] xs.push(x)[i]) by {
                    if i < xs.len() {
                        assert(xs.push(x)[i] == xs[i]);
                    }
                }
            }
        }
    }
}

/// A counted list holds only values that the item reader can produce.
pub proof fn lemma_counted_all<T>(s: Seq<u8>, p: int, f: spec_fn(int) -> PRes<T>, pred: spec_fn(T) -> bool)
    requires
        forall|q: int| #[trigger] f(q) matches Ok((x, _)) ==> pred(x),
    ensures
        counted(s, p, f) matches Ok((xs, _)) ==> forall|i: int| 0 <= i < xs.len() ==> pred(#[trigger] xs[i]),
{
    if let Ok((n, q)) = spec_len(s, p) {
        lemma_repeat_all(n as nat, q, f, pred);
    }
}


/// A vertex carries as many additional UVs as the header declares.
pub open spec fn vertex_fits_header(h: SpecHeader, v: SpecVertex) -> bool {
    v.additional_uvs.len() == h.additional_uv_count
}

/// The optional parts of a bone are present exactly when its flags call for them.
pub open spec fn bone_matches_flags(b: SpecBone) -> bool {
    let f = b.flags;
    &&& (b.tail is BoneIndex) == f.spec_contains(PmxBoneFlags::TAIL_BONE)
    &&& (b.inheritance is Some) == (f.spec_contains(PmxBoneFlags::INHERIT_ROTATION)
        || f.spec_contains(PmxBoneFlags::INHERIT_TRANSLATION))
    &&& (b.inheritance matches Some(i) ==> i.affects_rotation == f.spec_contains(PmxBoneFlags::INHERIT_ROTATION)
        && i.affects_translation == f.spec_contains(PmxBoneFlags::INHERIT_TRANSLATION))
    &&& (b.fixed_axis is Some) == f.spec_contains(PmxBoneFlags::FIXED_AXIS)
    &&& (b.local_axes is Some) == f.spec_contains(PmxBoneFlags::LOCAL_AXES)
    &&& (!f.spec_contains(PmxBoneFlags::EXTERNAL_PARENT_DEFORM) ==> b.external_parent == -1)
    &&& (b.ik is Some) == f.spec_contains(PmxBoneFlags::IK)
}

/// A morph offset has the variant that the morph's kind calls for.
pub open spec fn offset_matches_kind(kind: PmxMorphKind, o: PmxMorphOffset) -> bool {
    match kind {
        PmxMorphKind::Group => o is Group,
        PmxMorphKind::Vertex => o is Vertex,
        PmxMorphKind::Bone => o is Bone,
        PmxMorphKind::Uv => o is Uv,
        PmxMorphKind::AdditionalUv(_) => o is Uv,
        PmxMorphKind::Material => o is Material,
        PmxMorphKind::Flip => o is Flip,
        PmxMorphKind::Impulse => o is Impulse,
    }
}

pub open spec fn morph_offsets_match_kind(m: SpecMorph) -> bool {
    &&& (m.kind matches PmxMorphKind::AdditionalUv(n) ==> 1 <= n <= 4)
    &&& forall|i: int| 0 <= i < m.offsets.len() ==> offset_matches_kind(m.kind, #[trigger] m.offsets[i])
}

/// A shared toon reference is one of the 256 shared toon numbers.
pub open spec fn material_toon_in_range(m: SpecMaterial) -> bool {
    m.toon_sharing ==> 0 <= m.toon_texture_index < 256
}

/// What every document produced by the parser satisfies.
pub open spec fn parsed_document_invariant(d: SpecDocument) -> bool {
    &&& d.header.magic == [0x50u8, 0x4d, 0x58, 0x20]
    &&& (d.header.version == PMX_VERSION_2_0_BITS || d.header.version == PMX_VERSION_2_1_BITS)
    &&& d.header.header_size >= 8
    &&& (d.header.version == PMX_VERSION_2_0_BITS ==> d.soft_bodies.len() == 0)
    &&& forall|i: int| 0 <= i < d.vertices.len() ==> vertex_fits_header(d.header, #[trigger] d.vertices[i])
    &&& forall|i: int| 0 <= i < d.bones.len() ==> bone_matches_flags(#[trigger] d.bones[i])
    &&& forall|i: int| 0 <= i < d.morphs.len() ==> morph_offsets_match_kind(#[trigger] d.morphs[i])
    &&& forall|i: int| 0 <= i < d.materials.len() ==> material_toon_in_range(#[trigger] d.materials[i])
}

proof fn lemma_header_shape(s: Seq<u8>, p: int)
    ensures
        spec_header(s, p) matches Ok((h, _)) ==> {
            &&& h.magic == [0x50u8, 0x4d, 0x58, 0x20]
            &&& (h.version == PMX_VERSION_2_0_BITS || h.version == PMX_VERSION_2_1_BITS)
            &&& h.header_size >= 8
        },
{
}

proof fn lemma_vertex_shape(h: SpecHeader, s: Seq<u8>, q: int)
    ensures
        spec_vertex(h, s, q) matches Ok((v, _)) ==> vertex_fits_header(h, v),
{
    let pred = |x: [u32; 4]| true;
    if let Ok((position, p1)) = super::reader::spec_vec3(s, q) {
        if let Ok((normal, p2)) = super::reader::spec_vec3(s, p1) {
            if let Ok((uv, p3)) = super::reader::spec_vec2(s, p2) {
                lemma_repeat_all(h.additional_uv_count as nat, p3, vec4_item(s), pred);
            }
        }
    }
}

proof fn lemma_bone_shape(h: SpecHeader, s: Seq<u8>, q: int)
    ensures
        spec_bone(h, s, q) matches Ok((b, _)) ==> bone_matches_flags(b),
{
}

proof fn lemma_morph_offset_shape(h: SpecHeader, kind: PmxMorphKind, s: Seq<u8>, q: int)
    ensures
        spec_morph_offset(h, kind, s, q) matches Ok((o, _)) ==> offset_matches_kind(kind, o),
{
}


proof fn lemma_morph_shape(h: SpecHeader, s: Seq<u8>, q: int)
    ensures
        spec_morph(h, s, q) matches Ok((m, _)) ==> morph_offsets_match_kind(m),
{
    if let Ok((names, p2)) = spec_names(h.encoding, s, q) {
        if let Ok((panel_byte, p3)) = spec_u8(s, p2) {
            if let Ok((kind_byte, p4)) = spec_u8(s, p3) {
                if let Ok(kind) = super::parser::spec_morph_kind(kind_byte) {
                    let pred = |o: PmxMorphOffset| offset_matches_kind(kind, o);
                    assert forall|r: int| (#[trigger] morph_offset_item(h, kind, s)(r) matches Ok((o, _)) ==> pred(o)) by {
                        lemma_morph_offset_shape(h, kind, s, r);
                    }
                    lemma_counted_all(s, p4, morph_offset_item(h, kind, s), pred);
                }
            }
        }
    }
}

proof fn lemma_material_shape(h: SpecHeader, s: Seq<u8>, q: int)
    ensures
        spec_material(h, s, q) matches Ok((m, _)) ==> material_toon_in_range(m),
{
}

/// Every document that the parser produces satisfies `parsed_document_invariant`: a valid
/// header, no soft bodies in a 2.0 document, vertices with the declared number of additional
/// UVs, bones whose optional parts follow their flags, morph offsets of their morph's kind and
/// shared toon numbers within range.
pub proof fn lemma_parsed_document_invariant(bytes: Seq<u8>)
    ensures
        spec_parse_pmx(bytes) matches Ok(d) ==> parsed_document_invariant(d),
{
    let s = bytes;
    lemma_header_shape(s, 0);
    if let Ok((h, p1)) = spec_header(s, 0) {
        assert forall|q: int| (#[trigger] vertex_item(h, s)(q) matches Ok((v, _)) ==> vertex_fits_header(h, v)) by {
            lemma_vertex_shape(h, s, q);
        }
        lemma_counted_all(s, p1, vertex_item(h, s), |v: SpecVertex| vertex_fits_header(h, v));
        assert forall|q: int| (#[trigger] material_item(h, s)(q) matches Ok((m, _)) ==> material_toon_in_range(m)) by {
            lemma_material_shape(h, s, q);
        }
        assert forall|q: int| (#[trigger] bone_item(h, s)(q) matches Ok((b, _)) ==> bone_matches_flags(b)) by {
            lemma_bone_shape(h, s, q);
        }
        assert forall|q: int| (#[trigger] morph_item(h, s)(q) matches Ok((m, _)) ==> morph_offsets_match_kind(m)) by {
            lemma_morph_shape(h, s, q);
        }
        if let Ok((vs, p2)) = counted(s, p1, vertex_item(h, s)) {
            if let Ok((is, p3)) = counted(s, p2, super::parser::vertex_index_item(h.vertex_index_size, s)) {
                if let Ok((ts, p4)) = counted(s, p3, super::parser::text_item(h.encoding, s)) {
                    lemma_counted_all(s, p4, material_item(h, s), |m: SpecMaterial| material_toon_in_range(m));
                }
            }
        }
        if let Ok((g, p5)) = spec_geometry_sections(h, s, p1) {
            lemma_counted_all(s, p5, bone_item(h, s), |b: SpecBone| bone_matches_flags(b));
            if let Ok((bs, p6)) = counted(s, p5, bone_item(h, s)) {
                lemma_counted_all(s, p6, morph_item(h, s), |m: SpecMorph| morph_offsets_match_kind(m));
            }
        }
    }
}

/// The physics mode of a rigid body is read from its byte by the PMX table: 0 follows its bone,
/// 1 is simulated by physics, 2 is simulated by physics and aligned to its bone; any other byte
/// is refused.
pub proof fn lemma_rigid_body_mode_table(b: u8)
    ensures
        b == 0 ==> spec_rigid_body_mode(b) == Ok::<PmxRigidBodyMode, crate::error::PmxError>(PmxRigidBodyMode::FollowBone),
        b == 1 ==> spec_rigid_body_mode(b) == Ok::<PmxRigidBodyMode, crate::error::PmxError>(PmxRigidBodyMode::Physics),
        b == 2 ==> spec_rigid_body_mode(b) == Ok::<PmxRigidBodyMode, crate::error::PmxError>(PmxRigidBodyMode::PhysicsAndBone),
        b > 2 ==> spec_rigid_body_mode(b) is Err,
{
}

/// The text encoding byte of the header: 0 is UTF-16LE, 1 is UTF-8; any other is refused.
pub proof fn lemma_text_encoding_table(b: u8)
    ensures
        b == 0 ==> spec_encoding(b) == Ok::<PmxTextEncoding, crate::error::PmxError>(PmxTextEncoding::Utf16Le),
        b == 1 ==> spec_encoding(b) == Ok::<PmxTextEncoding, crate::error::PmxError>(PmxTextEncoding::Utf8),
        b > 1 ==> spec_encoding(b) is Err,
{
}

/// The sphere-map mode byte of a material: 0 disabled, 1 multiply, 2 add, 3 sub-texture; any other is refused.
pub proof fn lemma_sphere_mode_table(b: u8)
    ensures
        b == 0 ==> spec_sphere_mode(b) == Ok::<PmxSphereMode, crate::error::PmxError>(PmxSphereMode::Disabled),
        b == 1 ==> spec_sphere_mode(b) == Ok::<PmxSphereMode, crate::error::PmxError>(PmxSphereMode::Multiply),
        b == 2 ==> spec_sphere_mode(b) == Ok::<PmxSphereMode, crate::error::PmxError>(PmxSphereMode::Add),
        b == 3 ==> spec_sphere_mode(b) == Ok::<PmxSphereMode, crate::error::PmxError>(PmxSphereMode::SubTexture),
        b > 3 ==> spec_sphere_mode(b) is Err,
{
}

/// The panel byte of a morph: 0 system, 1 eyebrow, 2 eye, 3 mouth, 4 other; any other is refused.
pub proof fn lemma_morph_panel_table(b: u8)
    ensures
        b == 0 ==> spec_morph_panel(b) == Ok::<PmxMorphPanel, crate::error::PmxError>(PmxMorphPanel::System),
        b == 1 ==> spec_morph_panel(b) == Ok::<PmxMorphPanel, crate::error::PmxError>(PmxMorphPanel::Eyebrow),
        b == 2 ==> spec_morph_panel(b) == Ok::<PmxMorphPanel, crate::error::PmxError>(PmxMorphPanel::Eye),
        b == 3 ==> spec_morph_panel(b) == Ok::<PmxMorphPanel, crate::error::PmxError>(PmxMorphPanel::Mouth),
        b == 4 ==> spec_morph_panel(b) == Ok::<PmxMorphPanel, crate::error::PmxError>(PmxMorphPanel::Other),
        b > 4 ==> spec_morph_panel(b) is Err,
{
}

/// The kind byte of a morph: 0 group, 1 vertex, 2 bone, 3 UV, 4 to 7 the additional UV sets 1 to 4, 8 material, 9 flip, 10 impulse; any other is refused.
pub proof fn lemma_morph_kind_table(b: u8)
    ensures
        b == 0 ==> spec_morph_kind(b) == Ok::<PmxMorphKind, crate::error::PmxError>(PmxMorphKind::Group),
        b == 1 ==> spec_morph_kind(b) == Ok::<PmxMorphKind, crate::error::PmxError>(PmxMorphKind::Vertex),
        b == 2 ==> spec_morph_kind(b) == Ok::<PmxMorphKind, crate::error::PmxError>(PmxMorphKind::Bone),
        b == 3 ==> spec_morph_kind(b) == Ok::<PmxMorphKind, crate::error::PmxError>(PmxMorphKind::Uv),
        b == 4 ==> spec_morph_kind(b) == Ok::<PmxMorphKind, crate::error::PmxError>(PmxMorphKind::AdditionalUv(1)),
        b == 5 ==> spec_morph_kind(b) == Ok::<PmxMorphKind, crate::error::PmxError>(PmxMorphKind::AdditionalUv(2)),
        b == 6 ==> spec_morph_kind(b) == Ok::<PmxMorphKind, crate::error::PmxError>(PmxMorphKind::AdditionalUv(3)),
        b == 7 ==> spec_morph_kind(b) == Ok::<PmxMorphKind, crate::error::PmxError>(PmxMorphKind::AdditionalUv(4)),
        b == 8 ==> spec_morph_kind(b) == Ok::<PmxMorphKind, crate::error::PmxError>(PmxMorphKind::Material),
        b == 9 ==> spec_morph_kind(b) == Ok::<PmxMorphKind, crate::error::PmxError>(PmxMorphKind::Flip),
        b == 10 ==> spec_morph_kind(b) == Ok::<PmxMorphKind, crate::error::PmxError>(PmxMorphKind::Impulse),
        b > 10 ==> spec_morph_kind(b) is Err,
{
}

/// The operation byte of a material morph: 0 multiply, 1 add; any other is refused.
pub proof fn lemma_material_morph_operation_table(b: u8)
    ensures
        b == 0 ==> spec_material_morph_operation(b) == Ok::<PmxMaterialMorphOperation, crate::error::PmxError>(PmxMaterialMorphOperation::Multiply),
        b == 1 ==> spec_material_morph_operation(b) == Ok::<PmxMaterialMorphOperation, crate::error::PmxError>(PmxMaterialMorphOperation::Add),
        b > 1 ==> spec_material_morph_operation(b) is Err,
{
}

/// The shape byte of a rigid body: 0 sphere, 1 box, 2 capsule; any other is refused.
pub proof fn lemma_rigid_body_shape_table(b: u8)
    ensures
        b == 0 ==> spec_rigid_body_shape(b) == Ok::<PmxRigidBodyShape, crate::error::PmxError>(PmxRigidBodyShape::Sphere),
        b == 1 ==> spec_rigid_body_shape(b) == Ok::<PmxRigidBodyShape, crate::error::PmxError>(PmxRigidBodyShape::Box),
        b == 2 ==> spec_rigid_body_shape(b) == Ok::<PmxRigidBodyShape, crate::error::PmxError>(PmxRigidBodyShape::Capsule),
        b > 2 ==> spec_rigid_body_shape(b) is Err,
{
}

/// The kind byte of a joint: 0 spring 6DOF, 1 6DOF, 2 point-to-point, 3 cone twist, 4 slider, 5 hinge; any other is refused.
pub proof fn lemma_joint_kind_table(b: u8)
    ensures
        b == 0 ==> spec_joint_kind(b) == Ok::<PmxJointKind, crate::error::PmxError>(PmxJointKind::Spring6Dof),
        b == 1 ==> spec_joint_kind(b) == Ok::<PmxJointKind, crate::error::PmxError>(PmxJointKind::SixDof),
        b == 2 ==> spec_joint_kind(b) == Ok::<PmxJointKind, crate::error::PmxError>(PmxJointKind::P2p),
        b == 3 ==> spec_joint_kind(b) == Ok::<PmxJointKind, crate::error::PmxError>(PmxJointKind::ConeTwist),
        b == 4 ==> spec_joint_kind(b) == Ok::<PmxJointKind, crate::error::PmxError>(PmxJointKind::Slider),
        b == 5 ==> spec_joint_kind(b) == Ok::<PmxJointKind, crate::error::PmxError>(PmxJointKind::Hinge),
        b > 5 ==> spec_joint_kind(b) is Err,
{
}

/// The shape byte of a soft body: 0 triangle mesh, 1 rope; any other is refused.
pub proof fn lemma_soft_body_shape_table(b: u8)
    ensures
        b == 0 ==> spec_soft_body_shape(b) == Ok::<PmxSoftBodyShape, crate::error::PmxError>(PmxSoftBodyShape::TriMesh),
        b == 1 ==> spec_soft_body_shape(b) == Ok::<PmxSoftBodyShape, crate::error::PmxError>(PmxSoftBodyShape::Rope),
        b > 1 ==> spec_soft_body_shape(b) is Err,
{
}

/// The aerodynamics model number of a soft body: 0 vertex point, 1 vertex two-sided, 2 vertex
/// one-sided, 3 face two-sided, 4 face one-sided; any other number is kept as it is.
pub proof fn lemma_soft_body_aero_model_table(v: i32)
    ensures
        v == 0 ==> spec_soft_body_aero_model(v) == PmxSoftBodyAeroModel::VertexPoint,
        v == 1 ==> spec_soft_body_aero_model(v) == PmxSoftBodyAeroModel::VertexTwoSided,
        v == 2 ==> spec_soft_body_aero_model(v) == PmxSoftBodyAeroModel::VertexOneSided,
        v == 3 ==> spec_soft_body_aero_model(v) == PmxSoftBodyAeroModel::FaceTwoSided,
        v == 4 ==> spec_soft_body_aero_model(v) == PmxSoftBodyAeroModel::FaceOneSided,
        (v < 0 || v > 4) ==> spec_soft_body_aero_model(v) == PmxSoftBodyAeroModel::Other(v),
{
}

/// The skinning of a vertex is of the kind its type byte names: 0 BDEF1, 1 BDEF2, 2 BDEF4,
/// 3 SDEF, 4 QDEF; any other byte is refused.
pub proof fn lemma_weight_type_table(bone_size: u8, s: Seq<u8>, p: int)
    requires
        0 <= p < s.len(),
    ensures
        spec_weight(bone_size, s, p) matches Ok((w, _)) ==> {
            &&& s[p] == 0 ==> w is Bdef1
            &&& s[p] == 1 ==> w is Bdef2
            &&& s[p] == 2 ==> w is Bdef4
            &&& s[p] == 3 ==> w is Sdef
            &&& s[p] == 4 ==> w is Qdef
        },
        s[p] > 4 ==> spec_weight(bone_size, s, p) is Err,
{
}

/// An item of a display frame is a bone when its tag byte is 0 and a morph when it is 1; any
/// other tag is refused.
pub proof fn lemma_display_frame_item_table(h: SpecHeader, s: Seq<u8>, p: int)
    requires
        0 <= p < s.len(),
    ensures
        spec_display_frame_item(h, s, p) matches Ok((item, _)) ==> {
            &&& s[p] == 0 ==> item is Bone
            &&& s[p] == 1 ==> item is Morph
        },
        s[p] > 1 ==> spec_display_frame_item(h, s, p) is Err,
{
}

} // verus!
