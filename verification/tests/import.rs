use bevy_pmx::asset::surface_total_fits;
use bevy_pmx::asset::{build_primitives, PmxMaterialBinding};
use bevy_pmx::format::{
    PmxBone, PmxBoneFlags, PmxBoneTail, PmxDocument, PmxHeader, PmxJoint, PmxJointKind,
    PmxMaterial, PmxMaterialFlags, PmxMorph, PmxMorphKind, PmxMorphOffset, PmxMorphPanel,
    PmxRigidBody, PmxRigidBodyMode, PmxRigidBodyShape, PmxSoftBody, PmxSoftBodyShape,
    PmxSphereMode, PmxTexture, PmxVertex, PmxVertexWeight,
};
use bevy_pmx::format::model::{
    PmxSoftBodyAeroModel, PmxSoftBodyAnchorRigidBody, PmxSoftBodyCluster, PmxSoftBodyConfig,
    PmxSoftBodyFlags, PmxSoftBodyIteration, PmxSoftBodyMaterial,
};
use bevy_pmx::import::texture_plans;
use bevy_pmx::source::PmxSourceLocation;
use bevy_pmx::{
    import_pmx, Pmx, PmxBoneRecord, PmxImportContext, PmxMaterialRecord, PmxMeshGeometry,
    PmxMorphRecord, PmxPrimitive, PmxSource,
};

fn f(value: f32) -> u32 {
    value.to_bits()
}

fn v3(values: [f32; 3]) -> [u32; 3] {
    [f(values[0]), f(values[1]), f(values[2])]
}

fn v4(values: [f32; 4]) -> [u32; 4] {
    [f(values[0]), f(values[1]), f(values[2]), f(values[3])]
}

fn vertex(position: [f32; 3], uv: [f32; 2]) -> PmxVertex {
    PmxVertex {
        position: v3(position),
        normal: v3([0.0, 0.0, 1.0]),
        uv: [f(uv[0]), f(uv[1])],
        additional_uvs: Vec::new(),
        weight: PmxVertexWeight::Bdef1 { bone: -1 },
        edge_scale: f(1.0),
    }
}

fn material(name: &str, texture_index: i32, surface_count: u32) -> PmxMaterial {
    PmxMaterial {
        name: name.to_owned(),
        name_english: name.to_owned(),
        diffuse: v4([1.0, 1.0, 1.0, 1.0]),
        specular: v3([0.0, 0.0, 0.0]),
        specular_strength: f(1.0),
        ambient: v3([0.0, 0.0, 0.0]),
        flags: PmxMaterialFlags::default(),
        edge_color: v4([0.0, 0.0, 0.0, 0.0]),
        edge_size: f(1.0),
        texture_index,
        sphere_texture_index: -1,
        sphere_mode: PmxSphereMode::Disabled,
        toon_sharing: false,
        toon_texture_index: -1,
        comment: String::new(),
        surface_count,
    }
}

fn bone(name: &str, parent_bone: i32, position: [f32; 3]) -> PmxBone {
    PmxBone {
        name: name.to_owned(),
        name_english: name.to_owned(),
        position: v3(position),
        parent_bone,
        layer: 0,
        flags: PmxBoneFlags::default(),
        tail: PmxBoneTail::Offset(v3([0.0, 1.0, 0.0])),
        inheritance: None,
        fixed_axis: None,
        local_axes: None,
        external_parent: -1,
        ik: None,
    }
}

fn sample_document() -> PmxDocument {
    PmxDocument {
        header: PmxHeader::default(),
        vertices: vec![
            vertex([0.0, 0.0, 0.0], [0.0, 0.0]),
            vertex([1.0, 0.0, 0.0], [1.0, 0.0]),
            vertex([0.0, 1.0, 0.0], [0.0, 1.0]),
        ],
        indices: vec![0, 1, 2],
        textures: vec![PmxTexture { path: "Texture/face.png".to_owned() }],
        materials: vec![material("mat", 0, 3)],
        bones: vec![bone("root", -1, [0.0, 0.0, 0.0]), bone("child", 0, [0.0, 1.0, 0.0])],
        morphs: Vec::new(),
        display_frames: Vec::new(),
        rigid_bodies: vec![PmxRigidBody {
            name: "rigid".to_owned(),
            name_english: "rigid".to_owned(),
            bone_index: 0,
            group: 1,
            mask: 0xffff,
            shape: PmxRigidBodyShape::Sphere,
            size: v3([0.5, 0.5, 0.5]),
            position: v3([0.0, 1.0, 0.0]),
            rotation: v3([0.0, 0.0, 0.0]),
            mass: f(1.0),
            linear_damping: f(0.5),
            angular_damping: f(0.5),
            restitution: f(0.3),
            friction: f(0.4),
            mode: PmxRigidBodyMode::Physics,
        }],
        joints: vec![PmxJoint {
            name: "joint".to_owned(),
            name_english: "joint".to_owned(),
            joint_type: PmxJointKind::Spring6Dof,
            body_a: 0,
            body_b: 0,
            position: v3([0.0, 0.0, 0.0]),
            rotation: v3([0.0, 0.0, 0.0]),
            translation_limit_min: v3([-1.0, -1.0, -1.0]),
            translation_limit_max: v3([1.0, 1.0, 1.0]),
            rotation_limit_min: v3([-0.1, -0.1, -0.1]),
            rotation_limit_max: v3([0.1, 0.1, 0.1]),
            spring_translation: v3([0.0, 0.0, 0.0]),
            spring_rotation: v3([0.0, 0.0, 0.0]),
        }],
        soft_bodies: vec![PmxSoftBody {
            name: "soft".to_owned(),
            name_english: "soft".to_owned(),
            shape: PmxSoftBodyShape::Rope,
            material_index: 0,
            group: 1,
            mask: 0xffff,
            flags: PmxSoftBodyFlags(PmxSoftBodyFlags::B_LINK),
            b_link_distance: 1,
            num_clusters: 2,
            total_mass: f(1.0),
            collision_margin: f(0.05),
            aero_model: PmxSoftBodyAeroModel::VertexPoint,
            config: PmxSoftBodyConfig {
                vcf: f(0.1),
                dp: f(0.2),
                dg: f(0.3),
                lf: f(0.4),
                pr: f(0.5),
                vc: f(0.6),
                df: f(0.7),
                mt: f(0.8),
                chr: f(0.9),
                khr: f(1.0),
                shr: f(1.1),
                ahr: f(1.2),
            },
            cluster: PmxSoftBodyCluster {
                srhr_cl: f(1.3),
                skhr_cl: f(1.4),
                sshr_cl: f(1.5),
                sr_splt_cl: f(1.6),
                sk_splt_cl: f(1.7),
                ss_splt_cl: f(1.8),
            },
            iteration: PmxSoftBodyIteration { v_it: 5, p_it: 6, d_it: 7, c_it: 8 },
            material: PmxSoftBodyMaterial { lst: f(0.2), ast: f(0.3), vst: f(0.4) },
            anchor_rigid_bodies: vec![PmxSoftBodyAnchorRigidBody {
                rigid_body_index: 0,
                vertex_index: 1,
                near_mode: true,
            }],
            pin_vertices: vec![2],
        }],
    }
}

/// Imports with every texture probe unanswered, so each texture takes its fallback location.
fn import_without_answers(document: PmxDocument, context: &PmxImportContext) -> Pmx {
    let answers: Vec<Vec<Option<PmxSourceLocation>>> = vec![Vec::new(); document.textures.len()];
    import_pmx(document, context, &answers).model
}

#[test]
fn import_context_defaults_to_retaining_raw_documents() {
    let context = PmxImportContext::default();

    assert!(context.keep_raw_document);
}

#[test]
fn import_pmx_keeps_or_drops_the_raw_document_without_changing_geometry() {
    let source = PmxSource::folder("/tmp/bevy_pmx_import_fixture");
    let keep_context = PmxImportContext {
        source: Some(source.clone()),
        keep_raw_document: true,
        ..PmxImportContext::default()
    };
    let drop_context = PmxImportContext {
        source: Some(source),
        keep_raw_document: false,
        ..PmxImportContext::default()
    };
    let document = sample_document();

    let kept = import_without_answers(document.clone(), &keep_context);
    assert!(kept.raw_document().is_some());
    assert_eq!(
        kept.geometry.positions,
        document.vertices.iter().map(|v| v.position).collect::<Vec<_>>()
    );
    assert_eq!(kept.material_records.len(), 1);
    assert_eq!(kept.material_records[0].material.name, "mat");
    assert_eq!(kept.primitives.len(), 1);
    assert_eq!(kept.primitives[0].index_count, 3);
    assert_eq!(kept.primitives[0].material_index, 0);
    assert_eq!(kept.texture_paths.len(), 1);
    assert_eq!(kept.bone_records().len(), 2);
    assert_eq!(kept.bone_records()[0].children, vec![1]);
    assert_eq!(kept.bone_records()[1].parent_index, Some(0));
    assert_eq!(kept.root_bones().len(), 1);
    assert_eq!(kept.rigid_body_records().len(), 1);
    assert_eq!(kept.rigid_body_records()[0].rigid_body.name, "rigid");
    assert_eq!(kept.joint_records().len(), 1);
    assert_eq!(kept.joint_records()[0].joint.name, "joint");
    assert_eq!(kept.soft_body_records().len(), 1);
    assert_eq!(kept.soft_body_records()[0].soft_body.name, "soft");
    assert_eq!(kept.soft_body_records()[0].soft_body.shape, PmxSoftBodyShape::Rope);
    assert_eq!(kept.soft_body_records()[0].soft_body.material_index, 0);

    let dropped = import_without_answers(document, &drop_context);
    assert!(dropped.raw_document().is_none());
    assert_eq!(dropped.geometry.indices, vec![0, 1, 2]);
    assert_eq!(dropped.material_records.len(), 1);
    assert_eq!(dropped.bone_records().len(), 2);
    assert_eq!(dropped.bone_records()[0].children, vec![1]);
    assert_eq!(dropped.root_bones().len(), 1);
    assert_eq!(dropped.rigid_body_records().len(), 1);
    assert_eq!(dropped.joint_records().len(), 1);
    assert_eq!(dropped.soft_body_records().len(), 1);
}

#[test]
fn keeping_the_raw_document_changes_nothing_else() {
    let document = sample_document();
    let kept = import_without_answers(document.clone(), &PmxImportContext::default());
    let dropped = import_without_answers(
        document.clone(),
        &PmxImportContext { keep_raw_document: false, ..PmxImportContext::default() },
    );

    assert_eq!(kept.raw_document(), Some(&document));
    assert_eq!(dropped.raw_document(), None);
    assert_eq!(kept.bones().len(), 2);
    assert!(dropped.bones().is_empty());
    assert_eq!(kept.geometry, dropped.geometry);
    assert_eq!(kept.texture_paths, dropped.texture_paths);
    assert_eq!(kept.material_records, dropped.material_records);
    assert_eq!(kept.morph_records, dropped.morph_records);
    assert_eq!(kept.bone_records, dropped.bone_records);
    assert_eq!(kept.rigid_body_records, dropped.rigid_body_records);
    assert_eq!(kept.joint_records, dropped.joint_records);
    assert_eq!(kept.soft_body_records, dropped.soft_body_records);
    assert_eq!(kept.primitives, dropped.primitives);
}

#[test]
fn unanswered_textures_fall_back_to_the_source_location() {
    let document = sample_document();
    let context = PmxImportContext::with_source(PmxSource::folder("/models/sample"));
    let model = import_without_answers(document, &context);

    assert_eq!(model.texture_paths[0].original, "Texture/face.png");
    assert_eq!(
        model.texture_paths[0].location,
        PmxSourceLocation::disk("/models/sample/Texture/face.png")
    );
}

#[test]
fn texture_plans_list_one_plan_per_document_texture() {
    let mut document = sample_document();
    document.textures.push(PmxTexture { path: "  toon01.bmp ".to_owned() });
    let context = PmxImportContext::with_source(PmxSource::folder("model"));
    let plans = texture_plans(&document, &context);

    assert_eq!(plans.len(), 2);
    assert_eq!(plans[0].original, "Texture/face.png");
    assert_eq!(plans[1].original, "  toon01.bmp ");
    assert_eq!(plans[1].fallback, PmxSourceLocation::disk("model/toon01.bmp"));
}

fn morph_sample_document() -> PmxDocument {
    PmxDocument {
        header: PmxHeader {
            model_name: "morph sample".to_owned(),
            model_name_english: "morph sample".to_owned(),
            ..PmxHeader::default()
        },
        vertices: vec![
            vertex([0.0, 0.0, 0.0], [0.0, 0.0]),
            vertex([1.0, 0.0, 0.0], [1.0, 0.0]),
            vertex([0.0, 1.0, 0.0], [0.0, 1.0]),
        ],
        indices: vec![0, 1, 2],
        textures: Vec::new(),
        materials: vec![material("material", -1, 3)],
        bones: Vec::new(),
        morphs: vec![
            PmxMorph {
                name: "vertex_morph".to_owned(),
                name_english: "vertex_morph".to_owned(),
                panel: PmxMorphPanel::Eye,
                kind: PmxMorphKind::Vertex,
                offsets: vec![PmxMorphOffset::Vertex { vertex_index: 1, offset: v3([0.25, 0.5, 0.75]) }],
            },
            PmxMorph {
                name: "flip_morph".to_owned(),
                name_english: "flip_morph".to_owned(),
                panel: PmxMorphPanel::Other,
                kind: PmxMorphKind::Flip,
                offsets: vec![PmxMorphOffset::Flip { morph_index: 0, influence: f(0.75) }],
            },
        ],
        display_frames: Vec::new(),
        rigid_bodies: Vec::new(),
        joints: Vec::new(),
        soft_bodies: Vec::new(),
    }
}

#[test]
fn morph_records_keep_document_order_with_or_without_raw_document() {
    let document = morph_sample_document();
    let expected_records = PmxMorphRecord::from_document(&document.morphs);

    let kept = import_without_answers(
        document.clone(),
        &PmxImportContext { keep_raw_document: true, ..PmxImportContext::default() },
    );
    let dropped = import_without_answers(
        document,
        &PmxImportContext { keep_raw_document: false, ..PmxImportContext::default() },
    );

    assert!(kept.raw_document().is_some());
    assert!(dropped.raw_document().is_none());

    assert_eq!(kept.morph_records(), expected_records.as_slice());
    assert_eq!(dropped.morph_records(), expected_records.as_slice());
    assert_eq!(kept.morph_records(), dropped.morph_records());
}

#[test]
fn morph_record_from_document_preserves_kind_and_offsets() {
    let expected_offsets = vec![PmxMorphOffset::Flip { morph_index: 0, influence: f(0.5) }];
    let morph = PmxMorph {
        name: "flip_morph".to_owned(),
        name_english: "flip_morph".to_owned(),
        panel: PmxMorphPanel::Other,
        kind: PmxMorphKind::Flip,
        offsets: expected_offsets.clone(),
    };

    let records = PmxMorphRecord::from_document(&[morph.clone()]);

    assert_eq!(records.len(), 1);
    assert_eq!(records[0].kind, morph.kind);
    assert_eq!(records[0].offsets, expected_offsets);
}

#[test]
fn builds_document_order_hierarchy_from_raw_bones() {
    let bones = vec![bone("root", -1, [0.0, 0.0, 0.0]), bone("child", 0, [0.0, 1.0, 0.0])];

    let records = PmxBoneRecord::from_document(&bones);

    assert_eq!(records.len(), 2);
    assert!(records[0].is_root());
    assert_eq!(records[0].parent_bone, -1);
    assert_eq!(records[0].children, vec![1]);
    assert_eq!(records[1].parent_bone, 0);
    assert_eq!(records[1].parent_index, Some(0));
    assert!(records[1].children.is_empty());
    assert!(!records[1].is_root());
}

#[test]
fn self_parented_and_out_of_range_bones_are_roots() {
    let bones = vec![bone("a", 0, [0.0; 3]), bone("b", 7, [0.0; 3]), bone("c", 1, [0.0; 3])];

    let records = PmxBoneRecord::from_document(&bones);

    assert_eq!(records[0].parent_index, None);
    assert_eq!(records[1].parent_index, None);
    assert_eq!(records[2].parent_index, Some(1));
    assert_eq!(records[1].children, vec![2]);
    assert!(records[0].children.is_empty());
}

#[test]
fn primitive_mesh_uses_only_its_index_range() {
    let geometry = PmxMeshGeometry {
        positions: vec![
            v3([0.0, 0.0, 0.0]),
            v3([1.0, 0.0, 0.0]),
            v3([1.0, 1.0, 0.0]),
            v3([0.0, 1.0, 0.0]),
        ],
        normals: vec![v3([0.0, 0.0, 1.0]); 4],
        uvs: vec![[f(0.0), f(0.0)], [f(1.0), f(0.0)], [f(1.0), f(1.0)], [f(0.0), f(1.0)]],
        indices: vec![0, 1, 2, 0, 2, 3],
    };
    let primitive = PmxPrimitive { material_index: 0, index_start: 3, index_count: 3 };

    assert_eq!(geometry.positions.len(), 4);
    assert_eq!(geometry.primitive_indices(primitive), vec![0, 2, 3]);
}

#[test]
fn mesh_geometry_can_be_materialized_into_a_bevy_mesh() {
    let document = sample_document();
    let geometry = PmxMeshGeometry::from_document(&document);

    assert_eq!(geometry.positions.len(), 3);
    assert_eq!(geometry.normals.len(), 3);
    assert_eq!(geometry.uvs.len(), 3);
    assert_eq!(
        geometry.positions,
        vec![v3([0.0, 0.0, 0.0]), v3([1.0, 0.0, 0.0]), v3([0.0, 1.0, 0.0])]
    );
    assert_eq!(geometry.indices, vec![0, 1, 2]);
}

#[test]
fn primitives_tile_the_index_buffer_in_material_order() {
    let materials = vec![material("a", -1, 6), material("b", -1, 0), material("c", -1, 9)];

    let primitives = build_primitives(&materials);

    assert_eq!(
        primitives,
        vec![
            PmxPrimitive { material_index: 0, index_start: 0, index_count: 6 },
            PmxPrimitive { material_index: 1, index_start: 6, index_count: 0 },
            PmxPrimitive { material_index: 2, index_start: 6, index_count: 9 },
        ]
    );
}

#[test]
fn material_assets_bind_loaded_texture_handles_in_document_order() {
    let mut m = material("mat", 0, 3);
    m.sphere_texture_index = 1;
    m.sphere_mode = PmxSphereMode::Multiply;
    m.toon_texture_index = 2;
    let record = PmxMaterialRecord::new(m);

    let binding = PmxMaterialBinding::from_record(&record, 3);

    assert_eq!(record.material.name, "mat");
    assert_eq!(binding.diffuse_texture, Some(0));
    assert_eq!(binding.sphere_texture, Some(1));
    assert_eq!(binding.toon_texture, Some(2));
    assert_eq!(binding.shared_toon_index, None);
}

#[test]
fn shared_toon_materials_keep_the_shared_toon_index() {
    let mut m = material("toon", -1, 3);
    m.toon_sharing = true;
    m.toon_texture_index = 4;
    let record = PmxMaterialRecord::new(m);

    let binding = PmxMaterialBinding::from_record(&record, 0);

    assert!(binding.diffuse_texture.is_none());
    assert!(binding.sphere_texture.is_none());
    assert!(binding.toon_texture.is_none());
    assert_eq!(binding.shared_toon_index, Some(4));
}

#[test]
fn texture_indices_past_the_loaded_textures_bind_nothing() {
    let mut m = material("mat", 5, 3);
    m.sphere_texture_index = -3;
    m.toon_texture_index = 1;
    let record = PmxMaterialRecord::new(m);

    let binding = PmxMaterialBinding::from_record(&record, 2);

    assert_eq!(binding.diffuse_texture, None);
    assert_eq!(binding.sphere_texture, None);
    assert_eq!(binding.toon_texture, Some(1));
}

#[test]
fn surface_totals_are_checked_before_import() {

    assert!(surface_total_fits(&[material("a", -1, 3), material("b", -1, u32::MAX)]));
    assert!(surface_total_fits(&[]));
}

#[test]
fn flag_defaults_have_no_flag_set() {
    let flags = PmxMaterialFlags(0x11);
    assert!(flags.contains(PmxMaterialFlags::NO_CULL));
    assert!(flags.contains(PmxMaterialFlags::HAS_EDGE));
    assert!(!flags.contains(PmxMaterialFlags::GROUND_SHADOW));
    assert!(!flags.contains(PmxMaterialFlags::LINE_DRAWING));
    assert!(PmxMaterialFlags(0x80).contains(PmxMaterialFlags::LINE_DRAWING));
    assert!(!PmxMaterialFlags::default().contains(PmxMaterialFlags::NO_CULL));
    assert_eq!(PmxMaterialFlags::default().0, 0);
    assert_eq!(PmxBoneFlags::default().0, 0);
    assert_eq!(PmxSoftBodyFlags::default().0, 0);
}

#[test]
fn geometry_and_primitive_defaults_are_empty() {
    let geometry = PmxMeshGeometry::default();
    assert!(geometry.positions.is_empty());
    assert!(geometry.normals.is_empty());
    assert!(geometry.uvs.is_empty());
    assert!(geometry.indices.is_empty());
    assert_eq!(
        PmxPrimitive::default(),
        PmxPrimitive { material_index: 0, index_start: 0, index_count: 0 }
    );
}
