use bevy_pmx::PmxAssetLabel;

#[test]
fn morph_labels_match_the_actual_morph_subasset_name() {
    assert_eq!(PmxAssetLabel::Morph(0).to_string(), "Morph/0");
    assert_eq!(PmxAssetLabel::Morph(12).to_string(), "Morph/12");
}

#[test]
fn physics_labels_match_the_actual_physics_subasset_name() {
    assert_eq!(PmxAssetLabel::RigidBody(0).to_string(), "RigidBody/0");
    assert_eq!(PmxAssetLabel::Joint(12).to_string(), "Joint/12");
    assert_eq!(PmxAssetLabel::SoftBody(7).to_string(), "SoftBody/7");
}

#[test]
fn mesh_labels_match_the_actual_mesh_subasset_name() {
    assert_eq!(PmxAssetLabel::Mesh.to_string(), "Mesh");
    assert_eq!(PmxAssetLabel::Texture(3).to_string(), "Texture/3");
}

#[test]
fn every_label_kind_has_its_own_name() {
    assert_eq!(PmxAssetLabel::Root.to_string(), "Root");
    assert_eq!(PmxAssetLabel::Material(1).to_string(), "Material/1");
    assert_eq!(PmxAssetLabel::Bone(25).to_string(), "Bone/25");
    assert_eq!(PmxAssetLabel::Primitive(9).to_string(), "Primitive/9");
}

#[test]
fn label_indices_are_written_in_full_decimal() {
    assert_eq!(PmxAssetLabel::Texture(10).to_string(), "Texture/10");
    assert_eq!(PmxAssetLabel::Morph(1005).to_string(), "Morph/1005");
    assert_eq!(
        PmxAssetLabel::Joint(usize::MAX).to_string(),
        format!("Joint/{}", usize::MAX)
    );
}
