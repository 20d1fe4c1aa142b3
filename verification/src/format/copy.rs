//! Copies of document values that keep their views.

use vstd::prelude::*;

use super::model::{PmxBone, PmxIk, PmxJoint, PmxMaterial, PmxMorph, PmxRigidBody, PmxSoftBody};

verus! {

/// A copy of an IK block.
pub fn copy_ik(ik: &PmxIk) -> (r: PmxIk)
    ensures
        r@ == ik@,
{
    PmxIk {
        target_bone: ik.target_bone,
        iterations: ik.iterations,
        limit_radians: ik.limit_radians,
        links: vstd::slice::slice_to_vec(ik.links.as_slice()),
    }
}

/// A copy of a bone.
pub fn copy_bone(bone: &PmxBone) -> (r: PmxBone)
    ensures
        r@ == bone@,
{
    let ik = match &bone.ik {
        Some(ik) => Some(copy_ik(ik)),
        None => None,
    };
    PmxBone {
        name: bone.name.clone(),
        name_english: bone.name_english.clone(),
        position: bone.position,
        parent_bone: bone.parent_bone,
        layer: bone.layer,
        flags: bone.flags,
        tail: bone.tail,
        inheritance: bone.inheritance,
        fixed_axis: bone.fixed_axis,
        local_axes: bone.local_axes,
        external_parent: bone.external_parent,
        ik,
    }
}

/// A copy of a material.
pub fn copy_material(m: &PmxMaterial) -> (r: PmxMaterial)
    ensures
        r@ == m@,
{
    PmxMaterial {
        name: m.name.clone(),
        name_english: m.name_english.clone(),
        diffuse: m.diffuse,
        specular: m.specular,
        specular_strength: m.specular_strength,
        ambient: m.ambient,
        flags: m.flags,
        edge_color: m.edge_color,
        edge_size: m.edge_size,
        texture_index: m.texture_index,
        sphere_texture_index: m.sphere_texture_index,
        sphere_mode: m.sphere_mode,
        toon_sharing: m.toon_sharing,
        toon_texture_index: m.toon_texture_index,
        comment: m.comment.clone(),
        surface_count: m.surface_count,
    }
}

/// A copy of a morph.
pub fn copy_morph(m: &PmxMorph) -> (r: PmxMorph)
    ensures
        r@ == m@,
{
    PmxMorph {
        name: m.name.clone(),
        name_english: m.name_english.clone(),
        panel: m.panel,
        kind: m.kind,
        offsets: vstd::slice::slice_to_vec(m.offsets.as_slice()),
    }
}

/// A copy of a rigid body.
pub fn copy_rigid_body(b: &PmxRigidBody) -> (r: PmxRigidBody)
    ensures
        r@ == b@,
{
    PmxRigidBody {
        name: b.name.clone(),
        name_english: b.name_english.clone(),
        bone_index: b.bone_index,
        group: b.group,
        mask: b.mask,
        shape: b.shape,
        size: b.size,
        position: b.position,
        rotation: b.rotation,
        mass: b.mass,
        linear_damping: b.linear_damping,
        angular_damping: b.angular_damping,
        restitution: b.restitution,
        friction: b.friction,
        mode: b.mode,
    }
}

/// A copy of a joint.
pub fn copy_joint(j: &PmxJoint) -> (r: PmxJoint)
    ensures
        r@ == j@,
{
    PmxJoint {
        name: j.name.clone(),
        name_english: j.name_english.clone(),
        joint_type: j.joint_type,
        body_a: j.body_a,
        body_b: j.body_b,
        position: j.position,
        rotation: j.rotation,
        translation_limit_min: j.translation_limit_min,
        translation_limit_max: j.translation_limit_max,
        rotation_limit_min: j.rotation_limit_min,
        rotation_limit_max: j.rotation_limit_max,
        spring_translation: j.spring_translation,
        spring_rotation: j.spring_rotation,
    }
}

/// A copy of a soft body.
pub fn copy_soft_body(b: &PmxSoftBody) -> (r: PmxSoftBody)
    ensures
        r@ == b@,
{
    PmxSoftBody {
        name: b.name.clone(),
        name_english: b.name_english.clone(),
        shape: b.shape,
        material_index: b.material_index,
        group: b.group,
        mask: b.mask,
        flags: b.flags,
        b_link_distance: b.b_link_distance,
        num_clusters: b.num_clusters,
        total_mass: b.total_mass,
        collision_margin: b.collision_margin,
        aero_model: b.aero_model,
        config: b.config,
        cluster: b.cluster,
        iteration: b.iteration,
        material: b.material,
        anchor_rigid_bodies: vstd::slice::slice_to_vec(b.anchor_rigid_bodies.as_slice()),
        pin_vertices: vstd::slice::slice_to_vec(b.pin_vertices.as_slice()),
    }
}

} // verus!
