use vstd::prelude::*;

verus! {

/// The view of a sequence of values, element by element.
pub open spec fn seq_view<T: View>(s: Seq<T>) -> Seq<T::V> {
    Seq::new(s.len(), |i: int| s[i]@)
}

pub proof fn lemma_seq_view_push<T: View>(s: Seq<T>, x: T)
    ensures
        seq_view(s.push(x)) == seq_view(s).push(x@),
{
    assert(seq_view(s.push(x)) =~= seq_view(s).push(x@));
}

pub proof fn lemma_seq_view_empty<T: View>(s: Seq<T>)
    requires
        s.len() == 0,
    ensures
        seq_view(s) == Seq::<T::V>::empty(),
{
    assert(seq_view(s) =~= Seq::<T::V>::empty());
}

/// IEEE-754 bit pattern of the PMX version 2.0.
pub const PMX_VERSION_2_0_BITS: u32 = 0x4000_0000;

/// IEEE-754 bit pattern of the PMX version 2.1.
pub const PMX_VERSION_2_1_BITS: u32 = 0x4006_6666;

#[derive(Debug, Clone, Copy, PartialEq, Eq)]
pub enum PmxTextEncoding {
    Utf8,
    Utf16Le,
}

impl Default for PmxTextEncoding {
    fn default() -> (r: Self)
        ensures
            r == PmxTextEncoding::Utf8,
    {
        PmxTextEncoding::Utf8
    }
}

#[derive(Debug, Clone, Copy, PartialEq, Eq)]
pub struct PmxBoneFlags(pub u16);

impl Default for PmxBoneFlags {
    /// No flag set.
    fn default() -> (r: Self)
        ensures
            r.0 == 0,
    {
        PmxBoneFlags(0)
    }
}

impl PmxBoneFlags {
    pub const TAIL_BONE: u16 = 0x0001;
    pub const ROTATABLE: u16 = 0x0002;
    pub const TRANSLATABLE: u16 = 0x0004;
    pub const VISIBLE: u16 = 0x0008;
    pub const ENABLED: u16 = 0x0010;
    pub const IK: u16 = 0x0020;
    pub const INHERIT_ROTATION: u16 = 0x0100;
    pub const INHERIT_TRANSLATION: u16 = 0x0200;
    pub const FIXED_AXIS: u16 = 0x0400;
    pub const LOCAL_AXES: u16 = 0x0800;
    pub const AFTER_PHYSICS: u16 = 0x1000;
    pub const EXTERNAL_PARENT_DEFORM: u16 = 0x2000;

    pub open spec fn spec_contains(self, flag: u16) -> bool {
        self.0 & flag != 0
    }

    /// True when any bit of `flag` is set.
    pub fn contains(self, flag: u16) -> (r: bool)
        ensures
            r == self.spec_contains(flag),
    {
        self.0 & flag != 0
    }
}

#[derive(Debug, Clone, Copy, PartialEq, Eq)]
pub struct PmxMaterialFlags(pub u8);

impl Default for PmxMaterialFlags {
    /// No flag set.
    fn default() -> (r: Self)
        ensures
            r.0 == 0,
    {
        PmxMaterialFlags(0)
    }
}

impl PmxMaterialFlags {
    pub const NO_CULL: u8 = 0x01;
    pub const GROUND_SHADOW: u8 = 0x02;
    pub const DRAW_SHADOW: u8 = 0x04;
    pub const RECEIVE_SHADOW: u8 = 0x08;
    pub const HAS_EDGE: u8 = 0x10;
    pub const VERTEX_COLOR: u8 = 0x20;
    pub const POINT_DRAWING: u8 = 0x40;
    pub const LINE_DRAWING: u8 = 0x80;

    pub open spec fn spec_contains(self, flag: u8) -> bool {
        self.0 & flag != 0
    }

    /// True when any bit of `flag` is set.
    pub fn contains(self, flag: u8) -> (r: bool)
        ensures
            r == self.spec_contains(flag),
    {
        self.0 & flag != 0
    }
}

/// Soft body flags byte.
#[derive(Debug, Clone, Copy, PartialEq, Eq)]
pub struct PmxSoftBodyFlags(pub u8);

impl Default for PmxSoftBodyFlags {
    /// No flag set.
    fn default() -> (r: Self)
        ensures
            r.0 == 0,
    {
        PmxSoftBodyFlags(0)
    }
}

impl PmxSoftBodyFlags {
    pub const B_LINK: u8 = 0x01;
    pub const CLUSTER_CREATION: u8 = 0x02;
    pub const LINK_CROSSING: u8 = 0x04;

    pub open spec fn spec_contains(self, flag: u8) -> bool {
        self.0 & flag != 0
    }

    /// True when any bit of `flag` is set.
    pub fn contains(self, flag: u8) -> (r: bool)
        ensures
            r == self.spec_contains(flag),
    {
        self.0 & flag != 0
    }
}

/// PMX file header. `version` is the IEEE-754 bit pattern of the version number.
#[derive(Debug, Clone, PartialEq)]
pub struct PmxHeader {
    pub magic: [u8; 4],
    pub version: u32,
    pub header_size: u8,
    pub encoding: PmxTextEncoding,
    pub additional_uv_count: u8,
    pub vertex_index_size: u8,
    pub texture_index_size: u8,
    pub material_index_size: u8,
    pub bone_index_size: u8,
    pub morph_index_size: u8,
    pub rigid_body_index_size: u8,
    pub model_name: String,
    pub model_name_english: String,
    pub comment: String,
    pub comment_english: String,
}

pub struct SpecHeader {
    pub magic: [u8; 4],
    pub version: u32,
    pub header_size: u8,
    pub encoding: PmxTextEncoding,
    pub additional_uv_count: u8,
    pub vertex_index_size: u8,
    pub texture_index_size: u8,
    pub material_index_size: u8,
    pub bone_index_size: u8,
    pub morph_index_size: u8,
    pub rigid_body_index_size: u8,
    pub model_name: Seq<char>,
    pub model_name_english: Seq<char>,
    pub comment: Seq<char>,
    pub comment_english: Seq<char>,
}

impl View for PmxHeader {
    type V = SpecHeader;

    open spec fn view(&self) -> SpecHeader {
        SpecHeader {
            magic: self.magic,
            version: self.version,
            header_size: self.header_size,
            encoding: self.encoding,
            additional_uv_count: self.additional_uv_count,
            vertex_index_size: self.vertex_index_size,
            texture_index_size: self.texture_index_size,
            material_index_size: self.material_index_size,
            bone_index_size: self.bone_index_size,
            morph_index_size: self.morph_index_size,
            rigid_body_index_size: self.rigid_body_index_size,
            model_name: self.model_name@,
            model_name_english: self.model_name_english@,
            comment: self.comment@,
            comment_english: self.comment_english@,
        }
    }
}

impl Default for PmxHeader {
    fn default() -> (r: Self)
        ensures
            r.magic == [0x50u8, 0x4d, 0x58, 0x20],
            r.version == PMX_VERSION_2_0_BITS,
            r.header_size == 8,
            r.encoding == PmxTextEncoding::Utf8,
            r.additional_uv_count == 0,
            r.vertex_index_size == 4,
            r.texture_index_size == 4,
            r.material_index_size == 4,
            r.bone_index_size == 4,
            r.morph_index_size == 4,
            r.rigid_body_index_size == 4,
            r.model_name@ == Seq::<char>::empty(),
            r.model_name_english@ == Seq::<char>::empty(),
            r.comment@ == Seq::<char>::empty(),
            r.comment_english@ == Seq::<char>::empty(),
    {
        PmxHeader {
            magic: [0x50u8, 0x4d, 0x58, 0x20],
            version: PMX_VERSION_2_0_BITS,
            header_size: 8,
            encoding: PmxTextEncoding::Utf8,
            additional_uv_count: 0,
            vertex_index_size: 4,
            texture_index_size: 4,
            material_index_size: 4,
            bone_index_size: 4,
            morph_index_size: 4,
            rigid_body_index_size: 4,
            model_name: String::new(),
            model_name_english: String::new(),
            comment: String::new(),
            comment_english: String::new(),
        }
    }
}

#[derive(Debug, Clone, Copy, PartialEq)]
pub enum PmxVertexWeight {
    Bdef1 { bone: i32 },
    Bdef2 { bone0: i32, bone1: i32, weight: u32 },
    Bdef4 { bones: [i32; 4], weights: [u32; 4] },
    Sdef { bone0: i32, bone1: i32, weight: u32, c: [u32; 3], r0: [u32; 3], r1: [u32; 3] },
    Qdef { bones: [i32; 4], weights: [u32; 4] },
}

#[derive(Debug, Clone, PartialEq)]
pub struct PmxVertex {
    pub position: [u32; 3],
    pub normal: [u32; 3],
    pub uv: [u32; 2],
    pub additional_uvs: Vec<[u32; 4]>,
    pub weight: PmxVertexWeight,
    pub edge_scale: u32,
}

pub struct SpecVertex {
    pub position: [u32; 3],
    pub normal: [u32; 3],
    pub uv: [u32; 2],
    pub additional_uvs: Seq<[u32; 4]>,
    pub weight: PmxVertexWeight,
    pub edge_scale: u32,
}

impl View for PmxVertex {
    type V = SpecVertex;

    open spec fn view(&self) -> SpecVertex {
        SpecVertex {
            position: self.position,
            normal: self.normal,
            uv: self.uv,
            additional_uvs: self.additional_uvs@,
            weight: self.weight,
            edge_scale: self.edge_scale,
        }
    }
}

#[derive(Debug, Clone, PartialEq)]
pub struct PmxTexture {
    pub path: String,
}

impl View for PmxTexture {
    type V = Seq<char>;

    open spec fn view(&self) -> Seq<char> {
        self.path@
    }
}

#[derive(Debug, Clone, Copy, PartialEq, Eq)]
pub enum PmxSphereMode {
    Disabled,
    Multiply,
    Add,
    SubTexture,
}

#[derive(Debug, Clone, PartialEq)]
pub struct PmxMaterial {
    pub name: String,
    pub name_english: String,
    pub diffuse: [u32; 4],
    pub specular: [u32; 3],
    pub specular_strength: u32,
    pub ambient: [u32; 3],
    pub flags: PmxMaterialFlags,
    pub edge_color: [u32; 4],
    pub edge_size: u32,
    pub texture_index: i32,
    pub sphere_texture_index: i32,
    pub sphere_mode: PmxSphereMode,
    pub toon_sharing: bool,
    pub toon_texture_index: i32,
    pub comment: String,
    /// Number of vertex indices contributed by this material.
    ///
    /// PMX stores material coverage as a triangle-index count, not as a primitive count.
    pub surface_count: u32,
}

pub struct SpecMaterial {
    pub name: Seq<char>,
    pub name_english: Seq<char>,
    pub diffuse: [u32; 4],
    pub specular: [u32; 3],
    pub specular_strength: u32,
    pub ambient: [u32; 3],
    pub flags: PmxMaterialFlags,
    pub edge_color: [u32; 4],
    pub edge_size: u32,
    pub texture_index: i32,
    pub sphere_texture_index: i32,
    pub sphere_mode: PmxSphereMode,
    pub toon_sharing: bool,
    pub toon_texture_index: i32,
    pub comment: Seq<char>,
    pub surface_count: u32,
}

impl View for PmxMaterial {
    type V = SpecMaterial;

    open spec fn view(&self) -> SpecMaterial {
        SpecMaterial {
            name: self.name@,
            name_english: self.name_english@,
            diffuse: self.diffuse,
            specular: self.specular,
            specular_strength: self.specular_strength,
            ambient: self.ambient,
            flags: self.flags,
            edge_color: self.edge_color,
            edge_size: self.edge_size,
            texture_index: self.texture_index,
            sphere_texture_index: self.sphere_texture_index,
            sphere_mode: self.sphere_mode,
            toon_sharing: self.toon_sharing,
            toon_texture_index: self.toon_texture_index,
            comment: self.comment@,
            surface_count: self.surface_count,
        }
    }
}

#[derive(Debug, Clone, Copy, PartialEq)]
pub enum PmxBoneTail {
    BoneIndex(i32),
    Offset([u32; 3]),
}

#[derive(Debug, Clone, Copy, PartialEq)]
pub struct PmxBoneInheritance {
    pub parent_bone: i32,
    pub influence: u32,
    pub affects_translation: bool,
    pub affects_rotation: bool,
}

#[derive(Debug, Clone, Copy, PartialEq)]
pub struct PmxBoneAxes {
    pub local_x: [u32; 3],
    pub local_z: [u32; 3],
}

#[derive(Debug, Clone, Copy, PartialEq)]
pub struct PmxIkLink {
    pub bone_index: i32,
    pub angle_limits: Option<([u32; 3], [u32; 3])>,
}

#[derive(Debug, Clone, PartialEq)]
pub struct PmxIk {
    pub target_bone: i32,
    pub iterations: u32,
    pub limit_radians: u32,
    pub links: Vec<PmxIkLink>,
}

pub struct SpecIk {
    pub target_bone: i32,
    pub iterations: u32,
    pub limit_radians: u32,
    pub links: Seq<PmxIkLink>,
}

impl View for PmxIk {
    type V = SpecIk;

    open spec fn view(&self) -> SpecIk {
        SpecIk {
            target_bone: self.target_bone,
            iterations: self.iterations,
            limit_radians: self.limit_radians,
            links: self.links@,
        }
    }
}

#[derive(Debug, Clone, PartialEq)]
pub struct PmxBone {
    pub name: String,
    pub name_english: String,
    pub position: [u32; 3],
    pub parent_bone: i32,
    pub layer: i32,
    pub flags: PmxBoneFlags,
    pub tail: PmxBoneTail,
    pub inheritance: Option<PmxBoneInheritance>,
    pub fixed_axis: Option<[u32; 3]>,
    pub local_axes: Option<PmxBoneAxes>,
    pub external_parent: i32,
    pub ik: Option<PmxIk>,
}

pub struct SpecBone {
    pub name: Seq<char>,
    pub name_english: Seq<char>,
    pub position: [u32; 3],
    pub parent_bone: i32,
    pub layer: i32,
    pub flags: PmxBoneFlags,
    pub tail: PmxBoneTail,
    pub inheritance: Option<PmxBoneInheritance>,
    pub fixed_axis: Option<[u32; 3]>,
    pub local_axes: Option<PmxBoneAxes>,
    pub external_parent: i32,
    pub ik: Option<SpecIk>,
}

pub open spec fn ik_view(ik: Option<PmxIk>) -> Option<SpecIk> {
    match ik {
        Some(ik) => Some(ik@),
        None => None,
    }
}

impl View for PmxBone {
    type V = SpecBone;

    open spec fn view(&self) -> SpecBone {
        SpecBone {
            name: self.name@,
            name_english: self.name_english@,
            position: self.position,
            parent_bone: self.parent_bone,
            layer: self.layer,
            flags: self.flags,
            tail: self.tail,
            inheritance: self.inheritance,
            fixed_axis: self.fixed_axis,
            local_axes: self.local_axes,
            external_parent: self.external_parent,
            ik: ik_view(self.ik),
        }
    }
}

#[derive(Debug, Clone, Copy, PartialEq, Eq)]
pub enum PmxMorphPanel {
    System,
    Eyebrow,
    Eye,
    Mouth,
    Other,
}

#[derive(Debug, Clone, Copy, PartialEq, Eq)]
pub enum PmxMorphKind {
    Group,
    Vertex,
    Bone,
    Uv,
    AdditionalUv(usize),
    Material,
    Flip,
    Impulse,
}

#[derive(Debug, Clone, Copy, PartialEq, Eq)]
pub enum PmxMaterialMorphOperation {
    Multiply,
    Add,
}

#[derive(Debug, Clone, Copy, PartialEq)]
pub struct PmxMaterialMorph {
    pub diffuse: [u32; 4],
    pub specular: [u32; 3],
    pub specular_strength: u32,
    pub ambient: [u32; 3],
    pub edge_color: [u32; 4],
    pub edge_size: u32,
    pub texture_tint: [u32; 4],
    pub sphere_tint: [u32; 4],
    pub toon_tint: [u32; 4],
}

#[derive(Debug, Clone, Copy, PartialEq)]
pub enum PmxMorphOffset {
    Group { morph_index: i32, influence: u32 },
    Vertex { vertex_index: i32, offset: [u32; 3] },
    Bone { bone_index: i32, translation: [u32; 3], rotation: [u32; 4] },
    Uv { vertex_index: i32, offset: [u32; 4] },
    Material { material_index: i32, operation: PmxMaterialMorphOperation, morph: PmxMaterialMorph },
    Flip { morph_index: i32, influence: u32 },
    Impulse { rigid_body_index: i32, local: bool, velocity: [u32; 3], angular_velocity: [u32; 3] },
}

#[derive(Debug, Clone, PartialEq)]
pub struct PmxMorph {
    pub name: String,
    pub name_english: String,
    pub panel: PmxMorphPanel,
    pub kind: PmxMorphKind,
    pub offsets: Vec<PmxMorphOffset>,
}

pub struct SpecMorph {
    pub name: Seq<char>,
    pub name_english: Seq<char>,
    pub panel: PmxMorphPanel,
    pub kind: PmxMorphKind,
    pub offsets: Seq<PmxMorphOffset>,
}

impl View for PmxMorph {
    type V = SpecMorph;

    open spec fn view(&self) -> SpecMorph {
        SpecMorph {
            name: self.name@,
            name_english: self.name_english@,
            panel: self.panel,
            kind: self.kind,
            offsets: self.offsets@,
        }
    }
}

#[derive(Debug, Clone, Copy, PartialEq, Eq)]
pub enum PmxDisplayFrameItem {
    Bone(i32),
    Morph(i32),
}

#[derive(Debug, Clone, PartialEq)]
pub struct PmxDisplayFrame {
    pub name: String,
    pub name_english: String,
    pub special: bool,
    pub items: Vec<PmxDisplayFrameItem>,
}

pub struct SpecDisplayFrame {
    pub name: Seq<char>,
    pub name_english: Seq<char>,
    pub special: bool,
    pub items: Seq<PmxDisplayFrameItem>,
}

impl View for PmxDisplayFrame {
    type V = SpecDisplayFrame;

    open spec fn view(&self) -> SpecDisplayFrame {
        SpecDisplayFrame {
            name: self.name@,
            name_english: self.name_english@,
            special: self.special,
            items: self.items@,
        }
    }
}

#[derive(Debug, Clone, Copy, PartialEq, Eq)]
pub enum PmxRigidBodyShape {
    Sphere,
    Box,
    Capsule,
}

#[derive(Debug, Clone, Copy, PartialEq, Eq)]
pub enum PmxRigidBodyMode {
    FollowBone,
    Physics,
    PhysicsAndBone,
}

#[derive(Debug, Clone, PartialEq)]
pub struct PmxRigidBody {
    pub name: String,
    pub name_english: String,
    pub bone_index: i32,
    pub group: u8,
    pub mask: u16,
    pub shape: PmxRigidBodyShape,
    pub size: [u32; 3],
    pub position: [u32; 3],
    pub rotation: [u32; 3],
    pub mass: u32,
    pub linear_damping: u32,
    pub angular_damping: u32,
    pub restitution: u32,
    pub friction: u32,
    pub mode: PmxRigidBodyMode,
}

pub struct SpecRigidBody {
    pub name: Seq<char>,
    pub name_english: Seq<char>,
    pub bone_index: i32,
    pub group: u8,
    pub mask: u16,
    pub shape: PmxRigidBodyShape,
    pub size: [u32; 3],
    pub position: [u32; 3],
    pub rotation: [u32; 3],
    pub mass: u32,
    pub linear_damping: u32,
    pub angular_damping: u32,
    pub restitution: u32,
    pub friction: u32,
    pub mode: PmxRigidBodyMode,
}

impl View for PmxRigidBody {
    type V = SpecRigidBody;

    open spec fn view(&self) -> SpecRigidBody {
        SpecRigidBody {
            name: self.name@,
            name_english: self.name_english@,
            bone_index: self.bone_index,
            group: self.group,
            mask: self.mask,
            shape: self.shape,
            size: self.size,
            position: self.position,
            rotation: self.rotation,
            mass: self.mass,
            linear_damping: self.linear_damping,
            angular_damping: self.angular_damping,
            restitution: self.restitution,
            friction: self.friction,
            mode: self.mode,
        }
    }
}

#[derive(Debug, Clone, Copy, PartialEq, Eq)]
pub enum PmxJointKind {
    Spring6Dof,
    SixDof,
    P2p,
    ConeTwist,
    Slider,
    Hinge,
}

#[derive(Debug, Clone, PartialEq)]
pub struct PmxJoint {
    pub name: String,
    pub name_english: String,
    pub joint_type: PmxJointKind,
    pub body_a: i32,
    pub body_b: i32,
    pub position: [u32; 3],
    pub rotation: [u32; 3],
    pub translation_limit_min: [u32; 3],
    pub translation_limit_max: [u32; 3],
    pub rotation_limit_min: [u32; 3],
    pub rotation_limit_max: [u32; 3],
    pub spring_translation: [u32; 3],
    pub spring_rotation: [u32; 3],
}

pub struct SpecJoint {
    pub name: Seq<char>,
    pub name_english: Seq<char>,
    pub joint_type: PmxJointKind,
    pub body_a: i32,
    pub body_b: i32,
    pub position: [u32; 3],
    pub rotation: [u32; 3],
    pub translation_limit_min: [u32; 3],
    pub translation_limit_max: [u32; 3],
    pub rotation_limit_min: [u32; 3],
    pub rotation_limit_max: [u32; 3],
    pub spring_translation: [u32; 3],
    pub spring_rotation: [u32; 3],
}

impl View for PmxJoint {
    type V = SpecJoint;

    open spec fn view(&self) -> SpecJoint {
        SpecJoint {
            name: self.name@,
            name_english: self.name_english@,
            joint_type: self.joint_type,
            body_a: self.body_a,
            body_b: self.body_b,
            position: self.position,
            rotation: self.rotation,
            translation_limit_min: self.translation_limit_min,
            translation_limit_max: self.translation_limit_max,
            rotation_limit_min: self.rotation_limit_min,
            rotation_limit_max: self.rotation_limit_max,
            spring_translation: self.spring_translation,
            spring_rotation: self.spring_rotation,
        }
    }
}

#[derive(Debug, Clone, Copy, PartialEq, Eq)]
pub enum PmxSoftBodyShape {
    TriMesh,
    Rope,
}

#[derive(Debug, Clone, Copy, PartialEq, Eq)]
pub enum PmxSoftBodyAeroModel {
    VertexPoint,
    VertexTwoSided,
    VertexOneSided,
    FaceTwoSided,
    FaceOneSided,
    /// A model number outside the documented ones, kept as read.
    Other(i32),
}

#[derive(Debug, Clone, Copy, PartialEq)]
pub struct PmxSoftBodyConfig {
    pub vcf: u32,
    pub dp: u32,
    pub dg: u32,
    pub lf: u32,
    pub pr: u32,
    pub vc: u32,
    pub df: u32,
    pub mt: u32,
    pub chr: u32,
    pub khr: u32,
    pub shr: u32,
    pub ahr: u32,
}

#[derive(Debug, Clone, Copy, PartialEq)]
pub struct PmxSoftBodyCluster {
    pub srhr_cl: u32,
    pub skhr_cl: u32,
    pub sshr_cl: u32,
    pub sr_splt_cl: u32,
    pub sk_splt_cl: u32,
    pub ss_splt_cl: u32,
}

#[derive(Debug, Clone, Copy, PartialEq, Eq)]
pub struct PmxSoftBodyIteration {
    pub v_it: i32,
    pub p_it: i32,
    pub d_it: i32,
    pub c_it: i32,
}

#[derive(Debug, Clone, Copy, PartialEq)]
pub struct PmxSoftBodyMaterial {
    pub lst: u32,
    pub ast: u32,
    pub vst: u32,
}

#[derive(Debug, Clone, Copy, PartialEq, Eq)]
pub struct PmxSoftBodyAnchorRigidBody {
    pub rigid_body_index: i32,
    pub vertex_index: u32,
    pub near_mode: bool,
}

#[derive(Debug, Clone, PartialEq)]
pub struct PmxSoftBody {
    pub name: String,
    pub name_english: String,
    pub shape: PmxSoftBodyShape,
    pub material_index: i32,
    pub group: u8,
    pub mask: u16,
    pub flags: PmxSoftBodyFlags,
    pub b_link_distance: i32,
    pub num_clusters: i32,
    pub total_mass: u32,
    pub collision_margin: u32,
    pub aero_model: PmxSoftBodyAeroModel,
    pub config: PmxSoftBodyConfig,
    pub cluster: PmxSoftBodyCluster,
    pub iteration: PmxSoftBodyIteration,
    pub material: PmxSoftBodyMaterial,
    pub anchor_rigid_bodies: Vec<PmxSoftBodyAnchorRigidBody>,
    pub pin_vertices: Vec<u32>,
}

pub struct SpecSoftBody {
    pub name: Seq<char>,
    pub name_english: Seq<char>,
    pub shape: PmxSoftBodyShape,
    pub material_index: i32,
    pub group: u8,
    pub mask: u16,
    pub flags: PmxSoftBodyFlags,
    pub b_link_distance: i32,
    pub num_clusters: i32,
    pub total_mass: u32,
    pub collision_margin: u32,
    pub aero_model: PmxSoftBodyAeroModel,
    pub config: PmxSoftBodyConfig,
    pub cluster: PmxSoftBodyCluster,
    pub iteration: PmxSoftBodyIteration,
    pub material: PmxSoftBodyMaterial,
    pub anchor_rigid_bodies: Seq<PmxSoftBodyAnchorRigidBody>,
    pub pin_vertices: Seq<u32>,
}

impl View for PmxSoftBody {
    type V = SpecSoftBody;

    open spec fn view(&self) -> SpecSoftBody {
        SpecSoftBody {
            name: self.name@,
            name_english: self.name_english@,
            shape: self.shape,
            material_index: self.material_index,
            group: self.group,
            mask: self.mask,
            flags: self.flags,
            b_link_distance: self.b_link_distance,
            num_clusters: self.num_clusters,
            total_mass: self.total_mass,
            collision_margin: self.collision_margin,
            aero_model: self.aero_model,
            config: self.config,
            cluster: self.cluster,
            iteration: self.iteration,
            material: self.material,
            anchor_rigid_bodies: self.anchor_rigid_bodies@,
            pin_vertices: self.pin_vertices@,
        }
    }
}

#[derive(Debug, Clone, PartialEq)]
pub struct PmxDocument {
    pub header: PmxHeader,
    pub vertices: Vec<PmxVertex>,
    pub indices: Vec<u32>,
    pub textures: Vec<PmxTexture>,
    pub materials: Vec<PmxMaterial>,
    pub bones: Vec<PmxBone>,
    pub morphs: Vec<PmxMorph>,
    pub display_frames: Vec<PmxDisplayFrame>,
    pub rigid_bodies: Vec<PmxRigidBody>,
    pub joints: Vec<PmxJoint>,
    pub soft_bodies: Vec<PmxSoftBody>,
}

pub struct SpecDocument {
    pub header: SpecHeader,
    pub vertices: Seq<SpecVertex>,
    pub indices: Seq<u32>,
    pub textures: Seq<Seq<char>>,
    pub materials: Seq<SpecMaterial>,
    pub bones: Seq<SpecBone>,
    pub morphs: Seq<SpecMorph>,
    pub display_frames: Seq<SpecDisplayFrame>,
    pub rigid_bodies: Seq<SpecRigidBody>,
    pub joints: Seq<SpecJoint>,
    pub soft_bodies: Seq<SpecSoftBody>,
}

impl View for PmxDocument {
    type V = SpecDocument;

    open spec fn view(&self) -> SpecDocument {
        SpecDocument {
            header: self.header@,
            vertices: seq_view(self.vertices@),
            indices: self.indices@,
            textures: seq_view(self.textures@),
            materials: seq_view(self.materials@),
            bones: seq_view(self.bones@),
            morphs: seq_view(self.morphs@),
            display_frames: seq_view(self.display_frames@),
            rigid_bodies: seq_view(self.rigid_bodies@),
            joints: seq_view(self.joints@),
            soft_bodies: seq_view(self.soft_bodies@),
        }
    }
}

impl Default for PmxDocument {
    fn default() -> (r: Self)
        ensures
            r.header@ == PmxHeader::default_spec(),
            r.vertices@.len() == 0,
            r.indices@.len() == 0,
            r.textures@.len() == 0,
            r.materials@.len() == 0,
            r.bones@.len() == 0,
            r.morphs@.len() == 0,
            r.display_frames@.len() == 0,
            r.rigid_bodies@.len() == 0,
            r.joints@.len() == 0,
            r.soft_bodies@.len() == 0,
    {
        PmxDocument {
            header: PmxHeader::default(),
            vertices: Vec::new(),
            indices: Vec::new(),
            textures: Vec::new(),
            materials: Vec::new(),
            bones: Vec::new(),
            morphs: Vec::new(),
            display_frames: Vec::new(),
            rigid_bodies: Vec::new(),
            joints: Vec::new(),
            soft_bodies: Vec::new(),
        }
    }
}

impl PmxHeader {
    /// The view of the default header.
    pub open spec fn default_spec() -> SpecHeader {
        SpecHeader {
            magic: [0x50u8, 0x4d, 0x58, 0x20],
            version: PMX_VERSION_2_0_BITS,
            header_size: 8,
            encoding: PmxTextEncoding::Utf8,
            additional_uv_count: 0,
            vertex_index_size: 4,
            texture_index_size: 4,
            material_index_size: 4,
            bone_index_size: 4,
            morph_index_size: 4,
            rigid_body_index_size: 4,
            model_name: Seq::empty(),
            model_name_english: Seq::empty(),
            comment: Seq::empty(),
            comment_english: Seq::empty(),
        }
    }
}

} // verus!
