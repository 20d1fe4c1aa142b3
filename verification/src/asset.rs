//! The runtime model built from a PMX document: mesh geometry, per-material primitives,
//! material records and their texture bindings, and the records of bones, morphs and physics.

use vstd::prelude::*;

use crate::bone::{BoneRecordView, PmxBoneRecord};
use crate::format::model::{
    PmxBone, PmxDocument, PmxMaterial, SpecDocument, SpecJoint, SpecMaterial, SpecMorph,
    SpecRigidBody, SpecSoftBody, SpecVertex, seq_view,
};
use crate::morph::PmxMorphRecord;
use crate::physics::{PmxJointRecord, PmxRigidBodyRecord, PmxSoftBodyRecord};
use crate::resolver::PmxResolvedPath;
use crate::source::LocationView;

verus! {

/// Mesh data extracted from a PMX document. Floating-point values are IEEE-754 bit patterns.
#[derive(Debug, Clone, PartialEq)]
pub struct PmxMeshGeometry {
    /// Triangle list positions extracted from the PMX vertex buffer.
    pub positions: Vec<[u32; 3]>,
    /// Triangle list normals extracted from the PMX vertex buffer.
    pub normals: Vec<[u32; 3]>,
    /// Primary texture coordinates extracted from the PMX vertex buffer.
    pub uvs: Vec<[u32; 2]>,
    /// Triangle indices extracted from the PMX index buffer.
    pub indices: Vec<u32>,
}

pub struct GeometryView {
    pub positions: Seq<[u32; 3]>,
    pub normals: Seq<[u32; 3]>,
    pub uvs: Seq<[u32; 2]>,
    pub indices: Seq<u32>,
}

impl Default for PmxMeshGeometry {
    /// No vertices and no indices.
    fn default() -> (r: Self)
        ensures
            r@ == (GeometryView { positions: Seq::empty(), normals: Seq::empty(), uvs: Seq::empty(), indices: Seq::empty() }),
    {
        PmxMeshGeometry { positions: Vec::new(), normals: Vec::new(), uvs: Vec::new(), indices: Vec::new() }
    }
}

impl View for PmxMeshGeometry {
    type V = GeometryView;

    open spec fn view(&self) -> GeometryView {
        GeometryView {
            positions: self.positions@,
            normals: self.normals@,
            uvs: self.uvs@,
            indices: self.indices@,
        }
    }
}

/// The geometry of a document: each vertex's position, normal and UV, and the index buffer.
pub open spec fn geometry_of(vertices: Seq<SpecVertex>, indices: Seq<u32>) -> GeometryView {
    GeometryView {
        positions: Seq::new(vertices.len(), |i: int| vertices[i].position),
        normals: Seq::new(vertices.len(), |i: int| vertices[i].normal),
        uvs: Seq::new(vertices.len(), |i: int| vertices[i].uv),
        indices,
    }
}

/// The geometry keeps each vertex's attributes unchanged and in document order: the `i`-th
/// position, normal and UV are those of the `i`-th vertex, and the index buffer is the
/// document's.
pub proof fn lemma_geometry_keeps_vertices(vertices: Seq<SpecVertex>, indices: Seq<u32>)
    ensures
        geometry_of(vertices, indices).positions.len() == vertices.len(),
        geometry_of(vertices, indices).normals.len() == vertices.len(),
        geometry_of(vertices, indices).uvs.len() == vertices.len(),
        geometry_of(vertices, indices).indices == indices,
        forall|i: int| 0 <= i < vertices.len() ==> {
            &&& #[trigger] geometry_of(vertices, indices).positions[i] == vertices[i].position
            &&& geometry_of(vertices, indices).normals[i] == vertices[i].normal
            &&& geometry_of(vertices, indices).uvs[i][0] == vertices[i].uv[0]
            &&& geometry_of(vertices, indices).uvs[i][1] == vertices[i].uv[1]
        },
{
}

impl PmxMeshGeometry {
    pub fn from_document(document: &PmxDocument) -> (r: Self)
        ensures
            r@ == geometry_of(document@.vertices, document@.indices),
            r.positions@.len() == document.vertices@.len(),
            r.normals@.len() == document.vertices@.len(),
            r.uvs@.len() == document.vertices@.len(),
            r.indices@ == document.indices@,
            forall|i: int| 0 <= i < document.vertices@.len() ==> {
                &&& #[trigger] r.positions@[i] == document.vertices@[i].position
                &&& r.normals@[i] == document.vertices@[i].normal
                &&& r.uvs@[i] == document.vertices@[i].uv
            },
    {
        let ghost vs = document@.vertices;
        let mut positions: Vec<[u32; 3]> = Vec::new();
        let mut normals: Vec<[u32; 3]> = Vec::new();
        let mut uvs: Vec<[u32; 2]> = Vec::new();
        let mut i: usize = 0;
        while i < document.vertices.len()
            invariant
                vs == document@.vertices,
                i <= vs.len(),
                positions@ == Seq::new(i as nat, |k: int| vs[k].position),
                normals@ == Seq::new(i as nat, |k: int| vs[k].normal),
                uvs@ == Seq::new(i as nat, |k: int| vs[k].uv),
            decreases vs.len() - i,
        {
            let v = &document.vertices[i];
            assert(vs[i as int] == v@);
            positions.push(v.position);
            normals.push(v.normal);
            uvs.push(v.uv);
            assert(positions@ =~= Seq::new((i + 1) as nat, |k: int| vs[k].position));
            assert(normals@ =~= Seq::new((i + 1) as nat, |k: int| vs[k].normal));
            assert(uvs@ =~= Seq::new((i + 1) as nat, |k: int| vs[k].uv));
            i = i + 1;
        }
        let indices = vstd::slice::slice_to_vec(document.indices.as_slice());
        PmxMeshGeometry { positions, normals, uvs, indices }
    }

    /// The indices a primitive draws: its range of the index buffer.
    pub fn primitive_indices(&self, primitive: PmxPrimitive) -> (r: Vec<u32>)
        requires
            primitive.index_start + primitive.index_count <= self.indices@.len(),
        ensures
            r@ == self.indices@.subrange(
                primitive.index_start as int,
                primitive.index_start + primitive.index_count,
            ),
    {
        let n = self.indices.len();
        assert(primitive.index_start + primitive.index_count <= n);
        let end = primitive.index_start + primitive.index_count;
        let mut out: Vec<u32> = Vec::new();
        let mut k: usize = primitive.index_start;
        while k < end
            invariant
                primitive.index_start <= k <= end,
                end == primitive.index_start + primitive.index_count,
                end <= self.indices@.len(),
                out@ == self.indices@.subrange(primitive.index_start as int, k as int),
            decreases end - k,
        {
            out.push(self.indices[k]);
            assert(self.indices@.subrange(primitive.index_start as int, k + 1)
                =~= self.indices@.subrange(primitive.index_start as int, k as int).push(self.indices@[k as int]));
            k = k + 1;
        }
        out
    }
}

/// The part of the index buffer drawn with one material.
#[derive(Debug, Clone, Copy, PartialEq, Eq)]
pub struct PmxPrimitive {
    /// Index into `Pmx::material_records`.
    pub material_index: usize,
    pub index_start: usize,
    pub index_count: usize,
}

impl Default for PmxPrimitive {
    /// The first material, drawing no indices.
    fn default() -> (r: Self)
        ensures
            r.material_index == 0 && r.index_start == 0 && r.index_count == 0,
    {
        PmxPrimitive { material_index: 0, index_start: 0, index_count: 0 }
    }
}

/// The number of indices the first `n` materials cover.
pub open spec fn surface_total(materials: Seq<SpecMaterial>, n: int) -> int
    decreases n,
{
    if n <= 0 {
        0
    } else {
        surface_total(materials, n - 1) + materials[n - 1].surface_count
    }
}

/// One primitive per material, in order: each covers its material's surface count, starting
/// where the previous one ends.
pub open spec fn primitives_of(materials: Seq<SpecMaterial>) -> Seq<PmxPrimitive> {
    Seq::new(materials.len(), |i: int| PmxPrimitive {
        material_index: i as usize,
        index_start: surface_total(materials, i) as usize,
        index_count: materials[i].surface_count as usize,
    })
}

/// Whether the surface counts of all materials add up to an index range that fits in `usize`.
pub fn surface_total_fits(materials: &[PmxMaterial]) -> (r: bool)
    ensures
        r == (surface_total(seq_view(materials@), materials@.len() as int) <= usize::MAX),
{
    let ghost ms = seq_view(materials@);
    let mut total: usize = 0;
    let mut i: usize = 0;
    while i < materials.len()
        invariant
            ms == seq_view(materials@),
            i <= ms.len(),
            total == surface_total(ms, i as int),
        decreases ms.len() - i,
    {
        let count = materials[i].surface_count as usize;
        if total > usize::MAX - count {
            proof { lemma_surface_total_monotone(ms, (i + 1) as int, ms.len() as int); }
            return false;
        }
        total = total + count;
        i = i + 1;
    }
    true
}

/// Splits the index buffer into one primitive per material.
pub fn build_primitives(materials: &[PmxMaterial]) -> (r: Vec<PmxPrimitive>)
    requires
        surface_total(seq_view(materials@), materials@.len() as int) <= usize::MAX,
    ensures
        r@ == primitives_of(seq_view(materials@)),
{
    let ghost ms = seq_view(materials@);
    let mut primitives: Vec<PmxPrimitive> = Vec::new();
    let mut index_start: usize = 0;
    let mut i: usize = 0;
    while i < materials.len()
        invariant
            ms == seq_view(materials@),
            surface_total(ms, ms.len() as int) <= usize::MAX,
            i <= ms.len(),
            index_start == surface_total(ms, i as int),
            primitives@ == primitives_of(ms).take(i as int),
        decreases ms.len() - i,
    {
        proof { lemma_surface_total_monotone(ms, (i + 1) as int, ms.len() as int); }
        let index_count = materials[i].surface_count as usize;
        primitives.push(PmxPrimitive { material_index: i, index_start, index_count });
        assert(primitives@ =~= primitives_of(ms).take(i + 1));
        index_start = index_start + index_count;
        i = i + 1;
    }
    assert(primitives_of(ms).take(ms.len() as int) =~= primitives_of(ms));
    primitives
}

pub proof fn lemma_surface_total_monotone(materials: Seq<SpecMaterial>, m: int, n: int)
    requires
        0 <= m <= n,
    ensures
        surface_total(materials, m) <= surface_total(materials, n),
    decreases n - m,
{
    if m < n {
        lemma_surface_total_monotone(materials, m, n - 1);
    }
}

/// The primitives tile the index buffer: the first starts at zero, each starts where the one
/// before it ends, and together they cover the surface counts of all materials.
pub proof fn lemma_primitives_tile(materials: Seq<SpecMaterial>)
    requires
        materials.len() <= usize::MAX,
        surface_total(materials, materials.len() as int) <= usize::MAX,
    ensures
        primitives_of(materials).len() == materials.len(),
        materials.len() > 0 ==> primitives_of(materials)[0].index_start == 0,
        forall|i: int| 0 <= i < materials.len() ==> #[trigger] primitives_of(materials)[i].material_index == i,
        forall|i: int| 0 < i < materials.len() ==> (#[trigger] primitives_of(materials)[i]).index_start
            == primitives_of(materials)[i - 1].index_start + primitives_of(materials)[i - 1].index_count,
        materials.len() > 0 ==> primitives_of(materials).last().index_start + primitives_of(materials).last().index_count
            == surface_total(materials, materials.len() as int),
{
    let n = materials.len() as int;
    let ps = primitives_of(materials);
    assert forall|i: int| 0 < i < n implies (#[trigger] ps[i]).index_start == ps[i - 1].index_start + ps[i - 1].index_count by {
        let a = surface_total(materials, i - 1);
        let b = surface_total(materials, i);
        assert(b == a + materials[i - 1].surface_count);
        lemma_surface_total_monotone(materials, 0, i - 1);
        lemma_surface_total_monotone(materials, i, n);
        assert(ps[i].index_start == b as usize);
        assert(ps[i - 1].index_start == a as usize);
        assert(ps[i - 1].index_count == materials[i - 1].surface_count as usize);
    }
    if n > 0 {
        let a = surface_total(materials, n - 1);
        assert(surface_total(materials, n) == a + materials[n - 1].surface_count);
        lemma_surface_total_monotone(materials, 0, n - 1);
        assert(ps.last() == ps[n - 1]);
    }
}

/// A PMX material kept on the model, so that a runtime material can be made from it later
/// even when the raw document is dropped.
#[derive(Debug, Clone, PartialEq)]
pub struct PmxMaterialRecord {
    pub material: PmxMaterial,
}

impl PmxMaterialRecord {
    pub fn new(material: PmxMaterial) -> (r: Self)
        ensures
            r.material@ == material@,
    {
        PmxMaterialRecord { material }
    }
}

/// Which loaded textures a material draws with, by their position in the model's texture list,
/// and the shared toon texture it names instead of a document texture, if any.
#[derive(Debug, Clone, Copy, PartialEq, Eq)]
pub struct PmxMaterialBinding {
    pub diffuse_texture: Option<usize>,
    pub sphere_texture: Option<usize>,
    pub toon_texture: Option<usize>,
    pub shared_toon_index: Option<usize>,
}

/// The texture a material index refers to: none when the index is negative or past the end of
/// the texture list.
pub open spec fn texture_slot_spec(texture_count: int, texture_index: i32) -> Option<usize> {
    if 0 <= texture_index && texture_index < texture_count { Some(texture_index as usize) } else { None }
}

pub fn texture_slot(texture_count: usize, texture_index: i32) -> (r: Option<usize>)
    ensures
        r == texture_slot_spec(texture_count as int, texture_index),
{
    if texture_index >= 0 && (texture_index as usize) < texture_count {
        Some(texture_index as usize)
    } else {
        None
    }
}

/// The binding of a material: diffuse and sphere textures by index; a shared toon material names
/// a shared toon index (when non-negative) and no toon texture, any other material a toon
/// texture by index.
pub open spec fn binding_of(material: SpecMaterial, texture_count: int) -> PmxMaterialBinding {
    PmxMaterialBinding {
        diffuse_texture: texture_slot_spec(texture_count, material.texture_index),
        sphere_texture: texture_slot_spec(texture_count, material.sphere_texture_index),
        toon_texture: if material.toon_sharing {
            None
        } else {
            texture_slot_spec(texture_count, material.toon_texture_index)
        },
        shared_toon_index: if material.toon_sharing && material.toon_texture_index >= 0 {
            Some(material.toon_texture_index as usize)
        } else {
            None
        },
    }
}

/// How a material binds textures, by index among `texture_count` loaded ones: the diffuse and
/// sphere textures are bound exactly when their index is in range; a material with toon sharing
/// binds no document toon texture and names the shared toon by its (non-negative) index; any
/// other material binds its toon texture when the index is in range and names no shared toon.
pub proof fn lemma_material_binding(material: SpecMaterial, texture_count: int)
    ensures
        binding_of(material, texture_count).diffuse_texture == (if 0 <= material.texture_index < texture_count {
            Some(material.texture_index as usize)
        } else {
            None::<usize>
        }),
        binding_of(material, texture_count).sphere_texture == (if 0 <= material.sphere_texture_index < texture_count {
            Some(material.sphere_texture_index as usize)
        } else {
            None::<usize>
        }),
        material.toon_sharing ==> binding_of(material, texture_count).toon_texture is None,
        material.toon_sharing ==> binding_of(material, texture_count).shared_toon_index == (if material.toon_texture_index >= 0 {
            Some(material.toon_texture_index as usize)
        } else {
            None::<usize>
        }),
        !material.toon_sharing ==> binding_of(material, texture_count).shared_toon_index is None,
        !material.toon_sharing ==> binding_of(material, texture_count).toon_texture == (if 0 <= material.toon_texture_index < texture_count {
            Some(material.toon_texture_index as usize)
        } else {
            None::<usize>
        }),
{
}

impl PmxMaterialBinding {
    /// The textures a material record draws with, among `texture_count` loaded textures.
    pub fn from_record(record: &PmxMaterialRecord, texture_count: usize) -> (r: Self)
        ensures
            r == binding_of(record.material@, texture_count as int),
    {
        let m = &record.material;
        let diffuse_texture = texture_slot(texture_count, m.texture_index);
        let sphere_texture = texture_slot(texture_count, m.sphere_texture_index);
        let (toon_texture, shared_toon_index) = if m.toon_sharing {
            (None, if m.toon_texture_index >= 0 { Some(m.toon_texture_index as usize) } else { None })
        } else {
            (texture_slot(texture_count, m.toon_texture_index), None)
        };
        PmxMaterialBinding { diffuse_texture, sphere_texture, toon_texture, shared_toon_index }
    }
}

/// The root model.
///
/// `raw_document` is present only when the import kept it. The geometry, primitives and the
/// records are always kept, so the model can be rendered or its runtime parts made again later.
#[derive(Debug, Clone, PartialEq)]
pub struct Pmx {
    pub raw_document: Option<PmxDocument>,
    pub geometry: PmxMeshGeometry,
    pub texture_paths: Vec<PmxResolvedPath>,
    pub material_records: Vec<PmxMaterialRecord>,
    pub morph_records: Vec<PmxMorphRecord>,
    pub bone_records: Vec<PmxBoneRecord>,
    pub rigid_body_records: Vec<PmxRigidBodyRecord>,
    pub joint_records: Vec<PmxJointRecord>,
    pub soft_body_records: Vec<PmxSoftBodyRecord>,
    pub primitives: Vec<PmxPrimitive>,
}

/// A resolved texture as plain values: the texture string and its location.
pub open spec fn resolved_views(paths: Seq<PmxResolvedPath>) -> Seq<(Seq<char>, LocationView)> {
    Seq::new(paths.len(), |i: int| (paths[i].original@, paths[i].location@))
}

pub struct PmxView {
    pub raw_document: Option<SpecDocument>,
    pub geometry: GeometryView,
    pub texture_paths: Seq<(Seq<char>, LocationView)>,
    pub material_records: Seq<SpecMaterial>,
    pub morph_records: Seq<SpecMorph>,
    pub bone_records: Seq<BoneRecordView>,
    pub rigid_body_records: Seq<SpecRigidBody>,
    pub joint_records: Seq<SpecJoint>,
    pub soft_body_records: Seq<SpecSoftBody>,
    pub primitives: Seq<PmxPrimitive>,
}

impl View for Pmx {
    type V = PmxView;

    open spec fn view(&self) -> PmxView {
        PmxView {
            raw_document: match self.raw_document {
                Some(d) => Some(d@),
                None => None,
            },
            geometry: self.geometry@,
            texture_paths: resolved_views(self.texture_paths@),
            material_records: Seq::new(self.material_records@.len(), |i: int| self.material_records@[i].material@),
            morph_records: seq_view(self.morph_records@),
            bone_records: seq_view(self.bone_records@),
            rigid_body_records: Seq::new(self.rigid_body_records@.len(), |i: int| self.rigid_body_records@[i].rigid_body@),
            joint_records: Seq::new(self.joint_records@.len(), |i: int| self.joint_records@[i].joint@),
            soft_body_records: Seq::new(self.soft_body_records@.len(), |i: int| self.soft_body_records@[i].soft_body@),
            primitives: self.primitives@,
        }
    }
}

impl Default for Pmx {
    fn default() -> (r: Self)
        ensures
            r.raw_document is None,
            r.geometry@.positions.len() == 0,
            r.geometry@.indices.len() == 0,
            r.texture_paths@.len() == 0,
            r.material_records@.len() == 0,
            r.morph_records@.len() == 0,
            r.bone_records@.len() == 0,
            r.rigid_body_records@.len() == 0,
            r.joint_records@.len() == 0,
            r.soft_body_records@.len() == 0,
            r.primitives@.len() == 0,
    {
        Pmx::new(None, PmxMeshGeometry { positions: Vec::new(), normals: Vec::new(), uvs: Vec::new(), indices: Vec::new() }, Vec::new())
    }
}

impl Pmx {
    /// A model holding the document (if kept), its geometry and primitives, and no records yet.
    pub fn new(raw_document: Option<PmxDocument>, geometry: PmxMeshGeometry, primitives: Vec<PmxPrimitive>) -> (r: Self)
        ensures
            r.raw_document == raw_document,
            r.geometry == geometry,
            r.primitives == primitives,
            r.texture_paths@.len() == 0,
            r.material_records@.len() == 0,
            r.morph_records@.len() == 0,
            r.bone_records@.len() == 0,
            r.rigid_body_records@.len() == 0,
            r.joint_records@.len() == 0,
            r.soft_body_records@.len() == 0,
    {
        Pmx {
            raw_document,
            geometry,
            texture_paths: Vec::new(),
            material_records: Vec::new(),
            morph_records: Vec::new(),
            bone_records: Vec::new(),
            rigid_body_records: Vec::new(),
            joint_records: Vec::new(),
            soft_body_records: Vec::new(),
            primitives,
        }
    }

    pub fn with_texture_paths(self, texture_paths: Vec<PmxResolvedPath>) -> (r: Self)
        ensures
            r == (Pmx { texture_paths, ..self }),
    {
        Pmx { texture_paths, ..self }
    }

    pub fn with_material_records(self, material_records: Vec<PmxMaterialRecord>) -> (r: Self)
        ensures
            r == (Pmx { material_records, ..self }),
    {
        Pmx { material_records, ..self }
    }

    pub fn with_morph_records(self, morph_records: Vec<PmxMorphRecord>) -> (r: Self)
        ensures
            r == (Pmx { morph_records, ..self }),
    {
        Pmx { morph_records, ..self }
    }

    pub fn with_bone_records(self, bone_records: Vec<PmxBoneRecord>) -> (r: Self)
        ensures
            r == (Pmx { bone_records, ..self }),
    {
        Pmx { bone_records, ..self }
    }

    pub fn with_rigid_body_records(self, rigid_body_records: Vec<PmxRigidBodyRecord>) -> (r: Self)
        ensures
            r == (Pmx { rigid_body_records, ..self }),
    {
        Pmx { rigid_body_records, ..self }
    }

    pub fn with_joint_records(self, joint_records: Vec<PmxJointRecord>) -> (r: Self)
        ensures
            r == (Pmx { joint_records, ..self }),
    {
        Pmx { joint_records, ..self }
    }

    pub fn with_soft_body_records(self, soft_body_records: Vec<PmxSoftBodyRecord>) -> (r: Self)
        ensures
            r == (Pmx { soft_body_records, ..self }),
    {
        Pmx { soft_body_records, ..self }
    }

    pub fn raw_document(&self) -> (r: Option<&PmxDocument>)
        ensures
            match self.raw_document {
                Some(d) => r == Some(&d),
                None => r is None,
            },
    {
        self.raw_document.as_ref()
    }

    pub fn document(&self) -> (r: Option<&PmxDocument>)
        ensures
            match self.raw_document {
                Some(d) => r == Some(&d),
                None => r is None,
            },
    {
        self.raw_document()
    }

    pub fn geometry(&self) -> (r: &PmxMeshGeometry)
        ensures
            *r == self.geometry,
    {
        &self.geometry
    }

    pub fn texture_paths(&self) -> (r: &[PmxResolvedPath])
        ensures
            r@ == self.texture_paths@,
    {
        self.texture_paths.as_slice()
    }

    pub fn material_records(&self) -> (r: &[PmxMaterialRecord])
        ensures
            r@ == self.material_records@,
    {
        self.material_records.as_slice()
    }

    pub fn morph_records(&self) -> (r: &[PmxMorphRecord])
        ensures
            r@ == self.morph_records@,
    {
        self.morph_records.as_slice()
    }

    pub fn bone_records(&self) -> (r: &[PmxBoneRecord])
        ensures
            r@ == self.bone_records@,
    {
        self.bone_records.as_slice()
    }

    pub fn rigid_body_records(&self) -> (r: &[PmxRigidBodyRecord])
        ensures
            r@ == self.rigid_body_records@,
    {
        self.rigid_body_records.as_slice()
    }

    pub fn joint_records(&self) -> (r: &[PmxJointRecord])
        ensures
            r@ == self.joint_records@,
    {
        self.joint_records.as_slice()
    }

    pub fn soft_body_records(&self) -> (r: &[PmxSoftBodyRecord])
        ensures
            r@ == self.soft_body_records@,
    {
        self.soft_body_records.as_slice()
    }

    pub fn primitives(&self) -> (r: &[PmxPrimitive])
        ensures
            r@ == self.primitives@,
    {
        self.primitives.as_slice()
    }

    /// The bones without a parent, in document order.
    pub fn root_bones(&self) -> (r: Vec<&PmxBoneRecord>)
        ensures
            r@.len() == root_positions(self.bone_records@).len(),
            forall|k: int| 0 <= k < r@.len() ==> *(#[trigger] r@[k]) == self.bone_records@[root_positions(self.bone_records@)[k]],
    {
        let ghost bs = self.bone_records@;
        let mut out: Vec<&PmxBoneRecord> = Vec::new();
        let mut i: usize = 0;
        while i < self.bone_records.len()
            invariant
                bs == self.bone_records@,
                i <= bs.len(),
                out@.len() == root_positions(bs.take(i as int)).len(),
                forall|k: int| 0 <= k < out@.len() ==> *(#[trigger] out@[k]) == bs[root_positions(bs.take(i as int))[k]],
            decreases bs.len() - i,
        {
            assert(bs.take(i + 1).drop_last() =~= bs.take(i as int));
            let b = &self.bone_records[i];
            if b.is_root() {
                out.push(b);
            }
            i = i + 1;
        }
        assert(bs.take(bs.len() as int) =~= bs);
        out
    }

    /// The raw bones of the kept document; none when the document was dropped.
    pub fn bones(&self) -> (r: &[PmxBone])
        ensures
            match self.raw_document {
                Some(d) => r@ == d.bones@,
                None => r@.len() == 0,
            },
    {
        match &self.raw_document {
            Some(d) => d.bones.as_slice(),
            None => &[],
        }
    }
}

/// The positions of the records without a parent, in order.
pub open spec fn root_positions(bones: Seq<PmxBoneRecord>) -> Seq<int>
    decreases bones.len(),
{
    if bones.len() == 0 {
        Seq::empty()
    } else {
        let rest = root_positions(bones.drop_last());
        if bones.last().parent_index is None { rest.push(bones.len() - 1) } else { rest }
    }
}

} // verus!
