//! Building the runtime model from a parsed document.

use vstd::prelude::*;

use crate::asset::{
    Pmx, PmxMaterialRecord, PmxMeshGeometry, PmxView, build_primitives,
    geometry_of, primitives_of, resolved_views, surface_total,
};
use crate::bone::{BoneRecordView, PmxBoneRecord, children_of, spec_parent_index};
use crate::format::copy::copy_material;
use crate::format::model::{PmxDocument, PmxMaterial, SpecDocument, seq_view};
use crate::morph::PmxMorphRecord;
use crate::physics::{PmxJointRecord, PmxRigidBodyRecord, PmxSoftBodyRecord};
use crate::resolver::{
    PmxResolvedPath, PmxResolver, PmxResolverSettings, PmxTexturePlan, answer_views,
    opt_source_view, plan_fallback, plan_probes, settled, texture_path_of,
};
use crate::source::{LocationView, PmxSource, PmxSourceLocation, SourceView};

verus! {

#[derive(Debug, Clone, PartialEq, Eq)]
pub struct PmxImportContext {
    pub source: Option<PmxSource>,
    pub resolver: PmxResolverSettings,
    /// Controls whether the imported `Pmx` keeps the raw `PmxDocument`.
    pub keep_raw_document: bool,
}

impl Default for PmxImportContext {
    fn default() -> (r: Self)
        ensures
            r.source is None,
            r.resolver.prefer_model_directory,
            r.resolver.allow_case_fallbacks,
            r.keep_raw_document,
    {
        PmxImportContext { source: None, resolver: PmxResolverSettings::default(), keep_raw_document: true }
    }
}

impl PmxImportContext {
    pub fn new() -> (r: Self)
        ensures
            r.source is None,
            r.resolver.prefer_model_directory,
            r.resolver.allow_case_fallbacks,
            r.keep_raw_document,
    {
        PmxImportContext::default()
    }

    /// The default context, reading resources from `source`.
    pub fn with_source(source: PmxSource) -> (r: Self)
        ensures
            r.source == Some(source),
            r.resolver.prefer_model_directory,
            r.resolver.allow_case_fallbacks,
            r.keep_raw_document,
    {
        PmxImportContext { source: Some(source), resolver: PmxResolverSettings::default(), keep_raw_document: true }
    }
}

#[derive(Debug, Clone, PartialEq)]
pub struct PmxImportResult {
    pub model: Pmx,
}

pub open spec fn context_source(context: PmxImportContext) -> Option<SourceView> {
    match context.source {
        Some(s) => Some(s@),
        None => None,
    }
}

/// The resolved textures of a document, given the answers to each texture's probes.
pub open spec fn resolved_textures(
    textures: Seq<Seq<char>>,
    source: Option<SourceView>,
    answers: Seq<Seq<Option<LocationView>>>,
) -> Seq<(Seq<char>, LocationView)> {
    Seq::new(textures.len(), |i: int| (
        textures[i],
        settled(answers[i], plan_fallback(source, texture_path_of(textures[i]))),
    ))
}

pub open spec fn answers_view(answers: Seq<Vec<Option<PmxSourceLocation>>>) -> Seq<Seq<Option<LocationView>>> {
    Seq::new(answers.len(), |i: int| answer_views(answers[i]@))
}

/// The bone records of a document: each bone with its resolved parent and its children.
pub open spec fn bone_records_of(d: SpecDocument) -> Seq<BoneRecordView> {
    Seq::new(d.bones.len(), |i: int| (
        d.bones[i],
        spec_parent_index(d.bones[i].parent_bone, i, d.bones.len() as int),
        children_of(d.bones, i as usize),
    ))
}

/// The model that importing a document gives: its geometry, primitives and records, the given
/// resolved textures, and the document itself only when it is kept.
pub open spec fn imported(d: SpecDocument, textures: Seq<(Seq<char>, LocationView)>, keep: bool) -> PmxView {
    PmxView {
        raw_document: if keep { Some(d) } else { None },
        geometry: geometry_of(d.vertices, d.indices),
        texture_paths: textures,
        material_records: d.materials,
        morph_records: d.morphs,
        bone_records: bone_records_of(d),
        rigid_body_records: d.rigid_bodies,
        joint_records: d.joints,
        soft_body_records: d.soft_bodies,
        primitives: primitives_of(d.materials),
    }
}

/// Importing one document under two contexts that differ only in whether they keep the raw
/// document asks the same questions about its textures (the same plans) and, given the same
/// answers, gives the same model but for the raw document: kept under the first, dropped under
/// the second. Geometry, primitives, textures and every record are the same either way.
pub proof fn lemma_import_keep_flag(
    d: SpecDocument,
    kept: PmxImportContext,
    dropped: PmxImportContext,
    answers: Seq<Seq<Option<LocationView>>>,
)
    requires
        kept.source == dropped.source,
        kept.resolver == dropped.resolver,
        kept.keep_raw_document,
        !dropped.keep_raw_document,
    ensures
        forall|i: int| 0 <= i < d.textures.len() ==> {
            &&& plan_probes(kept.resolver, context_source(kept), texture_path_of(#[trigger] d.textures[i]))
                == plan_probes(dropped.resolver, context_source(dropped), texture_path_of(d.textures[i]))
            &&& plan_fallback(context_source(kept), texture_path_of(d.textures[i]))
                == plan_fallback(context_source(dropped), texture_path_of(d.textures[i]))
        },
        imported(d, resolved_textures(d.textures, context_source(kept), answers), kept.keep_raw_document).raw_document
            == Some(d),
        imported(d, resolved_textures(d.textures, context_source(dropped), answers), dropped.keep_raw_document).raw_document
            is None,
        imported(d, resolved_textures(d.textures, context_source(kept), answers), kept.keep_raw_document)
            == (PmxView {
                raw_document: Some(d),
                ..imported(d, resolved_textures(d.textures, context_source(dropped), answers), dropped.keep_raw_document)
            }),
{
}

/// The probes and fallback for each texture of the document, in order.
pub fn texture_plans(document: &PmxDocument, context: &PmxImportContext) -> (r: Vec<PmxTexturePlan>)
    ensures
        r@.len() == document.textures@.len(),
        forall|i: int| 0 <= i < r@.len() ==> {
            &&& (#[trigger] r@[i]).original@ == document.textures@[i]@
            &&& seq_view(r@[i].probes@) == plan_probes(context.resolver, context_source(*context), texture_path_of(document.textures@[i]@))
            &&& r@[i].fallback@ == plan_fallback(context_source(*context), texture_path_of(document.textures@[i]@))
        },
{
    let resolver = PmxResolver::with_settings(context.resolver);
    let mut plans: Vec<PmxTexturePlan> = Vec::new();
    let mut i: usize = 0;
    while i < document.textures.len()
        invariant
            resolver.settings == context.resolver,
            i <= document.textures@.len(),
            plans@.len() == i,
            forall|k: int| 0 <= k < i ==> {
                &&& (#[trigger] plans@[k]).original@ == document.textures@[k]@
                &&& seq_view(plans@[k].probes@) == plan_probes(context.resolver, context_source(*context), texture_path_of(document.textures@[k]@))
                &&& plans@[k].fallback@ == plan_fallback(context_source(*context), texture_path_of(document.textures@[k]@))
            },
        decreases document.textures@.len() - i,
    {
        let source = context.source.as_ref();
        assert(opt_source_view(source) == context_source(*context));
        plans.push(resolver.texture_plan(source, document.textures[i].path.as_str()));
        i = i + 1;
    }
    plans
}

/// The resolved location of each texture of the document, in order, from the answers to the
/// probes of its plan (`texture_plans`).
pub fn resolve_textures(
    document: &PmxDocument,
    context: &PmxImportContext,
    answers: &[Vec<Option<PmxSourceLocation>>],
) -> (r: Vec<PmxResolvedPath>)
    requires
        answers@.len() == document.textures@.len(),
    ensures
        resolved_views(r@) == resolved_textures(document@.textures, context_source(*context), answers_view(answers@)),
{
    let resolver = PmxResolver::with_settings(context.resolver);
    let ghost want = resolved_textures(document@.textures, context_source(*context), answers_view(answers@));
    let mut out: Vec<PmxResolvedPath> = Vec::new();
    let mut i: usize = 0;
    while i < document.textures.len()
        invariant
            resolver.settings == context.resolver,
            answers@.len() == document.textures@.len(),
            want == resolved_textures(document@.textures, context_source(*context), answers_view(answers@)),
            i <= document.textures@.len(),
            out@.len() == i,
            forall|k: int| 0 <= k < i ==> resolved_views(out@)[k] == #[trigger] want[k],
        decreases document.textures@.len() - i,
    {
        let source = context.source.as_ref();
        assert(opt_source_view(source) == context_source(*context));
        let resolved = resolver.resolve_texture_path(source, document.textures[i].path.as_str(), answers[i].as_slice());
        assert(document@.textures[i as int] == document.textures@[i as int].path@);
        assert(answers_view(answers@)[i as int] == answer_views(answers@[i as int]@));
        assert(resolved.original@ == want[i as int].0);
        assert(resolved.location@ == want[i as int].1);
        let ghost prev = out@;
        out.push(resolved);
        assert(forall|k: int| 0 <= k < i ==> out@[k] == prev[k]);
        i = i + 1;
    }
    assert(resolved_views(out@) =~= want);
    out
}

fn build_material_records(materials: &[PmxMaterial]) -> (r: Vec<PmxMaterialRecord>)
    ensures
        Seq::new(r@.len(), |i: int| r@[i].material@) == seq_view(materials@),
{
    let mut out: Vec<PmxMaterialRecord> = Vec::new();
    let mut i: usize = 0;
    while i < materials.len()
        invariant
            i <= materials@.len(),
            out@.len() == i,
            forall|k: int| 0 <= k < i ==> (#[trigger] out@[k]).material@ == seq_view(materials@)[k],
        decreases materials@.len() - i,
    {
        let record = PmxMaterialRecord::new(copy_material(&materials[i]));
        assert(record.material@ == seq_view(materials@)[i as int]);
        out.push(record);
        i = i + 1;
    }
    assert(Seq::new(out@.len(), |i: int| out@[i].material@) =~= seq_view(materials@));
    out
}

/// Imports a parsed document: its geometry, primitives, resolved textures (from the answers to
/// each texture's probes, see `texture_plans`) and records; the document itself is kept only
/// when the context asks for it.
pub fn import_pmx(
    document: PmxDocument,
    context: &PmxImportContext,
    answers: &[Vec<Option<PmxSourceLocation>>],
) -> (r: PmxImportResult)
    requires
        answers@.len() == document.textures@.len(),
        surface_total(document@.materials, document@.materials.len() as int) <= usize::MAX,
    ensures
        r.model@ == imported(
            document@,
            resolved_textures(document@.textures, context_source(*context), answers_view(answers@)),
            context.keep_raw_document,
        ),
{
    let ghost d = document@;
    let texture_paths = resolve_textures(&document, context, answers);
    let geometry = PmxMeshGeometry::from_document(&document);
    let primitives = build_primitives(document.materials.as_slice());
    let material_records = build_material_records(document.materials.as_slice());
    let morph_records = PmxMorphRecord::from_document(document.morphs.as_slice());
    let bone_records = PmxBoneRecord::from_document(document.bones.as_slice());
    let rigid_body_records = PmxRigidBodyRecord::from_document(document.rigid_bodies.as_slice());
    let joint_records = PmxJointRecord::from_document(document.joints.as_slice());
    let soft_body_records = PmxSoftBodyRecord::from_document(document.soft_bodies.as_slice());
    let raw_document = if context.keep_raw_document { Some(document) } else { None };
    let model = Pmx::new(raw_document, geometry, primitives)
        .with_texture_paths(texture_paths)
        .with_material_records(material_records)
        .with_morph_records(morph_records)
        .with_bone_records(bone_records)
        .with_rigid_body_records(rigid_body_records)
        .with_joint_records(joint_records)
        .with_soft_body_records(soft_body_records);
    assert(model@.morph_records =~= d.morphs);
    assert(model@.bone_records =~= bone_records_of(d));
    assert(model@.rigid_body_records =~= d.rigid_bodies);
    assert(model@.joint_records =~= d.joints);
    assert(model@.soft_body_records =~= d.soft_bodies);
    PmxImportResult { model }
}

} // verus!
