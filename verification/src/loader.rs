//! Loader configuration, and the decisions the loader makes about the asset it is given.

use vstd::prelude::*;

use crate::error::{PmxError, PmxResult};
use crate::format::model::PmxDocument;
use crate::format::parser::spec_parse_pmx;
use crate::asset::Pmx;
use crate::labels::PmxAssetLabel;
use crate::paths::{
    components_of, extension_of, file_name_of, path_components, path_extension, path_file_name,
    path_join, render_components, render_path,
};
use crate::source::walk::parent_components;
use crate::resolver::PmxResolverSettings;
use crate::source::archive::{
    entry_parent, find_first_pmx_zip_entry_root, first_pmx_outcome, zip_complete, zip_entry_content,
    zip_listed, zip_listing,
};
use crate::source::names::{ZipNameEncoding, lossy_entry};
use crate::source::{PmxSource, SourceView};
use crate::strings::{
    ascii_lower, chars_eq_ignore_ascii_case, chars_of, eq_ignore_ascii_case, join_on_slash,
    join_slash, string_from_chars, to_ascii_lower,
};

verus! {

#[derive(Debug, Clone, Copy, PartialEq, Eq)]
pub struct PmxLoaderSettings {
    pub load_textures: bool,
    /// Makes a runtime material for each material record.
    pub load_materials: bool,
    /// Makes a mesh from the model geometry.
    pub load_meshes: bool,
    /// Makes a sub-asset for each bone record.
    pub load_bones: bool,
    /// Makes a sub-asset for each morph record.
    pub load_morphs: bool,
    /// Makes a sub-asset for each rigid body, joint and soft body record.
    pub load_physics: bool,
    /// Keeps the parsed document on the model.
    pub keep_raw_document: bool,
    /// How ZIP entry names are decoded when loading `.zip` archives.
    pub zip_name_encoding: ZipNameEncoding,
    pub resolver: PmxResolverSettings,
}

/// The default settings: load everything, keep the document, guess entry-name encodings, and
/// resolve textures with the default resolver settings.
pub open spec fn default_loader_settings(s: PmxLoaderSettings) -> bool {
    &&& s.load_textures && s.load_materials && s.load_meshes && s.load_bones
    &&& s.load_morphs && s.load_physics && s.keep_raw_document
    &&& s.zip_name_encoding == ZipNameEncoding::Auto
    &&& s.resolver.prefer_model_directory && s.resolver.allow_case_fallbacks
}

impl Default for PmxLoaderSettings {
    fn default() -> (r: Self)
        ensures
            default_loader_settings(r),
    {
        PmxLoaderSettings {
            load_textures: true,
            load_materials: true,
            load_meshes: true,
            load_bones: true,
            load_morphs: true,
            load_physics: true,
            keep_raw_document: true,
            zip_name_encoding: ZipNameEncoding::Auto,
            resolver: PmxResolverSettings::default(),
        }
    }
}

#[derive(Debug, Clone, Copy)]
pub struct PmxLoader {
    pub settings: PmxLoaderSettings,
}

impl PmxLoader {
    pub fn new(settings: PmxLoaderSettings) -> (r: Self)
        ensures
            r.settings == settings,
    {
        PmxLoader { settings }
    }

    pub fn default() -> (r: Self)
        ensures
            default_loader_settings(r.settings),
    {
        PmxLoader::new(PmxLoaderSettings::default())
    }
}

impl From<PmxLoaderSettings> for PmxLoader {
    fn from(settings: PmxLoaderSettings) -> (r: Self) {
        PmxLoader { settings }
    }
}

impl vstd::std_specs::convert::FromSpecImpl<PmxLoaderSettings> for PmxLoader {
    open spec fn obeys_from_spec() -> bool {
        true
    }

    open spec fn from_spec(settings: PmxLoaderSettings) -> Self {
        PmxLoader { settings }
    }
}

/// Whether an asset path names a ZIP archive: its extension is `zip`, in any case.
pub open spec fn zip_asset(path: Seq<char>) -> bool {
    path_extension(path) matches Some(x) && eq_ignore_ascii_case(x, seq!['z', 'i', 'p'])
}

pub fn is_zip_asset(path: &str) -> (r: bool)
    ensures
        r == zip_asset(path@),
{
    let p = chars_of(path);
    match extension_of(p.as_slice()) {
        None => false,
        Some(x) => {
            let zip: Vec<char> = vec!['z', 'i', 'p'];
            assert(zip@ =~= seq!['z', 'i', 'p']);
            chars_eq_ignore_ascii_case(x.as_slice(), zip.as_slice())
        },
    }
}

/// Whether a component, in ASCII lowercase, ends with `.zip`.
pub open spec fn names_zip(c: Seq<char>) -> bool {
    c.len() >= 4 && c[c.len() - 4] == '.' && ascii_lower(c[c.len() - 3]) == 'z'
        && ascii_lower(c[c.len() - 2]) == 'i' && ascii_lower(c[c.len() - 1]) == 'p'
}

/// The components pushed one after another onto an empty path.
pub open spec fn pushed(cs: Seq<Seq<char>>) -> Seq<char>
    decreases cs.len(),
{
    if cs.len() == 0 {
        Seq::empty()
    } else {
        path_join(pushed(cs.drop_last()), cs.last())
    }
}

/// The position of the first component that names a ZIP archive, if any.
pub open spec fn first_zip_component(cs: Seq<Seq<char>>) -> Option<int>
    decreases cs.len(),
{
    if cs.len() == 0 {
        None
    } else {
        match first_zip_component(cs.drop_last()) {
            Some(k) => Some(k),
            None => if names_zip(cs.last()) { Some(cs.len() - 1) } else { None },
        }
    }
}

/// An asset path inside a ZIP archive, split into the archive path (up to and including the
/// first component that ends with `.zip`) and the directory of the entry inside it; `None` when
/// no component names an archive or nothing follows it.
pub open spec fn zip_asset_split(path: Seq<char>) -> Option<(Seq<char>, Seq<char>)> {
    let cs = path_components(path);
    match first_zip_component(cs) {
        None => None,
        Some(k) => if k + 1 < cs.len() {
            Some((pushed(cs.take(k + 1)), join_slash(cs.skip(k + 1).drop_last())))
        } else {
            None
        },
    }
}

fn names_zip_exec(c: &Vec<char>) -> (r: bool)
    ensures
        r == names_zip(c@),
{
    let n = c.len();
    n >= 4 && c[n - 4] == '.' && to_ascii_lower(c[n - 3]) == 'z' && to_ascii_lower(c[n - 2]) == 'i'
        && to_ascii_lower(c[n - 1]) == 'p'
}

fn path_push(a: &Vec<char>, b: &Vec<char>) -> (r: Vec<char>)
    ensures
        r@ == path_join(a@, b@),
{
    crate::paths::join_paths(a.as_slice(), b.as_slice())
}

/// Splits an asset path inside a ZIP archive into the archive path and the directory of the
/// entry inside it.
pub fn split_zip_asset_path(path: &str) -> (r: Option<(String, String)>)
    ensures
        match zip_asset_split(path@) {
            Some((a, root)) => r matches Some(x) && x.0@ == a && x.1@ == root,
            None => r is None,
        },
{
    let p = chars_of(path);
    let comps = components_of(p.as_slice());
    let ghost cs = crate::format::model::seq_view(comps@);
    // Find the first component that names an archive, pushing components onto the archive
    // path as we go.
    let mut archive: Vec<char> = Vec::new();
    let mut k: usize = 0;
    while k < comps.len()
        invariant
            cs == crate::format::model::seq_view(comps@),
            cs == path_components(path@),
            k <= comps@.len(),
            first_zip_component(cs.take(k as int)) is None,
            archive@ == pushed(cs.take(k as int)),
        decreases comps@.len() - k,
    {
        assert(cs.take(k + 1).drop_last() =~= cs.take(k as int));
        assert(cs.take(k + 1).last() == comps@[k as int]@);
        archive = path_push(&archive, &comps[k]);
        if names_zip_exec(&comps[k]) {
            proof { lemma_first_zip_prefix(cs.take(k + 1), cs); }
            if k + 1 >= comps.len() {
                return None;
            }
            let mut dirs: Vec<Vec<char>> = Vec::new();
            let last = comps.len() - 1;
            let mut j: usize = k + 1;
            while j < last
                invariant
                    cs == crate::format::model::seq_view(comps@),
                    k + 1 <= j <= last,
                    last == comps@.len() - 1,
                    dirs@.len() == j - (k + 1),
                    forall|q: int| 0 <= q < dirs@.len() ==> (#[trigger] dirs@[q])@ == cs[k + 1 + q],
                decreases last - j,
            {
                dirs.push(vstd::slice::slice_to_vec(comps[j].as_slice()));
                j = j + 1;
            }
            let root = join_on_slash(&dirs);
            assert(Seq::new(dirs@.len(), |q: int| dirs@[q]@) =~= cs.skip(k + 1).drop_last());
            return Some((string_from_chars(archive.as_slice()), string_from_chars(root.as_slice())));
        }
        k = k + 1;
    }
    assert(cs.take(comps@.len() as int) =~= cs);
    None
}

proof fn lemma_first_zip_prefix(p: Seq<Seq<char>>, s: Seq<Seq<char>>)
    requires
        p.len() <= s.len(),
        s.take(p.len() as int) == p,
        first_zip_component(p) is Some,
    ensures
        first_zip_component(s) == first_zip_component(p),
    decreases s.len(),
{
    if s.len() == p.len() {
        assert(s.take(p.len() as int) =~= s);
    } else {
        assert(s.drop_last().take(p.len() as int) =~= s.take(p.len() as int));
        lemma_first_zip_prefix(p, s.drop_last());
    }
}

/// The document that the bytes of an archive entry parse to.
#[verifier::opaque]
pub open spec fn entry_document(c: Seq<u8>) -> Result<crate::format::model::SpecDocument, PmxError> {
    spec_parse_pmx(c)
}

fn parse_entry(bytes: &[u8]) -> (r: PmxResult<PmxDocument>)
    ensures
        match entry_document(bytes@) {
            Ok(d) => r matches Ok(doc) && doc@ == d,
            Err(e) => r == Err::<PmxDocument, PmxError>(e),
        },
{
    proof { reveal(entry_document); }
    PmxDocument::from_bytes(bytes)
}

/// What loading the model of the archive in `bytes` gives: the document of its first `.pmx`
/// entry and the directory holding that entry; `Other` when no central directory can be read or
/// the search fails (see `first_pmx_outcome`), the kind that `zip_entry_content` gives when the
/// entry's contents cannot be produced, `InvalidFormat` when there is no `.pmx` entry, and the
/// parse error when the entry is not a valid document.
pub open spec fn zip_document_result(bytes: Seq<u8>, encoding: ZipNameEncoding) -> Result<(crate::format::model::SpecDocument, Seq<char>), PmxError> {
    if zip_listing(bytes) is None {
        Err(PmxError::Io(crate::error::PmxIoErrorKind::Other))
    } else {
        match first_pmx_outcome(zip_listed(bytes), zip_complete(bytes), encoding) {
            Err(e) => Err(e),
            Ok(None) => Err(PmxError::InvalidFormat("zip archive does not contain a PMX file")),
            Ok(Some((i, n))) => match zip_entry_content(bytes, i) {
                Err(k) => Err(PmxError::Io(k)),
                Ok(c) => match entry_document(c) {
                    Ok(d) => Ok((d, entry_parent(n))),
                    Err(e) => Err(e),
                },
            },
        }
    }
}

/// Loads the model of a ZIP archive: the document of its first `.pmx` entry, and a source that
/// reads the archive (at `archive_path`) under that entry's directory (see
/// `zip_document_result`).
pub fn load_zip_document(
    archive_path: &str,
    archive_bytes: &[u8],
    name_encoding: ZipNameEncoding,
) -> (r: PmxResult<(PmxDocument, PmxSource)>)
    ensures
        match zip_document_result(archive_bytes@, name_encoding) {
            Ok((d, root)) => r matches Ok((doc, source)) && doc@ == d
                && source@ == (SourceView::Zip { archive: archive_path@, root: lossy_entry(root), encoding: name_encoding }),
            Err(e) => r == Err::<(PmxDocument, PmxSource), PmxError>(e),
        },
{
    let found = match find_first_pmx_zip_entry_root(archive_bytes, name_encoding) {
        Ok(f) => f,
        Err(e) => return Err(e),
    };
    let (index, _entry, root) = match found {
        Some(f) => f,
        None => return Err(PmxError::InvalidFormat("zip archive does not contain a PMX file")),
    };
    let source = PmxSource::zip_with_encoding(archive_path, root.as_str(), name_encoding);
    let pmx_bytes = match crate::source::archive::read_zip_entry_bytes(archive_bytes, index) {
        Ok(b) => b,
        Err(e) => return Err(e),
    };
    let document = match parse_entry(pmx_bytes.as_slice()) {
        Ok(d) => d,
        Err(e) => return Err(e),
    };
    Ok((document, source))
}

/// The one RGBA pixel of the image that stands for a texture that could not be loaded: opaque
/// magenta.
pub const PLACEHOLDER_TEXTURE_PIXEL: [u8; 4] = [255, 0, 255, 255];

/// The image a texture sub-asset gets: the loaded one, or, when reading or decoding the texture
/// failed, the placeholder. A texture that cannot be loaded never fails the model's load.
pub fn texture_or_placeholder<T, E>(loaded: Result<T, E>, placeholder: T) -> (r: T)
    ensures
        match loaded {
            Ok(image) => r == image,
            Err(_) => r == placeholder,
        },
{
    match loaded {
        Ok(image) => image,
        Err(_) => placeholder,
    }
}

/// The labels of the sub-assets that loading a model makes, in the order they are made:
/// one texture per texture path, one material per material record, one sub-asset per bone
/// and per morph record, the rigid bodies, joints and soft bodies, and the mesh; each kind
/// only when the settings ask for it.
pub open spec fn planned_sub_assets(settings: PmxLoaderSettings, m: Pmx) -> Seq<PmxAssetLabel> {
    kind_labels(settings.load_textures, 0, m.texture_paths@.len())
        + kind_labels(settings.load_materials, 1, m.material_records@.len())
        + kind_labels(settings.load_bones, 2, m.bone_records@.len())
        + kind_labels(settings.load_morphs, 3, m.morph_records@.len())
        + kind_labels(settings.load_physics, 4, m.rigid_body_records@.len())
        + kind_labels(settings.load_physics, 5, m.joint_records@.len())
        + kind_labels(settings.load_physics, 6, m.soft_body_records@.len())
        + (if settings.load_meshes { seq![PmxAssetLabel::Mesh] } else { Seq::empty() })
}

/// The labels of one kind, for indices below `n`, when `on` holds.
pub open spec fn kind_labels(on: bool, kind: u8, n: nat) -> Seq<PmxAssetLabel> {
    if on { Seq::new(n, |i: int| label_of_kind(kind, i as usize)) } else { Seq::empty() }
}

/// Appends one label per index below `n`, made by `kind`.
fn push_indexed(labels: &mut Vec<PmxAssetLabel>, n: usize, kind: u8)
    requires
        kind < 7,
    ensures
        final(labels)@ == old(labels)@ + Seq::new(n as nat, |i: int| label_of_kind(kind, i as usize)),
{
    let ghost before = labels@;
    let mut i: usize = 0;
    while i < n
        invariant
            kind < 7,
            i <= n,
            labels@ == before + Seq::new(i as nat, |k: int| label_of_kind(kind, k as usize)),
        decreases n - i,
    {
        let label = match kind {
            0 => PmxAssetLabel::Texture(i),
            1 => PmxAssetLabel::Material(i),
            2 => PmxAssetLabel::Bone(i),
            3 => PmxAssetLabel::Morph(i),
            4 => PmxAssetLabel::RigidBody(i),
            5 => PmxAssetLabel::Joint(i),
            _ => PmxAssetLabel::SoftBody(i),
        };
        labels.push(label);
        assert(labels@ =~= before + Seq::new((i + 1) as nat, |k: int| label_of_kind(kind, k as usize)));
        i = i + 1;
    }
}

/// The indexed label kinds, numbered in the order the loader makes them.
pub open spec fn label_of_kind(kind: u8, i: usize) -> PmxAssetLabel {
    if kind == 0 {
        PmxAssetLabel::Texture(i)
    } else if kind == 1 {
        PmxAssetLabel::Material(i)
    } else if kind == 2 {
        PmxAssetLabel::Bone(i)
    } else if kind == 3 {
        PmxAssetLabel::Morph(i)
    } else if kind == 4 {
        PmxAssetLabel::RigidBody(i)
    } else if kind == 5 {
        PmxAssetLabel::Joint(i)
    } else {
        PmxAssetLabel::SoftBody(i)
    }
}

impl PmxLoader {
    /// The labels of the sub-assets that loading `model` makes, in order.
    pub fn sub_assets(&self, model: &Pmx) -> (r: Vec<PmxAssetLabel>)
        ensures
            r@ == planned_sub_assets(self.settings, *model),
    {
        let s = self.settings;
        let mut labels: Vec<PmxAssetLabel> = Vec::new();
        push_kind(&mut labels, s.load_textures, model.texture_paths.len(), 0);
        push_kind(&mut labels, s.load_materials, model.material_records.len(), 1);
        push_kind(&mut labels, s.load_bones, model.bone_records.len(), 2);
        push_kind(&mut labels, s.load_morphs, model.morph_records.len(), 3);
        push_kind(&mut labels, s.load_physics, model.rigid_body_records.len(), 4);
        push_kind(&mut labels, s.load_physics, model.joint_records.len(), 5);
        push_kind(&mut labels, s.load_physics, model.soft_body_records.len(), 6);
        let ghost before = labels@;
        if s.load_meshes {
            labels.push(PmxAssetLabel::Mesh);
        }
        assert(labels@ =~= before + (if s.load_meshes { seq![PmxAssetLabel::Mesh] } else { Seq::<PmxAssetLabel>::empty() }));
        assert(Seq::<PmxAssetLabel>::empty() + kind_labels(s.load_textures, 0, model.texture_paths@.len())
            =~= kind_labels(s.load_textures, 0, model.texture_paths@.len()));
        labels
    }
}

/// Appends the labels of one kind when `on` holds.
fn push_kind(labels: &mut Vec<PmxAssetLabel>, on: bool, n: usize, kind: u8)
    requires
        kind < 7,
    ensures
        final(labels)@ == old(labels)@ + kind_labels(on, kind, n as nat),
{
    if on {
        push_indexed(labels, n, kind);
    } else {
        assert(old(labels)@ + kind_labels(on, kind, n as nat) =~= old(labels)@);
    }
}

/// `Path::parent`, by components: the path without its last component; `None` for a path
/// with no components or only a root.
pub open spec fn path_parent(p: Seq<char>) -> Option<Seq<char>> {
    match parent_components(path_components(p)) {
        Some(cs) => Some(render_components(cs)),
        None => None,
    }
}

/// Where the files next to a loaded asset live: the asset's directory, under `assets` when
/// the asset comes from the default asset source.
pub open spec fn asset_source_root(asset_path: Seq<char>, named_source: bool) -> Seq<char> {
    let dir = match path_parent(asset_path) {
        Some(d) => d,
        None => Seq::empty(),
    };
    if named_source { dir } else { path_join("assets"@, dir) }
}

fn parent_of(p: &str) -> (r: Vec<char>)
    ensures
        r@ == match path_parent(p@) {
            Some(d) => d,
            None => Seq::empty(),
        },
{
    let pc = chars_of(p);
    let mut comps = components_of(pc.as_slice());
    let n = comps.len();
    if n == 0 || (comps[n - 1].len() == 1 && comps[n - 1][0] == '/') {
        proof {
            if n > 0 {
                assert(crate::format::model::seq_view(comps@).last() =~= seq!['/']);
            }
        }
        return Vec::new();
    }
    assert(crate::format::model::seq_view(comps@).last() != seq!['/']) by {
        if crate::format::model::seq_view(comps@).last() == seq!['/'] {
            assert(comps@[n - 1]@.len() == 1);
        }
    }
    let ghost before = comps@;
    comps.pop();
    assert(crate::format::model::seq_view(comps@) =~= crate::format::model::seq_view(before).drop_last());
    render_path(&comps)
}

/// The directory whose files sit next to a loaded asset (see `asset_source_root`).
pub fn source_root_for(asset_path: &str, named_source: bool) -> (r: String)
    ensures
        r@ == asset_source_root(asset_path@, named_source),
{
    let dir = parent_of(asset_path);
    if named_source {
        string_from_chars(dir.as_slice())
    } else {
        let assets: Vec<char> = vec!['a', 's', 's', 'e', 't', 's'];
        proof { reveal_strlit("assets"); }
        assert(assets@ =~= "assets"@);
        let joined = crate::paths::join_paths(assets.as_slice(), dir.as_slice());
        string_from_chars(joined.as_slice())
    }
}

/// The source that a loaded `.pmx` asset reads its textures from: for an asset inside a ZIP
/// archive served by the `zip` asset source, the archive under the entry's directory; else
/// the asset's folder.
pub fn source_for(asset_path: &str, source_name: Option<&str>) -> (r: PmxSource)
    ensures
        ({
            let zip_named = source_name matches Some(n) && n@ == "zip"@;
            match (zip_named, zip_asset_split(asset_path@)) {
                (true, Some((a, root))) => r@ == (SourceView::Zip { archive: a, root: lossy_entry(root), encoding: ZipNameEncoding::Auto }),
                _ => r@ == SourceView::Folder(asset_source_root(asset_path@, source_name is Some)),
            }
        }),
{
    let named = source_name.is_some();
    let zip_named = match source_name {
        Some(n) => {
            let cs = chars_of(n);
            let zip: Vec<char> = vec!['z', 'i', 'p'];
            proof { reveal_strlit("zip"); }
            assert(zip@ =~= "zip"@);
            crate::strings::chars_eq(cs.as_slice(), zip.as_slice())
        },
        None => false,
    };
    if zip_named {
        if let Some((archive, root)) = split_zip_asset_path(asset_path) {
            return PmxSource::zip(archive.as_str(), root.as_str());
        }
    }
    let root = source_root_for(asset_path, named);
    PmxSource::folder(root.as_str())
}

/// The archive that a loaded `.zip` asset is: its file name in the directory of its files.
pub fn archive_path_for(asset_path: &str, named_source: bool) -> (r: String)
    ensures
        r@ == path_join(asset_source_root(asset_path@, named_source), match path_file_name(asset_path@) {
            Some(f) => f,
            None => Seq::empty(),
        }),
{
    let root = source_root_for(asset_path, named_source);
    let pc = chars_of(asset_path);
    let name = match file_name_of(pc.as_slice()) {
        Some(f) => f,
        None => Vec::new(),
    };
    let rc = chars_of(root.as_str());
    let joined = crate::paths::join_paths(rc.as_slice(), name.as_slice());
    string_from_chars(joined.as_slice())
}

} // verus!
