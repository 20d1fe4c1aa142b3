//! Turning the texture strings of a PMX document into resource locations.
//!
//! Where a texture lives is decided by asking the disk or the archive a series of questions
//! (probes) in a fixed order: the first probe that finds the texture decides, and when none
//! does, a fallback location is used. `PmxResolver::texture_plan` lists the probes and the
//! fallback; the caller answers the probes; `PmxTexturePlan::settle` picks the result.

use vstd::prelude::*;

use crate::format::model::{lemma_seq_view_push, seq_view};
use crate::paths::{
    components_of, file_name_of, has_cur_dir_prefix, is_absolute, join_paths, path_components,
    path_file_name, path_is_absolute, path_join, path_pieces, pieces_of_path, render_components,
    render_path,
};
use crate::source::{
    LocationView, PmxFolderSource, PmxSource, PmxSourceLocation, SourceView, source_resolves,
};
use crate::strings::{chars_eq, chars_of, string_from_chars, string_of, to_slashes, slashes};

verus! {

/// Whether a character has the Unicode `White_Space` property, which `char::is_whitespace`
/// (and so `str::trim`) tests.
pub open spec fn is_white_space(c: char) -> bool {
    ('\u{9}' <= c && c <= '\u{d}') || c == ' ' || c == '\u{85}' || c == '\u{a0}' || c == '\u{1680}'
        || ('\u{2000}' <= c && c <= '\u{200a}') || c == '\u{2028}' || c == '\u{2029}'
        || c == '\u{202f}' || c == '\u{205f}' || c == '\u{3000}'
}

pub fn white_space(c: char) -> (r: bool)
    ensures
        r == is_white_space(c),
{
    ('\u{9}' <= c && c <= '\u{d}') || c == ' ' || c == '\u{85}' || c == '\u{a0}' || c == '\u{1680}'
        || ('\u{2000}' <= c && c <= '\u{200a}') || c == '\u{2028}' || c == '\u{2029}'
        || c == '\u{202f}' || c == '\u{205f}' || c == '\u{3000}'
}

/// Number of leading white-space characters.
pub open spec fn leading_white(s: Seq<char>) -> int
    decreases s.len(),
{
    if s.len() > 0 && is_white_space(s[0]) { 1 + leading_white(s.drop_first()) } else { 0 }
}

/// Number of trailing white-space characters.
pub open spec fn trailing_white(s: Seq<char>) -> int
    decreases s.len(),
{
    if s.len() > 0 && is_white_space(s.last()) { 1 + trailing_white(s.drop_last()) } else { 0 }
}

/// `str::trim`: the text without leading and trailing white space.
pub open spec fn trimmed(s: Seq<char>) -> Seq<char> {
    let t = s.skip(leading_white(s));
    t.take(t.len() - trailing_white(t))
}

proof fn lemma_leading_white(s: Seq<char>, i: int)
    requires
        0 <= i <= s.len(),
        forall|k: int| 0 <= k < i ==> is_white_space(#[trigger] s[k]),
        i == s.len() || !is_white_space(s[i]),
    ensures
        leading_white(s) == i,
    decreases i,
{
    if i > 0 {
        assert forall|k: int| 0 <= k < i - 1 implies is_white_space(#[trigger] s.drop_first()[k]) by {
            assert(s.drop_first()[k] == s[k + 1]);
        }
        if i - 1 < s.drop_first().len() {
            assert(s.drop_first()[i - 1] == s[i]);
        }
        lemma_leading_white(s.drop_first(), i - 1);
    }
}

proof fn lemma_trailing_white(s: Seq<char>, j: int)
    requires
        0 <= j <= s.len(),
        forall|k: int| j <= k < s.len() ==> is_white_space(#[trigger] s[k]),
        j == 0 || !is_white_space(s[j - 1]),
    ensures
        trailing_white(s) == s.len() - j,
    decreases s.len() - j,
{
    if j < s.len() {
        assert forall|k: int| j <= k < s.drop_last().len() implies is_white_space(#[trigger] s.drop_last()[k]) by {
            assert(s.drop_last()[k] == s[k]);
        }
        if j > 0 {
            assert(s.drop_last()[j - 1] == s[j - 1]);
        }
        lemma_trailing_white(s.drop_last(), j);
    }
}

/// The characters without leading and trailing white space.
pub fn trim_chars(s: &[char]) -> (r: Vec<char>)
    ensures
        r@ == trimmed(s@),
{
    let mut i: usize = 0;
    while i < s.len() && white_space(s[i])
        invariant
            i <= s@.len(),
            forall|k: int| 0 <= k < i ==> is_white_space(#[trigger] s@[k]),
        decreases s@.len() - i,
    {
        i = i + 1;
    }
    proof { lemma_leading_white(s@, i as int); }
    let ghost t = s@.skip(i as int);
    let mut j: usize = s.len();
    while j > i && white_space(s[j - 1])
        invariant
            i <= j <= s@.len(),
            forall|k: int| j <= k < s@.len() ==> is_white_space(#[trigger] s@[k]),
        decreases j,
    {
        j = j - 1;
    }
    proof {
        assert forall|k: int| j - i <= k < t.len() implies is_white_space(#[trigger] t[k]) by {
            assert(t[k] == s@[k + i]);
        }
        if j > i {
            assert(t[j - i - 1] == s@[j - 1]);
        }
        lemma_trailing_white(t, j - i);
    }
    let mut out: Vec<char> = Vec::new();
    let mut k: usize = i;
    while k < j
        invariant
            i <= k <= j,
            j <= s@.len(),
            out@ == s@.subrange(i as int, k as int),
        decreases j - k,
    {
        out.push(s[k]);
        assert(s@.subrange(i as int, k + 1) =~= s@.subrange(i as int, k as int).push(s@[k as int]));
        k = k + 1;
    }
    assert(t.take(t.len() - trailing_white(t)) =~= s@.subrange(i as int, j as int));
    out
}

/// A PMX texture string as a path: trimmed, with `\` separators turned into `/`.
pub open spec fn texture_path_of(texture: Seq<char>) -> Seq<char> {
    slashes(trimmed(texture))
}

/// A texture string of a document, and where it was resolved to.
#[derive(Debug, Clone, PartialEq, Eq)]
pub struct PmxResolvedPath {
    pub original: String,
    pub location: PmxSourceLocation,
}

#[derive(Debug, Clone, Copy, PartialEq, Eq)]
pub struct PmxResolverSettings {
    /// Look next to the model before looking at the path as it is written.
    pub prefer_model_directory: bool,
    /// Fall back to matching names without regard to case.
    pub allow_case_fallbacks: bool,
}

impl Default for PmxResolverSettings {
    fn default() -> (r: Self)
        ensures
            r.prefer_model_directory,
            r.allow_case_fallbacks,
    {
        PmxResolverSettings { prefer_model_directory: true, allow_case_fallbacks: true }
    }
}

#[derive(Debug, Clone, Copy, PartialEq, Eq)]
pub struct PmxResolver {
    pub settings: PmxResolverSettings,
}

impl Default for PmxResolver {
    fn default() -> (r: Self)
        ensures
            r.settings.prefer_model_directory,
            r.settings.allow_case_fallbacks,
    {
        PmxResolver { settings: PmxResolverSettings::default() }
    }
}

/// `Path::strip_prefix`: when the components of `root` begin those of `path`, the remaining
/// components written as a path.
pub open spec fn strip_components(path: Seq<char>, root: Seq<char>) -> Option<Seq<char>> {
    let pc = path_components(path);
    let rc = path_components(root);
    if rc.len() <= pc.len() && pc.take(rc.len() as int) == rc {
        Some(render_components(pc.skip(rc.len() as int)))
    } else {
        None
    }
}

impl PmxResolvedPath {
    pub fn new(original: &str, location: PmxSourceLocation) -> (r: Self)
        ensures
            r.original@ == original@,
            r.location == location,
    {
        PmxResolvedPath { original: string_of(original), location }
    }

    pub fn location(&self) -> (r: &PmxSourceLocation)
        ensures
            *r == self.location,
    {
        &self.location
    }

    pub fn source_location(&self) -> (r: &PmxSourceLocation)
        ensures
            *r == self.location,
    {
        &self.location
    }

    /// The disk path, or the entry name inside the archive.
    pub fn resolved_path(&self) -> (r: &str)
        ensures
            r@ == crate::source::location_path(self.location@),
    {
        self.location.as_path()
    }

    /// The location relative to `root`: a disk path with `root`'s components removed from its
    /// front (`None` when they do not begin it), or the entry name inside the archive.
    pub fn relative_to(&self, root: &str) -> (r: Option<String>)
        ensures
            match self.location@ {
                LocationView::Disk(p) => match strip_components(p, root@) {
                    Some(rest) => r matches Some(x) && x@ == rest,
                    None => r is None,
                },
                LocationView::Zip { entry, .. } => r matches Some(x) && x@ == entry,
            },
    {
        match &self.location {
            PmxSourceLocation::Zip { entry, .. } => Some(string_of(entry.as_str())),
            PmxSourceLocation::Disk(p) => {
                let pchars = chars_of(p.as_str());
                let rchars = chars_of(root);
                let pc = components_of(pchars.as_slice());
                let rc = components_of(rchars.as_slice());
                let ghost pv = seq_view(pc@);
                let ghost rv = seq_view(rc@);
                let ghost pp = p@;
                assert(pv == path_components(pp) && rv == path_components(root@));
                if rc.len() > pc.len() {
                    return None;
                }
                let mut i: usize = 0;
                while i < rc.len()
                    invariant
                        rv == seq_view(rc@),
                        pv == seq_view(pc@),
                        pv == path_components(pp),
                        rv == path_components(root@),
                        self.location@ == LocationView::Disk(pp),
                        rc@.len() <= pc@.len(),
                        i <= rc@.len(),
                        forall|k: int| 0 <= k < i ==> pv[k] == rv[k],
                    decreases rc@.len() - i,
                {
                    if !chars_eq(pc[i].as_slice(), rc[i].as_slice()) {
                        assert(pv[i as int] == pc@[i as int]@);
                        assert(rv[i as int] == rc@[i as int]@);
                        assert(pv.take(rv.len() as int)[i as int] != rv[i as int]);
                        assert(pv.take(rv.len() as int) != rv);
                        return None;
                    }
                    i = i + 1;
                }
                assert(pv.take(rv.len() as int) =~= rv);
                let mut rest: Vec<Vec<char>> = Vec::new();
                let mut j: usize = rc.len();
                while j < pc.len()
                    invariant
                        pv == seq_view(pc@),
                        rc@.len() <= j <= pc@.len(),
                        rest@.len() == j - rc@.len(),
                        forall|q: int| 0 <= q < rest@.len() ==> (#[trigger] rest@[q])@ == pv[rc@.len() + q],
                    decreases pc@.len() - j,
                {
                    rest.push(vstd::slice::slice_to_vec(pc[j].as_slice()));
                    j = j + 1;
                }
                assert(seq_view(rest@) =~= pv.skip(rv.len() as int));
                let out = render_path(&rest);
                Some(string_from_chars(out.as_slice()))
            },
        }
    }
}

/// A question that helps decide where a texture lives.
#[derive(Debug, Clone, PartialEq, Eq)]
pub enum PmxProbe {
    /// Answered with `location` when `source` holds it (`PmxSource::contains_location`), and
    /// with nothing otherwise.
    Holds { source: PmxSource, location: PmxSourceLocation },
    /// Answered with what `source` finds for `path` when names are matched regardless of case
    /// (for an archive, `PmxZipSource::resolve_case_insensitive`; for a folder, a walk of its
    /// directories; an absolute path is answered with itself when it exists).
    CaseInsensitive { source: PmxSource, path: String },
}

pub enum ProbeView {
    Holds(SourceView, LocationView),
    CaseInsensitive(SourceView, Seq<char>),
}

impl View for PmxProbe {
    type V = ProbeView;

    open spec fn view(&self) -> ProbeView {
        match self {
            PmxProbe::Holds { source, location } => ProbeView::Holds(source@, location@),
            PmxProbe::CaseInsensitive { source, path } => ProbeView::CaseInsensitive(source@, path@),
        }
    }
}

/// The probes that settle where a texture lives, in the order they are asked, and the location
/// used when none finds it.
pub struct PmxTexturePlan {
    pub original: String,
    pub probes: Vec<PmxProbe>,
    pub fallback: PmxSourceLocation,
}

/// The working directory, as a folder source.
pub open spec fn current_dir() -> SourceView {
    SourceView::Folder("."@)
}

pub open spec fn case_probe(settings: PmxResolverSettings, source: SourceView, path: Seq<char>) -> Seq<ProbeView> {
    if settings.allow_case_fallbacks { seq![ProbeView::CaseInsensitive(source, path)] } else { Seq::empty() }
}

/// Looking in the source: where it resolves the path, then (with case fallbacks) the same path
/// regardless of case.
pub open spec fn source_probes(settings: PmxResolverSettings, source: SourceView, path: Seq<char>) -> Seq<ProbeView> {
    seq![ProbeView::Holds(source, source_resolves(source, path))] + case_probe(settings, source, path)
}

/// Looking at the path as written, relative to the working directory.
pub open spec fn plain_probes(settings: PmxResolverSettings, path: Seq<char>) -> Seq<ProbeView> {
    seq![ProbeView::Holds(current_dir(), LocationView::Disk(path))] + case_probe(settings, current_dir(), path)
}

/// The directories where MMD models commonly keep textures, in the order they are tried.
pub open spec fn common_dir(k: int) -> Seq<char> {
    if k == 0 {
        "Texture"@
    } else if k == 1 {
        "texture"@
    } else if k == 2 {
        "textures"@
    } else if k == 3 {
        "tex"@
    } else if k == 4 {
        "spa"@
    } else if k == 5 {
        "sp"@
    } else {
        "toon"@
    }
}

pub open spec fn common_dir_count() -> int {
    7
}

pub open spec fn common_probes_upto(settings: PmxResolverSettings, source: SourceView, name: Seq<char>, n: nat) -> Seq<ProbeView>
    decreases n,
{
    if n == 0 {
        Seq::empty()
    } else {
        common_probes_upto(settings, source, name, (n - 1) as nat)
            + source_probes(settings, source, path_join(common_dir(n - 1), name))
    }
}

/// Whether a relative path is one plain file name (one component, not `.` or `..`).
pub open spec fn is_bare_name(path: Seq<char>) -> bool {
    !has_cur_dir_prefix(path) && path_pieces(path).len() == 1 && path_file_name(path) is Some
}

/// Looking for a bare file name in each common texture directory of the source.
pub open spec fn common_probes(settings: PmxResolverSettings, source: SourceView, path: Seq<char>) -> Seq<ProbeView> {
    if is_bare_name(path) {
        common_probes_upto(settings, source, path_file_name(path)->0, common_dir_count() as nat)
    } else {
        Seq::empty()
    }
}

/// The probes for a texture path, in order: an absolute path needs none; with a source, the
/// source first (then the common directories, then the path as written) when the model
/// directory is preferred, else the reverse; without a source, the path as written, then the
/// common directories of the working directory.
pub open spec fn plan_probes(settings: PmxResolverSettings, source: Option<SourceView>, path: Seq<char>) -> Seq<ProbeView> {
    if path_is_absolute(path) {
        Seq::empty()
    } else {
        match source {
            Some(s) => if settings.prefer_model_directory {
                source_probes(settings, s, path) + common_probes(settings, s, path) + plain_probes(settings, path)
            } else {
                plain_probes(settings, path) + common_probes(settings, s, path) + source_probes(settings, s, path)
            },
            None => plain_probes(settings, path) + common_probes(settings, current_dir(), path),
        }
    }
}

/// Where a texture path goes when no probe finds it: itself when absolute or when there is no
/// source, else where the source resolves it.
pub open spec fn plan_fallback(source: Option<SourceView>, path: Seq<char>) -> LocationView {
    if path_is_absolute(path) {
        LocationView::Disk(path)
    } else {
        match source {
            Some(s) => source_resolves(s, path),
            None => LocationView::Disk(path),
        }
    }
}

pub open spec fn opt_source_view(source: Option<&PmxSource>) -> Option<SourceView> {
    match source {
        Some(s) => Some(s@),
        None => None,
    }
}

/// The first answer that found something.
pub open spec fn first_found(answers: Seq<Option<LocationView>>) -> Option<LocationView>
    decreases answers.len(),
{
    if answers.len() == 0 {
        None
    } else {
        match first_found(answers.drop_last()) {
            Some(l) => Some(l),
            None => answers.last(),
        }
    }
}

pub open spec fn answer_views(answers: Seq<Option<PmxSourceLocation>>) -> Seq<Option<LocationView>> {
    Seq::new(answers.len(), |i: int| match answers[i] {
        Some(l) => Some(l@),
        None => None,
    })
}

/// Where a plan resolves to, given the answers to its probes in order: the first answer that
/// found the texture, or the fallback.
pub open spec fn settled(answers: Seq<Option<LocationView>>, fallback: LocationView) -> LocationView {
    match first_found(answers) {
        Some(l) => l,
        None => fallback,
    }
}

fn push_probe(probes: &mut Vec<PmxProbe>, probe: PmxProbe)
    ensures
        seq_view(final(probes)@) == seq_view(old(probes)@).push(probe@),
{
    let ghost prev = probes@;
    probes.push(probe);
    proof { lemma_seq_view_push(prev, probe); }
}

fn common_dir_name(k: usize) -> (r: &'static str)
    requires
        k < 7,
    ensures
        r@ == common_dir(k as int),
{
    if k == 0 {
        "Texture"
    } else if k == 1 {
        "texture"
    } else if k == 2 {
        "textures"
    } else if k == 3 {
        "tex"
    } else if k == 4 {
        "spa"
    } else if k == 5 {
        "sp"
    } else {
        "toon"
    }
}

fn path_join_str(a: &str, b: &str) -> (r: String)
    ensures
        r@ == path_join(a@, b@),
{
    let ac = chars_of(a);
    let bc = chars_of(b);
    let j = join_paths(ac.as_slice(), bc.as_slice());
    string_from_chars(j.as_slice())
}

impl PmxResolver {
    pub fn new() -> (r: Self)
        ensures
            r.settings.prefer_model_directory,
            r.settings.allow_case_fallbacks,
    {
        PmxResolver::default()
    }

    pub fn with_settings(settings: PmxResolverSettings) -> (r: Self)
        ensures
            r.settings == settings,
    {
        PmxResolver { settings }
    }

    fn push_case_probe(&self, probes: &mut Vec<PmxProbe>, source: &PmxSource, path: &str)
        ensures
            seq_view(final(probes)@) == seq_view(old(probes)@) + case_probe(self.settings, source@, path@),
    {
        if self.settings.allow_case_fallbacks {
            push_probe(probes, PmxProbe::CaseInsensitive { source: source.copied(), path: string_of(path) });
            assert(seq_view(probes@) =~= seq_view(old(probes)@) + case_probe(self.settings, source@, path@));
        } else {
            assert(seq_view(probes@) =~= seq_view(old(probes)@) + case_probe(self.settings, source@, path@));
        }
    }

    /// Appends the probes that look in the source.
    fn push_source_probes(&self, probes: &mut Vec<PmxProbe>, source: &PmxSource, path: &str)
        ensures
            seq_view(final(probes)@) == seq_view(old(probes)@) + source_probes(self.settings, source@, path@),
    {
        let resolved = source.resolve(path);
        push_probe(probes, PmxProbe::Holds { source: source.copied(), location: resolved });
        let ghost mid = seq_view(probes@);
        self.push_case_probe(probes, source, path);
        assert(seq_view(probes@) =~= seq_view(old(probes)@) + source_probes(self.settings, source@, path@));
    }

    /// Appends the probes that look at the path as written.
    fn push_plain_probes(&self, probes: &mut Vec<PmxProbe>, path: &str)
        ensures
            seq_view(final(probes)@) == seq_view(old(probes)@) + plain_probes(self.settings, path@),
    {
        let here = PmxSource::Folder(PmxFolderSource::new("."));
        push_probe(probes, PmxProbe::Holds { source: here.copied(), location: PmxSourceLocation::Disk(string_of(path)) });
        self.push_case_probe(probes, &here, path);
        assert(seq_view(probes@) =~= seq_view(old(probes)@) + plain_probes(self.settings, path@));
    }

    /// Appends the probes that look for a bare file name in the common texture directories.
    fn push_common_probes(&self, probes: &mut Vec<PmxProbe>, source: &PmxSource, path: &str)
        ensures
            seq_view(final(probes)@) == seq_view(old(probes)@) + common_probes(self.settings, source@, path@),
    {
        let p = chars_of(path);
        let pieces = pieces_of_path(p.as_slice());
        let cur_dir_first = p.len() > 0 && p[0] == '.' && (p.len() == 1 || p[1] == '/');
        let name = file_name_of(p.as_slice());
        if cur_dir_first || pieces.len() != 1 || name.is_none() {
            assert(seq_view(probes@) =~= seq_view(old(probes)@) + common_probes(self.settings, source@, path@));
            return;
        }
        let name = match name {
            Some(n) => string_from_chars(n.as_slice()),
            None => return,
        };
        let mut k: usize = 0;
        while k < 7
            invariant
                k <= 7,
                is_bare_name(path@),
                name@ == path_file_name(path@)->0,
                seq_view(probes@) == seq_view(old(probes)@) + common_probes_upto(self.settings, source@, name@, k as nat),
            decreases 7 - k,
        {
            let candidate = path_join_str(common_dir_name(k), name.as_str());
            self.push_source_probes(probes, source, candidate.as_str());
            assert(seq_view(probes@) =~= seq_view(old(probes)@) + common_probes_upto(self.settings, source@, name@, (k + 1) as nat));
            k = k + 1;
        }
    }

    /// The probes and the fallback that decide where `texture` lives.
    pub fn texture_plan(&self, source: Option<&PmxSource>, texture: &str) -> (r: PmxTexturePlan)
        ensures
            r.original@ == texture@,
            seq_view(r.probes@) == plan_probes(self.settings, opt_source_view(source), texture_path_of(texture@)),
            r.fallback@ == plan_fallback(opt_source_view(source), texture_path_of(texture@)),
    {
        let t = chars_of(texture);
        let trimmed_chars = trim_chars(t.as_slice());
        let path_chars = to_slashes(trimmed_chars.as_slice());
        let path = string_from_chars(path_chars.as_slice());
        let mut probes: Vec<PmxProbe> = Vec::new();
        proof { crate::format::model::lemma_seq_view_empty(probes@); }
        if is_absolute(path_chars.as_slice()) {
            return PmxTexturePlan { original: string_of(texture), probes, fallback: PmxSourceLocation::Disk(path) };
        }
        let fallback = match source {
            Some(s) => {
                if self.settings.prefer_model_directory {
                    self.push_source_probes(&mut probes, s, path.as_str());
                    self.push_common_probes(&mut probes, s, path.as_str());
                    self.push_plain_probes(&mut probes, path.as_str());
                } else {
                    self.push_plain_probes(&mut probes, path.as_str());
                    self.push_common_probes(&mut probes, s, path.as_str());
                    self.push_source_probes(&mut probes, s, path.as_str());
                }
                s.resolve(path.as_str())
            },
            None => {
                self.push_plain_probes(&mut probes, path.as_str());
                let here = PmxSource::Folder(PmxFolderSource::new("."));
                self.push_common_probes(&mut probes, &here, path.as_str());
                PmxSourceLocation::Disk(string_of(path.as_str()))
            },
        };
        PmxTexturePlan { original: string_of(texture), probes, fallback }
    }

    /// Resolves `texture` from the answers to the probes of its plan, in order (answers after
    /// the first one that found the texture may be left out).
    pub fn resolve_texture_path(
        &self,
        source: Option<&PmxSource>,
        texture: &str,
        answers: &[Option<PmxSourceLocation>],
    ) -> (r: PmxResolvedPath)
        ensures
            r.original@ == texture@,
            r.location@ == settled(answer_views(answers@), plan_fallback(opt_source_view(source), texture_path_of(texture@))),
    {
        let plan = self.texture_plan(source, texture);
        plan.settle(answers)
    }
}

impl PmxTexturePlan {
    /// The resolved texture: the first answer that found it, or the fallback.
    pub fn settle(&self, answers: &[Option<PmxSourceLocation>]) -> (r: PmxResolvedPath)
        ensures
            r.original@ == self.original@,
            r.location@ == settled(answer_views(answers@), self.fallback@),
    {
        let ghost av = answer_views(answers@);
        let mut i: usize = 0;
        while i < answers.len()
            invariant
                av == answer_views(answers@),
                i <= answers@.len(),
                first_found(av.take(i as int)) is None,
            decreases answers@.len() - i,
        {
            assert(av.take(i + 1).drop_last() =~= av.take(i as int));
            if let Some(l) = &answers[i] {
                proof { lemma_first_found_prefix(av.take(i + 1), av); }
                return PmxResolvedPath { original: string_of(self.original.as_str()), location: l.copied() };
            }
            i = i + 1;
        }
        assert(av.take(answers@.len() as int) =~= av);
        PmxResolvedPath { original: string_of(self.original.as_str()), location: self.fallback.copied() }
    }
}

/// An absolute texture path is taken as it is: nothing is probed, and it resolves to itself.
pub proof fn lemma_absolute_texture_is_kept(settings: PmxResolverSettings, source: Option<SourceView>, texture: Seq<char>)
    requires
        path_is_absolute(texture_path_of(texture)),
    ensures
        plan_probes(settings, source, texture_path_of(texture)) == Seq::<ProbeView>::empty(),
        settled(Seq::empty(), plan_fallback(source, texture_path_of(texture))) == LocationView::Disk(texture_path_of(texture)),
{
}

/// The answers decide in order: once a probe has found the texture, later answers do not
/// change the result.
pub proof fn lemma_first_answer_decides(answers: Seq<Option<LocationView>>, more: Seq<Option<LocationView>>, fallback: LocationView)
    requires
        first_found(answers) is Some,
    ensures
        settled(answers + more, fallback) == settled(answers, fallback),
{
    assert((answers + more).take(answers.len() as int) =~= answers);
    lemma_first_found_prefix(answers, answers + more);
}

proof fn lemma_first_found_prefix(p: Seq<Option<LocationView>>, s: Seq<Option<LocationView>>)
    requires
        p.len() <= s.len(),
        s.take(p.len() as int) == p,
        first_found(p) is Some,
    ensures
        first_found(s) == first_found(p),
    decreases s.len(),
{
    if s.len() == p.len() {
        assert(s.take(p.len() as int) =~= s);
    } else {
        assert(s.drop_last().take(p.len() as int) =~= s.take(p.len() as int));
        lemma_first_found_prefix(p, s.drop_last());
    }
}

/// The common texture directories that a bare file name is looked for in are, in this order:
/// `Texture`, `texture`, `textures`, `tex`, `spa`, `sp`, `toon`.
pub proof fn lemma_common_texture_directories()
    ensures
        common_dir_count() == 7,
        common_dir(0) == seq!['T', 'e', 'x', 't', 'u', 'r', 'e'],
        common_dir(1) == seq!['t', 'e', 'x', 't', 'u', 'r', 'e'],
        common_dir(2) == seq!['t', 'e', 'x', 't', 'u', 'r', 'e', 's'],
        common_dir(3) == seq!['t', 'e', 'x'],
        common_dir(4) == seq!['s', 'p', 'a'],
        common_dir(5) == seq!['s', 'p'],
        common_dir(6) == seq!['t', 'o', 'o', 'n'],
{
    reveal_strlit("Texture");
    reveal_strlit("texture");
    reveal_strlit("textures");
    reveal_strlit("tex");
    reveal_strlit("spa");
    reveal_strlit("sp");
    reveal_strlit("toon");
}

proof fn lemma_leading_white_stop(s: Seq<char>)
    ensures
        0 <= leading_white(s) <= s.len(),
        leading_white(s) < s.len() ==> !is_white_space(s[leading_white(s)]),
    decreases s.len(),
{
    if s.len() > 0 && is_white_space(s[0]) {
        lemma_leading_white_stop(s.drop_first());
        if leading_white(s) < s.len() {
            assert(s[leading_white(s)] == s.drop_first()[leading_white(s.drop_first())]);
        }
    }
}

proof fn lemma_trailing_white_stop(s: Seq<char>)
    ensures
        0 <= trailing_white(s) <= s.len(),
        trailing_white(s) < s.len() ==> !is_white_space(s[s.len() - trailing_white(s) - 1]),
    decreases s.len(),
{
    if s.len() > 0 && is_white_space(s.last()) {
        lemma_trailing_white_stop(s.drop_last());
        if trailing_white(s) < s.len() {
            let d = s.drop_last();
            assert(s[s.len() - trailing_white(s) - 1] == d[d.len() - trailing_white(d) - 1]);
        }
    }
}

/// A texture string becomes a path by dropping the white space around it and turning every `\`
/// into `/`: the path holds no `\` and neither starts nor ends with white space, and a string
/// that has no `\` and no white space around it is taken as it is.
pub proof fn lemma_texture_path_normalized(t: Seq<char>)
    ensures
        forall|k: int| 0 <= k < texture_path_of(t).len() ==> #[trigger] texture_path_of(t)[k] != '\\',
        texture_path_of(t).len() > 0 ==> !is_white_space(texture_path_of(t)[0])
            && !is_white_space(texture_path_of(t).last()),
        (forall|k: int| 0 <= k < t.len() ==> #[trigger] t[k] != '\\')
            && (t.len() > 0 ==> !is_white_space(t[0]) && !is_white_space(t.last()))
            ==> texture_path_of(t) == t,
{
    lemma_leading_white_stop(t);
    let l = leading_white(t);
    let u = t.skip(l);
    lemma_trailing_white_stop(u);
    let v = trimmed(t);
    assert(v == u.take(u.len() - trailing_white(u)));
    if v.len() > 0 {
        assert(v[0] == t[l]);
        assert(v.last() == u[u.len() - trailing_white(u) - 1]);
        assert(texture_path_of(t)[0] == (if v[0] == '\\' { '/' } else { v[0] }));
        assert(texture_path_of(t).last() == (if v.last() == '\\' { '/' } else { v.last() }));
    }
    if (forall|k: int| 0 <= k < t.len() ==> #[trigger] t[k] != '\\')
        && (t.len() > 0 ==> !is_white_space(t[0]) && !is_white_space(t.last())) {
        assert(u =~= t);
        if t.len() > 0 {
            assert(trailing_white(t) == 0);
        }
        assert(v =~= t);
        assert(texture_path_of(t) =~= t);
    }
}

/// The probes of the common directories, without case fallbacks: whether the source holds the
/// name under each directory, in the directories' order.
pub open spec fn common_holds(source: SourceView, name: Seq<char>, n: nat) -> Seq<ProbeView> {
    Seq::new(n, |k: int| ProbeView::Holds(source, source_resolves(source, path_join(common_dir(k), name))))
}

proof fn lemma_common_probes_upto_holds(settings: PmxResolverSettings, source: SourceView, name: Seq<char>, n: nat)
    requires
        !settings.allow_case_fallbacks,
    ensures
        common_probes_upto(settings, source, name, n) == common_holds(source, name, n),
    decreases n,
{
    if n > 0 {
        lemma_common_probes_upto_holds(settings, source, name, (n - 1) as nat);
        assert(common_probes_upto(settings, source, name, n) =~= common_holds(source, name, n));
    }
}

/// For a bare file name in a model with a source, the model directory preferred and no case
/// fallbacks, the resolver asks in this order: whether the source holds the name; whether it
/// holds it under `Texture`, `texture`, `textures`, `tex`, `spa`, `sp` and `toon`; whether the
/// name exists relative to the working directory. Unanswered, the name resolves in the source.
pub proof fn lemma_bare_name_probe_order(source: SourceView, path: Seq<char>)
    requires
        is_bare_name(path),
        !path_is_absolute(path),
    ensures
        plan_probes(PmxResolverSettings { prefer_model_directory: true, allow_case_fallbacks: false }, Some(source), path)
            == seq![ProbeView::Holds(source, source_resolves(source, path))]
                + common_holds(source, path_file_name(path)->0, 7)
                + seq![ProbeView::Holds(current_dir(), LocationView::Disk(path))],
        plan_fallback(Some(source), path) == source_resolves(source, path),
{
    let settings = PmxResolverSettings { prefer_model_directory: true, allow_case_fallbacks: false };
    lemma_common_probes_upto_holds(settings, source, path_file_name(path)->0, 7);
    assert(source_probes(settings, source, path) =~= seq![ProbeView::Holds(source, source_resolves(source, path))]);
    assert(plain_probes(settings, path) =~= seq![ProbeView::Holds(current_dir(), LocationView::Disk(path))]);
}

} // verus!
