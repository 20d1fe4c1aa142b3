//! Where a model's resources live: a folder on disk or a ZIP archive, and how resource paths
//! and archive entry names are resolved against them.
//!
//! Reading files and archives is left to the caller: the functions here take what was read
//! (an archive's bytes, its entry listing, whether a disk path exists) and decide the rest.

pub mod archive;
pub mod laws;
pub mod names;
pub mod walk;

use vstd::prelude::*;

use self::archive::{
    PmxZipListing, decodable_entries, find_listed_entry, find_outcome, read_zip_entry_bytes,
    read_zip_listing, zip_complete, zip_entry_content, zip_listed, zip_listing,
};
use self::names::{
    ZipNameEncoding, join_zip_entry_lossy, join_zip_entry_strict, joined_entry, lossy_entry,
    normalize_zip_entry_lossy, normalize_zip_entry_name, normalized_entry,
};
use crate::error::{PmxError, PmxIoErrorKind};
use crate::format::model::seq_view;
use crate::paths::{
    extension_of, is_absolute, join_paths, path_components, path_extension, path_is_absolute,
    path_join,
};
use self::walk::{PmxCaseWalk, WalkView};
use crate::strings::{chars_of, string_from_chars, string_of};

verus! {

/// Resources read from a folder on disk.
#[derive(Debug, Clone, PartialEq, Eq)]
pub struct PmxFolderSource {
    pub root: String,
}

impl Default for PmxFolderSource {
    fn default() -> (r: Self)
        ensures
            r.root@ == "."@,
    {
        PmxFolderSource { root: string_of(".") }
    }
}

impl PmxFolderSource {
    pub fn new(root: &str) -> (r: Self)
        ensures
            r.root@ == root@,
    {
        PmxFolderSource { root: string_of(root) }
    }

    pub fn root(&self) -> (r: &str)
        ensures
            r@ == self.root@,
    {
        self.root.as_str()
    }

    /// An absolute `path` as it is; a relative one under the root.
    pub fn resolve(&self, path: &str) -> (r: String)
        ensures
            r@ == path_join(self.root@, path@),
    {
        let root = chars_of(self.root.as_str());
        let p = chars_of(path);
        let joined = join_paths(root.as_slice(), p.as_slice());
        string_from_chars(joined.as_slice())
    }

    pub fn copied(&self) -> (r: Self)
        ensures
            r.root@ == self.root@,
    {
        PmxFolderSource { root: string_of(self.root.as_str()) }
    }
}

/// Resources read from the entries of a ZIP archive, under a root directory inside it.
#[derive(Debug, Clone, PartialEq, Eq)]
pub struct PmxZipSource {
    pub archive: String,
    pub root: String,
    pub name_encoding: ZipNameEncoding,
}

/// A resource location as plain values.
pub enum LocationView {
    Disk(Seq<char>),
    Zip { archive: Seq<char>, entry: Seq<char> },
}

/// The entry of a listing (`entries`, walked to the end when `complete`) that `path` names
/// under an archive root, matched exactly or else ignoring case; `None` when `path` has no
/// canonical form, no entry matches, or the lookup fails (see `find_outcome`).
pub open spec fn zip_case_lookup(
    archive: Seq<char>,
    root: Seq<char>,
    encoding: ZipNameEncoding,
    entries: Seq<(bool, Seq<u8>, Option<Seq<char>>)>,
    complete: bool,
    path: Seq<char>,
) -> Option<LocationView> {
    match normalized_entry(path) {
        None => None,
        Some(n) => match find_outcome(entries, complete, joined_entry(root, n), encoding, true) {
            Ok(Some((_, e))) => Some(LocationView::Zip { archive, entry: e }),
            _ => None,
        },
    }
}

/// Whether a listing holds the entry named `entry`, matched exactly; `false` too when the lookup
/// fails (see `find_outcome`).
pub open spec fn listing_holds(
    entries: Seq<(bool, Seq<u8>, Option<Seq<char>>)>,
    complete: bool,
    encoding: ZipNameEncoding,
    entry: Seq<char>,
) -> bool {
    match normalized_entry(entry) {
        None => false,
        Some(t) => find_outcome(entries, complete, t, encoding, false) matches Ok(Some(_)),
    }
}

/// Where a resource lives: a path on disk, or an entry of a ZIP archive.
#[derive(Debug, Clone, PartialEq, Eq)]
#[non_exhaustive]
pub enum PmxSourceLocation {
    Disk(String),
    Zip { archive: String, entry: String },
}

impl View for PmxSourceLocation {
    type V = LocationView;

    open spec fn view(&self) -> LocationView {
        match self {
            PmxSourceLocation::Disk(p) => LocationView::Disk(p@),
            PmxSourceLocation::Zip { archive, entry } => LocationView::Zip { archive: archive@, entry: entry@ },
        }
    }
}

pub open spec fn opt_location(o: Option<PmxSourceLocation>) -> Option<LocationView> {
    match o {
        Some(l) => Some(l@),
        None => None,
    }
}

impl PmxZipSource {
    /// A source reading `archive` under `root`, decoding entry names by guessing.
    pub fn new(archive: &str, root: &str) -> (r: Self)
        ensures
            r.archive@ == archive@,
            r.root@ == lossy_entry(root@),
            r.name_encoding == ZipNameEncoding::Auto,
    {
        Self::with_encoding(archive, root, ZipNameEncoding::Auto)
    }

    /// A source reading `archive` under `root` (kept in canonical entry form), decoding entry
    /// names with `name_encoding`.
    pub fn with_encoding(archive: &str, root: &str, name_encoding: ZipNameEncoding) -> (r: Self)
        ensures
            r.archive@ == archive@,
            r.root@ == lossy_entry(root@),
            r.name_encoding == name_encoding,
    {
        PmxZipSource { archive: string_of(archive), root: normalize_zip_entry_lossy(root), name_encoding }
    }

    pub fn archive(&self) -> (r: &str)
        ensures
            r@ == self.archive@,
    {
        self.archive.as_str()
    }

    pub fn root(&self) -> (r: &str)
        ensures
            r@ == self.root@,
    {
        self.root.as_str()
    }

    pub fn name_encoding(&self) -> (r: ZipNameEncoding)
        ensures
            r == self.name_encoding,
    {
        self.name_encoding
    }

    pub fn copied(&self) -> (r: Self)
        ensures
            r.archive@ == self.archive@,
            r.root@ == self.root@,
            r.name_encoding == self.name_encoding,
    {
        PmxZipSource {
            archive: string_of(self.archive.as_str()),
            root: string_of(self.root.as_str()),
            name_encoding: self.name_encoding,
        }
    }

    /// The entry that `path` names under the root, whether or not the archive holds it.
    pub fn resolve(&self, path: &str) -> (r: PmxSourceLocation)
        ensures
            r@ == (LocationView::Zip { archive: self.archive@, entry: joined_entry(self.root@, lossy_entry(path@)) }),
    {
        PmxSourceLocation::Zip {
            archive: string_of(self.archive.as_str()),
            entry: join_zip_entry_lossy(self.root.as_str(), path),
        }
    }

    /// The entry of the archive's listing that `path` names under the root, matched exactly or
    /// else ignoring case (see `zip_case_lookup`).
    pub fn resolve_case_insensitive(&self, path: &str, listing: &PmxZipListing) -> (r: Option<PmxSourceLocation>)
        requires
            decodable_entries(listing.entries@),
        ensures
            opt_location(r) == zip_case_lookup(self.archive@, self.root@, self.name_encoding, seq_view(listing.entries@), listing.complete, path@),
    {
        let target = match join_zip_entry_strict(self.root.as_str(), path) {
            Some(t) => t,
            None => return None,
        };
        match find_listed_entry(listing, target.as_str(), self.name_encoding, true) {
            Ok(Some(m)) => Some(PmxSourceLocation::Zip { archive: string_of(self.archive.as_str()), entry: m.entry }),
            _ => None,
        }
    }

    /// Whether the archive's listing holds the entry named `entry` (see `listing_holds`).
    pub fn contains_entry(&self, entry: &str, listing: &PmxZipListing) -> (r: bool)
        requires
            decodable_entries(listing.entries@),
        ensures
            r == listing_holds(seq_view(listing.entries@), listing.complete, self.name_encoding, entry@),
    {
        let target = match normalize_zip_entry_name(entry) {
            Some(t) => t,
            None => return false,
        };
        match find_listed_entry(listing, target.as_str(), self.name_encoding, false) {
            Ok(Some(_)) => true,
            _ => false,
        }
    }

    /// The contents of the entry named `entry` in the archive held in `archive_bytes` (see
    /// `zip_read_result`).
    pub fn read_bytes(&self, entry: &str, archive_bytes: &[u8]) -> (r: Result<Vec<u8>, PmxError>)
        ensures
            match zip_read_result(archive_bytes@, self.name_encoding, entry@) {
                Ok(c) => r matches Ok(v) && v@ == c,
                Err(e) => r == Err::<Vec<u8>, PmxError>(e),
            },
    {
        let target = match normalize_zip_entry_name(entry) {
            Some(t) => t,
            None => return Err(PmxError::Io(PmxIoErrorKind::InvalidInput)),
        };
        let listing = match read_zip_listing(archive_bytes) {
            Ok(l) => l,
            Err(e) => return Err(e),
        };
        match find_listed_entry(&listing, target.as_str(), self.name_encoding, false) {
            Err(e) => Err(e),
            Ok(None) => Err(PmxError::Io(PmxIoErrorKind::NotFound)),
            Ok(Some(m)) => read_zip_entry_bytes(archive_bytes, m.index),
        }
    }
}

/// What reading the entry named `entry` from the archive in `bytes` gives: `InvalidInput` when
/// the name has no canonical form, `Other` when no central directory can be read or the lookup
/// fails (see `find_outcome`), `NotFound` when no entry has exactly that name, else the entry's
/// contents (when they cannot be produced, the kind that `zip_entry_content` gives).
pub open spec fn zip_read_result(bytes: Seq<u8>, encoding: ZipNameEncoding, entry: Seq<char>) -> Result<Seq<u8>, PmxError> {
    match normalized_entry(entry) {
        None => Err(PmxError::Io(PmxIoErrorKind::InvalidInput)),
        Some(t) => if zip_listing(bytes) is None {
            Err(PmxError::Io(PmxIoErrorKind::Other))
        } else {
            match find_outcome(zip_listed(bytes), zip_complete(bytes), t, encoding, false) {
                Err(e) => Err(e),
                Ok(None) => Err(PmxError::Io(PmxIoErrorKind::NotFound)),
                Ok(Some((i, _))) => match zip_entry_content(bytes, i) {
                    Ok(c) => Ok(c),
                    Err(k) => Err(PmxError::Io(k)),
                },
            }
        },
    }
}

impl PmxSourceLocation {
    pub fn disk(path: &str) -> (r: Self)
        ensures
            r@ == LocationView::Disk(path@),
    {
        PmxSourceLocation::Disk(string_of(path))
    }

    pub fn zip(archive: &str, entry: &str) -> (r: Self)
        ensures
            r@ == (LocationView::Zip { archive: archive@, entry: entry@ }),
    {
        PmxSourceLocation::Zip { archive: string_of(archive), entry: string_of(entry) }
    }

    pub fn copied(&self) -> (r: Self)
        ensures
            r@ == self@,
    {
        match self {
            PmxSourceLocation::Disk(p) => PmxSourceLocation::Disk(string_of(p.as_str())),
            PmxSourceLocation::Zip { archive, entry } => PmxSourceLocation::Zip {
                archive: string_of(archive.as_str()),
                entry: string_of(entry.as_str()),
            },
        }
    }

    pub fn as_disk_path(&self) -> (r: Option<&str>)
        ensures
            match self@ {
                LocationView::Disk(p) => r matches Some(x) && x@ == p,
                LocationView::Zip { .. } => r is None,
            },
    {
        match self {
            PmxSourceLocation::Disk(p) => Some(p.as_str()),
            PmxSourceLocation::Zip { .. } => None,
        }
    }

    /// The disk path, or the entry name inside the archive.
    pub fn as_path(&self) -> (r: &str)
        ensures
            r@ == location_path(self@),
    {
        match self {
            PmxSourceLocation::Disk(p) => p.as_str(),
            PmxSourceLocation::Zip { entry, .. } => entry.as_str(),
        }
    }

    pub fn archive(&self) -> (r: Option<&str>)
        ensures
            match self@ {
                LocationView::Disk(_) => r is None,
                LocationView::Zip { archive, .. } => r matches Some(x) && x@ == archive,
            },
    {
        match self {
            PmxSourceLocation::Disk(_) => None,
            PmxSourceLocation::Zip { archive, .. } => Some(archive.as_str()),
        }
    }

    pub fn entry(&self) -> (r: Option<&str>)
        ensures
            match self@ {
                LocationView::Disk(_) => r is None,
                LocationView::Zip { entry, .. } => r matches Some(x) && x@ == entry,
            },
    {
        match self {
            PmxSourceLocation::Disk(_) => None,
            PmxSourceLocation::Zip { entry, .. } => Some(entry.as_str()),
        }
    }

    /// The extension of the disk path or of the entry name.
    pub fn extension(&self) -> (r: Option<String>)
        ensures
            match path_extension(location_path(self@)) {
                Some(e) => r matches Some(x) && x@ == e,
                None => r is None,
            },
    {
        let p = chars_of(self.as_path());
        match extension_of(p.as_slice()) {
            Some(e) => Some(string_from_chars(e.as_slice())),
            None => None,
        }
    }

    /// The path that the location stands for: the disk path, or the entry name.
    pub fn into_path(self) -> (r: String)
        ensures
            r@ == location_path(self@),
    {
        match self {
            PmxSourceLocation::Disk(p) => p,
            PmxSourceLocation::Zip { entry, .. } => entry,
        }
    }

    /// The location as text: the disk path, or `archive::entry`.
    pub fn to_string(&self) -> (r: String)
        ensures
            r@ == match self@ {
                LocationView::Disk(p) => p,
                LocationView::Zip { archive, entry } => archive + "::"@ + entry,
            },
    {
        match self {
            PmxSourceLocation::Disk(p) => string_of(p.as_str()),
            PmxSourceLocation::Zip { archive, entry } => {
                let mut out = chars_of(archive.as_str());
                out.push(':');
                out.push(':');
                let e = chars_of(entry.as_str());
                let ghost before = out@;
                let mut i: usize = 0;
                while i < e.len()
                    invariant
                        i <= e@.len(),
                        out@ == before + e@.take(i as int),
                    decreases e@.len() - i,
                {
                    out.push(e[i]);
                    assert(e@.take(i + 1) =~= e@.take(i as int).push(e@[i as int]));
                    i = i + 1;
                }
                proof { reveal_strlit("::"); }
                assert(e@.take(e@.len() as int) =~= e@);
                assert(out@ =~= archive@ + "::"@ + entry@);
                string_from_chars(out.as_slice())
            },
        }
    }
}

/// The path a location stands for: the disk path, or the entry name.
pub open spec fn location_path(l: LocationView) -> Seq<char> {
    match l {
        LocationView::Disk(p) => p,
        LocationView::Zip { entry, .. } => entry,
    }
}

/// A source of model resources.
#[derive(Debug, Clone, PartialEq, Eq)]
#[non_exhaustive]
pub enum PmxSource {
    Folder(PmxFolderSource),
    Zip(PmxZipSource),
}

impl Default for PmxSource {
    fn default() -> (r: Self)
        ensures
            r matches PmxSource::Folder(f) && f.root@ == "."@,
    {
        PmxSource::Folder(PmxFolderSource::default())
    }
}

/// A source as plain values.
pub enum SourceView {
    Folder(Seq<char>),
    Zip { archive: Seq<char>, root: Seq<char>, encoding: ZipNameEncoding },
}

impl View for PmxSource {
    type V = SourceView;

    open spec fn view(&self) -> SourceView {
        match self {
            PmxSource::Folder(f) => SourceView::Folder(f.root@),
            PmxSource::Zip(z) => SourceView::Zip { archive: z.archive@, root: z.root@, encoding: z.name_encoding },
        }
    }
}

/// Where a source resolves a path: an absolute path to itself on disk; a relative one under
/// the folder root, or to the entry it names under the archive root.
pub open spec fn source_resolves(source: SourceView, path: Seq<char>) -> LocationView {
    if path_is_absolute(path) {
        LocationView::Disk(path)
    } else {
        match source {
            SourceView::Folder(root) => LocationView::Disk(path_join(root, path)),
            SourceView::Zip { archive, root, .. } => LocationView::Zip { archive, entry: joined_entry(root, lossy_entry(path)) },
        }
    }
}

impl PmxSource {
    pub fn folder(root: &str) -> (r: Self)
        ensures
            r matches PmxSource::Folder(f) && f.root@ == root@,
    {
        PmxSource::Folder(PmxFolderSource::new(root))
    }

    pub fn zip(archive: &str, root: &str) -> (r: Self)
        ensures
            r matches PmxSource::Zip(z) && z.archive@ == archive@ && z.root@ == lossy_entry(root@)
                && z.name_encoding == ZipNameEncoding::Auto,
    {
        PmxSource::Zip(PmxZipSource::new(archive, root))
    }

    pub fn zip_with_encoding(archive: &str, root: &str, name_encoding: ZipNameEncoding) -> (r: Self)
        ensures
            r matches PmxSource::Zip(z) && z.archive@ == archive@ && z.root@ == lossy_entry(root@)
                && z.name_encoding == name_encoding,
    {
        PmxSource::Zip(PmxZipSource::with_encoding(archive, root, name_encoding))
    }

    pub fn copied(&self) -> (r: Self)
        ensures
            r@ == self@,
    {
        match self {
            PmxSource::Folder(f) => PmxSource::Folder(f.copied()),
            PmxSource::Zip(z) => PmxSource::Zip(z.copied()),
        }
    }

    pub fn as_folder(&self) -> (r: Option<&PmxFolderSource>)
        ensures
            match *self {
                PmxSource::Folder(f) => r == Some(&f),
                PmxSource::Zip(_) => r is None,
            },
    {
        match self {
            PmxSource::Folder(f) => Some(f),
            PmxSource::Zip(_) => None,
        }
    }

    pub fn as_zip(&self) -> (r: Option<&PmxZipSource>)
        ensures
            match *self {
                PmxSource::Folder(_) => r is None,
                PmxSource::Zip(z) => r == Some(&z),
            },
    {
        match self {
            PmxSource::Folder(_) => None,
            PmxSource::Zip(z) => Some(z),
        }
    }

    /// The folder root, or the archive path.
    pub fn root(&self) -> (r: &str)
        ensures
            r@ == match *self {
                PmxSource::Folder(f) => f.root@,
                PmxSource::Zip(z) => z.archive@,
            },
    {
        match self {
            PmxSource::Folder(f) => f.root(),
            PmxSource::Zip(z) => z.archive(),
        }
    }

    /// The folder root of a folder source.
    pub fn root_path(&self) -> (r: Option<&str>)
        ensures
            match *self {
                PmxSource::Folder(f) => r matches Some(x) && x@ == f.root@,
                PmxSource::Zip(_) => r is None,
            },
    {
        match self {
            PmxSource::Folder(f) => Some(f.root()),
            PmxSource::Zip(_) => None,
        }
    }

    /// Where this source would hold `path`, whether or not it does.
    pub fn resolve(&self, path: &str) -> (r: PmxSourceLocation)
        ensures
            r@ == source_resolves(self@, path@),
    {
        let p = chars_of(path);
        if is_absolute(p.as_slice()) {
            return PmxSourceLocation::Disk(string_of(path));
        }
        match self {
            PmxSource::Folder(f) => PmxSourceLocation::Disk(f.resolve(path)),
            PmxSource::Zip(z) => z.resolve(path),
        }
    }

    /// Whether this source holds `location`. For a disk location that is whether the path
    /// exists, which the caller found out (`disk_exists`); an archive entry is held when the
    /// source reads that archive and its listing holds the entry.
    pub fn contains_location(&self, location: &PmxSourceLocation, disk_exists: bool, listing: &PmxZipListing) -> (r: bool)
        requires
            decodable_entries(listing.entries@),
        ensures
            r == match location@ {
                LocationView::Disk(_) => disk_exists,
                LocationView::Zip { archive, entry } => match *self {
                    PmxSource::Folder(_) => false,
                    PmxSource::Zip(z) => z.archive@ == archive
                        && listing_holds(seq_view(listing.entries@), listing.complete, z.name_encoding, entry),
                },
            },
    {
        match location {
            PmxSourceLocation::Disk(_) => disk_exists,
            PmxSourceLocation::Zip { archive, entry } => match self {
                PmxSource::Folder(_) => false,
                PmxSource::Zip(z) => {
                    if z.archive != *archive {
                        return false;
                    }
                    z.contains_entry(entry.as_str(), listing)
                },
            },
        }
    }
}

/// How a source finds a path regardless of case.
pub enum PmxCaseLookup {
    /// An absolute path: found, as itself, when it exists on disk, which the caller checks.
    Absolute(String),
    /// A walk of the folder, which the caller drives with disk queries.
    Walk(PmxCaseWalk),
    /// Decided from the archive listing.
    Decided(Option<PmxSourceLocation>),
}

impl PmxSource {
    /// Finds `path` regardless of case: an absolute path is checked as it is; a folder source
    /// walks its folder; an archive source looks in its archive's listing.
    pub fn resolve_case_insensitive(&self, path: &str, listing: &PmxZipListing) -> (r: PmxCaseLookup)
        requires
            decodable_entries(listing.entries@),
        ensures
            path_is_absolute(path@) ==> (r matches PmxCaseLookup::Absolute(p) && p@ == path@),
            !path_is_absolute(path@) ==> match self@ {
                SourceView::Folder(root) => r matches PmxCaseLookup::Walk(w) && w.wf()
                    && w@ == (WalkView { current: path_components(root), components: path_components(path@), next: 0, failed: false }),
                SourceView::Zip { archive, root, encoding } => r matches PmxCaseLookup::Decided(o)
                    && opt_location(o) == zip_case_lookup(archive, root, encoding, seq_view(listing.entries@), listing.complete, path@),
            },
    {
        let p = chars_of(path);
        if is_absolute(p.as_slice()) {
            return PmxCaseLookup::Absolute(string_of(path));
        }
        match self {
            PmxSource::Folder(f) => PmxCaseLookup::Walk(PmxCaseWalk::new(f.root(), path)),
            PmxSource::Zip(z) => PmxCaseLookup::Decided(z.resolve_case_insensitive(path, listing)),
        }
    }

    /// Reads the entry `entry` of `archive` through this source, given the archive's bytes: a
    /// folder source holds no archive entries, and an archive source reads only its own
    /// archive; both are `InvalidInput`. Otherwise as `PmxZipSource::read_bytes`.
    pub fn read_archive_entry(&self, archive: &str, entry: &str, archive_bytes: &[u8]) -> (r: Result<Vec<u8>, PmxError>)
        ensures
            match *self {
                PmxSource::Folder(_) => r == Err::<Vec<u8>, PmxError>(PmxError::Io(PmxIoErrorKind::InvalidInput)),
                PmxSource::Zip(z) => if z.archive@ != archive@ {
                    r == Err::<Vec<u8>, PmxError>(PmxError::Io(PmxIoErrorKind::InvalidInput))
                } else {
                    match zip_read_result(archive_bytes@, z.name_encoding, entry@) {
                        Ok(c) => r matches Ok(v) && v@ == c,
                        Err(e) => r == Err::<Vec<u8>, PmxError>(e),
                    }
                },
            },
    {
        match self {
            PmxSource::Folder(_) => Err(PmxError::Io(PmxIoErrorKind::InvalidInput)),
            PmxSource::Zip(z) => {
                let a = chars_of(archive);
                let own = chars_of(z.archive.as_str());
                if !crate::strings::chars_eq(own.as_slice(), a.as_slice()) {
                    return Err(PmxError::Io(PmxIoErrorKind::InvalidInput));
                }
                z.read_bytes(entry, archive_bytes)
            },
        }
    }
}

impl From<PmxFolderSource> for PmxSource {
    fn from(source: PmxFolderSource) -> (r: Self) {
        PmxSource::Folder(source)
    }
}

impl vstd::std_specs::convert::FromSpecImpl<PmxFolderSource> for PmxSource {
    open spec fn obeys_from_spec() -> bool {
        true
    }

    open spec fn from_spec(source: PmxFolderSource) -> Self {
        PmxSource::Folder(source)
    }
}

impl From<PmxZipSource> for PmxSource {
    fn from(source: PmxZipSource) -> (r: Self) {
        PmxSource::Zip(source)
    }
}

impl vstd::std_specs::convert::FromSpecImpl<PmxZipSource> for PmxSource {
    open spec fn obeys_from_spec() -> bool {
        true
    }

    open spec fn from_spec(source: PmxZipSource) -> Self {
        PmxSource::Zip(source)
    }
}

} // verus!
