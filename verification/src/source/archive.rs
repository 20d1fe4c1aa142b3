//! Reading ZIP archives held in memory: the entry listing and the bytes of one entry.

use std::io::Cursor;
use vstd::prelude::*;
use zip::ZipArchive;

use super::names::{
    ZipNameEncoding, decode_zip_entry_candidates, entry_candidates, is_pmx_entry_name,
    is_zip_noise_entry, noise_entry, normalize_entry_chars, normalized_entry, pmx_entry_name,
};
use crate::error::{PmxError, PmxIoErrorKind};
use crate::format::model::{lemma_seq_view_empty, lemma_seq_view_push, seq_view};
use crate::strings::{
    chars_eq, chars_of, join_on_slash, join_slash, split_on_slash, split_slash, string_from_chars,
    to_lowercase, unicode_lowercase,
};

verus! {

#[verifier::external_type_specification]
#[verifier::external_body]
#[verifier::reject_recursive_types(T)]
pub struct ExCursor<T>(Cursor<T>);

#[verifier::external_type_specification]
#[verifier::external_body]
#[verifier::reject_recursive_types(R)]
pub struct ExZipArchive<R>(ZipArchive<R>);

/// One entry of an archive's central directory, as listed: whether it names a directory, its
/// name as stored, and that name as the archive reader decodes it (`None` when it cannot).
#[derive(Debug, Clone, PartialEq, Eq)]
pub struct PmxZipEntry {
    pub is_dir: bool,
    pub name_raw: Vec<u8>,
    pub name: Option<String>,
}

pub open spec fn opt_chars(o: Option<String>) -> Option<Seq<char>> {
    match o {
        Some(s) => Some(s@),
        None => None,
    }
}

impl View for PmxZipEntry {
    type V = (bool, Seq<u8>, Option<Seq<char>>);

    open spec fn view(&self) -> (bool, Seq<u8>, Option<Seq<char>>) {
        (self.is_dir, self.name_raw@, opt_chars(self.name))
    }
}

/// The central directory that the archive reader finds in `bytes`, entry by entry in archive
/// order; `None` when it cannot read one.
pub uninterp spec fn zip_listing(bytes: Seq<u8>) -> Option<Seq<(bool, Seq<u8>, Option<Seq<char>>)>>;

/// The bytes an opened archive reads from.
pub uninterp spec fn zip_archive_source(archive: ZipArchive<Cursor<Vec<u8>>>) -> Seq<u8>;

/// Whether the archive reader can locate the data of the entry at `index` of the archive in
/// `bytes` (its local header must be where the central directory says).
pub uninterp spec fn zip_entry_located(bytes: Seq<u8>, index: int) -> bool;

/// The index of the first entry, from `i` on and before `n`, whose data the archive reader cannot
/// locate in `bytes`; `n` when there is none.
pub open spec fn located_run(bytes: Seq<u8>, i: int, n: int) -> int
    decreases n - i,
{
    if i >= n || !zip_entry_located(bytes, i) {
        i
    } else {
        located_run(bytes, i + 1, n)
    }
}

/// How many entries of the archive in `bytes` the reader lists before the first one it cannot
/// locate.
pub open spec fn zip_located_count(bytes: Seq<u8>) -> int {
    match zip_listing(bytes) {
        Some(l) => located_run(bytes, 0, l.len() as int),
        None => 0,
    }
}

/// The entries of the archive in `bytes` that the reader lists, walking the central directory
/// in order, before it meets one it cannot locate.
pub open spec fn zip_listed(bytes: Seq<u8>) -> Seq<(bool, Seq<u8>, Option<Seq<char>>)> {
    zip_listing(bytes)->0.take(zip_located_count(bytes))
}

/// Whether the walk of the central directory in `bytes` reaches its end.
pub open spec fn zip_complete(bytes: Seq<u8>) -> bool {
    zip_located_count(bytes) == zip_listing(bytes)->0.len()
}

/// The decompressed contents of the entry at `index` of the archive in `bytes`, or the kind of
/// the failure: `Other` when the reader cannot open the entry, else the kind of the input error
/// that reading the entry reports (a checksum mismatch is `InvalidData`), with kinds this library
/// does not list reported as `Other`.
pub uninterp spec fn zip_entry_content(bytes: Seq<u8>, index: int) -> Result<Seq<u8>, PmxIoErrorKind>;

/// `ZipArchive::new` over the bytes: the opened archive, reading from exactly these bytes, or
/// `None` when no central directory can be read from them.
#[verifier::external_body]
fn open_zip_archive(bytes: Vec<u8>) -> (r: Option<ZipArchive<Cursor<Vec<u8>>>>)
    ensures
        r is Some <==> zip_listing(bytes@) is Some,
        r matches Some(a) ==> zip_archive_source(a) == bytes@,
{
    ZipArchive::new(Cursor::new(bytes)).ok()
}

/// `ZipArchive::len`: the number of entries in the central directory.
#[verifier::external_body]
fn zip_archive_len(archive: &ZipArchive<Cursor<Vec<u8>>>) -> (r: usize)
    requires
        zip_listing(zip_archive_source(*archive)) is Some,
    ensures
        r == zip_listing(zip_archive_source(*archive))->0.len(),
{
    archive.len()
}

/// `ZipArchive::by_index_raw`, then the entry's `is_dir`, `name_raw` and `name`: the listed
/// entry at `index`; `None` when the reader cannot locate the entry's data. A stored name is at most
/// 65535 bytes long: the central directory gives its length in 16 bits, and the Unicode-path
/// extra field that may replace it lies within an extra-field area whose length is 16 bits too.
#[verifier::external_body]
fn zip_archive_entry(archive: &mut ZipArchive<Cursor<Vec<u8>>>, index: usize) -> (r: Option<PmxZipEntry>)
    requires
        zip_listing(zip_archive_source(*old(archive))) is Some,
        index < zip_listing(zip_archive_source(*old(archive)))->0.len(),
    ensures
        zip_archive_source(*final(archive)) == zip_archive_source(*old(archive)),
        r is Some <==> zip_entry_located(zip_archive_source(*old(archive)), index as int),
        r matches Some(e) ==> e@ == zip_listing(zip_archive_source(*old(archive)))->0[index as int],
        r matches Some(e) ==> e.name_raw@.len() <= 0xFFFF,
{
    let file = archive.by_index_raw(index).ok()?;
    let name = match file.name() {
        Ok(n) => Some(n.into_owned()),
        Err(_) => None,
    };
    Some(PmxZipEntry { is_dir: file.is_dir(), name_raw: file.name_raw().to_vec(), name })
}

/// `ZipArchive::by_index`, then `Read::read_to_end` on the entry: its decompressed contents, or
/// `Other` when the entry cannot be opened, or the kind of the error that reading reports.
#[verifier::external_body]
fn zip_archive_entry_bytes(archive: &mut ZipArchive<Cursor<Vec<u8>>>, index: usize) -> (r: Result<Vec<u8>, PmxIoErrorKind>)
    ensures
        zip_archive_source(*final(archive)) == zip_archive_source(*old(archive)),
        match zip_entry_content(zip_archive_source(*old(archive)), index as int) {
            Ok(c) => r matches Ok(v) && v@ == c,
            Err(k) => r == Err::<Vec<u8>, PmxIoErrorKind>(k),
        },
{
    let mut file = match archive.by_index(index) {
        Ok(f) => f,
        Err(_) => return Err(PmxIoErrorKind::Other),
    };
    let mut bytes = Vec::new();
    std::io::Read::read_to_end(&mut file, &mut bytes).map_err(|e| match e.kind() {
        std::io::ErrorKind::UnexpectedEof => PmxIoErrorKind::UnexpectedEof,
        std::io::ErrorKind::NotFound => PmxIoErrorKind::NotFound,
        std::io::ErrorKind::InvalidInput => PmxIoErrorKind::InvalidInput,
        std::io::ErrorKind::InvalidData => PmxIoErrorKind::InvalidData,
        _ => PmxIoErrorKind::Other,
    })?;
    Ok(bytes)
}

/// An archive's listing as far as it could be walked: its entries in archive order up to the
/// first whose data cannot be located, and whether that walk reached the end.
#[derive(Debug, Clone, PartialEq, Eq)]
pub struct PmxZipListing {
    pub entries: Vec<PmxZipEntry>,
    pub complete: bool,
}

/// Walks the central directory of the archive held in `bytes`.
///
/// Fails with an `Other` input error when no central directory can be read; an entry that
/// cannot be located ends the walk and leaves the listing incomplete.
pub fn read_zip_listing(bytes: &[u8]) -> (r: Result<PmxZipListing, PmxError>)
    ensures
        r is Ok <==> zip_listing(bytes@) is Some,
        r matches Ok(x) ==> seq_view(x.entries@) == zip_listed(bytes@) && x.complete == zip_complete(bytes@),
        r matches Ok(x) ==> forall|i: int| 0 <= i < x.entries@.len() ==> (#[trigger] x.entries@[i]).name_raw@.len() <= 0xFFFF,
        r matches Err(e) ==> e == PmxError::Io(PmxIoErrorKind::Other),
{
    let archive = open_zip_archive(vstd::slice::slice_to_vec(bytes));
    let mut archive = match archive {
        Some(a) => a,
        None => return Err(PmxError::Io(PmxIoErrorKind::Other)),
    };
    let ghost listing = zip_listing(bytes@)->0;
    let n = zip_archive_len(&archive);
    let mut out: Vec<PmxZipEntry> = Vec::new();
    let mut i: usize = 0;
    while i < n
        invariant
            zip_archive_source(archive) == bytes@,
            zip_listing(bytes@) == Some(listing),
            n == listing.len(),
            i <= n,
            out@.len() == i,
            forall|k: int| 0 <= k < i ==> (#[trigger] out@[k])@ == listing[k],
            forall|k: int| 0 <= k < i ==> (#[trigger] out@[k]).name_raw@.len() <= 0xFFFF,
            located_run(bytes@, 0, n as int) == located_run(bytes@, i as int, n as int),
        decreases n - i,
    {
        match zip_archive_entry(&mut archive, i) {
            Some(e) => out.push(e),
            None => {
                assert(seq_view(out@) =~= zip_listed(bytes@));
                return Ok(PmxZipListing { entries: out, complete: false });
            },
        }
        i = i + 1;
    }
    assert(seq_view(out@) =~= zip_listed(bytes@));
    Ok(PmxZipListing { entries: out, complete: true })
}

/// The decompressed contents of the entry at `index` of the archive held in `bytes`.
///
/// Fails with an `Other` input error when no central directory can be read, and with the kind
/// that `zip_entry_content` gives when the entry's contents cannot be produced.
pub fn read_zip_entry_bytes(bytes: &[u8], index: usize) -> (r: Result<Vec<u8>, PmxError>)
    ensures
        match (zip_listing(bytes@), zip_entry_content(bytes@, index as int)) {
            (None, _) => r == Err::<Vec<u8>, PmxError>(PmxError::Io(PmxIoErrorKind::Other)),
            (Some(_), Ok(c)) => r matches Ok(v) && v@ == c,
            (Some(_), Err(k)) => r == Err::<Vec<u8>, PmxError>(PmxError::Io(k)),
        },
{
    let archive = open_zip_archive(vstd::slice::slice_to_vec(bytes));
    let mut archive = match archive {
        Some(a) => a,
        None => return Err(PmxError::Io(PmxIoErrorKind::Other)),
    };
    match zip_archive_entry_bytes(&mut archive, index) {
        Ok(v) => Ok(v),
        Err(k) => Err(PmxError::Io(k)),
    }
}

/// Entry listings whose stored names the legacy decoders accept.
pub open spec fn decodable_entries(entries: Seq<PmxZipEntry>) -> bool {
    forall|i: int| 0 <= i < entries.len() ==> (#[trigger] entries[i]).name_raw@.len() <= usize::MAX / 8
}

/// The canonical forms of the candidates that have one, in order.
pub open spec fn usable_names(cands: Seq<Seq<char>>) -> Seq<Seq<char>>
    decreases cands.len(),
{
    if cands.len() == 0 {
        Seq::empty()
    } else {
        let rest = usable_names(cands.drop_last());
        match normalized_entry(cands.last()) {
            Some(n) => rest.push(n),
            None => rest,
        }
    }
}

/// The names under which an entry can be found: none for directories and macOS metadata,
/// else the canonical forms of its candidate names.
pub open spec fn entry_names(e: (bool, Seq<u8>, Option<Seq<char>>), encoding: ZipNameEncoding) -> Seq<Seq<char>> {
    if e.0 || noise_entry(e.1) {
        Seq::empty()
    } else {
        usable_names(entry_candidates(e, encoding))
    }
}

/// Each name paired with the index of its entry.
pub open spec fn tag(index: int, names: Seq<Seq<char>>) -> Seq<(int, Seq<char>)> {
    Seq::new(names.len(), |k: int| (index, names[k]))
}

/// Every (entry index, name) pair of a listing, entry by entry in archive order.
pub open spec fn named_entries(l: Seq<(bool, Seq<u8>, Option<Seq<char>>)>, encoding: ZipNameEncoding) -> Seq<(int, Seq<char>)>
    decreases l.len(),
{
    if l.len() == 0 {
        Seq::empty()
    } else {
        named_entries(l.drop_last(), encoding) + tag(l.len() - 1, entry_names(l.last(), encoding))
    }
}

/// The first pair whose name satisfies `p`.
pub open spec fn first_where(s: Seq<(int, Seq<char>)>, p: spec_fn(Seq<char>) -> bool) -> Option<(int, Seq<char>)>
    decreases s.len(),
{
    if s.len() == 0 {
        None
    } else {
        match first_where(s.drop_last(), p) {
            Some(x) => Some(x),
            None => if p(s.last().1) { Some(s.last()) } else { None },
        }
    }
}

pub open spec fn same_name(t: Seq<char>) -> spec_fn(Seq<char>) -> bool {
    |c: Seq<char>| c == t
}

pub open spec fn same_lowercase(t: Seq<char>) -> spec_fn(Seq<char>) -> bool {
    |c: Seq<char>| unicode_lowercase(c) == unicode_lowercase(t)
}

pub open spec fn pmx_name() -> spec_fn(Seq<char>) -> bool {
    |c: Seq<char>| pmx_entry_name(c)
}

/// The entry that `target` names: the first pair whose name equals the canonical target; when
/// there is none and `case_insensitive` holds, the first whose lowercase form equals the
/// target's. `None` when `target` has no canonical form.
pub open spec fn find_entry_spec(
    l: Seq<(bool, Seq<u8>, Option<Seq<char>>)>,
    target: Seq<char>,
    encoding: ZipNameEncoding,
    case_insensitive: bool,
) -> Option<(int, Seq<char>)> {
    match normalized_entry(target) {
        None => None,
        Some(t) => match first_where(named_entries(l, encoding), same_name(t)) {
            Some(x) => Some(x),
            None => if case_insensitive {
                first_where(named_entries(l, encoding), same_lowercase(t))
            } else {
                None
            },
        },
    }
}

pub proof fn lemma_first_where_prefix(p: Seq<(int, Seq<char>)>, s: Seq<(int, Seq<char>)>, pred: spec_fn(Seq<char>) -> bool)
    requires
        p.len() <= s.len(),
        s.take(p.len() as int) == p,
        first_where(p, pred) is Some,
    ensures
        first_where(s, pred) == first_where(p, pred),
    decreases s.len(),
{
    if s.len() == p.len() {
        assert(s.take(p.len() as int) =~= s);
    } else {
        assert(s.drop_last().take(p.len() as int) =~= s.take(p.len() as int));
        lemma_first_where_prefix(p, s.drop_last(), pred);
    }
}

pub proof fn lemma_named_entries_prefix(l: Seq<(bool, Seq<u8>, Option<Seq<char>>)>, i: int, encoding: ZipNameEncoding)
    requires
        0 <= i <= l.len(),
    ensures
        named_entries(l.take(i), encoding).len() <= named_entries(l, encoding).len(),
        named_entries(l, encoding).take(named_entries(l.take(i), encoding).len() as int) == named_entries(l.take(i), encoding),
    decreases l.len(),
{
    if i == l.len() {
        assert(l.take(i) =~= l);
        assert(named_entries(l, encoding).take(named_entries(l, encoding).len() as int) =~= named_entries(l, encoding));
    } else {
        assert(l.drop_last().take(i) =~= l.take(i));
        lemma_named_entries_prefix(l.drop_last(), i, encoding);
        let a = named_entries(l.take(i), encoding);
        let b = named_entries(l.drop_last(), encoding);
        let c = named_entries(l, encoding);
        assert(c.take(a.len() as int) =~= b.take(a.len() as int));
    }
}

/// The pairs as plain values.
pub open spec fn pair_views(v: Seq<(usize, Vec<char>)>) -> Seq<(int, Seq<char>)> {
    Seq::new(v.len(), |k: int| (v[k].0 as int, v[k].1@))
}

/// The names under which one entry can be found.
fn entry_names_exec(e: &PmxZipEntry, encoding: ZipNameEncoding) -> (r: Vec<Vec<char>>)
    requires
        e.name_raw@.len() <= usize::MAX / 8,
    ensures
        seq_view(r@) == entry_names(e@, encoding),
{
    let mut out: Vec<Vec<char>> = Vec::new();
    proof { lemma_seq_view_empty(out@); }
    if e.is_dir || is_zip_noise_entry(e.name_raw.as_slice()) {
        return out;
    }
    let cands = decode_zip_entry_candidates(e.is_dir, e.name_raw.as_slice(), &e.name, encoding);
    let ghost cs = seq_view(cands@);
    let mut j: usize = 0;
    while j < cands.len()
        invariant
            cs == seq_view(cands@),
            cs == entry_candidates(e@, encoding),
            j <= cands@.len(),
            seq_view(out@) == usable_names(cs.take(j as int)),
        decreases cands@.len() - j,
    {
        assert(cs.take(j + 1).drop_last() =~= cs.take(j as int));
        assert(cs.take(j + 1).last() == cands@[j as int]@);
        let c = chars_of(cands[j].as_str());
        match normalize_entry_chars(c.as_slice()) {
            Some(n) => {
                let ghost prev = out@;
                out.push(n);
                proof { lemma_seq_view_push(prev, n); }
            },
            None => {},
        }
        j = j + 1;
    }
    assert(cs.take(cs.len() as int) =~= cs);
    out
}

/// Every (entry index, name) pair of the listing, in order.
pub fn named_zip_entries(entries: &[PmxZipEntry], encoding: ZipNameEncoding) -> (r: Vec<(usize, Vec<char>)>)
    requires
        decodable_entries(entries@),
    ensures
        pair_views(r@) == named_entries(seq_view(entries@), encoding),
{
    let ghost l = seq_view(entries@);
    let mut out: Vec<(usize, Vec<char>)> = Vec::new();
    assert(pair_views(out@) =~= named_entries(l.take(0), encoding));
    let mut i: usize = 0;
    while i < entries.len()
        invariant
            l == seq_view(entries@),
            decodable_entries(entries@),
            i <= entries@.len(),
            pair_views(out@) == named_entries(l.take(i as int), encoding),
        decreases entries@.len() - i,
    {
        assert(l.take(i + 1).drop_last() =~= l.take(i as int));
        assert(l.take(i + 1).last() == entries@[i as int]@);
        let names = entry_names_exec(&entries[i], encoding);
        let ghost base = pair_views(out@);
        let mut j: usize = 0;
        while j < names.len()
            invariant
                i < entries@.len(),
                j <= names@.len(),
                pair_views(out@) == base + tag(i as int, seq_view(names@).take(j as int)),
            decreases names@.len() - j,
        {
            let name = vstd::slice::slice_to_vec(names[j].as_slice());
            assert(name@ == seq_view(names@)[j as int]);
            let ghost prev = out@;
            out.push((i, name));
            assert(out@ == prev.push((i, name)));
            assert(pair_views(out@) =~= pair_views(prev).push((i as int, name@)));
            assert(seq_view(names@).take(j + 1) =~= seq_view(names@).take(j as int).push(name@));
            assert(pair_views(out@) =~= base + tag(i as int, seq_view(names@).take(j + 1)));
            j = j + 1;
        }
        assert(seq_view(names@).take(names@.len() as int) =~= seq_view(names@));
        i = i + 1;
    }
    assert(l.take(entries@.len() as int) =~= l);
    out
}

/// A ZIP entry that a name was found under.
#[derive(Debug, Clone, PartialEq, Eq)]
pub struct ZipEntryMatch {
    pub index: usize,
    pub entry: String,
}

pub open spec fn match_view(m: Option<ZipEntryMatch>) -> Option<(int, Seq<char>)> {
    match m {
        Some(m) => Some((m.index as int, m.entry@)),
        None => None,
    }
}

/// Finds the entry that `target` names in a listing: an exact match of the canonical names
/// first, then, when `case_insensitive` holds, a match of their lowercase forms.
pub fn find_zip_entry(
    entries: &[PmxZipEntry],
    target: &str,
    encoding: ZipNameEncoding,
    case_insensitive: bool,
) -> (r: Option<ZipEntryMatch>)
    requires
        decodable_entries(entries@),
    ensures
        match_view(r) == find_entry_spec(seq_view(entries@), target@, encoding, case_insensitive),
{
    let tchars = chars_of(target);
    let t = match normalize_entry_chars(tchars.as_slice()) {
        Some(t) => t,
        None => return None,
    };
    let t_string = string_from_chars(t.as_slice());
    let t_lower = to_lowercase(t_string.as_str());
    let pairs = named_zip_entries(entries, encoding);
    let ghost all = pair_views(pairs@);
    let mut case_match: Option<ZipEntryMatch> = None;
    let mut k: usize = 0;
    while k < pairs.len()
        invariant
            all == pair_views(pairs@),
            all == named_entries(seq_view(entries@), encoding),
            normalized_entry(target@) == Some(t@),
            k <= pairs@.len(),
            first_where(all.take(k as int), same_name(t@)) is None,
            case_insensitive ==> match_view(case_match) == first_where(all.take(k as int), same_lowercase(t@)),
            !case_insensitive ==> case_match is None,
            t_lower@ == unicode_lowercase(t@),
        decreases pairs@.len() - k,
    {
        assert(all.take(k + 1).drop_last() =~= all.take(k as int));
        assert(all.take(k + 1).last() == all[k as int]);
        let index = pairs[k].0;
        let name = &pairs[k].1;
        assert(all[k as int] == (index as int, name@));
        if chars_eq(name.as_slice(), t.as_slice()) {
            proof {
                assert(same_name(t@)(name@));
                assert(first_where(all.take(k + 1), same_name(t@)) == Some((index as int, name@)));
                lemma_first_where_prefix(all.take(k + 1), all, same_name(t@));
                assert(first_where(all, same_name(t@)) == Some((index as int, name@)));
            }
            return Some(ZipEntryMatch { index, entry: string_from_chars(name.as_slice()) });
        }
        if case_insensitive && case_match.is_none() {
            let n_string = string_from_chars(name.as_slice());
            let lower = to_lowercase(n_string.as_str());
            if lower == t_lower {
                case_match = Some(ZipEntryMatch { index, entry: n_string });
            }
        }
        k = k + 1;
    }
    assert(all.take(pairs@.len() as int) =~= all);
    case_match
}

/// What looking `target` up gives when the archive is walked entry by entry and the walk may stop
/// early (`complete` false): an exact match among the listed entries; failing that, an `Other`
/// input error when the walk stopped early and `target` has a canonical form; else the lookup of
/// `find_entry_spec`.
pub open spec fn find_outcome(
    l: Seq<(bool, Seq<u8>, Option<Seq<char>>)>,
    complete: bool,
    target: Seq<char>,
    encoding: ZipNameEncoding,
    case_insensitive: bool,
) -> Result<Option<(int, Seq<char>)>, PmxError> {
    match find_entry_spec(l, target, encoding, false) {
        Some(x) => Ok(Some(x)),
        None => if !complete && normalized_entry(target) is Some {
            Err(PmxError::Io(PmxIoErrorKind::Other))
        } else {
            Ok(find_entry_spec(l, target, encoding, case_insensitive))
        },
    }
}

/// Finds the entry that `target` names in a listing that may have stopped early (see
/// `find_outcome`).
pub fn find_listed_entry(
    listing: &PmxZipListing,
    target: &str,
    encoding: ZipNameEncoding,
    case_insensitive: bool,
) -> (r: Result<Option<ZipEntryMatch>, PmxError>)
    requires
        decodable_entries(listing.entries@),
    ensures
        match find_outcome(seq_view(listing.entries@), listing.complete, target@, encoding, case_insensitive) {
            Ok(o) => r matches Ok(m) && match_view(m) == o,
            Err(e) => r == Err::<Option<ZipEntryMatch>, PmxError>(e),
        },
{
    let entries = listing.entries.as_slice();
    let exact = find_zip_entry(entries, target, encoding, false);
    if exact.is_some() {
        return Ok(exact);
    }
    if !listing.complete {
        let t = chars_of(target);
        if normalize_entry_chars(t.as_slice()).is_some() {
            return Err(PmxError::Io(PmxIoErrorKind::Other));
        }
    }
    if case_insensitive {
        Ok(find_zip_entry(entries, target, encoding, true))
    } else {
        Ok(None)
    }
}

/// The first entry of a listing with a `.pmx` name (in any case).
pub open spec fn first_pmx_spec(l: Seq<(bool, Seq<u8>, Option<Seq<char>>)>, encoding: ZipNameEncoding) -> Option<(int, Seq<char>)> {
    first_where(named_entries(l, encoding), pmx_name())
}

/// The directory part of a canonical entry name: its components but the last, joined.
pub open spec fn entry_parent(c: Seq<char>) -> Seq<char> {
    join_slash(split_slash(c).drop_last())
}

/// The first `.pmx` entry of a listing: its index, its canonical name, and the directory that
/// holds it.
pub fn find_first_pmx_zip_entry(entries: &[PmxZipEntry], encoding: ZipNameEncoding) -> (r: Option<(usize, String, String)>)
    requires
        decodable_entries(entries@),
    ensures
        match first_pmx_spec(seq_view(entries@), encoding) {
            Some((i, n)) => r matches Some(x) && x.0 == i && x.1@ == n && x.2@ == entry_parent(n),
            None => r is None,
        },
{
    let pairs = named_zip_entries(entries, encoding);
    let ghost all = pair_views(pairs@);
    let mut k: usize = 0;
    while k < pairs.len()
        invariant
            all == pair_views(pairs@),
            all == named_entries(seq_view(entries@), encoding),
            k <= pairs@.len(),
            first_where(all.take(k as int), pmx_name()) is None,
        decreases pairs@.len() - k,
    {
        assert(all.take(k + 1).drop_last() =~= all.take(k as int));
        assert(all.take(k + 1).last() == all[k as int]);
        let name = &pairs[k].1;
        assert(all[k as int] == (pairs@[k as int].0 as int, name@));
        if is_pmx_entry_name(name.as_slice()) {
            proof {
                assert(pmx_name()(name@));
                assert(first_where(all.take(k + 1), pmx_name()) == Some(all[k as int]));
                lemma_first_where_prefix(all.take(k + 1), all, pmx_name());
            }
            let parts = split_on_slash(name.as_slice());
            proof { crate::strings::lemma_split_slash_nonempty(name@); }
            let last = parts.len() - 1;
            let mut dirs: Vec<Vec<char>> = Vec::new();
            let mut j: usize = 0;
            while j < last
                invariant
                    parts@.len() == split_slash(name@).len(),
                    forall|q: int| 0 <= q < parts@.len() ==> (#[trigger] parts@[q])@ == split_slash(name@)[q],
                    last == parts@.len() - 1,
                    j <= last,
                    dirs@.len() == j,
                    forall|q: int| 0 <= q < j ==> (#[trigger] dirs@[q])@ == split_slash(name@)[q],
                decreases last - j,
            {
                dirs.push(vstd::slice::slice_to_vec(parts[j].as_slice()));
                j = j + 1;
            }
            let root = join_on_slash(&dirs);
            assert(Seq::new(dirs@.len(), |q: int| dirs@[q]@) =~= split_slash(name@).drop_last());
            return Some((pairs[k].0, string_from_chars(name.as_slice()), string_from_chars(root.as_slice())));
        }
        k = k + 1;
    }
    assert(all.take(pairs@.len() as int) =~= all);
    None
}

/// What searching the archive for its first `.pmx` entry gives when the walk may stop early: the
/// first such entry among the listed ones; failing that, `None` when the walk reached the end, else
/// an `Other` input error.
pub open spec fn first_pmx_outcome(
    l: Seq<(bool, Seq<u8>, Option<Seq<char>>)>,
    complete: bool,
    encoding: ZipNameEncoding,
) -> Result<Option<(int, Seq<char>)>, PmxError> {
    match first_pmx_spec(l, encoding) {
        Some(x) => Ok(Some(x)),
        None => if complete { Ok(None) } else { Err(PmxError::Io(PmxIoErrorKind::Other)) },
    }
}

/// The first `.pmx` entry of the archive held in `bytes`: its index, canonical name, and the
/// directory that holds it. Fails with an `Other` input error when no central directory can be
/// read, or when the walk stops at an entry it cannot locate before finding one.
pub fn find_first_pmx_zip_entry_root(bytes: &[u8], encoding: ZipNameEncoding) -> (r: Result<Option<(usize, String, String)>, PmxError>)
    ensures
        match zip_listing(bytes@) {
            None => r == Err::<Option<(usize, String, String)>, PmxError>(PmxError::Io(PmxIoErrorKind::Other)),
            Some(_) => match first_pmx_outcome(zip_listed(bytes@), zip_complete(bytes@), encoding) {
                Ok(Some((i, n))) => r matches Ok(Some(x)) && x.0 == i && x.1@ == n && x.2@ == entry_parent(n),
                Ok(None) => r matches Ok(None),
                Err(e) => r == Err::<Option<(usize, String, String)>, PmxError>(e),
            },
        },
{
    let listing = read_zip_listing(bytes)?;
    let found = find_first_pmx_zip_entry(listing.entries.as_slice(), encoding);
    if found.is_none() && !listing.complete {
        return Err(PmxError::Io(PmxIoErrorKind::Other));
    }
    Ok(found)
}

} // verus!
