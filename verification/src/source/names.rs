//! ZIP entry names: decoding them from the stored bytes, and bringing them to one canonical,
//! `/`-separated form.

use encoding_rs::{GBK, SHIFT_JIS};
use vstd::prelude::*;
use vstd::utf8::{decode_utf8, valid_utf8};

use crate::format::model::seq_view;
use crate::format::text::string_from_utf8;
use crate::paths::{extension_of, is_dot, is_dot_dot, is_dot_dot_piece, is_dot_piece, path_extension};
use crate::strings::{
    chars_eq_ignore_ascii_case, chars_of, eq_ignore_ascii_case, has_prefix, join_on_slash,
    join_slash, slashes, split_on_slash, split_slash, string_from_chars, to_slashes,
};

verus! {

/// The character set used to decode ZIP entry names.
#[derive(Debug, Clone, Copy, PartialEq, Eq, Hash)]
pub enum ZipNameEncoding {
    Auto,
    Utf8,
    Cp932,
    ShiftJis,
    Gbk,
}

impl Default for ZipNameEncoding {
    fn default() -> (r: Self)
        ensures
            r == ZipNameEncoding::Auto,
    {
        ZipNameEncoding::Auto
    }
}

/// The legacy multi-byte encodings that entry names may be stored in.
#[derive(Clone, Copy)]
enum LegacyCodec {
    ShiftJis,
    Gbk,
}

/// The WHATWG name of a legacy encoding.
pub open spec fn codec_label(gbk: bool) -> Seq<char> {
    if gbk { "GBK"@ } else { "Shift_JIS"@ }
}

spec fn codec_is_gbk(codec: LegacyCodec) -> bool {
    codec is Gbk
}

/// The text that the encoding named `label` decodes `raw` to, or `None` when `raw` holds a
/// malformed sequence.
pub uninterp spec fn legacy_decode_strict(label: Seq<char>, raw: Seq<u8>) -> Option<Seq<char>>;

/// The text that the encoding named `label` decodes `raw` to, malformed sequences replaced,
/// and whether any were.
pub uninterp spec fn legacy_decode_lossy(label: Seq<char>, raw: Seq<u8>) -> (Seq<char>, bool);

/// `Encoding::decode_without_bom_handling_and_without_replacement` of encoding_rs, on
/// `SHIFT_JIS` or `GBK`. It panics only when the output buffer size overflows `usize`, which the
/// bound on the input length rules out.
#[verifier::external_body]
fn decode_legacy_strict(codec: LegacyCodec, raw: &[u8]) -> (r: Option<String>)
    requires
        raw@.len() <= usize::MAX / 8,
    ensures
        opt_chars(r) == legacy_decode_strict(codec_label(codec_is_gbk(codec)), raw@),
{
    let encoding = match codec {
        LegacyCodec::ShiftJis => SHIFT_JIS,
        LegacyCodec::Gbk => GBK,
    };
    match encoding.decode_without_bom_handling_and_without_replacement(raw) {
        Some(text) => Some(text.into_owned()),
        None => None,
    }
}

/// `Encoding::decode_without_bom_handling` of encoding_rs, on `SHIFT_JIS` or `GBK`. It panics
/// only when the output buffer size overflows `usize`, which the bound on the input length
/// rules out.
#[verifier::external_body]
fn decode_legacy_lossy(codec: LegacyCodec, raw: &[u8]) -> (r: (String, bool))
    requires
        raw@.len() <= usize::MAX / 8,
    ensures
        (r.0@, r.1) == legacy_decode_lossy(codec_label(codec_is_gbk(codec)), raw@),
{
    let encoding = match codec {
        LegacyCodec::ShiftJis => SHIFT_JIS,
        LegacyCodec::Gbk => GBK,
    };
    let (text, had_errors) = encoding.decode_without_bom_handling(raw);
    (text.into_owned(), had_errors)
}

pub open spec fn opt_chars(o: Option<String>) -> Option<Seq<char>> {
    match o {
        Some(s) => Some(s@),
        None => None,
    }
}

pub open spec fn opt_vchars(o: Option<Vec<char>>) -> Option<Seq<char>> {
    match o {
        Some(s) => Some(s@),
        None => None,
    }
}

pub open spec fn utf8_text(raw: Seq<u8>) -> Option<Seq<char>> {
    if valid_utf8(raw) { Some(decode_utf8(raw)) } else { None }
}

fn utf8_of(raw: &[u8]) -> (r: Option<String>)
    ensures
        opt_chars(r) == utf8_text(raw@),
{
    string_from_utf8(vstd::slice::slice_to_vec(raw))
}

/// What `ZipNameEncoding::decode_name` gives: UTF-8 text, or the text of the named legacy
/// encoding when it has no malformed sequence; `Auto` tries UTF-8, then Shift_JIS, then GBK.
pub open spec fn name_decoding(encoding: ZipNameEncoding, raw: Seq<u8>) -> Option<Seq<char>> {
    match encoding {
        ZipNameEncoding::Auto => match utf8_text(raw) {
            Some(s) => Some(s),
            None => match legacy_decode_strict(codec_label(false), raw) {
                Some(s) => Some(s),
                None => legacy_decode_strict(codec_label(true), raw),
            },
        },
        ZipNameEncoding::Utf8 => utf8_text(raw),
        ZipNameEncoding::Cp932 | ZipNameEncoding::ShiftJis => legacy_decode_strict(codec_label(false), raw),
        ZipNameEncoding::Gbk => legacy_decode_strict(codec_label(true), raw),
    }
}

impl ZipNameEncoding {
    /// Decodes a ZIP entry name using this encoding.
    pub fn decode_name(self, raw: &[u8]) -> (r: Option<String>)
        requires
            raw@.len() <= usize::MAX / 8,
        ensures
            opt_chars(r) == name_decoding(self, raw@),
    {
        match self {
            ZipNameEncoding::Auto => match utf8_of(raw) {
                Some(s) => Some(s),
                None => match decode_legacy_strict(LegacyCodec::ShiftJis, raw) {
                    Some(s) => Some(s),
                    None => decode_legacy_strict(LegacyCodec::Gbk, raw),
                },
            },
            ZipNameEncoding::Utf8 => utf8_of(raw),
            ZipNameEncoding::Cp932 | ZipNameEncoding::ShiftJis => decode_legacy_strict(LegacyCodec::ShiftJis, raw),
            ZipNameEncoding::Gbk => decode_legacy_strict(LegacyCodec::Gbk, raw),
        }
    }
}

/// The text of a legacy decoding that replaced nothing.
pub open spec fn clean_legacy(gbk: bool, raw: Seq<u8>) -> Option<Seq<char>> {
    let d = legacy_decode_lossy(codec_label(gbk), raw);
    if d.1 { None } else { Some(d.0) }
}

/// One candidate decoding of a stored entry name in an explicit encoding: UTF-8 text, or the
/// legacy decoding when it had nothing to replace.
pub open spec fn candidate_decoding(encoding: ZipNameEncoding, raw: Seq<u8>) -> Option<Seq<char>> {
    match encoding {
        ZipNameEncoding::Auto => None,
        ZipNameEncoding::Utf8 => utf8_text(raw),
        ZipNameEncoding::Cp932 | ZipNameEncoding::ShiftJis => clean_legacy(false, raw),
        ZipNameEncoding::Gbk => clean_legacy(true, raw),
    }
}

/// Decodes a stored entry name in an explicit encoding.
pub fn decode_zip_name(raw: &[u8], encoding: ZipNameEncoding) -> (r: Option<String>)
    requires
        encoding != ZipNameEncoding::Auto,
        raw@.len() <= usize::MAX / 8,
    ensures
        opt_chars(r) == candidate_decoding(encoding, raw@),
{
    match encoding {
        ZipNameEncoding::Utf8 => utf8_of(raw),
        ZipNameEncoding::Gbk => {
            let (text, had_errors) = decode_legacy_lossy(LegacyCodec::Gbk, raw);
            if had_errors { None } else { Some(text) }
        },
        _ => {
            let (text, had_errors) = decode_legacy_lossy(LegacyCodec::ShiftJis, raw);
            if had_errors { None } else { Some(text) }
        },
    }
}

/// `cs` with `c` appended unless it is already there.
pub open spec fn push_unique_spec(cs: Seq<Seq<char>>, c: Option<Seq<char>>) -> Seq<Seq<char>> {
    match c {
        Some(x) => if cs.contains(x) { cs } else { cs.push(x) },
        None => cs,
    }
}

/// The names an entry is tried under, in order and without repeats: for `Auto`, the name the
/// archive reader decoded, then the UTF-8, Shift_JIS (as CP932 and as Shift_JIS) and GBK
/// decodings; for an explicit encoding, that decoding alone.
pub open spec fn entry_candidates(entry: (bool, Seq<u8>, Option<Seq<char>>), encoding: ZipNameEncoding) -> Seq<Seq<char>> {
    let raw = entry.1;
    match encoding {
        ZipNameEncoding::Auto => {
            let c0 = push_unique_spec(Seq::empty(), entry.2);
            let c1 = push_unique_spec(c0, candidate_decoding(ZipNameEncoding::Utf8, raw));
            let c2 = push_unique_spec(c1, candidate_decoding(ZipNameEncoding::Cp932, raw));
            let c3 = push_unique_spec(c2, candidate_decoding(ZipNameEncoding::ShiftJis, raw));
            push_unique_spec(c3, candidate_decoding(ZipNameEncoding::Gbk, raw))
        },
        ZipNameEncoding::Utf8 => push_unique_spec(Seq::empty(), candidate_decoding(ZipNameEncoding::Utf8, raw)),
        ZipNameEncoding::Cp932 | ZipNameEncoding::ShiftJis => push_unique_spec(Seq::empty(), candidate_decoding(ZipNameEncoding::ShiftJis, raw)),
        ZipNameEncoding::Gbk => push_unique_spec(Seq::empty(), candidate_decoding(ZipNameEncoding::Gbk, raw)),
    }
}

/// Appends `candidate` to `candidates` unless an equal string is already there.
pub fn push_unique(candidates: &mut Vec<String>, candidate: Option<String>)
    ensures
        seq_view(final(candidates)@) == push_unique_spec(seq_view(old(candidates)@), opt_chars(candidate)),
{
    let ghost before = seq_view(candidates@);
    if let Some(c) = candidate {
        let mut found = false;
        let mut i: usize = 0;
        while i < candidates.len() && !found
            invariant
                before == seq_view(candidates@),
                i <= candidates@.len(),
                found ==> before.contains(c@),
                !found ==> forall|k: int| 0 <= k < i ==> before[k] != c@,
            decreases candidates@.len() - i,
        {
            if candidates[i] == c {
                assert(before[i as int] == c@);
                found = true;
            }
            i = i + 1;
        }
        if !found {
            assert(!before.contains(c@));
            candidates.push(c);
            proof { crate::format::model::lemma_seq_view_push(old(candidates)@, c); }
        }
    }
}

/// The names an entry is tried under (see `entry_candidates`).
pub fn decode_zip_entry_candidates(is_dir: bool, name_raw: &[u8], name: &Option<String>, encoding: ZipNameEncoding) -> (r: Vec<String>)
    requires
        name_raw@.len() <= usize::MAX / 8,
    ensures
        seq_view(r@) == entry_candidates((is_dir, name_raw@, opt_chars(*name)), encoding),
{
    let mut candidates: Vec<String> = Vec::new();
    proof { crate::format::model::lemma_seq_view_empty(candidates@); }
    match encoding {
        ZipNameEncoding::Auto => {
            let first = match name {
                Some(n) => Some(n.clone()),
                None => None,
            };
            push_unique(&mut candidates, first);
            push_unique(&mut candidates, decode_zip_name(name_raw, ZipNameEncoding::Utf8));
            push_unique(&mut candidates, decode_zip_name(name_raw, ZipNameEncoding::Cp932));
            push_unique(&mut candidates, decode_zip_name(name_raw, ZipNameEncoding::ShiftJis));
            push_unique(&mut candidates, decode_zip_name(name_raw, ZipNameEncoding::Gbk));
        },
        ZipNameEncoding::Utf8 => {
            push_unique(&mut candidates, decode_zip_name(name_raw, ZipNameEncoding::Utf8));
        },
        ZipNameEncoding::Cp932 | ZipNameEncoding::ShiftJis => {
            push_unique(&mut candidates, decode_zip_name(name_raw, ZipNameEncoding::ShiftJis));
        },
        ZipNameEncoding::Gbk => {
            push_unique(&mut candidates, decode_zip_name(name_raw, ZipNameEncoding::Gbk));
        },
    }
    candidates
}

/// The piece `__MACOSX`.
pub open spec fn macosx() -> Seq<char> {
    seq!['_', '_', 'M', 'A', 'C', 'O', 'S', 'X']
}

/// A path piece that marks macOS archive metadata: `__MACOSX`, or a name starting with `._`.
pub open spec fn is_noise_piece(p: Seq<char>) -> bool {
    p == macosx() || has_prefix(p, seq!['.', '_'])
}

/// One piece of an entry name applied to the components gathered so far: empty and `.`
/// pieces are skipped, a metadata piece rejects the name, `..` drops the last component (and
/// rejects the name when there is none), and any other piece is appended.
pub open spec fn norm_step(cs: Option<Seq<Seq<char>>>, p: Seq<char>) -> Option<Seq<Seq<char>>> {
    match cs {
        None => None,
        Some(cs) => if p.len() == 0 || is_dot(p) {
            Some(cs)
        } else if is_noise_piece(p) {
            None
        } else if is_dot_dot(p) {
            if cs.len() == 0 { None } else { Some(cs.drop_last()) }
        } else {
            Some(cs.push(p))
        },
    }
}

/// The components that the pieces reduce to, from left to right.
pub open spec fn norm_pieces(parts: Seq<Seq<char>>) -> Option<Seq<Seq<char>>>
    decreases parts.len(),
{
    if parts.len() == 0 {
        Some(Seq::empty())
    } else {
        norm_step(norm_pieces(parts.drop_last()), parts.last())
    }
}

/// The canonical form of an entry name: both separators read as `/`, the pieces reduced by
/// `norm_step`, and the components joined with `/`. `None` for macOS metadata and for names
/// that climb above the archive root.
pub open spec fn normalized_entry(v: Seq<char>) -> Option<Seq<char>> {
    match norm_pieces(split_slash(slashes(v))) {
        Some(cs) => Some(join_slash(cs)),
        None => None,
    }
}

fn is_macosx_piece(x: &Vec<char>) -> (r: bool)
    ensures
        r == (x@ == macosx()),
{
    if x.len() == 8 && x[0] == '_' && x[1] == '_' && x[2] == 'M' && x[3] == 'A' && x[4] == 'C'
        && x[5] == 'O' && x[6] == 'S' && x[7] == 'X' {
        assert(x@ =~= macosx());
        true
    } else {
        false
    }
}

fn is_noise(x: &Vec<char>) -> (r: bool)
    ensures
        r == is_noise_piece(x@),
{
    if is_macosx_piece(x) {
        return true;
    }
    if x.len() >= 2 && x[0] == '.' && x[1] == '_' {
        assert(x@.take(2) =~= seq!['.', '_']);
        true
    } else {
        assert(!has_prefix(x@, seq!['.', '_'])) by {
            if x@.len() >= 2 {
                assert(x@.take(2)[0] == x@[0]);
                assert(x@.take(2)[1] == x@[1]);
            }
        }
        false
    }
}

/// Once the pieces read so far are rejected, the whole name is.
pub proof fn lemma_norm_rejected_prefix(parts: Seq<Seq<char>>, i: int)
    requires
        0 <= i <= parts.len(),
        norm_pieces(parts.take(i)) is None,
    ensures
        norm_pieces(parts) is None,
    decreases parts.len(),
{
    if i == parts.len() {
        assert(parts.take(i) =~= parts);
    } else {
        assert(parts.drop_last().take(i) =~= parts.take(i));
        lemma_norm_rejected_prefix(parts.drop_last(), i);
    }
}

/// The canonical form of an entry name held as characters.
pub fn normalize_entry_chars(v: &[char]) -> (r: Option<Vec<char>>)
    ensures
        opt_vchars(r) == normalized_entry(v@),
{
    let s = to_slashes(v);
    let parts = split_on_slash(s.as_slice());
    let ghost sp = split_slash(slashes(v@));
    let mut comps: Vec<Vec<char>> = Vec::new();
    proof { crate::format::model::lemma_seq_view_empty(comps@); }
    let mut i: usize = 0;
    while i < parts.len()
        invariant
            sp == split_slash(slashes(v@)),
            parts@.len() == sp.len(),
            forall|k: int| 0 <= k < parts@.len() ==> (#[trigger] parts@[k])@ == sp[k],
            i <= parts@.len(),
            norm_pieces(sp.take(i as int)) == Some(seq_view(comps@)),
        decreases parts@.len() - i,
    {
        assert(sp.take(i + 1).drop_last() =~= sp.take(i as int));
        assert(sp.take(i + 1).last() == sp[i as int]);
        let part = &parts[i];
        if part.len() == 0 || is_dot_piece(part) {
        } else if is_noise(part) {
            proof { lemma_norm_rejected_prefix(sp, i + 1); }
            return None;
        } else if is_dot_dot_piece(part) {
            if comps.len() == 0 {
                proof { lemma_norm_rejected_prefix(sp, i + 1); }
                return None;
            }
            let ghost prev = comps@;
            comps.pop();
            assert(seq_view(comps@) =~= seq_view(prev).drop_last());
        } else {
            let ghost prev = comps@;
            comps.push(part.clone());
            assert(seq_view(comps@) =~= seq_view(prev).push(sp[i as int]));
        }
        i = i + 1;
    }
    assert(sp.take(sp.len() as int) =~= sp);
    let joined = join_on_slash(&comps);
    assert(Seq::new(comps@.len(), |k: int| comps@[k]@) =~= seq_view(comps@));
    Some(joined)
}

/// The canonical form of a ZIP entry name: `/` separators, no empty or `.` pieces, `..`
/// resolved. `None` for macOS metadata (`__MACOSX`, `._*`) and for names that climb above the
/// archive root.
pub fn normalize_zip_entry_name(value: &str) -> (r: Option<String>)
    ensures
        opt_chars(r) == normalized_entry(value@),
{
    let cs = chars_of(value);
    match normalize_entry_chars(cs.as_slice()) {
        Some(n) => Some(string_from_chars(n.as_slice())),
        None => None,
    }
}

/// The canonical form of an entry name, or the name with `/` separators when it has none.
pub open spec fn lossy_entry(v: Seq<char>) -> Seq<char> {
    match normalized_entry(v) {
        Some(n) => n,
        None => slashes(v),
    }
}

pub fn normalize_entry_lossy_chars(v: &[char]) -> (r: Vec<char>)
    ensures
        r@ == lossy_entry(v@),
{
    match normalize_entry_chars(v) {
        Some(n) => n,
        None => to_slashes(v),
    }
}

/// The canonical form of an entry name, falling back to the name with `/` separators.
pub fn normalize_zip_entry_lossy(value: &str) -> (r: String)
    ensures
        r@ == lossy_entry(value@),
{
    let cs = chars_of(value);
    let n = normalize_entry_lossy_chars(cs.as_slice());
    string_from_chars(n.as_slice())
}

/// An entry path under an archive root: either side alone when the other is empty, else both
/// joined with `/`.
pub open spec fn joined_entry(root: Seq<char>, p: Seq<char>) -> Seq<char> {
    if root.len() == 0 {
        p
    } else if p.len() == 0 {
        root
    } else {
        root + seq!['/'] + p
    }
}

fn join_entry_chars(root: &[char], p: &[char]) -> (r: Vec<char>)
    ensures
        r@ == joined_entry(root@, p@),
{
    if root.len() == 0 {
        return vstd::slice::slice_to_vec(p);
    }
    let mut out = vstd::slice::slice_to_vec(root);
    if p.len() == 0 {
        return out;
    }
    out.push('/');
    let ghost before = out@;
    let mut i: usize = 0;
    while i < p.len()
        invariant
            i <= p@.len(),
            out@ == before + p@.take(i as int),
        decreases p@.len() - i,
    {
        out.push(p[i]);
        assert(p@.take(i + 1) =~= p@.take(i as int).push(p@[i as int]));
        i = i + 1;
    }
    assert(p@.take(p@.len() as int) =~= p@);
    out
}

/// `path`, in its lossy canonical form, under the archive root `root`.
pub fn join_zip_entry_lossy(root: &str, path: &str) -> (r: String)
    ensures
        r@ == joined_entry(root@, lossy_entry(path@)),
{
    let r = chars_of(root);
    let p = chars_of(path);
    let n = normalize_entry_lossy_chars(p.as_slice());
    let j = join_entry_chars(r.as_slice(), n.as_slice());
    string_from_chars(j.as_slice())
}

/// `path`, in its canonical form, under the archive root `root`; `None` when `path` has no
/// canonical form.
pub fn join_zip_entry_strict(root: &str, path: &str) -> (r: Option<String>)
    ensures
        match normalized_entry(path@) {
            Some(n) => r matches Some(s) && s@ == joined_entry(root@, n),
            None => r is None,
        },
{
    let p = chars_of(path);
    match normalize_entry_chars(p.as_slice()) {
        None => None,
        Some(n) => {
            let r = chars_of(root);
            let j = join_entry_chars(r.as_slice(), n.as_slice());
            Some(string_from_chars(j.as_slice()))
        },
    }
}

/// Whether a stored entry name is macOS archive metadata: it is UTF-8 and one of its pieces,
/// split at `/` or `\`, is a metadata piece.
pub open spec fn noise_entry(raw: Seq<u8>) -> bool {
    valid_utf8(raw) && exists|i: int| 0 <= i < split_slash(slashes(decode_utf8(raw))).len()
        && #[trigger] is_noise_piece(split_slash(slashes(decode_utf8(raw)))[i])
}

/// Whether a stored entry name is macOS archive metadata.
pub fn is_zip_noise_entry(name_raw: &[u8]) -> (r: bool)
    ensures
        r == noise_entry(name_raw@),
{
    let name = match utf8_of(name_raw) {
        Some(n) => n,
        None => return false,
    };
    assert(valid_utf8(name_raw@) && name@ == decode_utf8(name_raw@));
    let cs = chars_of(name.as_str());
    let s = to_slashes(cs.as_slice());
    let parts = split_on_slash(s.as_slice());
    let ghost sp = split_slash(slashes(decode_utf8(name_raw@)));
    let mut i: usize = 0;
    while i < parts.len()
        invariant
            valid_utf8(name_raw@),
            sp == split_slash(slashes(decode_utf8(name_raw@))),
            parts@.len() == sp.len(),
            forall|k: int| 0 <= k < parts@.len() ==> (#[trigger] parts@[k])@ == sp[k],
            i <= parts@.len(),
            forall|k: int| 0 <= k < i ==> !is_noise_piece(#[trigger] sp[k]),
        decreases parts@.len() - i,
    {
        if is_noise(&parts[i]) {
            assert(is_noise_piece(split_slash(slashes(decode_utf8(name_raw@)))[i as int]));
            return true;
        }
        i = i + 1;
    }
    false
}

/// The extension `pmx`, in any case.
pub open spec fn pmx_entry_name(e: Seq<char>) -> bool {
    path_extension(e) matches Some(x) && eq_ignore_ascii_case(x, seq!['p', 'm', 'x'])
}

/// Whether an entry name has the extension `pmx`, in any case.
pub fn is_pmx_entry_name(entry: &[char]) -> (r: bool)
    ensures
        r == pmx_entry_name(entry@),
{
    match extension_of(entry) {
        None => false,
        Some(x) => {
            let pmx: Vec<char> = vec!['p', 'm', 'x'];
            assert(pmx@ =~= seq!['p', 'm', 'x']);
            chars_eq_ignore_ascii_case(x.as_slice(), pmx.as_slice())
        },
    }
}

} // verus!
