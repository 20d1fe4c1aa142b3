//! Properties of ZIP entry-name normalization.

use vstd::prelude::*;

use super::names::{
    ZipNameEncoding, candidate_decoding, entry_candidates, is_noise_piece, norm_pieces, norm_step,
    normalized_entry,
};
use crate::paths::{is_dot, is_dot_dot};
use crate::strings::{join_slash, slashes, split_slash};

verus! {

/// A piece that normalization keeps as a component.
pub open spec fn kept_piece(p: Seq<char>) -> bool {
    &&& p.len() > 0
    &&& !is_dot(p)
    &&& !is_dot_dot(p)
    &&& !is_noise_piece(p)
    &&& !p.contains('/')
    &&& !p.contains('\\')
}

/// `\` and `/` separate pieces alike: a name and the same name with `/` for every `\`
/// normalize to the same result.
pub proof fn lemma_separators_unified(v: Seq<char>)
    ensures
        normalized_entry(v) == normalized_entry(slashes(v)),
{
    assert(slashes(slashes(v)) =~= slashes(v));
}

/// A name with a macOS metadata piece (`__MACOSX`, or a piece starting with `._`) anywhere
/// has no canonical form.
pub proof fn lemma_mac_noise_rejected(v: Seq<char>, i: int)
    requires
        0 <= i < split_slash(slashes(v)).len(),
        is_noise_piece(split_slash(slashes(v))[i]),
    ensures
        normalized_entry(v) is None,
{
    let parts = split_slash(slashes(v));
    let p = parts[i];
    assert(parts.take(i + 1).drop_last() =~= parts.take(i));
    assert(parts.take(i + 1).last() == p);
    assert(p.len() > 0 && !is_dot(p)) by {
        if has_dot_underscore(p) {
            assert(p.take(2)[0] == '.' && p.take(2)[1] == '_');
        } else {
            assert(p == seq!['_', '_', 'M', 'A', 'C', 'O', 'S', 'X']);
        }
        if is_dot(p) {
            assert(p.len() == 1);
        }
    }
    assert(norm_pieces(parts.take(i + 1)) is None);
    super::names::lemma_norm_rejected_prefix(parts, i + 1);
}

spec fn has_dot_underscore(p: Seq<char>) -> bool {
    crate::strings::has_prefix(p, seq!['.', '_'])
}

/// The pieces of `split_slash` hold no `/`, and no `\` when the text holds none.
proof fn lemma_split_pieces(s: Seq<char>)
    ensures
        forall|k: int| 0 <= k < split_slash(s).len() ==> !(#[trigger] split_slash(s)[k]).contains('/'),
        !s.contains('\\') ==> forall|k: int| 0 <= k < split_slash(s).len() ==> !(#[trigger] split_slash(s)[k]).contains('\\'),
    decreases s.len(),
{
    crate::strings::lemma_split_slash_nonempty(s);
    if s.len() > 0 {
        let rest = split_slash(s.drop_last());
        lemma_split_pieces(s.drop_last());
        crate::strings::lemma_split_slash_nonempty(s.drop_last());
        if !s.contains('\\') {
            assert(!s.drop_last().contains('\\')) by {
                if s.drop_last().contains('\\') {
                    let j = choose|j: int| 0 <= j < s.drop_last().len() && s.drop_last()[j] == '\\';
                    assert(s[j] == '\\');
                }
            }
            assert(s.last() != '\\') by {
                if s.last() == '\\' {
                    assert(s[s.len() - 1] == '\\');
                }
            }
        }
        if s.last() != '/' {
            let last = rest.last().push(s.last());
            assert(!last.contains('/')) by {
                if last.contains('/') {
                    let j = choose|j: int| 0 <= j < last.len() && last[j] == '/';
                    if j < rest.last().len() {
                        assert(rest.last()[j] == '/');
                    }
                }
            }
            if !s.contains('\\') {
                assert(!last.contains('\\')) by {
                    if last.contains('\\') {
                        let j = choose|j: int| 0 <= j < last.len() && last[j] == '\\';
                        if j < rest.last().len() {
                            assert(rest.last()[j] == '\\');
                        }
                    }
                }
            }
        }
    }
}

/// The components that normalization gathers are all kept pieces.
proof fn lemma_norm_kept(parts: Seq<Seq<char>>)
    requires
        forall|k: int| 0 <= k < parts.len() ==> !(#[trigger] parts[k]).contains('/') && !parts[k].contains('\\'),
    ensures
        norm_pieces(parts) matches Some(cs) ==> forall|k: int| 0 <= k < cs.len() ==> kept_piece(#[trigger] cs[k]),
    decreases parts.len(),
{
    if parts.len() > 0 {
        lemma_norm_kept(parts.drop_last());
        let p = parts.last();
        assert(p == parts[parts.len() - 1]);
    }
}

/// Kept pieces normalize to themselves.
proof fn lemma_norm_of_kept(cs: Seq<Seq<char>>)
    requires
        forall|k: int| 0 <= k < cs.len() ==> kept_piece(#[trigger] cs[k]),
    ensures
        norm_pieces(cs) == Some(cs),
    decreases cs.len(),
{
    if cs.len() > 0 {
        lemma_norm_of_kept(cs.drop_last());
        assert(kept_piece(cs[cs.len() - 1]));
        assert(cs.drop_last().push(cs.last()) =~= cs);
    }
}

/// Splitting a text at `/` after appending `/` and a piece without `/` adds that piece.
proof fn lemma_split_append(a: Seq<char>, b: Seq<char>)
    requires
        !b.contains('/'),
    ensures
        split_slash(a + seq!['/'] + b) == split_slash(a).push(b),
    decreases b.len(),
{
    if b.len() == 0 {
        assert((a + seq!['/'] + b).drop_last() =~= a);
        assert(a + seq!['/'] + b =~= a.push('/'));
        assert(b =~= Seq::<char>::empty());
        assert((a + seq!['/'] + b).last() == '/');
    } else {
        let c = b.last();
        assert(c == b[b.len() - 1]);
        assert(c != '/') by {
            if c == '/' {
                assert(b.contains('/'));
            }
        }
        assert(!b.drop_last().contains('/')) by {
            if b.drop_last().contains('/') {
                let j = choose|j: int| 0 <= j < b.drop_last().len() && b.drop_last()[j] == '/';
                assert(b[j] == '/');
            }
        }
        lemma_split_append(a, b.drop_last());
        assert((a + seq!['/'] + b).drop_last() =~= a + seq!['/'] + b.drop_last());
        assert((a + seq!['/'] + b).last() == c);
        let r0 = split_slash(a).push(b.drop_last());
        assert(r0.update(r0.len() - 1, r0.last().push(c)) =~= split_slash(a).push(b)) by {
            assert(b.drop_last().push(c) =~= b);
        }
    }
}

/// Splitting joined pieces without `/` gives the pieces back.
proof fn lemma_split_join(cs: Seq<Seq<char>>)
    requires
        cs.len() > 0,
        forall|k: int| 0 <= k < cs.len() ==> !(#[trigger] cs[k]).contains('/'),
    ensures
        split_slash(join_slash(cs)) == cs,
    decreases cs.len(),
{
    if cs.len() == 1 {
        let p = cs[0];
        assert(!p.contains('/'));
        lemma_split_append_first(p);
        assert(seq![p] =~= cs);
    } else {
        lemma_split_join(cs.drop_last());
        assert(!cs.last().contains('/')) by {
            assert(cs.last() == cs[cs.len() - 1]);
        }
        lemma_split_append(join_slash(cs.drop_last()), cs.last());
        assert(cs.drop_last().push(cs.last()) =~= cs);
    }
}

/// A text without `/` splits into itself alone.
proof fn lemma_split_append_first(p: Seq<char>)
    requires
        !p.contains('/'),
    ensures
        split_slash(p) == seq![p],
    decreases p.len(),
{
    if p.len() > 0 {
        assert(!p.drop_last().contains('/')) by {
            if p.drop_last().contains('/') {
                let j = choose|j: int| 0 <= j < p.drop_last().len() && p.drop_last()[j] == '/';
                assert(p[j] == '/');
            }
        }
        lemma_split_append_first(p.drop_last());
        assert(p.last() == p[p.len() - 1]);
        assert(seq![p.drop_last()].update(0, p.drop_last().push(p.last())) =~= seq![p]) by {
            assert(p.drop_last().push(p.last()) =~= p);
        }
    } else {
        assert(p =~= Seq::<char>::empty());
    }
}

/// Joined pieces without `\` hold no `\`.
proof fn lemma_join_no_backslash(cs: Seq<Seq<char>>)
    requires
        forall|k: int| 0 <= k < cs.len() ==> !(#[trigger] cs[k]).contains('\\'),
    ensures
        !join_slash(cs).contains('\\'),
    decreases cs.len(),
{
    if cs.len() > 1 {
        lemma_join_no_backslash(cs.drop_last());
        let a = join_slash(cs.drop_last());
        let b = cs.last();
        assert(!b.contains('\\')) by {
            assert(b == cs[cs.len() - 1]);
        }
        let j = a + seq!['/'] + b;
        assert(!j.contains('\\')) by {
            if j.contains('\\') {
                let q = choose|q: int| 0 <= q < j.len() && j[q] == '\\';
                if q < a.len() {
                    assert(a[q] == '\\');
                } else if q > a.len() {
                    assert(b[q - a.len() - 1] == '\\');
                }
            }
        }
    } else if cs.len() == 1 {
        assert(!cs[0].contains('\\'));
    }
}

proof fn lemma_slashes_identity(s: Seq<char>)
    requires
        !s.contains('\\'),
    ensures
        slashes(s) == s,
{
    assert forall|i: int| 0 <= i < s.len() implies slashes(s)[i] == s[i] by {
        if s[i] == '\\' {
            assert(s.contains('\\'));
        }
    }
    assert(slashes(s) =~= s);
}

/// The canonical form of an entry name is its own canonical form: normalizing twice changes
/// nothing.
pub proof fn lemma_normalized_entry_canonical(v: Seq<char>)
    ensures
        normalized_entry(v) matches Some(n) ==> normalized_entry(n) == Some(n),
{
    let parts = split_slash(slashes(v));
    if let Some(cs) = norm_pieces(parts) {
        let n = join_slash(cs);
        assert(!slashes(v).contains('\\')) by {
            if slashes(v).contains('\\') {
                let j = choose|j: int| 0 <= j < slashes(v).len() && slashes(v)[j] == '\\';
            }
        }
        lemma_split_pieces(slashes(v));
        lemma_norm_kept(parts);
        assert forall|k: int| 0 <= k < cs.len() implies !(#[trigger] cs[k]).contains('\\') && !cs[k].contains('/') by {
            assert(kept_piece(cs[k]));
        }
        lemma_join_no_backslash(cs);
        lemma_slashes_identity(n);
        lemma_norm_of_kept(cs);
        if cs.len() > 0 {
            lemma_split_join(cs);
        } else {
            assert(n =~= Seq::<char>::empty());
            assert(split_slash(n) =~= seq![Seq::<char>::empty()]);
            assert(norm_pieces(seq![Seq::<char>::empty()]) == norm_step(norm_pieces(Seq::<Seq<char>>::empty()), Seq::<char>::empty())) by {
                assert(seq![Seq::<char>::empty()].drop_last() =~= Seq::<Seq<char>>::empty());
            }
            assert(join_slash(Seq::<Seq<char>>::empty()) =~= n);
        }
    }
}

/// An explicit encoding does not guess: an entry is tried under its decoding in that encoding
/// alone, when it has one.
pub proof fn lemma_explicit_encoding_does_not_guess(entry: (bool, Seq<u8>, Option<Seq<char>>), encoding: ZipNameEncoding)
    requires
        encoding != ZipNameEncoding::Auto,
    ensures
        entry_candidates(entry, encoding).len() <= 1,
        forall|k: int| 0 <= k < entry_candidates(entry, encoding).len()
            ==> Some(#[trigger] entry_candidates(entry, encoding)[k]) == candidate_decoding(encoding, entry.1),
{
}

} // verus!
