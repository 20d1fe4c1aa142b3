//! File paths, as `/`-separated character strings with the meaning that `std::path` gives them
//! on Unix: absolute paths start with `/`, `.` components are dropped except a leading one,
//! and joining an absolute path replaces what it is joined to.

use vstd::prelude::*;

use crate::format::model::{lemma_seq_view_push, seq_view};
use crate::strings::{join_on_slash, join_slash, split_on_slash, split_slash};

verus! {

pub open spec fn path_is_absolute(p: Seq<char>) -> bool {
    p.len() > 0 && p[0] == '/'
}

/// `Path::join`: an absolute `b` replaces `a`; otherwise `b` is appended after a separator
/// when `a` is non-empty and does not already end with one.
pub open spec fn path_join(a: Seq<char>, b: Seq<char>) -> Seq<char> {
    if path_is_absolute(b) {
        b
    } else if a.len() > 0 && a.last() != '/' {
        a + seq!['/'] + b
    } else {
        a + b
    }
}

pub fn is_absolute(p: &[char]) -> (r: bool)
    ensures
        r == path_is_absolute(p@),
{
    p.len() > 0 && p[0] == '/'
}

pub fn join_paths(a: &[char], b: &[char]) -> (r: Vec<char>)
    ensures
        r@ == path_join(a@, b@),
{
    if is_absolute(b) {
        return vstd::slice::slice_to_vec(b);
    }
    let mut out = vstd::slice::slice_to_vec(a);
    if a.len() > 0 && a[a.len() - 1] != '/' {
        out.push('/');
    }
    let ghost before = out@;
    let mut i: usize = 0;
    while i < b.len()
        invariant
            i <= b@.len(),
            out@ == before + b@.take(i as int),
        decreases b@.len() - i,
    {
        out.push(b[i]);
        assert(b@.take(i + 1) =~= b@.take(i as int).push(b@[i as int]));
        i = i + 1;
    }
    assert(b@.take(b@.len() as int) =~= b@);
    out
}

pub open spec fn is_dot(x: Seq<char>) -> bool {
    x == seq!['.']
}

pub open spec fn is_dot_dot(x: Seq<char>) -> bool {
    x == seq!['.', '.']
}

/// The pieces that name components: the non-empty pieces other than `.`.
pub open spec fn normal_pieces(parts: Seq<Seq<char>>) -> Seq<Seq<char>>
    decreases parts.len(),
{
    if parts.len() == 0 {
        Seq::empty()
    } else {
        let rest = normal_pieces(parts.drop_last());
        let x = parts.last();
        if x.len() == 0 || is_dot(x) {
            rest
        } else {
            rest.push(x)
        }
    }
}

/// The named components of a path (`..` included), in order.
pub open spec fn path_pieces(p: Seq<char>) -> Seq<Seq<char>> {
    normal_pieces(split_slash(p))
}

/// Whether a relative path starts with a `.` component, which `Path::components` keeps.
pub open spec fn has_cur_dir_prefix(p: Seq<char>) -> bool {
    p.len() > 0 && p[0] == '.' && (p.len() == 1 || p[1] == '/')
}

/// `Path::file_name`: the last component when it is a name other than `..`.
pub open spec fn path_file_name(p: Seq<char>) -> Option<Seq<char>> {
    let ps = path_pieces(p);
    if ps.len() > 0 && !is_dot_dot(ps.last()) {
        Some(ps.last())
    } else {
        None
    }
}

/// Index of the last `.` of `f`, or -1.
pub open spec fn last_dot(f: Seq<char>) -> int
    decreases f.len(),
{
    if f.len() == 0 {
        -1
    } else if f.last() == '.' {
        f.len() - 1
    } else {
        last_dot(f.drop_last())
    }
}

/// `Path::extension`: what follows the last `.` of the file name, unless the file name has no
/// `.` or its only `.` is its first character.
pub open spec fn path_extension(p: Seq<char>) -> Option<Seq<char>> {
    match path_file_name(p) {
        None => None,
        Some(f) => if last_dot(f) <= 0 {
            None
        } else {
            Some(f.skip(last_dot(f) + 1))
        },
    }
}

pub proof fn lemma_last_dot_range(f: Seq<char>)
    ensures
        -1 <= last_dot(f) < f.len(),
        last_dot(f) >= 0 ==> f[last_dot(f)] == '.',
        forall|k: int| last_dot(f) < k < f.len() ==> f[k] != '.',
    decreases f.len(),
{
    if f.len() > 0 {
        let g = f.drop_last();
        lemma_last_dot_range(g);
        if f.last() != '.' {
            assert forall|k: int| last_dot(f) < k < f.len() implies f[k] != '.' by {
                if k < g.len() {
                    assert(f[k] == g[k]);
                }
            }
        }
    }
}

pub(crate) fn is_dot_piece(x: &Vec<char>) -> (r: bool)
    ensures
        r == is_dot(x@),
{
    if x.len() == 1 && x[0] == '.' {
        assert(x@ =~= seq!['.']);
        true
    } else {
        false
    }
}

pub(crate) fn is_dot_dot_piece(x: &Vec<char>) -> (r: bool)
    ensures
        r == is_dot_dot(x@),
{
    if x.len() == 2 && x[0] == '.' && x[1] == '.' {
        assert(x@ =~= seq!['.', '.']);
        true
    } else {
        false
    }
}

/// The named components of a path.
pub fn pieces_of_path(p: &[char]) -> (r: Vec<Vec<char>>)
    ensures
        r@.len() == path_pieces(p@).len(),
        forall|i: int| 0 <= i < r@.len() ==> (#[trigger] r@[i])@ == path_pieces(p@)[i],
{
    let parts = split_on_slash(p);
    let ghost sp = split_slash(p@);
    let mut out: Vec<Vec<char>> = Vec::new();
    let mut i: usize = 0;
    while i < parts.len()
        invariant
            sp == split_slash(p@),
            parts@.len() == sp.len(),
            forall|k: int| 0 <= k < parts@.len() ==> (#[trigger] parts@[k])@ == sp[k],
            i <= parts@.len(),
            out@.len() == normal_pieces(sp.take(i as int)).len(),
            forall|k: int| 0 <= k < out@.len() ==> (#[trigger] out@[k])@ == normal_pieces(sp.take(i as int))[k],
        decreases parts@.len() - i,
    {
        assert(sp.take(i + 1).drop_last() =~= sp.take(i as int));
        let x = &parts[i];
        if !(x.len() == 0 || is_dot_piece(x)) {
            out.push(x.clone());
        }
        i = i + 1;
    }
    assert(sp.take(sp.len() as int) =~= sp);
    out
}

/// `Path::file_name` of a path.
pub fn file_name_of(p: &[char]) -> (r: Option<Vec<char>>)
    ensures
        match path_file_name(p@) {
            Some(f) => r matches Some(x) && x@ == f,
            None => r is None,
        },
{
    let pieces = pieces_of_path(p);
    if pieces.len() > 0 && !is_dot_dot_piece(&pieces[pieces.len() - 1]) {
        Some(pieces[pieces.len() - 1].clone())
    } else {
        None
    }
}

/// `Path::extension` of a path.
pub fn extension_of(p: &[char]) -> (r: Option<Vec<char>>)
    ensures
        match path_extension(p@) {
            Some(e) => r matches Some(x) && x@ == e,
            None => r is None,
        },
{
    match file_name_of(p) {
        None => None,
        Some(f) => {
            proof { lemma_last_dot_range(f@); }
            assert(f@.take(f@.len() as int) =~= f@);
            let mut i: usize = f.len();
            while i > 0 && f[i - 1] != '.'
                invariant
                    i <= f@.len(),
                    last_dot(f@) == last_dot(f@.take(i as int)),
                decreases i,
            {
                assert(f@.take(i as int).drop_last() =~= f@.take(i - 1));
                i = i - 1;
            }
            if i > 0 {
                assert(f@.take(i as int).last() == '.');
            } else {
                assert(f@.take(0) =~= Seq::<char>::empty());
            }
            // now last_dot(f) == i - 1
            if i <= 1 {
                None
            } else {
                let mut out: Vec<char> = Vec::new();
                let mut j: usize = i;
                while j < f.len()
                    invariant
                        i <= j <= f@.len(),
                        out@ == f@.subrange(i as int, j as int),
                    decreases f@.len() - j,
                {
                    out.push(f[j]);
                    assert(f@.subrange(i as int, j + 1) =~= f@.subrange(i as int, j as int).push(f@[j as int]));
                    j = j + 1;
                }
                assert(f@.skip(i as int) =~= f@.subrange(i as int, f@.len() as int));
                Some(out)
            }
        },
    }
}

/// The components of a path as `Path::components` gives them: the root (as `/`) of an absolute
/// path, the leading `.` of a relative one, then its named components.
pub open spec fn path_components(p: Seq<char>) -> Seq<Seq<char>> {
    let head: Seq<Seq<char>> = if path_is_absolute(p) {
        seq![seq!['/']]
    } else if has_cur_dir_prefix(p) {
        seq![seq!['.']]
    } else {
        Seq::empty()
    };
    head + path_pieces(p)
}

/// The components of a path.
pub fn components_of(p: &[char]) -> (r: Vec<Vec<char>>)
    ensures
        seq_view(r@) == path_components(p@),
{
    let pieces = pieces_of_path(p);
    let mut comps: Vec<Vec<char>> = Vec::new();
    let ghost head: Seq<Seq<char>> = if path_is_absolute(p@) {
        seq![seq!['/']]
    } else if has_cur_dir_prefix(p@) {
        seq![seq!['.']]
    } else {
        Seq::empty()
    };
    if p.len() > 0 && p[0] == '/' {
        let mut root: Vec<char> = Vec::new();
        root.push('/');
        comps.push(root);
        assert(seq_view(comps@) =~= head);
    } else if p.len() > 0 && p[0] == '.' && (p.len() == 1 || p[1] == '/') {
        let mut dot: Vec<char> = Vec::new();
        dot.push('.');
        comps.push(dot);
        assert(seq_view(comps@) =~= head);
    } else {
        assert(seq_view(comps@) =~= head);
    }
    let mut i: usize = 0;
    while i < pieces.len()
        invariant
            i <= pieces@.len(),
            pieces@.len() == path_pieces(p@).len(),
            forall|q: int| 0 <= q < pieces@.len() ==> (#[trigger] pieces@[q])@ == path_pieces(p@)[q],
            seq_view(comps@) == head + path_pieces(p@).take(i as int),
        decreases pieces@.len() - i,
    {
        let ghost prev = comps@;
        comps.push(vstd::slice::slice_to_vec(pieces[i].as_slice()));
        proof { lemma_seq_view_push(prev, comps@.last()); }
        assert(path_pieces(p@).take(i + 1) =~= path_pieces(p@).take(i as int).push(path_pieces(p@)[i as int]));
        i = i + 1;
    }
    assert(path_pieces(p@).take(pieces@.len() as int) =~= path_pieces(p@));
    comps
}

/// A path written from its components: the root, then the other components separated by `/`.
pub open spec fn render_components(cs: Seq<Seq<char>>) -> Seq<char> {
    if cs.len() > 0 && cs[0] == seq!['/'] {
        seq!['/'] + join_slash(cs.drop_first())
    } else {
        join_slash(cs)
    }
}

/// Writes a path from its components.
pub fn render_path(cs: &Vec<Vec<char>>) -> (r: Vec<char>)
    ensures
        r@ == render_components(seq_view(cs@)),
{
    if cs.len() > 0 && cs[0].len() == 1 && cs[0][0] == '/' {
        assert(cs@[0]@ =~= seq!['/']);
        let mut rest: Vec<Vec<char>> = Vec::new();
        let mut i: usize = 1;
        while i < cs.len()
            invariant
                1 <= i <= cs@.len(),
                rest@.len() == i - 1,
                forall|q: int| 0 <= q < rest@.len() ==> (#[trigger] rest@[q])@ == cs@[q + 1]@,
            decreases cs@.len() - i,
        {
            rest.push(vstd::slice::slice_to_vec(cs[i].as_slice()));
            i = i + 1;
        }
        let joined = join_on_slash(&rest);
        assert(Seq::new(rest@.len(), |q: int| rest@[q]@) =~= seq_view(cs@).drop_first());
        let mut out: Vec<char> = Vec::new();
        out.push('/');
        let mut k: usize = 0;
        while k < joined.len()
            invariant
                k <= joined@.len(),
                out@ == seq!['/'] + joined@.take(k as int),
            decreases joined@.len() - k,
        {
            out.push(joined[k]);
            assert(joined@.take(k + 1) =~= joined@.take(k as int).push(joined@[k as int]));
            k = k + 1;
        }
        assert(joined@.take(joined@.len() as int) =~= joined@);
        out
    } else {
        if cs.len() > 0 {
            assert(cs@[0]@ != seq!['/']) by {
                if cs@[0]@ == seq!['/'] {
                    assert(cs@[0]@.len() == 1 && cs@[0]@[0] == '/');
                }
            }
        }
        let joined = join_on_slash(cs);
        assert(Seq::new(cs@.len(), |q: int| cs@[q]@) =~= seq_view(cs@));
        joined
    }
}

} // verus!
