//! Finding a relative path in a folder when the case of its names may differ from the disk.
//!
//! The walk goes one component at a time: `.` is skipped, `..` moves to the parent, and a
//! name is taken as it is when the disk has it, else as the first directory entry whose
//! lowercase form matches. The caller performs the disk queries the walk asks for
//! (`PmxCaseWalk::step`) and hands back the answers (`PmxCaseWalk::advance`).

use vstd::prelude::*;

use crate::format::model::{lemma_seq_view_push, seq_view};
use crate::paths::{components_of, is_dot, is_dot_dot, path_components, render_components, render_path};
use crate::strings::{chars_of, string_from_chars, to_lowercase, unicode_lowercase};

verus! {

/// The components of the parent directory: none when there are no components or only a root.
pub open spec fn parent_components(cs: Seq<Seq<char>>) -> Option<Seq<Seq<char>>> {
    if cs.len() == 0 || cs.last() == seq!['/'] { None } else { Some(cs.drop_last()) }
}

/// A component that the walk takes as a name.
pub open spec fn is_name(c: Seq<char>) -> bool {
    !is_dot(c) && !is_dot_dot(c) && c != seq!['/']
}

/// The state of a walk: the components reached so far, the components of the path being
/// walked, the position of the next one, and whether the walk has failed.
pub struct WalkView {
    pub current: Seq<Seq<char>>,
    pub components: Seq<Seq<char>>,
    pub next: int,
    pub failed: bool,
}

/// The walk after skipping `.` components and moving up for `..` components, up to the next
/// name or the end; it fails at a `..` with no parent and at a root component.
pub open spec fn settle(w: WalkView) -> WalkView
    decreases w.components.len() - w.next,
{
    if w.failed || w.next < 0 || w.next >= w.components.len() {
        w
    } else {
        let c = w.components[w.next];
        if is_dot(c) {
            settle(WalkView { next: w.next + 1, ..w })
        } else if is_dot_dot(c) {
            match parent_components(w.current) {
                None => WalkView { failed: true, ..w },
                Some(p) => settle(WalkView { current: p, next: w.next + 1, ..w }),
            }
        } else if c == seq!['/'] {
            WalkView { failed: true, ..w }
        } else {
            w
        }
    }
}

/// The first entry name of a directory listing whose lowercase form is the target's; `None`
/// when an entry could not be read before such a name.
pub open spec fn listing_match(names: Seq<Option<Seq<char>>>, target: Seq<char>) -> Option<Seq<char>>
    decreases names.len(),
{
    if names.len() == 0 {
        None
    } else {
        match names[0] {
            None => None,
            Some(n) => if unicode_lowercase(n) == unicode_lowercase(target) {
                Some(n)
            } else {
                listing_match(names.drop_first(), target)
            },
        }
    }
}

/// What the walk asks the caller to do next.
#[derive(Debug, Clone, PartialEq, Eq)]
pub enum PmxWalkStep {
    /// The walk is over: the path found, or `None` when there is none.
    Done(Option<String>),
    /// Whether `direct` exists, and if not, the names of the entries of the directory `dir`,
    /// to be matched against `name` regardless of case.
    Probe { direct: String, dir: String, name: String },
}

/// A walk of a relative path under a folder.
pub struct PmxCaseWalk {
    current: Vec<Vec<char>>,
    components: Vec<Vec<char>>,
    next: usize,
    failed: bool,
}

impl View for PmxCaseWalk {
    type V = WalkView;

    closed spec fn view(&self) -> WalkView {
        WalkView {
            current: seq_view(self.current@),
            components: seq_view(self.components@),
            next: self.next as int,
            failed: self.failed,
        }
    }
}

impl PmxCaseWalk {
    pub closed spec fn wf(&self) -> bool {
        self.next <= self.components@.len()
    }

    /// A walk of `path` from `root`: it starts at the root's components and walks the path's.
    /// (An absolute path is not walked: its root component fails the walk.)
    pub fn new(root: &str, path: &str) -> (r: Self)
        ensures
            r.wf(),
            r@ == (WalkView { current: path_components(root@), components: path_components(path@), next: 0, failed: false }),
    {
        let rc = chars_of(root);
        let pc = chars_of(path);
        PmxCaseWalk { current: components_of(rc.as_slice()), components: components_of(pc.as_slice()), next: 0, failed: false }
    }

    /// Moves past `.` and `..` components, then says what the walk needs: nothing more when it
    /// failed or reached the end, else whether the next name exists as written.
    pub fn step(&mut self) -> (r: PmxWalkStep)
        requires
            old(self).wf(),
        ensures
            final(self).wf(),
            final(self)@ == settle(old(self)@),
            final(self)@.failed ==> r == PmxWalkStep::Done(None),
            !final(self)@.failed && final(self)@.next == final(self)@.components.len() ==> (r matches PmxWalkStep::Done(Some(p))
                && p@ == render_components(final(self)@.current)),
            !final(self)@.failed && final(self)@.next < final(self)@.components.len() ==> {
                &&& is_name(final(self)@.components[final(self)@.next])
                &&& r matches PmxWalkStep::Probe { direct, dir, name }
                &&& direct@ == render_components(final(self)@.current.push(final(self)@.components[final(self)@.next]))
                &&& dir@ == render_components(final(self)@.current)
                &&& name@ == final(self)@.components[final(self)@.next]
            },
    {
        loop
            invariant_except_break
                self.wf(),
                settle(self@) == settle(old(self)@),
            ensures
                self.wf(),
                self@ == settle(old(self)@),
                self.failed || self.next == self.components@.len() || is_name(self@.components[self@.next]),
            decreases self.components@.len() - self.next,
        {
            if self.failed || self.next >= self.components.len() {
                break;
            }
            let c = &self.components[self.next];
            let ghost cv = self@.components[self@.next];
            assert(c@ == cv);
            if c.len() == 1 && c[0] == '.' {
                assert(cv =~= seq!['.']);
                self.next = self.next + 1;
            } else if c.len() == 2 && c[0] == '.' && c[1] == '.' {
                assert(cv =~= seq!['.', '.']);
                assert(!is_dot(cv));
                let n = self.current.len();
                if n == 0 || (self.current[n - 1].len() == 1 && self.current[n - 1][0] == '/') {
                    proof {
                        if n > 0 {
                            assert(self@.current.last() =~= seq!['/']);
                        }
                    }
                    self.failed = true;
                    break;
                }
                assert(self@.current.last() != seq!['/']) by {
                    if self@.current.last() == seq!['/'] {
                        assert(self@.current.last().len() == 1);
                    }
                }
                let ghost before = self@;
                self.current.pop();
                assert(seq_view(self.current@) =~= before.current.drop_last());
                self.next = self.next + 1;
            } else if c.len() == 1 && c[0] == '/' {
                assert(!is_dot(cv) && !is_dot_dot(cv) && cv =~= seq!['/']);
                self.failed = true;
                break;
            } else {
                assert(!is_dot(cv) && !is_dot_dot(cv) && cv != seq!['/']) by {
                    if is_dot(cv) { assert(cv.len() == 1); }
                    if is_dot_dot(cv) { assert(cv.len() == 2); }
                    if cv == seq!['/'] { assert(cv.len() == 1); }
                }
                break;
            }
        }
        if self.failed {
            return PmxWalkStep::Done(None);
        }
        if self.next == self.components.len() {
            let p = render_path(&self.current);
            return PmxWalkStep::Done(Some(string_from_chars(p.as_slice())));
        }
        let name = vstd::slice::slice_to_vec(self.components[self.next].as_slice());
        let dir = render_path(&self.current);
        let mut with_name: Vec<Vec<char>> = Vec::new();
        let mut i: usize = 0;
        while i < self.current.len()
            invariant
                i <= self.current@.len(),
                with_name@.len() == i,
                forall|q: int| 0 <= q < i ==> (#[trigger] with_name@[q])@ == self.current@[q]@,
            decreases self.current@.len() - i,
        {
            with_name.push(vstd::slice::slice_to_vec(self.current[i].as_slice()));
            i = i + 1;
        }
        with_name.push(vstd::slice::slice_to_vec(name.as_slice()));
        assert(seq_view(with_name@) =~= self@.current.push(self@.components[self@.next]));
        let direct = render_path(&with_name);
        PmxWalkStep::Probe {
            direct: string_from_chars(direct.as_slice()),
            dir: string_from_chars(dir.as_slice()),
            name: string_from_chars(name.as_slice()),
        }
    }

    /// Takes the next name: as written when `direct_exists`, else as the first entry of the
    /// directory `listing` (each entry's name, or `None` where it could not be read) that
    /// matches it regardless of case; the walk fails when the directory could not be listed
    /// (`listing` is `None`) or nothing matches.
    pub fn advance(&mut self, direct_exists: bool, listing: Option<Vec<Option<String>>>)
        requires
            old(self).wf(),
            !old(self)@.failed,
            old(self)@.next < old(self)@.components.len(),
        ensures
            final(self).wf(),
            final(self)@.components == old(self)@.components,
            final(self)@.next == old(self)@.next + 1,
            ({
                let part = old(self)@.components[old(self)@.next];
                if direct_exists {
                    final(self)@.current == old(self)@.current.push(part) && !final(self)@.failed
                } else {
                    match listing {
                        None => final(self)@.failed,
                        Some(names) => match listing_match(Seq::new(names@.len(), |i: int| crate::source::names::opt_chars(names@[i])), part) {
                            Some(n) => final(self)@.current == old(self)@.current.push(n) && !final(self)@.failed,
                            None => final(self)@.failed,
                        },
                    }
                }
            }),
    {
        let count = self.components.len();
        assert(self.next < count);
        let part = vstd::slice::slice_to_vec(self.components[self.next].as_slice());
        let ghost before = self@;
        if direct_exists {
            let ghost prev = self.current@;
            self.current.push(part);
            proof { lemma_seq_view_push(prev, part); }
            self.next = self.next + 1;
            return;
        }
        match listing {
            None => {
                self.failed = true;
                self.next = self.next + 1;
            },
            Some(names) => {
                let ghost views = Seq::new(names@.len(), |i: int| crate::source::names::opt_chars(names@[i]));
                let part_string = string_from_chars(part.as_slice());
                let target = to_lowercase(part_string.as_str());
                let mut found: Option<Vec<char>> = None;
                let mut i: usize = 0;
                let mut stop = false;
                assert(views.skip(0) =~= views);
                while i < names.len() && !stop
                    invariant
                        views == Seq::new(names@.len(), |i: int| crate::source::names::opt_chars(names@[i])),
                        i <= names@.len(),
                        target@ == unicode_lowercase(part@),
                        !stop ==> listing_match(views, part@) == listing_match(views.skip(i as int), part@),
                        stop ==> match found {
                            Some(n) => listing_match(views, part@) == Some(n@),
                            None => listing_match(views, part@) is None,
                        },
                        !stop ==> found is None,
                    decreases names@.len() - i,
                {
                    assert(views.skip(i as int).drop_first() =~= views.skip(i + 1));
                    assert(views.skip(i as int)[0] == views[i as int]);
                    match &names[i] {
                        None => {
                            stop = true;
                        },
                        Some(n) => {
                            let lower = to_lowercase(n.as_str());
                            if lower == target {
                                found = Some(chars_of(n.as_str()));
                                stop = true;
                            }
                        },
                    }
                    i = i + 1;
                }
                if !stop {
                    assert(views.skip(i as int).len() == 0);
                }
                match found {
                    Some(n) => {
                        let ghost prev = self.current@;
                        self.current.push(n);
                        proof { lemma_seq_view_push(prev, n); }
                    },
                    None => {
                        self.failed = true;
                    },
                }
                self.next = self.next + 1;
            },
        }
    }
}

} // verus!
