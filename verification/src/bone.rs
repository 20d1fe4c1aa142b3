//! Runtime bone records and the bone hierarchy.

use vstd::prelude::*;

use crate::format::copy::copy_bone;
use crate::format::model::{
    PmxBone, PmxBoneAxes, PmxBoneFlags, PmxBoneInheritance, PmxBoneTail, PmxIk, SpecBone,
    ik_view,
};

verus! {

/// Runtime PMX bone data.
///
/// The raw PMX bone fields are preserved, and the resolved parent/child relationship is stored on
/// top so callers can traverse the hierarchy without relying on the raw document.
#[derive(Debug, Clone, PartialEq)]
pub struct PmxBoneRecord {
    pub name: String,
    pub name_english: String,
    pub position: [u32; 3],
    /// Raw PMX parent index preserved from the source document.
    pub parent_bone: i32,
    /// Resolved parent index inside the record list.
    pub parent_index: Option<usize>,
    pub layer: i32,
    pub flags: PmxBoneFlags,
    pub tail: PmxBoneTail,
    pub inheritance: Option<PmxBoneInheritance>,
    pub fixed_axis: Option<[u32; 3]>,
    pub local_axes: Option<PmxBoneAxes>,
    pub external_parent: i32,
    pub ik: Option<PmxIk>,
    /// Child bone indices in document order.
    pub children: Vec<usize>,
}

/// A bone record as plain values: the raw bone, its resolved parent and its children.
pub type BoneRecordView = (SpecBone, Option<usize>, Seq<usize>);

impl View for PmxBoneRecord {
    type V = BoneRecordView;

    open spec fn view(&self) -> BoneRecordView {
        (self.bone_view(), self.parent_index, self.children@)
    }
}

impl PmxBoneRecord {
    /// The raw bone that this record preserves.
    pub open spec fn bone_view(&self) -> SpecBone {
        SpecBone {
            name: self.name@,
            name_english: self.name_english@,
            position: self.position,
            parent_bone: self.parent_bone,
            layer: self.layer,
            flags: self.flags,
            tail: self.tail,
            inheritance: self.inheritance,
            fixed_axis: self.fixed_axis,
            local_axes: self.local_axes,
            external_parent: self.external_parent,
            ik: ik_view(self.ik),
        }
    }

    /// True when the bone has no resolved parent.
    pub fn is_root(&self) -> (r: bool)
        ensures
            r == (self.parent_index is None),
    {
        self.parent_index.is_none()
    }

    fn from_bone(bone: PmxBone) -> (r: Self)
        ensures
            r.bone_view() == bone@,
            r.parent_index is None,
            r.children@ == Seq::<usize>::empty(),
    {
        PmxBoneRecord {
            name: bone.name,
            name_english: bone.name_english,
            position: bone.position,
            parent_bone: bone.parent_bone,
            parent_index: None,
            layer: bone.layer,
            flags: bone.flags,
            tail: bone.tail,
            inheritance: bone.inheritance,
            fixed_axis: bone.fixed_axis,
            local_axes: bone.local_axes,
            external_parent: bone.external_parent,
            ik: bone.ik,
            children: Vec::new(),
        }
    }
}

/// The parent that a raw parent index resolves to: none when it is negative, out of range or
/// the bone itself.
pub open spec fn spec_parent_index(raw_parent: i32, bone_index: int, bone_count: int) -> Option<usize> {
    if raw_parent < 0 || raw_parent >= bone_count || raw_parent == bone_index {
        None
    } else {
        Some(raw_parent as usize)
    }
}

pub fn resolve_parent_index(raw_parent: i32, bone_index: usize, bone_count: usize) -> (r: Option<usize>)
    ensures
        r == spec_parent_index(raw_parent, bone_index as int, bone_count as int),
{
    if raw_parent < 0 {
        return None;
    }
    let parent_index = raw_parent as usize;
    if parent_index >= bone_count || parent_index == bone_index {
        None
    } else {
        Some(parent_index)
    }
}

/// The resolved parents of a bone list, in document order.
pub open spec fn resolved_parents(bones: Seq<SpecBone>) -> Seq<Option<usize>> {
    Seq::new(bones.len(), |j: int| spec_parent_index(bones[j].parent_bone, j, bones.len() as int))
}

/// The bones among the first `k` whose parent is `p`, in document order.
pub open spec fn children_upto(parents: Seq<Option<usize>>, p: usize, k: nat) -> Seq<usize>
    decreases k,
{
    if k == 0 {
        Seq::empty()
    } else {
        let rest = children_upto(parents, p, (k - 1) as nat);
        if parents[k - 1] == Some(p) {
            rest.push((k - 1) as usize)
        } else {
            rest
        }
    }
}

/// The children of bone `p`: every bone whose resolved parent is `p`, in document order.
pub open spec fn children_of(bones: Seq<SpecBone>, p: usize) -> Seq<usize> {
    children_upto(resolved_parents(bones), p, bones.len())
}

impl PmxBoneRecord {
    /// Build runtime bone records from the raw PMX bone list.
    ///
    /// The returned vector keeps the original document order, resolves `parent_index`, and fills
    /// each bone's `children` list.
    pub fn from_document(bones: &[PmxBone]) -> (r: Vec<PmxBoneRecord>)
        ensures
            r@.len() == bones@.len(),
            forall|i: int| 0 <= i < r@.len() ==> {
                &&& (#[trigger] r@[i]).bone_view() == bones@[i]@
                &&& r@[i].parent_index == spec_parent_index(bones@[i].parent_bone, i, bones@.len() as int)
                &&& r@[i].children@ == children_of(crate::format::model::seq_view(bones@), i as usize)
            },
    {
        let n = bones.len();
        let ghost views = crate::format::model::seq_view(bones@);
        let ghost parents = resolved_parents(views);
        let mut records: Vec<PmxBoneRecord> = Vec::new();
        let mut i: usize = 0;
        while i < n
            invariant
                n == bones@.len(),
                i <= n,
                records@.len() == i,
                forall|j: int| 0 <= j < i ==> {
                    &&& (#[trigger] records@[j]).bone_view() == bones@[j]@
                    &&& records@[j].parent_index is None
                    &&& records@[j].children@ == Seq::<usize>::empty()
                },
            decreases n - i,
        {
            let record = PmxBoneRecord::from_bone(copy_bone(&bones[i]));
            records.push(record);
            i = i + 1;
        }
        let mut index: usize = 0;
        while index < n
            invariant
                n == bones@.len(),
                views == crate::format::model::seq_view(bones@),
                parents == resolved_parents(views),
                index <= n,
                records@.len() == n,
                forall|j: int| 0 <= j < n ==> {
                    &&& (#[trigger] records@[j]).bone_view() == bones@[j]@
                    &&& records@[j].parent_index == (if j < index { parents[j] } else { None })
                    &&& records@[j].children@ == children_upto(parents, j as usize, index as nat)
                },
            decreases n - index,
        {
            let raw = records[index].parent_bone;
            let resolved = resolve_parent_index(raw, index, n);
            assert(parents[index as int] == resolved);
            match resolved {
                Some(parent) => {
                    records[index].parent_index = Some(parent);
                    records[parent].children.push(index);
                },
                None => {},
            }
            index = index + 1;
        }
        records
    }
}


proof fn lemma_children_upto(parents: Seq<Option<usize>>, p: usize, k: nat)
    requires
        k <= parents.len(),
        k <= usize::MAX,
    ensures
        forall|j: int| 0 <= j < children_upto(parents, p, k).len() ==> {
            &&& (#[trigger] children_upto(parents, p, k)[j]) < k
            &&& parents[children_upto(parents, p, k)[j] as int] == Some(p)
        },
        forall|a: int, b: int| 0 <= a < b < children_upto(parents, p, k).len() ==>
            #[trigger] children_upto(parents, p, k)[a] < #[trigger] children_upto(parents, p, k)[b],
        forall|c: usize| c < k && parents[c as int] == Some(p) ==> #[trigger] children_upto(parents, p, k).contains(c),
    decreases k,
{
    if k > 0 {
        let km = (k - 1) as nat;
        lemma_children_upto(parents, p, km);
        let rest = children_upto(parents, p, km);
        if parents[k - 1] == Some(p) {
            let cur = rest.push((k - 1) as usize);
            assert(cur == children_upto(parents, p, k));
            assert forall|j: int| 0 <= j < cur.len() implies {
                &&& (#[trigger] cur[j]) < k
                &&& parents[cur[j] as int] == Some(p)
            } by {
                if j < rest.len() {
                    assert(cur[j] == rest[j]);
                }
            }
            assert forall|a: int, b: int| 0 <= a < b < cur.len() implies #[trigger] cur[a] < #[trigger] cur[b] by {
                assert(cur[a] == rest[a]);
                if b < rest.len() {
                    assert(cur[b] == rest[b]);
                }
            }
            assert forall|c: usize| c < k && parents[c as int] == Some(p) implies #[trigger] cur.contains(c) by {
                if c == k - 1 {
                    assert(cur[rest.len() as int] == c);
                } else {
                    assert(rest.contains(c));
                    let w = choose|w: int| 0 <= w < rest.len() && rest[w] == c;
                    assert(cur[w] == c);
                }
            }
        }
    }
}

/// The bone hierarchy that `from_document` builds is consistent: a bone `c` is listed among
/// the children of `p` exactly when `c` resolves to parent `p`; each children list is in
/// increasing document order; and a resolved parent is another bone of the list.
pub proof fn lemma_bone_hierarchy(bones: Seq<SpecBone>, p: usize, c: usize)
    requires
        p < bones.len(),
        c < bones.len(),
        bones.len() <= usize::MAX,
    ensures
        children_of(bones, p).contains(c) <==> resolved_parents(bones)[c as int] == Some(p),
        forall|a: int, b: int| 0 <= a < b < children_of(bones, p).len() ==>
            #[trigger] children_of(bones, p)[a] < #[trigger] children_of(bones, p)[b],
        resolved_parents(bones)[c as int] matches Some(q) ==> q < bones.len() && q != c,
{
    let parents = resolved_parents(bones);
    lemma_children_upto(parents, p, bones.len());
    if children_of(bones, p).contains(c) {
        let w = choose|w: int| 0 <= w < children_of(bones, p).len() && children_of(bones, p)[w] == c;
        assert(parents[children_of(bones, p)[w] as int] == Some(p));
    }
}

/// A bone that has a resolved parent is listed among that parent's children, and a bone is
/// listed among the children of at most one bone.
pub proof fn lemma_bone_single_parent(bones: Seq<SpecBone>, p1: usize, p2: usize, c: usize)
    requires
        p1 < bones.len(),
        p2 < bones.len(),
        c < bones.len(),
        bones.len() <= usize::MAX,
        children_of(bones, p1).contains(c),
        children_of(bones, p2).contains(c),
    ensures
        p1 == p2,
{
    lemma_bone_hierarchy(bones, p1, c);
    lemma_bone_hierarchy(bones, p2, c);
}

/// A bone's stored parent index names its parent whenever it is the index of another bone of the
/// list, wherever that bone stands (before or after it); a negative, out-of-range or
/// self-referencing index leaves the bone a root. A bone with a parent is among that parent's
/// children.
pub proof fn lemma_parent_resolution(bones: Seq<SpecBone>, c: usize)
    requires
        c < bones.len(),
        bones.len() <= usize::MAX,
    ensures
        0 <= bones[c as int].parent_bone < bones.len() && bones[c as int].parent_bone != c
            ==> resolved_parents(bones)[c as int] == Some(bones[c as int].parent_bone as usize)
            && children_of(bones, bones[c as int].parent_bone as usize).contains(c),
        bones[c as int].parent_bone < 0 || bones[c as int].parent_bone >= bones.len() || bones[c as int].parent_bone == c
            ==> resolved_parents(bones)[c as int] is None,
{
    let raw = bones[c as int].parent_bone;
    if 0 <= raw < bones.len() && raw != c {
        lemma_bone_hierarchy(bones, raw as usize, c);
    }
}

} // verus!
