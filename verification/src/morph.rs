//! Runtime morph records.

use vstd::prelude::*;

use crate::format::copy::copy_morph;
use crate::format::model::{PmxMorph, PmxMorphKind, PmxMorphOffset, PmxMorphPanel, SpecMorph};

verus! {

/// Runtime PMX morph record preserved in document order.
#[derive(Debug, Clone, PartialEq)]
pub struct PmxMorphRecord {
    pub name: String,
    pub name_english: String,
    pub panel: PmxMorphPanel,
    pub kind: PmxMorphKind,
    pub offsets: Vec<PmxMorphOffset>,
}

impl View for PmxMorphRecord {
    type V = SpecMorph;

    open spec fn view(&self) -> SpecMorph {
        SpecMorph {
            name: self.name@,
            name_english: self.name_english@,
            panel: self.panel,
            kind: self.kind,
            offsets: self.offsets@,
        }
    }
}

impl PmxMorphRecord {
    /// Build runtime morph records from the raw PMX morph list, one per morph, in order.
    pub fn from_document(morphs: &[PmxMorph]) -> (r: Vec<PmxMorphRecord>)
        ensures
            r@.len() == morphs@.len(),
            forall|i: int| 0 <= i < r@.len() ==> (#[trigger] r@[i])@ == morphs@[i]@,
    {
        let mut records: Vec<PmxMorphRecord> = Vec::new();
        let mut i: usize = 0;
        while i < morphs.len()
            invariant
                i <= morphs@.len(),
                records@.len() == i,
                forall|j: int| 0 <= j < i ==> (#[trigger] records@[j])@ == morphs@[j]@,
            decreases morphs@.len() - i,
        {
            records.push(PmxMorphRecord::from_morph(copy_morph(&morphs[i])));
            i = i + 1;
        }
        records
    }

    fn from_morph(morph: PmxMorph) -> (r: Self)
        ensures
            r@ == morph@,
    {
        PmxMorphRecord {
            name: morph.name,
            name_english: morph.name_english,
            panel: morph.panel,
            kind: morph.kind,
            offsets: morph.offsets,
        }
    }
}

impl From<PmxMorph> for PmxMorphRecord {
    fn from(morph: PmxMorph) -> (r: Self) {
        PmxMorphRecord {
            name: morph.name,
            name_english: morph.name_english,
            panel: morph.panel,
            kind: morph.kind,
            offsets: morph.offsets,
        }
    }
}

impl vstd::std_specs::convert::FromSpecImpl<PmxMorph> for PmxMorphRecord {
    open spec fn obeys_from_spec() -> bool {
        true
    }

    open spec fn from_spec(morph: PmxMorph) -> Self {
        PmxMorphRecord {
            name: morph.name,
            name_english: morph.name_english,
            panel: morph.panel,
            kind: morph.kind,
            offsets: morph.offsets,
        }
    }
}

} // verus!
