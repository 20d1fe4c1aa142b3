//! Runtime rigid body, joint and soft body records.

use vstd::prelude::*;

use crate::format::copy::{copy_joint, copy_rigid_body, copy_soft_body};
use crate::format::model::{PmxJoint, PmxRigidBody, PmxSoftBody};

verus! {

/// Runtime PMX rigid body record preserved in document order.
#[derive(Debug, Clone, PartialEq)]
pub struct PmxRigidBodyRecord {
    pub rigid_body: PmxRigidBody,
}

impl PmxRigidBodyRecord {
    /// Build runtime rigid body records from the raw PMX rigid body list, one per body, in order.
    pub fn from_document(rigid_bodies: &[PmxRigidBody]) -> (r: Vec<PmxRigidBodyRecord>)
        ensures
            r@.len() == rigid_bodies@.len(),
            forall|i: int| 0 <= i < r@.len() ==> (#[trigger] r@[i]).rigid_body@ == rigid_bodies@[i]@,
    {
        let mut records: Vec<PmxRigidBodyRecord> = Vec::new();
        let mut i: usize = 0;
        while i < rigid_bodies.len()
            invariant
                i <= rigid_bodies@.len(),
                records@.len() == i,
                forall|j: int| 0 <= j < i ==> (#[trigger] records@[j]).rigid_body@ == rigid_bodies@[j]@,
            decreases rigid_bodies@.len() - i,
        {
            records.push(PmxRigidBodyRecord { rigid_body: copy_rigid_body(&rigid_bodies[i]) });
            i = i + 1;
        }
        records
    }
}

impl From<PmxRigidBody> for PmxRigidBodyRecord {
    fn from(rigid_body: PmxRigidBody) -> (r: Self) {
        Self { rigid_body }
    }
}

impl vstd::std_specs::convert::FromSpecImpl<PmxRigidBody> for PmxRigidBodyRecord {
    open spec fn obeys_from_spec() -> bool {
        true
    }

    open spec fn from_spec(rigid_body: PmxRigidBody) -> Self {
        PmxRigidBodyRecord { rigid_body }
    }
}

/// Runtime PMX joint record preserved in document order.
#[derive(Debug, Clone, PartialEq)]
pub struct PmxJointRecord {
    pub joint: PmxJoint,
}

impl PmxJointRecord {
    /// Build runtime joint records from the raw PMX joint list, one per joint, in order.
    pub fn from_document(joints: &[PmxJoint]) -> (r: Vec<PmxJointRecord>)
        ensures
            r@.len() == joints@.len(),
            forall|i: int| 0 <= i < r@.len() ==> (#[trigger] r@[i]).joint@ == joints@[i]@,
    {
        let mut records: Vec<PmxJointRecord> = Vec::new();
        let mut i: usize = 0;
        while i < joints.len()
            invariant
                i <= joints@.len(),
                records@.len() == i,
                forall|j: int| 0 <= j < i ==> (#[trigger] records@[j]).joint@ == joints@[j]@,
            decreases joints@.len() - i,
        {
            records.push(PmxJointRecord { joint: copy_joint(&joints[i]) });
            i = i + 1;
        }
        records
    }
}

impl From<PmxJoint> for PmxJointRecord {
    fn from(joint: PmxJoint) -> (r: Self) {
        Self { joint }
    }
}

impl vstd::std_specs::convert::FromSpecImpl<PmxJoint> for PmxJointRecord {
    open spec fn obeys_from_spec() -> bool {
        true
    }

    open spec fn from_spec(joint: PmxJoint) -> Self {
        PmxJointRecord { joint }
    }
}

/// Runtime PMX soft body record preserved in document order.
#[derive(Debug, Clone, PartialEq)]
pub struct PmxSoftBodyRecord {
    pub soft_body: PmxSoftBody,
}

impl PmxSoftBodyRecord {
    /// Build runtime soft body records from the raw PMX soft body list, one per body, in order.
    pub fn from_document(soft_bodies: &[PmxSoftBody]) -> (r: Vec<PmxSoftBodyRecord>)
        ensures
            r@.len() == soft_bodies@.len(),
            forall|i: int| 0 <= i < r@.len() ==> (#[trigger] r@[i]).soft_body@ == soft_bodies@[i]@,
    {
        let mut records: Vec<PmxSoftBodyRecord> = Vec::new();
        let mut i: usize = 0;
        while i < soft_bodies.len()
            invariant
                i <= soft_bodies@.len(),
                records@.len() == i,
                forall|j: int| 0 <= j < i ==> (#[trigger] records@[j]).soft_body@ == soft_bodies@[j]@,
            decreases soft_bodies@.len() - i,
        {
            records.push(PmxSoftBodyRecord { soft_body: copy_soft_body(&soft_bodies[i]) });
            i = i + 1;
        }
        records
    }
}

impl From<PmxSoftBody> for PmxSoftBodyRecord {
    fn from(soft_body: PmxSoftBody) -> (r: Self) {
        Self { soft_body }
    }
}

impl vstd::std_specs::convert::FromSpecImpl<PmxSoftBody> for PmxSoftBodyRecord {
    open spec fn obeys_from_spec() -> bool {
        true
    }

    open spec fn from_spec(soft_body: PmxSoftBody) -> Self {
        PmxSoftBodyRecord { soft_body }
    }
}

} // verus!
