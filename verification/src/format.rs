//! PMX binary format: the document model and its parser.

pub mod copy;
pub mod laws;
pub mod model;
pub mod parser;
pub mod reader;
pub mod text;

pub use model::{
    PmxBone, PmxBoneAxes, PmxBoneFlags, PmxBoneInheritance, PmxBoneTail, PmxDisplayFrame,
    PmxDisplayFrameItem, PmxDocument, PmxHeader, PmxIk, PmxIkLink, PmxJoint, PmxJointKind,
    PmxMaterial, PmxMaterialFlags, PmxMaterialMorph, PmxMaterialMorphOperation, PmxMorph,
    PmxMorphKind, PmxMorphOffset, PmxMorphPanel, PmxRigidBody, PmxRigidBodyMode,
    PmxRigidBodyShape, PmxSoftBody, PmxSoftBodyAeroModel, PmxSoftBodyAnchorRigidBody,
    PmxSoftBodyCluster, PmxSoftBodyConfig, PmxSoftBodyFlags, PmxSoftBodyIteration,
    PmxSoftBodyMaterial, PmxSoftBodyShape, PmxSphereMode, PmxTextEncoding, PmxTexture, PmxVertex,
    PmxVertexWeight, PMX_VERSION_2_0_BITS, PMX_VERSION_2_1_BITS,
};
pub use parser::parse_pmx;
