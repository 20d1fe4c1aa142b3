//! The items most users need, in one place.

pub use crate::asset::{
    Pmx, PmxMaterialBinding, PmxMaterialRecord, PmxMeshGeometry, PmxPrimitive,
};
pub use crate::bone::PmxBoneRecord;
pub use crate::error::{PmxError, PmxIoErrorKind, PmxResult};
pub use crate::format::{
    PmxBone, PmxBoneAxes, PmxBoneFlags, PmxBoneInheritance, PmxBoneTail, PmxDisplayFrame,
    PmxDisplayFrameItem, PmxDocument, PmxHeader, PmxIk, PmxIkLink, PmxJoint, PmxJointKind,
    PmxMaterial, PmxMaterialFlags, PmxMaterialMorph, PmxMaterialMorphOperation, PmxMorph,
    PmxMorphKind, PmxMorphOffset, PmxRigidBody, PmxRigidBodyMode, PmxRigidBodyShape, PmxSoftBody,
    PmxSoftBodyShape, PmxTextEncoding, PmxTexture, PmxVertex, PmxVertexWeight, parse_pmx,
};
pub use crate::import::{PmxImportContext, PmxImportResult, import_pmx, resolve_textures};
pub use crate::labels::PmxAssetLabel;
pub use crate::loader::{PmxLoader, PmxLoaderSettings};
pub use crate::morph::PmxMorphRecord;
pub use crate::physics::{PmxJointRecord, PmxRigidBodyRecord, PmxSoftBodyRecord};
pub use crate::plugin::PmxPlugin;
pub use crate::resolver::{PmxResolvedPath, PmxResolver, PmxResolverSettings};
pub use crate::source::{PmxFolderSource, PmxSource};
