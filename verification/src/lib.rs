//! PMX model reading and import.
//!
//! - `format`: the PMX document model and its binary parser.
//! - `source`: folder and ZIP resource locations, ZIP entry-name handling.
//! - `resolver`: turning PMX texture strings into source locations.
//! - `import`: building the runtime model (`Pmx`) from a parsed document.
//! - `bone`, `morph`, `physics`: runtime records built from the document.
//! - `asset`: the runtime model, its mesh geometry, primitives and material bindings.
//! - `labels`, `loader`, `plugin`: sub-asset labels and loader configuration.
//! - `texture`: decoding texture files into images.
//! - `prelude`: the items most users need.
//!
//! Floating-point fields are carried as their IEEE-754 bit patterns (`u32`).

pub mod asset;
pub mod bone;
pub mod error;
pub mod format;
pub mod import;
pub mod labels;
pub mod loader;
pub mod morph;
pub mod paths;
pub mod physics;
pub mod plugin;
pub mod prelude;
pub mod resolver;
pub mod source;
pub mod strings;
pub mod texture;

pub use asset::{Pmx, PmxMaterialBinding, PmxMaterialRecord, PmxMeshGeometry, PmxPrimitive};
pub use bone::PmxBoneRecord;
pub use error::{PmxError, PmxIoErrorKind, PmxResult};
pub use format::{PmxDocument, PmxHeader, parse_pmx};
pub use import::{PmxImportContext, PmxImportResult, import_pmx, resolve_textures};
pub use labels::PmxAssetLabel;
pub use loader::{PmxLoader, PmxLoaderSettings};
pub use morph::PmxMorphRecord;
pub use physics::{PmxJointRecord, PmxRigidBodyRecord, PmxSoftBodyRecord};
pub use plugin::PmxPlugin;
pub use resolver::{PmxResolvedPath, PmxResolver, PmxResolverSettings};
pub use source::{PmxFolderSource, PmxSource, PmxSourceLocation, PmxZipSource};
