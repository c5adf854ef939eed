//! Verified marshalling core for a mesh-atlas engine.
//!
//! The engine itself computes charts, parameterizes them and packs them into
//! atlases. This library holds everything that has to be right before data is
//! handed to it and after data comes back: the validation and packaging of a
//! mesh declaration, the option blocks, the passing on of progress
//! reports, the assembly of read-only result views, and the
//! bookkeeping of one atlas.

pub mod atlas;
pub mod decl;
pub mod format;
pub mod options;
pub mod output;
pub mod progress;
pub mod scalar;

pub use atlas::{GenerateCall, Xatlas};
pub use decl::{MeshDecl, MeshDeclView, MeshError, MeshInput};
pub use format::IndexFormat;
pub use output::{Chart, ChartRecord, ChartView, Mesh, MeshRecord, MeshView, Vertex};
pub use options::{ChartOptions, ChartParams, PackOptions, PackParams};
pub use progress::{ProgressBridge, ProgressCategory, ProgressEvent, ProgressReport};
pub use scalar::Scalar;
