//! Geometry, draw dispatch and resource loading for a 2D drawing framework.
//!
//! The library is generic over the scalar type used for coordinates and
//! lengths; the arithmetic on those scalars and the path tessellation are done
//! by the caller.
pub mod app_state;
mod external;
pub mod formats;
pub mod loading;
pub mod mesh;
pub mod resources;
pub mod shape;

pub use mesh::{indices_in_range, quad_indices, quad_vertices, QUAD_STRIDE};
pub use shape::{DrawJob, Rectangle, RectangleView, TessMode, Tessellation, Defaults};
pub use resources::{Fetch, LoadState, RecordView, ResourceLoaderManager, ResourceRecord, Staged};
pub use app_state::AppState;
pub use formats::{HorizontalAlign, TextureFilter, TextureFormat, VerticalAlign};
pub use loading::{try_load_resources, LoadReport, Resource, ResourceConstructor};
