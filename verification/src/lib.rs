//! Rendering core of an interactive vector-graphics canvas.
//!
//! Given a forest of shapes and a viewport (pan/zoom/size), the core decides
//! what is drawn: it manages three drawing surfaces, walks the shape tree with
//! view-frustum culling, and keeps a cached-frame record so that pan/zoom can
//! redraw from a raster snapshot instead of re-walking the tree.
//!
//! All coordinates are integers: scene positions are plain units, while zoom,
//! device-pixel ratio, scale/skew factors and opacity are fixed-point values
//! in thousandths (`MILLI`). Surfaces record the draw commands issued to them;
//! the host replays those commands on its GPU backend and owns the actual
//! pixel work.

pub mod cache;
pub mod images;
pub mod laws;
pub mod math;
pub mod model;
pub mod ops;
pub mod options;
pub mod shapes;
pub mod state;
pub mod surface;
pub mod view;
