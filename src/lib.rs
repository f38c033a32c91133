//! Vector shapes turned into triangle lists, triangle batches merged into one
//! growing vertex/index buffer, and the bookkeeping of pending resource loads.
//!
//! The library is generic over the scalar type of coordinates, the color type
//! and the loader type: it records, queues, accumulates and merges values of
//! those types without computing on them. Triangulation and polling are
//! handed in by the caller as functions.

mod geometry;
mod loader;
mod painter;

pub use geometry::{
    flattened, lemma_colors_parallel_positions, lemma_line_to_starts_path, lyon_vbuff_to_vertex,
    painted_runs, primitives_of, GeomTypes, Geometry, GeometryModel, LyonVertex, PathOp, Primitive,
};
pub use loader::{
    done_data, fails_with, kept_of, loaded_of, polled_all, pop_order, AssetState, Polled,
    ResourceLoaderManager,
};
pub use painter::{
    lemma_merge_two_batches, rebased, Batch, BatchType, DrawCommand, PainterModel, ShapePainter,
};
