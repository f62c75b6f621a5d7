//! A cursor-driven text-diagram editing engine.
//!
//! The engine keeps two sparse character grids — a committed `diagram`
//! layer and a transient `preview` layer — together with a cursor, an
//! anchor and a mode state machine.  Box outlines and arrow polylines are
//! drawn into the preview layer and merged into the diagram on confirm.
//! A compositor flattens both layers into a renderable character buffer.

pub mod geom;
pub mod grid;
pub mod boxgen;
pub mod arrow;
pub mod compose;
pub mod engine;

pub use geom::Coord;
pub use grid::Grid;
pub use boxgen::generate_box_preview;
pub use arrow::{classify_move, extend_arrow_preview, Direction};
pub use compose::{compose, compose_text};
pub use engine::{Command, EditorState, Mode};
