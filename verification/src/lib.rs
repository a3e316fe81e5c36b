//! Editor logic of the Signex component library: footprint-editor
//! message routing, selection, context menu, active bar, the pads-mode
//! placement gestures, the sketch tools (drawing, fillet, mirror and
//! friends) and their click resolution, the numeric placement buffer,
//! the pad clipboard, sketch-constraint selection, the sketch/pad
//! bridge, the pin-to-pad binding of the Pin Map tab and its table,
//! the file locations of the component preview, and the unit names of
//! the revision diff.
//!
//! Coordinates never appear as numbers here: every position is carried
//! by the type parameter `P`, which the embedding application picks
//! (for the desktop editor, a pair of millimetre values). Geometric
//! hit tests are computed by the caller and handed in as one flag per
//! pad; everything that follows from them is stated and proved here.

use vstd::prelude::*;

pub mod active_bar;
pub mod clipboard;
pub mod constraints;
pub mod context_menu;
pub mod decimal;
pub mod dispatch;
pub mod draw_tools;
pub mod edit_tools;
pub mod footprint_diff;
pub mod geometry;
pub mod history;
pub mod indices;
pub mod line_drag;
pub mod pad_bridge;
pub mod pin_map;
pub mod pin_map_view;
pub mod placement;
pub mod preview;
pub mod removal;
pub mod selection;
pub mod sexpr;
pub mod sketch_ui;
pub mod symbol_diff;
pub mod text;
pub mod tool_click;
pub mod types;
pub mod view_ops;

verus! {

} // verus!
