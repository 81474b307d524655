//! Core of an interactive editor for closed composite cubic-Bezier outlines.
//!
//! The library keeps an entity graph of splines, handles and tangent control
//! points, derives a closed path description from a spline, tracks the
//! selection/transform interaction mode of an editing session, and applies
//! anchor-relative drags to the selected entities.  A host loop feeds it
//! pointer samples and discrete intents once per frame and hands the produced
//! path to a renderer.

pub mod cursor;
pub mod geom;
pub mod graph;
pub mod path;
pub mod session;
pub mod style;
pub mod transform;
