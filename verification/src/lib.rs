//! Brush and map-file logic of the Curveball curve generator for Neverball levels.

pub mod brush;
pub mod curve;
pub mod entity;
pub mod hull;
pub mod lump;
pub mod map;
pub mod qmap;
pub mod text;
pub mod vector;
