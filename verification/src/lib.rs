//! Geometry and event decisions of a rover control panel.

pub mod events;
pub mod graphics;
