//! Viewport camera-control pipeline for a 3D site viewer.
//!
//! Raw pointer motion, scroll, and modifier-key state are turned into a
//! per-frame camera command: a translation, an incremental rotation, and a
//! zoom adjustment for the active projection mode. The library holds the
//! decision logic of that pipeline — gesture classification, anchor
//! resolution and persistence, orbit-pivot lifecycle, and per-frame
//! dispatch — with contracts that pin each decision down. The numeric
//! solvers that compute the floating-point deltas run in the host around
//! this library; world points cross the boundary as IEEE-754 bit patterns,
//! which the decision logic stores and routes but never interprets.

pub mod command;
pub mod gesture;
pub mod anchor;
pub mod state;
pub mod site_format;
