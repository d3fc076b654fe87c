//! Fiducial-to-pose tracking core: a registry of planar markers with known
//! world geometry, the matching of detected marker corners to that geometry,
//! and the per-frame tracking state machine that keeps the last good camera
//! pose.

pub mod calibration;
pub mod convention;
pub mod correspondence;
pub mod error;
pub mod plugins;
pub mod registry;
pub mod tracking;
