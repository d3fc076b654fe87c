//! The named parts of the tracking program around the library.
//!
//! A frame tick runs three groups of systems in order: capture, update
//! (tracking), draw. The program attaches its engine traits to copies of
//! these types; here they are plain names.

use vstd::prelude::*;

verus! {

/// Systems that capture video frames from the camera.
#[derive(Clone, Copy, Debug, PartialEq, Eq, Hash, Structural)]
pub struct VideoCaptureSystems;

/// Systems that always run after the video frame is captured.
#[derive(Clone, Copy, Debug, PartialEq, Eq, Hash, Structural)]
pub struct VideoUpdateSystems;

/// Systems that draw the video frames to the screen.
#[derive(Clone, Copy, Debug, PartialEq, Eq, Hash, Structural)]
pub struct VideoDrawSystems;

/// Marks a debug entity that is removed after one frame.
#[derive(Clone, Copy, Debug, PartialEq, Eq, Structural)]
pub struct DeleteAfterOneFrame;

/// Installs the removal of one-frame debug entities.
#[derive(Clone, Copy, Debug, PartialEq, Eq, Structural)]
pub struct TestingPlugin;

/// Installs the camera stream and the per-tick frame capture.
#[derive(Clone, Copy, Debug, PartialEq, Eq, Structural)]
pub struct VideoCapturePlugin;

/// Installs marker tracking: calibration, detector, registry scene and the
/// per-tick tracking system.
#[derive(Clone, Copy, Debug, PartialEq, Eq, Structural)]
pub struct ArUcoCameraPlugin;

} // verus!
