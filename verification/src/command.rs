//! The commands that a frame records for the device.

use vstd::prelude::*;
use crate::values::{Camera, Fog, Rgb};

verus! {

/// One command of a frame, in the order in which the device runs them.
#[derive(Clone, Copy, Debug, PartialEq, Eq)]
pub enum Command {
    /// Start recording on the acquired image, and clear it to a color. The
    /// scene is seen from the camera, through the fog if there is any.
    Begin { image: u32, color: Rgb, scene_camera: Camera, scene_fog: Option<Fog> },
    /// Bind a vertex buffer and a descriptor set to a pipeline, and draw the
    /// buffer's vertices.
    Draw {
        vertex_buffer: u64,
        vertex_count: u32,
        descriptor_set: u64,
        pipeline: u64,
        blending: bool,
        fog: bool,
        camera: bool,
    },
    /// Submit what was recorded to the presentation queue.
    Submit,
    /// Present the image.
    Present { image: u32 },
    /// Wait until the device has finished the frame.
    Wait,
}

} // verus!
