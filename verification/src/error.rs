//! The ways in which setting up or driving a render context fails.

use vstd::prelude::*;

verus! {

/// Why the next swapchain texture could not be acquired.
#[derive(Debug, Clone, Copy, PartialEq, Eq, Structural)]
pub enum PiksellSurfaceError {
    /// The wait for the next frame timed out.
    Timeout,
    /// The surface changed under the swapchain.
    Outdated,
    /// The swapchain is gone.
    Lost,
    /// No memory was left for a new frame.
    OutOfMemory,
}

/// A failure of the render context.
#[derive(Debug, Clone, Copy, PartialEq, Eq, Structural)]
pub enum PiksellError {
    /// The platform could not bind a surface to the window handle.
    SurfaceCreation,
    /// No adapter matched the preferences, and no enumerated adapter supports
    /// the surface.
    NoAdapter,
    /// The adapter cannot give a device with the requested features and limits.
    DeviceRequest,
    /// The next swapchain texture could not be acquired.
    SurfaceAcquire(PiksellSurfaceError),
    /// A surface was to be configured with a width or height of zero.
    InvalidSize,
}

impl PiksellError {
    /// The text that `message` gives.
    pub open spec fn spec_message(self) -> Seq<char> {
        match self {
            PiksellError::SurfaceCreation => "[ERROR]: No surface could be created for the window!\n"@,
            PiksellError::NoAdapter => "[ERROR]: No supported adapter was found!\n"@,
            PiksellError::DeviceRequest => "[ERROR]: The adapter could not provide the requested device!\n"@,
            PiksellError::SurfaceAcquire(PiksellSurfaceError::Timeout) => "[ERROR]: The wait for the next frame timed out!\n"@,
            PiksellError::SurfaceAcquire(PiksellSurfaceError::Outdated) => "[ERROR]: The surface has changed and must be reconfigured!\n"@,
            PiksellError::SurfaceAcquire(PiksellSurfaceError::Lost) => "[ERROR]: The swapchain has been lost!\n"@,
            PiksellError::SurfaceAcquire(PiksellSurfaceError::OutOfMemory) => "[ERROR]: No memory is left for a new frame!\n"@,
            PiksellError::InvalidSize => "[ERROR]: A surface cannot have a width or height of zero!\n"@,
        }
    }

    /// A human-readable account of the failure.
    pub fn message(&self) -> (text: String)
        ensures
            text@ == self.spec_message(),
    {
        match self {
            PiksellError::SurfaceCreation => "[ERROR]: No surface could be created for the window!\n".to_owned(),
            PiksellError::NoAdapter => "[ERROR]: No supported adapter was found!\n".to_owned(),
            PiksellError::DeviceRequest => "[ERROR]: The adapter could not provide the requested device!\n".to_owned(),
            PiksellError::SurfaceAcquire(PiksellSurfaceError::Timeout) => "[ERROR]: The wait for the next frame timed out!\n".to_owned(),
            PiksellError::SurfaceAcquire(PiksellSurfaceError::Outdated) => "[ERROR]: The surface has changed and must be reconfigured!\n".to_owned(),
            PiksellError::SurfaceAcquire(PiksellSurfaceError::Lost) => "[ERROR]: The swapchain has been lost!\n".to_owned(),
            PiksellError::SurfaceAcquire(PiksellSurfaceError::OutOfMemory) => "[ERROR]: No memory is left for a new frame!\n".to_owned(),
            PiksellError::InvalidSize => "[ERROR]: A surface cannot have a width or height of zero!\n".to_owned(),
        }
    }
}

} // verus!
