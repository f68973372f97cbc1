//! The library's error values.

use vstd::prelude::*;

verus! {

/// Why a renderer or render-target operation could not proceed.
#[derive(Clone, Copy, PartialEq, Eq, Structural, Debug)]
pub enum RenderError {
    /// No presentable image could be acquired this cycle.
    AcquireFailed,
    /// The device offers no graphics-capable or no present-capable
    /// queue family.
    MissingQueueFamily,
    /// The surface reports no pixel format at all.
    NoSurfaceFormat,
    /// An image list and its view list differ in length.
    ImageViewCountMismatch,
    /// An image index lies outside the image list.
    InvalidImageIndex,
}

impl RenderError {
    /// A short description of the error.
    pub fn message(&self) -> (m: &'static str)
    {
        match self {
            RenderError::AcquireFailed => "no presentable image could be acquired",
            RenderError::MissingQueueFamily => "missing required queue family support",
            RenderError::NoSurfaceFormat => "surface reports no pixel format",
            RenderError::ImageViewCountMismatch => "image and view lists differ in length",
            RenderError::InvalidImageIndex => "image index out of range",
        }
    }
}

} // verus!
