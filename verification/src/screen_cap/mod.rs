//! Capture targets, the window registry, region extraction and capture sessions.

use vstd::prelude::*;
use crate::screen_cap::error::{ScreenCapError, ScreenCapErrorCode};
use crate::screen_cap::region::{bounds_message, extract, CaptureRect, PixelBuffer};
use crate::screen_cap::registry::CaptureTarget;

pub mod error;
pub mod region;
pub mod registry;

verus! {

/// A session on one capture target. It keeps no frame: every capture is of a
/// frame that the caller has just taken of the bound target.
#[derive(Debug)]
pub struct ScreenCap {
    target: CaptureTarget,
}

impl ScreenCap {
    /// The target that this session is bound to.
    pub closed spec fn bound(&self) -> CaptureTarget {
        self.target
    }

    /// A session bound to `target`.
    pub fn new(target: CaptureTarget) -> (session: ScreenCap)
        ensures
            session.bound() == target,
    {
        ScreenCap { target }
    }

    /// The target that this session is bound to.
    pub fn target(&self) -> (target: &CaptureTarget)
        ensures
            *target == self.bound(),
    {
        &self.target
    }

    /// The rectangle `(x, y, width, height)` of `frame`, the outcome of
    /// capturing the whole of the bound target. Where the capture failed the
    /// result is `CaptureFailed` with the host's words; where the rectangle
    /// does not lie inside the frame it is `SubImageOutOfBounds`.
    pub fn capture_area(
        &self,
        frame: Result<PixelBuffer, String>,
        x: u32,
        y: u32,
        width: u32,
        height: u32,
    ) -> (r: Result<PixelBuffer, ScreenCapError>)
        ensures
            match frame {
                Ok(image) => {
                    let rect = CaptureRect { x, y, width, height };
                    &&& r is Ok <==> image@.contains_rect(rect)
                    &&& r matches Ok(area) ==> area@.is_crop_of(image@, rect)
                    &&& r matches Err(e) ==> e.is(
                        ScreenCapErrorCode::SubImageOutOfBounds,
                        Some(bounds_message(image@, rect)),
                    )
                },
                Err(context) => r matches Err(e) && e.is(
                    ScreenCapErrorCode::CaptureFailed,
                    Some(context@),
                ),
            },
    {
        match frame {
            Ok(image) => extract(&image, CaptureRect { x, y, width, height }),
            Err(context) => Err(
                ScreenCapError { code: ScreenCapErrorCode::CaptureFailed, message: Some(context) },
            ),
        }
    }
}

} // verus!
