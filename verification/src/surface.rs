//! The presentation-surface configuration: the negotiated target the frames
//! are presented to, its resize guard, and the three-way classification of
//! presentation failures.

use vstd::prelude::*;

verus! {

/// The negotiated presentation target. The pixel format, alpha handling and
/// present mode are negotiated once by the platform layer and carried here
/// as opaque tokens; the dimensions are the part the logic rewrites.
#[derive(Clone, Copy, PartialEq, Eq, Structural, Debug)]
pub struct SurfaceConfig {
    pub width: u32,
    pub height: u32,
    /// Opaque token for the negotiated pixel format.
    pub format: u32,
    /// Opaque token for the negotiated alpha handling.
    pub alpha_mode: u32,
    /// Opaque token for the negotiated present mode.
    pub present_mode: u32,
}

/// Why a frame's acquire or present failed, as the platform reports it.
#[derive(Clone, Copy, PartialEq, Eq, Structural, Debug)]
pub enum PresentationError {
    /// The surface was lost and must be rebuilt.
    Lost,
    /// The surface no longer matches the window and must be rebuilt.
    Outdated,
    /// The device is out of memory; the only fatal class.
    OutOfMemory,
    /// The acquire timed out; skip the frame and retry on the next tick.
    Timeout,
}

/// The three-way answer to a failed frame.
#[derive(Clone, Copy, PartialEq, Eq, Structural, Debug)]
pub enum SurfaceAction {
    /// Rebuild the surface with the last-known-good configuration and retry
    /// on the next tick.
    Reconfigure,
    /// Terminate the render loop.
    FatalExit,
    /// Log the failure, skip this frame, and retry on the next tick.
    LogAndContinue,
}

/// The classification of presentation failures: loss of the surface is
/// transient and answered by a reconfigure, resource exhaustion is fatal,
/// and anything else is logged and skipped.
pub open spec fn classify(kind: PresentationError) -> SurfaceAction {
    match kind {
        PresentationError::Lost => SurfaceAction::Reconfigure,
        PresentationError::Outdated => SurfaceAction::Reconfigure,
        PresentationError::OutOfMemory => SurfaceAction::FatalExit,
        PresentationError::Timeout => SurfaceAction::LogAndContinue,
    }
}

/// Picks the format to present in, from the capability list the platform
/// reports: the first format flagged sRGB-capable, or the first format of
/// the list when none is. `srgb` holds one flag per offered format.
pub fn pick_format(srgb: &Vec<bool>) -> (i: usize)
    requires
        srgb@.len() >= 1,
    ensures
        i < srgb@.len(),
        srgb@[i as int] ==> forall|j: int| 0 <= j < i ==> !srgb@[j],
        !srgb@[i as int] ==> i == 0 && forall|j: int| 0 <= j < srgb@.len() ==> !srgb@[j],
{
    let mut k: usize = 0;
    while k < srgb.len()
        invariant
            k <= srgb@.len(),
            forall|j: int| 0 <= j < k ==> !srgb@[j],
        decreases srgb@.len() - k,
    {
        if srgb[k] {
            return k;
        }
        k = k + 1;
    }
    0
}

impl SurfaceConfig {
    /// Builds the configuration negotiated at startup.
    pub fn new(width: u32, height: u32, format: u32, alpha_mode: u32, present_mode: u32) -> (c:
        SurfaceConfig)
        ensures
            c == (SurfaceConfig { width, height, format, alpha_mode, present_mode }),
    {
        SurfaceConfig { width, height, format, alpha_mode, present_mode }
    }

    /// Applies a resize or scale-change event. The new size is taken, and
    /// reported taken, exactly when both dimensions are nonzero; a zero-area
    /// size leaves the configuration untouched, so a minimizing window can
    /// never install an invalid surface.
    pub fn reconfigure(&mut self, width: u32, height: u32) -> (applied: bool)
        ensures
            applied == (width != 0 && height != 0),
            applied ==> *final(self) == (SurfaceConfig { width, height, ..*old(self) }),
            !applied ==> *final(self) == *old(self),
    {
        if width != 0 && height != 0 {
            self.width = width;
            self.height = height;
            true
        } else {
            false
        }
    }

    /// Classifies a failed acquire or present into the action the frame
    /// driver must take.
    pub fn handle_presentation_error(&self, kind: PresentationError) -> (a: SurfaceAction)
        ensures
            a == classify(kind),
    {
        match kind {
            PresentationError::Lost => SurfaceAction::Reconfigure,
            PresentationError::Outdated => SurfaceAction::Reconfigure,
            PresentationError::OutOfMemory => SurfaceAction::FatalExit,
            PresentationError::Timeout => SurfaceAction::LogAndContinue,
        }
    }
}

} // verus!
