//! The frame driver: one explicit state machine that owns the whole loop
//! state — camera, held axes, surface configuration — and decides, tick by
//! tick, whether a frame is produced and how a presentation failure is
//! answered. The platform layer performs the window and device work and
//! feeds the resulting events back in.

use vstd::prelude::*;
use crate::input::{apply_key, AxisKey, InputAxisSet};
use crate::surface::{classify, PresentationError, SurfaceAction, SurfaceConfig};
use crate::view::{view_bytes, ViewState};

verus! {

/// The index pattern of the viewport quad — two triangles over four
/// corners, `[0, 1, 2, 3, 2, 1]` — as the 16-bit little-endian index
/// buffer handed to the renderer.
pub fn quad_index_bytes() -> (r: Vec<u8>)
    ensures
        r@ == seq![0u8, 0u8, 1u8, 0u8, 2u8, 0u8, 3u8, 0u8, 2u8, 0u8, 1u8, 0u8],
{
    let mut out: Vec<u8> = Vec::new();
    let indices: [u16; 6] = [0, 1, 2, 3, 2, 1];
    let mut i: usize = 0;
    while i < 6
        invariant
            i <= 6,
            indices@ == seq![0u16, 1u16, 2u16, 3u16, 2u16, 1u16],
            out@.len() == 2 * i,
            forall|j: int|
                0 <= j < i ==> out@[2 * j] == indices@[j] as u8 && out@[2 * j + 1] == 0u8,
        decreases 6 - i,
    {
        let v: u16 = indices[i];
        assert(v <= 3);
        out.push(v as u8);
        out.push(0u8);
        i = i + 1;
    }
    proof {
        assert(out@ =~= seq![0u8, 0u8, 1u8, 0u8, 2u8, 0u8, 3u8, 0u8, 2u8, 0u8, 1u8, 0u8]);
    }
    out
}

/// Whether the render loop is still producing frames.
#[derive(Clone, Copy, PartialEq, Eq, Structural, Debug)]
pub enum DriverState {
    Running,
    /// Terminal: entered on a close request or a fatal presentation error,
    /// never left.
    Exiting,
}

/// The loop state, owned in one place and mutated only through the methods
/// below: no ambient globals.
#[derive(Clone, Copy, PartialEq, Eq, Structural, Debug)]
pub struct FrameDriver {
    pub state: DriverState,
    pub view: ViewState,
    pub axes: InputAxisSet,
    pub surface: SurfaceConfig,
}

impl FrameDriver {
    /// The camera invariant, carried through every method.
    pub open spec fn wf(self) -> bool {
        self.view.wf()
    }

    /// Whether a redraw tick at elapsed time `dt` can store the camera
    /// update: the surface has an aspect ratio to correct against, and the
    /// exact results fit the fixed-point range.
    pub open spec fn can_advance(self, dt: int) -> bool {
        &&& self.surface.width >= 1 || self.surface.height >= 1
        &&& self.view.step_fits(dt, self.axes)
    }

    /// Builds the driver at startup: running, default camera, nothing held,
    /// and the surface configuration negotiated by the platform layer.
    pub fn new(surface: SurfaceConfig) -> (d: FrameDriver)
        ensures
            d.state == DriverState::Running,
            d.view == ViewState::initial(),
            d.axes == InputAxisSet::all_released(),
            d.surface == surface,
            d.wf(),
    {
        FrameDriver {
            state: DriverState::Running,
            view: ViewState::default(),
            axes: InputAxisSet::new(),
            surface,
        }
    }

    /// A close request: the one cancellation signal. Enters the terminal
    /// `Exiting` state; nothing else changes.
    pub fn on_close(&mut self)
        ensures
            final(self).state == DriverState::Exiting,
            final(self).view == old(self).view,
            final(self).axes == old(self).axes,
            final(self).surface == old(self).surface,
    {
        self.state = DriverState::Exiting;
    }

    /// A key press or release bound to one logical axis; the rest of the
    /// loop state is untouched.
    pub fn on_key(&mut self, key: AxisKey, pressed: bool)
        ensures
            final(self).axes == apply_key(old(self).axes, key, pressed),
            final(self).state == old(self).state,
            final(self).view == old(self).view,
            final(self).surface == old(self).surface,
    {
        self.axes.on_key(key, pressed);
    }

    /// A resize or scale-change event, passed through the zero-area guard of
    /// the surface configuration. Returns whether the new size was taken, so
    /// the platform layer knows to reconfigure the device surface.
    pub fn on_resize(&mut self, width: u32, height: u32) -> (applied: bool)
        ensures
            applied == (width != 0 && height != 0),
            applied ==> final(self).surface == (SurfaceConfig {
                width,
                height,
                ..old(self).surface
            }),
            !applied ==> final(self).surface == old(self).surface,
            final(self).state == old(self).state,
            final(self).view == old(self).view,
            final(self).axes == old(self).axes,
    {
        self.surface.reconfigure(width, height)
    }

    /// One redraw tick. While running, the camera is advanced by `dt`
    /// (16.16 fixed-point seconds) under the held axes and the encoded
    /// parameter block of the resulting camera is handed back, to upload
    /// before the frame is acquired — so a retried frame still reflects the
    /// latest input. Once exiting, no block is produced and nothing changes.
    /// A tick that cannot store the update (a zero-area surface, or results
    /// out of fixed-point range) still produces the block of the unchanged
    /// camera.
    pub fn begin_frame(&mut self, dt: u64) -> (r: Option<Vec<u8>>)
        requires
            old(self).wf(),
        ensures
            final(self).state == old(self).state,
            final(self).axes == old(self).axes,
            final(self).surface == old(self).surface,
            final(self).wf(),
            old(self).state == DriverState::Exiting ==> r is None && *final(self) == *old(self),
            old(self).state == DriverState::Running ==> match r {
                Option::Some(block) => block@ == view_bytes(final(self).view),
                Option::None => false,
            },
            old(self).state == DriverState::Running && old(self).can_advance(dt as int)
                ==> final(self).view == old(self).view.integrated(
                dt as int,
                old(self).axes,
                old(self).surface.width as int,
                old(self).surface.height as int,
            ),
            old(self).state == DriverState::Running && !old(self).can_advance(dt as int)
                ==> final(self).view == old(self).view,
    {
        match self.state {
            DriverState::Exiting => None,
            DriverState::Running => {
                if self.surface.width >= 1 || self.surface.height >= 1 {
                    let axes = self.axes;
                    let _ = self.view.integrate(dt, &axes, self.surface.width, self.surface.height);
                }
                Some(self.view.encode())
            },
        }
    }

    /// Applies the three-way classification of a failed acquire or present.
    /// Resource exhaustion is fatal and enters the terminal `Exiting` state;
    /// a transient loss asks for a reconfigure and the driver keeps running;
    /// anything else is logged by the caller and skipped. The camera, axes
    /// and surface configuration are untouched.
    pub fn on_presentation_error(&mut self, kind: PresentationError) -> (a: SurfaceAction)
        ensures
            a == classify(kind),
            a == SurfaceAction::FatalExit ==> final(self).state == DriverState::Exiting,
            a != SurfaceAction::FatalExit ==> final(self).state == old(self).state,
            final(self).view == old(self).view,
            final(self).axes == old(self).axes,
            final(self).surface == old(self).surface,
    {
        let a = self.surface.handle_presentation_error(kind);
        if a == SurfaceAction::FatalExit {
            self.state = DriverState::Exiting;
        }
        a
    }
}

} // verus!
