//! The camera data model: position, extent, zoom scalar and iteration
//! budget, its per-frame update from the held axes, and its fixed-layout
//! binary encoding.

use vstd::prelude::*;
use crate::fixed::{div_trunc, extent_axis, fp_step, sign, sign_val};
use crate::input::InputAxisSet;

verus! {

/// Upper clamp on the zoom scalar: 4.0 in fixed point. There is no lower
/// clamp: a long-held zoom-in is allowed to drive the scalar through zero.
pub const FOV_MAX: i32 = 4 * 65536;

/// A pan moves the position by `dt * fov * 0.5`: numerator `dt * fov`,
/// denominator `2 * FP_ONE` in fixed point.
pub const PAN_DEN: u64 = 2 * 65536;

/// A zoom moves the scalar by `dt * fov * 0.75`: numerator `dt * fov * 3`,
/// denominator `4 * FP_ONE` in fixed point.
pub const ZOOM_NUM: u64 = 3;

pub const ZOOM_DEN: u64 = 4 * 65536;

/// The position change of one frame: `div_trunc(dt * fov, 2 * FP_ONE)`,
/// i.e. `dt * fov * 0.5` in fixed point, truncated toward zero.
pub open spec fn pan_step(dt: int, fov: int) -> int {
    div_trunc(dt * fov, PAN_DEN as int)
}

/// The zoom-scalar change of one frame: `div_trunc(dt * fov * 3, 4 * FP_ONE)`,
/// i.e. `dt * fov * 0.75` in fixed point, truncated toward zero.
pub open spec fn zoom_step(dt: int, fov: int) -> int {
    div_trunc(dt * fov * 3, ZOOM_DEN as int)
}

/// The upper clamp applied to the zoom scalar after every step.
pub open spec fn clamp_fov(x: int) -> int {
    if x <= FOV_MAX as int {
        x
    } else {
        FOV_MAX as int
    }
}

/// The larger of the two window dimensions.
pub open spec fn longest_of(w: int, h: int) -> int {
    if w >= h {
        w
    } else {
        h
    }
}

/// The camera into the parametric domain. All coordinate-like fields are
/// 16.16 fixed point; `ext_x`/`ext_y` are derived from `fov` and the window
/// aspect ratio on every update, never set independently.
#[derive(Clone, Copy, PartialEq, Eq, Structural, Debug)]
pub struct ViewState {
    pub pos_x: i32,
    pub pos_y: i32,
    pub ext_x: i32,
    pub ext_y: i32,
    pub fov: i32,
    pub quality: u32,
}

impl ViewState {
    /// The zoom scalar never sits above its clamp.
    pub open spec fn wf(self) -> bool {
        self.fov <= FOV_MAX
    }

    /// The startup camera: centered, zoom scalar 2.0 (extent 2.0 on both
    /// axes), iteration budget 100.
    pub open spec fn initial() -> ViewState {
        ViewState {
            pos_x: 0,
            pos_y: 0,
            ext_x: 131072,
            ext_y: 131072,
            fov: 131072,
            quality: 100,
        }
    }

    /// Vertical position after one frame: moved by the up/down pair.
    pub open spec fn next_pos_y(self, dt: int, a: InputAxisSet) -> int {
        self.pos_y + sign(a.pan_up, a.pan_down) * pan_step(dt, self.fov as int)
    }

    /// Horizontal position after one frame: moved by the right/left pair.
    pub open spec fn next_pos_x(self, dt: int, a: InputAxisSet) -> int {
        self.pos_x + sign(a.pan_right, a.pan_left) * pan_step(dt, self.fov as int)
    }

    /// Zoom scalar after one frame: moved by the out/in pair, then clamped
    /// from above at `FOV_MAX`.
    pub open spec fn next_fov(self, dt: int, a: InputAxisSet) -> int {
        clamp_fov(self.fov + sign(a.zoom_out, a.zoom_in) * zoom_step(dt, self.fov as int))
    }

    /// Iteration budget after one frame: stepped by one by the up/down
    /// pair, floor-clamped at zero, with no ceiling.
    pub open spec fn next_quality(self, a: InputAxisSet) -> int {
        let cand = self.quality + sign(a.quality_up, a.quality_down);
        if cand >= 0 {
            cand
        } else {
            0
        }
    }

    /// Horizontal extent after one frame: the new zoom scalar scaled by the
    /// window width over its longest axis.
    pub open spec fn next_ext_x(self, dt: int, a: InputAxisSet, w: int, h: int) -> int {
        div_trunc(self.next_fov(dt, a) * w, longest_of(w, h))
    }

    /// Vertical extent after one frame: the new zoom scalar scaled by the
    /// window height over its longest axis.
    pub open spec fn next_ext_y(self, dt: int, a: InputAxisSet, w: int, h: int) -> int {
        div_trunc(self.next_fov(dt, a) * h, longest_of(w, h))
    }

    /// Whether the frame's exact results fit the fixed-point range; only
    /// then can the update be stored.
    pub open spec fn step_fits(self, dt: int, a: InputAxisSet) -> bool {
        &&& i32::MIN <= self.next_pos_x(dt, a) <= i32::MAX
        &&& i32::MIN <= self.next_pos_y(dt, a) <= i32::MAX
        &&& i32::MIN <= self.next_fov(dt, a)
        &&& self.next_quality(a) <= u32::MAX
    }

    /// The camera after one frame, as a whole value.
    pub open spec fn integrated(self, dt: int, a: InputAxisSet, w: int, h: int) -> ViewState {
        ViewState {
            pos_x: self.next_pos_x(dt, a) as i32,
            pos_y: self.next_pos_y(dt, a) as i32,
            ext_x: self.next_ext_x(dt, a, w, h) as i32,
            ext_y: self.next_ext_y(dt, a, w, h) as i32,
            fov: self.next_fov(dt, a) as i32,
            quality: self.next_quality(a) as u32,
        }
    }

    /// Advances the camera by one frame of elapsed time `dt` (16.16 fixed
    /// point seconds) under the currently held axes, against a window of
    /// `width` by `height` pixels. Pan and zoom speed scale with the current
    /// zoom scalar, so motion feels uniform at every depth. Returns whether
    /// the update was stored: it is stored exactly when the exact results
    /// fit the fixed-point range, and otherwise the camera is unchanged.
    pub fn integrate(&mut self, dt: u64, axes: &InputAxisSet, width: u32, height: u32) -> (advanced:
        bool)
        requires
            old(self).wf(),
            width >= 1 || height >= 1,
        ensures
            advanced == old(self).step_fits(dt as int, *axes),
            advanced ==> *final(self) == old(self).integrated(
                dt as int,
                *axes,
                width as int,
                height as int,
            ),
            advanced ==> final(self).pos_x == old(self).next_pos_x(dt as int, *axes),
            advanced ==> final(self).pos_y == old(self).next_pos_y(dt as int, *axes),
            advanced ==> final(self).fov == old(self).next_fov(dt as int, *axes),
            advanced ==> final(self).quality == old(self).next_quality(*axes),
            advanced ==> final(self).ext_x == old(self).next_ext_x(
                dt as int,
                *axes,
                width as int,
                height as int,
            ),
            advanced ==> final(self).ext_y == old(self).next_ext_y(
                dt as int,
                *axes,
                width as int,
                height as int,
            ),
            !advanced ==> *final(self) == *old(self),
            final(self).wf(),
    {
        let s_y: i64 = sign_val(axes.pan_up, axes.pan_down);
        let s_x: i64 = sign_val(axes.pan_right, axes.pan_left);
        let s_z: i64 = sign_val(axes.zoom_out, axes.zoom_in);
        let s_q: i64 = sign_val(axes.quality_up, axes.quality_down);

        let d_pan: i128 = fp_step(dt, self.fov, 1, PAN_DEN);
        let d_zoom: i128 = fp_step(dt, self.fov, ZOOM_NUM, ZOOM_DEN);
        proof {
            assert(dt * self.fov * 1 == dt * self.fov);
            crate::fixed::lemma_sign_times(
                s_y as int,
                d_pan as int,
                0x2000000000000000000000000,
            );
            crate::fixed::lemma_sign_times(
                s_x as int,
                d_pan as int,
                0x2000000000000000000000000,
            );
            crate::fixed::lemma_sign_times(
                s_z as int,
                d_zoom as int,
                0x2000000000000000000000000,
            );
        }

        let ny: i128 = (self.pos_y as i128) + (s_y as i128) * d_pan;
        let nx: i128 = (self.pos_x as i128) + (s_x as i128) * d_pan;
        let cand_fov: i128 = (self.fov as i128) + (s_z as i128) * d_zoom;
        let nfov: i128 = if cand_fov <= (FOV_MAX as i128) {
            cand_fov
        } else {
            FOV_MAX as i128
        };
        let nq: i64 = (self.quality as i64) + s_q;
        let nq_floor: i64 = if nq >= 0 {
            nq
        } else {
            0
        };

        if nx >= (i32::MIN as i128) && nx <= (i32::MAX as i128) && ny >= (i32::MIN as i128) && ny
            <= (i32::MAX as i128) && nfov >= (i32::MIN as i128) && nq_floor <= (u32::MAX as i64) {
            self.pos_x = nx as i32;
            self.pos_y = ny as i32;
            self.fov = nfov as i32;
            self.quality = nq_floor as u32;
            let longest: u32 = if width >= height {
                width
            } else {
                height
            };
            let ex: i32 = extent_axis(self.fov, width, longest);
            let ey: i32 = extent_axis(self.fov, height, longest);
            self.ext_x = ex;
            self.ext_y = ey;
            true
        } else {
            false
        }
    }

    /// Serializes the camera into its fixed 24-byte little-endian parameter
    /// block: position, extent (two fixed-point words each), the iteration
    /// budget, and four bytes of alignment padding, always zero. Pure and
    /// total: a function of the fields alone.
    pub fn encode(&self) -> (r: Vec<u8>)
        ensures
            r@ == view_bytes(*self),
            r@.len() == 24,
            forall|i: int| 20 <= i < 24 ==> r@[i] == 0,
    {
        let mut out: Vec<u8> = Vec::new();
        push_le4(&mut out, bits_of_i32(self.pos_x));
        push_le4(&mut out, bits_of_i32(self.pos_y));
        push_le4(&mut out, bits_of_i32(self.ext_x));
        push_le4(&mut out, bits_of_i32(self.ext_y));
        push_le4(&mut out, self.quality);
        out.push(0u8);
        out.push(0u8);
        out.push(0u8);
        out.push(0u8);
        proof {
            assert(out@ =~= view_bytes(*self));
        }
        out
    }
}

impl Default for ViewState {
    /// The startup camera of `ViewState::initial`.
    fn default() -> (v: Self)
        ensures
            v == ViewState::initial(),
            v.wf(),
    {
        ViewState {
            pos_x: 0,
            pos_y: 0,
            ext_x: 131072,
            ext_y: 131072,
            fov: 131072,
            quality: 100,
        }
    }
}

/// The four little-endian bytes of a 32-bit word given as an integer in
/// `0 .. 2^32`.
pub open spec fn le4(x: int) -> Seq<u8>
    recommends
        0 <= x < 0x100000000,
{
    seq![
        (x % 256) as u8,
        ((x / 256) % 256) as u8,
        ((x / 65536) % 256) as u8,
        ((x / 16777216) % 256) as u8,
    ]
}

/// The 32-bit two's-complement bit pattern of a fixed-point word, as an
/// integer in `0 .. 2^32`.
pub open spec fn bits32(x: int) -> int
    recommends
        -0x80000000 <= x < 0x80000000,
{
    if x >= 0 {
        x
    } else {
        x + 0x100000000
    }
}

/// The 24-byte wire layout of a camera: `pos_x`, `pos_y`, `ext_x`, `ext_y`,
/// `quality`, each four little-endian bytes, then four zero padding bytes.
pub open spec fn view_bytes(v: ViewState) -> Seq<u8> {
    le4(bits32(v.pos_x as int)) + le4(bits32(v.pos_y as int)) + le4(bits32(v.ext_x as int)) + le4(
        bits32(v.ext_y as int),
    ) + le4(v.quality as int) + seq![0u8, 0u8, 0u8, 0u8]
}

/// The two's-complement bit pattern of one fixed-point word.
fn bits_of_i32(x: i32) -> (b: u32)
    ensures
        b == bits32(x as int),
{
    if x >= 0 {
        x as u32
    } else {
        let w: i64 = (x as i64) + 0x100000000i64;
        w as u32
    }
}

/// Appends the four little-endian bytes of `v`.
fn push_le4(out: &mut Vec<u8>, v: u32)
    ensures
        final(out)@ == old(out)@ + le4(v as int),
{
    out.push((v % 256) as u8);
    out.push(((v / 256) % 256) as u8);
    out.push(((v / 65536) % 256) as u8);
    out.push(((v / 16777216) % 256) as u8);
    proof {
        assert(out@ =~= old(out)@ + le4(v as int));
    }
}

/// Law: with any `dt >= 0`, each opposing axis pair moves only its own
/// component, by exactly one step in the held direction; holding both axes
/// of a pair, or neither, leaves that component unchanged.
pub proof fn lemma_axis_isolation(v: ViewState, dt: int, a: InputAxisSet)
    requires
        v.wf(),
        dt >= 0,
    ensures
        a.pan_up == a.pan_down ==> v.next_pos_y(dt, a) == v.pos_y,
        a.pan_up && !a.pan_down ==> v.next_pos_y(dt, a) == v.pos_y + pan_step(dt, v.fov as int),
        a.pan_down && !a.pan_up ==> v.next_pos_y(dt, a) == v.pos_y - pan_step(dt, v.fov as int),
        a.pan_right == a.pan_left ==> v.next_pos_x(dt, a) == v.pos_x,
        a.pan_right && !a.pan_left ==> v.next_pos_x(dt, a) == v.pos_x + pan_step(dt, v.fov as int),
        a.pan_left && !a.pan_right ==> v.next_pos_x(dt, a) == v.pos_x - pan_step(dt, v.fov as int),
        a.zoom_in == a.zoom_out ==> v.next_fov(dt, a) == v.fov,
        a.zoom_out && !a.zoom_in ==> v.next_fov(dt, a) == clamp_fov(
            v.fov + zoom_step(dt, v.fov as int),
        ),
        a.zoom_in && !a.zoom_out ==> v.next_fov(dt, a) == clamp_fov(
            v.fov - zoom_step(dt, v.fov as int),
        ),
        a.quality_up == a.quality_down ==> v.next_quality(a) == v.quality,
        a.quality_up && !a.quality_down ==> v.next_quality(a) == v.quality + 1,
        a.quality_down && !a.quality_up ==> v.next_quality(a) == if v.quality >= 1 {
            v.quality - 1
        } else {
            0
        },
{
}

/// Law: after any single update — so, inductively, after any sequence of
/// them — the zoom scalar sits at or below its clamp and the iteration
/// budget at or above zero, whatever was held and for any `dt`.
pub proof fn lemma_bounds_preserved(v: ViewState, dt: int, a: InputAxisSet)
    ensures
        v.next_fov(dt, a) <= FOV_MAX as int,
        v.next_quality(a) >= 0,
{
}

/// Law: the encoding is a function of the camera alone; two encodings of
/// the same camera, with no mutation between them, are byte-identical.
pub proof fn lemma_encode_deterministic(v: ViewState, b1: Seq<u8>, b2: Seq<u8>)
    requires
        b1 == view_bytes(v),
        b2 == view_bytes(v),
    ensures
        b1 == b2,
{
}

} // verus!
