//! The input tracker: eight independent boolean axes, each meaning "this
//! logical direction is currently held", driven by key press and release
//! events.

use vstd::prelude::*;

verus! {

/// The eight logical directions a key can be bound to. A key outside this
/// set is not a logical key and never reaches the tracker.
#[derive(Clone, Copy, PartialEq, Eq, Structural, Debug)]
pub enum AxisKey {
    PanUp,
    PanDown,
    PanLeft,
    PanRight,
    ZoomIn,
    ZoomOut,
    QualityUp,
    QualityDown,
}

/// The held state of the eight axes. Created all-false; each field is set
/// exactly on the matching press event and cleared on the matching release.
#[derive(Clone, Copy, PartialEq, Eq, Structural, Debug)]
pub struct InputAxisSet {
    pub pan_up: bool,
    pub pan_down: bool,
    pub pan_left: bool,
    pub pan_right: bool,
    pub zoom_in: bool,
    pub zoom_out: bool,
    pub quality_up: bool,
    pub quality_down: bool,
}

/// The axis set with the one axis belonging to `key` set to `pressed` and
/// every other axis as in `s`.
pub open spec fn apply_key(s: InputAxisSet, key: AxisKey, pressed: bool) -> InputAxisSet {
    match key {
        AxisKey::PanUp => InputAxisSet { pan_up: pressed, ..s },
        AxisKey::PanDown => InputAxisSet { pan_down: pressed, ..s },
        AxisKey::PanLeft => InputAxisSet { pan_left: pressed, ..s },
        AxisKey::PanRight => InputAxisSet { pan_right: pressed, ..s },
        AxisKey::ZoomIn => InputAxisSet { zoom_in: pressed, ..s },
        AxisKey::ZoomOut => InputAxisSet { zoom_out: pressed, ..s },
        AxisKey::QualityUp => InputAxisSet { quality_up: pressed, ..s },
        AxisKey::QualityDown => InputAxisSet { quality_down: pressed, ..s },
    }
}

/// The held state of the one axis belonging to `key`.
pub open spec fn axis_of(s: InputAxisSet, key: AxisKey) -> bool {
    match key {
        AxisKey::PanUp => s.pan_up,
        AxisKey::PanDown => s.pan_down,
        AxisKey::PanLeft => s.pan_left,
        AxisKey::PanRight => s.pan_right,
        AxisKey::ZoomIn => s.zoom_in,
        AxisKey::ZoomOut => s.zoom_out,
        AxisKey::QualityUp => s.quality_up,
        AxisKey::QualityDown => s.quality_down,
    }
}

impl InputAxisSet {
    /// The startup state: nothing held.
    pub open spec fn all_released() -> InputAxisSet {
        InputAxisSet {
            pan_up: false,
            pan_down: false,
            pan_left: false,
            pan_right: false,
            zoom_in: false,
            zoom_out: false,
            quality_up: false,
            quality_down: false,
        }
    }

    /// Creates the tracker with every axis released.
    pub fn new() -> (s: InputAxisSet)
        ensures
            s == InputAxisSet::all_released(),
    {
        InputAxisSet {
            pan_up: false,
            pan_down: false,
            pan_left: false,
            pan_right: false,
            zoom_in: false,
            zoom_out: false,
            quality_up: false,
            quality_down: false,
        }
    }

    /// Records a press (`pressed == true`) or release (`pressed == false`)
    /// of the key bound to one axis; every other axis is untouched.
    pub fn on_key(&mut self, key: AxisKey, pressed: bool)
        ensures
            *final(self) == apply_key(*old(self), key, pressed),
    {
        match key {
            AxisKey::PanUp => self.pan_up = pressed,
            AxisKey::PanDown => self.pan_down = pressed,
            AxisKey::PanLeft => self.pan_left = pressed,
            AxisKey::PanRight => self.pan_right = pressed,
            AxisKey::ZoomIn => self.zoom_in = pressed,
            AxisKey::ZoomOut => self.zoom_out = pressed,
            AxisKey::QualityUp => self.quality_up = pressed,
            AxisKey::QualityDown => self.quality_down = pressed,
        }
    }
}

/// A repeated press (or repeated release) of the same key leaves the axis
/// set exactly where the first event put it: key events are idempotent.
pub proof fn lemma_key_event_idempotent(s: InputAxisSet, key: AxisKey, pressed: bool)
    ensures
        apply_key(apply_key(s, key, pressed), key, pressed) == apply_key(s, key, pressed),
{
}

/// Pressing then releasing a key, any number of consecutive times, returns
/// the axis to released and leaves every other axis as it was: a second
/// press-release round changes nothing over the first, and no axis can
/// stick.
pub proof fn lemma_press_release_restores(s: InputAxisSet, key: AxisKey)
    ensures
        axis_of(apply_key(apply_key(s, key, true), key, false), key) == false,
        apply_key(apply_key(apply_key(apply_key(s, key, true), key, false), key, true), key, false)
            == apply_key(apply_key(s, key, true), key, false),
        forall|other: AxisKey|
            other != key ==> axis_of(
                apply_key(apply_key(s, key, true), key, false),
                other,
            ) == axis_of(s, other),
{
}

} // verus!
