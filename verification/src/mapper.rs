//! Button normalization and analog-trigger debouncing.
//!
//! A vendor button identifier is translated to the fixed external index
//! scheme of the W3C Gamepad API: face buttons 0-3, shoulders 4-5, back and
//! start 8-9, stick clicks 10-11, d-pad 12-15, guide 16. Indices 6 and 7 are
//! reserved for the two analog triggers, which are synthesized into digital
//! press pulses by a one-sided hysteresis latch.

use vstd::prelude::*;

verus! {

/// Sentinel index returned for a vendor button outside the fixed table.
/// An unmapped button produces no outbound event.
pub const UNMAPPED: u8 = 255;

/// External index reserved for the left analog trigger.
pub const LEFT_TRIGGER_INDEX: u8 = 6;

/// External index reserved for the right analog trigger.
pub const RIGHT_TRIGGER_INDEX: u8 = 7;

/// Raw axis value above which a trigger counts as pressed.
pub const TRIGGER_THRESHOLD: i16 = 8000;

/// Vendor-side button identifiers, as the hardware layer reports them.
/// `Other` stands for every identifier outside the fixed table.
#[derive(Clone, Copy, Debug, PartialEq, Eq, Structural)]
pub enum VendorButton {
    A,
    B,
    X,
    Y,
    LeftShoulder,
    RightShoulder,
    Back,
    Start,
    LeftStick,
    RightStick,
    DPadUp,
    DPadDown,
    DPadLeft,
    DPadRight,
    Guide,
    Other,
}

/// The fixed translation table from vendor buttons to external indices.
pub open spec fn w3c_index_spec(button: VendorButton) -> u8 {
    match button {
        VendorButton::A => 0,
        VendorButton::B => 1,
        VendorButton::X => 2,
        VendorButton::Y => 3,
        VendorButton::LeftShoulder => 4,
        VendorButton::RightShoulder => 5,
        VendorButton::Back => 8,
        VendorButton::Start => 9,
        VendorButton::LeftStick => 10,
        VendorButton::RightStick => 11,
        VendorButton::DPadUp => 12,
        VendorButton::DPadDown => 13,
        VendorButton::DPadLeft => 14,
        VendorButton::DPadRight => 15,
        VendorButton::Guide => 16,
        VendorButton::Other => UNMAPPED,
    }
}

/// Whether a vendor button has an entry in the fixed table.
pub open spec fn is_mapped(button: VendorButton) -> bool {
    w3c_index_spec(button) != UNMAPPED
}

/// Translates a vendor button identifier to its external index, or to
/// `UNMAPPED` when the identifier is outside the fixed table.
pub fn button_to_w3c(button: VendorButton) -> (idx: u8)
    ensures
        idx == w3c_index_spec(button),
{
    match button {
        VendorButton::A => 0,
        VendorButton::B => 1,
        VendorButton::X => 2,
        VendorButton::Y => 3,
        VendorButton::LeftShoulder => 4,
        VendorButton::RightShoulder => 5,
        VendorButton::Back => 8,
        VendorButton::Start => 9,
        VendorButton::LeftStick => 10,
        VendorButton::RightStick => 11,
        VendorButton::DPadUp => 12,
        VendorButton::DPadDown => 13,
        VendorButton::DPadLeft => 14,
        VendorButton::DPadRight => 15,
        VendorButton::Guide => 16,
        VendorButton::Other => UNMAPPED,
    }
}

/// The two analog trigger axes.
#[derive(Clone, Copy, Debug, PartialEq, Eq, Structural)]
pub enum TriggerSide {
    Left,
    Right,
}

/// Per-axis debounce state for the two analog triggers. Each side is an
/// independent one-sided hysteresis latch.
#[derive(Clone, Copy, Debug, PartialEq, Eq, Structural)]
pub struct TriggerDebounce {
    pub left_pressed: bool,
    pub right_pressed: bool,
}

/// The latch's next state after one axis sample: a value above the upper
/// threshold sets it, a value below half the upper threshold
/// clears it, and anything in between leaves it unchanged.
pub open spec fn debounce_next(pressed: bool, value: i16) -> bool {
    if value > TRIGGER_THRESHOLD {
        true
    } else if value < TRIGGER_THRESHOLD / 2 {
        false
    } else {
        pressed
    }
}

/// Whether one axis sample produces a press pulse: only an upward crossing
/// of the upper threshold while the latch is released emits.
pub open spec fn debounce_emits(pressed: bool, value: i16) -> bool {
    value > TRIGGER_THRESHOLD && !pressed
}

/// The latch state of one side.
pub open spec fn side_pressed(s: TriggerDebounce, side: TriggerSide) -> bool {
    match side {
        TriggerSide::Left => s.left_pressed,
        TriggerSide::Right => s.right_pressed,
    }
}

/// The external index reserved for one trigger side.
pub open spec fn side_index_spec(side: TriggerSide) -> u8 {
    match side {
        TriggerSide::Left => LEFT_TRIGGER_INDEX,
        TriggerSide::Right => RIGHT_TRIGGER_INDEX,
    }
}

/// The debounce state after one axis sample on one side: the sampled side's
/// latch steps, the other side's latch is untouched.
pub open spec fn step_trigger(t: TriggerDebounce, side: TriggerSide, value: i16) -> TriggerDebounce {
    match side {
        TriggerSide::Left => TriggerDebounce {
            left_pressed: debounce_next(t.left_pressed, value),
            right_pressed: t.right_pressed,
        },
        TriggerSide::Right => TriggerDebounce {
            left_pressed: t.left_pressed,
            right_pressed: debounce_next(t.right_pressed, value),
        },
    }
}

impl TriggerDebounce {
    /// Both latches start released.
    pub fn new() -> (s: Self)
        ensures
            !s.left_pressed,
            !s.right_pressed,
    {
        TriggerDebounce { left_pressed: false, right_pressed: false }
    }

    /// Releases both latches, as required when the owning controller is
    /// removed.
    pub fn reset(&mut self)
        ensures
            !final(self).left_pressed,
            !final(self).right_pressed,
    {
        self.left_pressed = false;
        self.right_pressed = false;
    }

    /// Feeds one axis sample to the latch of the given side. Returns the
    /// side's reserved external index exactly when the sample is an upward
    /// crossing of the upper threshold; the other side is untouched.
    pub fn sample(&mut self, side: TriggerSide, value: i16) -> (emit: Option<u8>)
        ensures
            side_pressed(*final(self), side) == debounce_next(
                side_pressed(*old(self), side),
                value,
            ),
            side != TriggerSide::Left ==> final(self).left_pressed == old(self).left_pressed,
            side != TriggerSide::Right ==> final(self).right_pressed == old(self).right_pressed,
            emit == if debounce_emits(side_pressed(*old(self), side), value) {
                Some(side_index_spec(side))
            } else {
                None::<u8>
            },
    {
        match side {
            TriggerSide::Left => {
                if value > TRIGGER_THRESHOLD && !self.left_pressed {
                    self.left_pressed = true;
                    Some(LEFT_TRIGGER_INDEX)
                } else {
                    if value < TRIGGER_THRESHOLD / 2 {
                        self.left_pressed = false;
                    }
                    None
                }
            },
            TriggerSide::Right => {
                if value > TRIGGER_THRESHOLD && !self.right_pressed {
                    self.right_pressed = true;
                    Some(RIGHT_TRIGGER_INDEX)
                } else {
                    if value < TRIGGER_THRESHOLD / 2 {
                        self.right_pressed = false;
                    }
                    None
                }
            },
        }
    }
}

/// How many press pulses one trigger latch emits over a sequence of axis
/// samples, starting from the given latch state.
pub open spec fn pulse_count(pressed: bool, samples: Seq<i16>) -> nat
    decreases samples.len(),
{
    if samples.len() == 0 {
        0
    } else {
        (if debounce_emits(pressed, samples[0]) {
            1nat
        } else {
            0nat
        }) + pulse_count(
            debounce_next(pressed, samples[0]),
            samples.subrange(1, samples.len() as int),
        )
    }
}

/// The latch state after a sequence of axis samples.
pub open spec fn latch_after(pressed: bool, samples: Seq<i16>) -> bool
    decreases samples.len(),
{
    if samples.len() == 0 {
        pressed
    } else {
        latch_after(debounce_next(pressed, samples[0]), samples.subrange(1, samples.len() as int))
    }
}

/// Pulses and latch state compose over concatenation of sample runs.
pub proof fn lemma_pulse_count_concat(pressed: bool, a: Seq<i16>, b: Seq<i16>)
    ensures
        pulse_count(pressed, a + b) == pulse_count(pressed, a) + pulse_count(
            latch_after(pressed, a),
            b,
        ),
        latch_after(pressed, a + b) == latch_after(latch_after(pressed, a), b),
    decreases a.len(),
{
    if a.len() == 0 {
        assert(a + b =~= b);
    } else {
        let next = debounce_next(pressed, a[0]);
        assert((a + b).subrange(1, (a + b).len() as int) =~= a.subrange(1, a.len() as int) + b);
        lemma_pulse_count_concat(next, a.subrange(1, a.len() as int), b);
    }
}

/// A run of samples above the upper threshold emits one pulse when it finds
/// the latch released and none when it finds it latched, and leaves the latch
/// latched whenever the run is non-empty.
pub proof fn lemma_high_run(pressed: bool, samples: Seq<i16>)
    requires
        forall|i: int| 0 <= i < samples.len() ==> samples[i] > TRIGGER_THRESHOLD,
    ensures
        pulse_count(pressed, samples) == if !pressed && samples.len() >= 1 {
            1nat
        } else {
            0nat
        },
        latch_after(pressed, samples) == (pressed || samples.len() >= 1),
    decreases samples.len(),
{
    if samples.len() > 0 {
        lemma_high_run(true, samples.subrange(1, samples.len() as int));
    }
}

/// A run of samples none of which exceeds the upper threshold emits no
/// pulse, whatever the latch state.
pub proof fn lemma_low_run(pressed: bool, samples: Seq<i16>)
    requires
        forall|i: int| 0 <= i < samples.len() ==> samples[i] <= TRIGGER_THRESHOLD,
    ensures
        pulse_count(pressed, samples) == 0,
    decreases samples.len(),
{
    if samples.len() > 0 {
        lemma_low_run(
            debounce_next(pressed, samples[0]),
            samples.subrange(1, samples.len() as int),
        );
    }
}

/// Debounce law: a sample sequence that rises above the upper threshold —
/// for however many samples — and then stays at or below it yields exactly
/// one press pulse from a released latch. Chatter above the threshold and the
/// later fall below the release point add nothing.
pub proof fn lemma_trigger_single_pulse(rising: Seq<i16>, falling: Seq<i16>)
    requires
        rising.len() >= 1,
        forall|i: int| 0 <= i < rising.len() ==> rising[i] > TRIGGER_THRESHOLD,
        forall|i: int| 0 <= i < falling.len() ==> falling[i] <= TRIGGER_THRESHOLD,
    ensures
        pulse_count(false, rising + falling) == 1,
{
    lemma_pulse_count_concat(false, rising, falling);
    lemma_high_run(false, rising);
    lemma_low_run(latch_after(false, rising), falling);
}

/// Every mapped index lies in the external range 0-16, and the reserved
/// trigger indices 6 and 7 are never produced by the table: they belong to
/// the analog-trigger debouncer alone.
pub proof fn lemma_mapped_index_range(button: VendorButton)
    ensures
        is_mapped(button) ==> w3c_index_spec(button) <= 16,
        w3c_index_spec(button) != LEFT_TRIGGER_INDEX,
        w3c_index_spec(button) != RIGHT_TRIGGER_INDEX,
{
}

} // verus!
