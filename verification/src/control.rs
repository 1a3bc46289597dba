use vstd::prelude::*;

verus! {

/// Control state shared between the button interrupt handler and the main
/// sampling loop: whether reports are emitted, and how many recent samples
/// the rolling average covers.
///
/// The mutual-exclusion guard around the one shared instance lives with the
/// hardware glue; this library provides the transitions, each of which is a
/// pure read-modify-write of one snapshot.
#[derive(Clone, Copy, PartialEq, Eq, Structural, Debug)]
pub struct Measuring {
    pub active: bool,
    pub num_aves: u8,
}

/// `active` flipped, `num_aves` untouched.
pub open spec fn spec_toggle(m: Measuring) -> Measuring {
    Measuring { active: !m.active, ..m }
}

/// `num_aves` one higher, saturating at the static window capacity (which is
/// exactly `u8::MAX`), `active` untouched.
pub open spec fn spec_increment(m: Measuring) -> Measuring {
    if m.num_aves == 255 {
        m
    } else {
        Measuring { num_aves: (m.num_aves + 1) as u8, ..m }
    }
}

/// The decision the button interrupt handler takes for one edge event:
/// button A toggles reporting, button B widens the averaging window.
pub open spec fn spec_apply_buttons(m: Measuring, a_pressed: bool, b_pressed: bool) -> Measuring {
    let after_a = if a_pressed { spec_toggle(m) } else { m };
    if b_pressed { spec_increment(after_a) } else { after_a }
}

impl Measuring {
    /// Flip the reporting flag.
    pub fn toggle_active(&mut self)
        ensures
            *final(self) == spec_toggle(*old(self)),
    {
        self.active = !self.active;
    }

    /// Widen the averaging window by one sample, saturating at the static
    /// window capacity so the increment can never outgrow the sample buffers.
    pub fn increment_window_size(&mut self)
        ensures
            *final(self) == spec_increment(*old(self)),
    {
        if self.num_aves < 255 {
            self.num_aves = self.num_aves + 1;
        }
    }

    /// Apply one button edge event to the control state.
    pub fn apply_button_events(&mut self, a_pressed: bool, b_pressed: bool)
        ensures
            *final(self) == spec_apply_buttons(*old(self), a_pressed, b_pressed),
    {
        if a_pressed {
            self.toggle_active();
        }
        if b_pressed {
            self.increment_window_size();
        }
    }

    /// Whether reports are currently emitted.
    pub fn get_meas_state(&self) -> (r: bool)
        ensures
            r == self.active,
    {
        self.active
    }

    /// The current averaging window size.
    pub fn get_num_aves(&self) -> (r: u8)
        ensures
            r == self.num_aves,
    {
        self.num_aves
    }

    /// A consistent copy of both fields, taken together. The caller holds the
    /// critical section for the duration of this one call, so the copy can
    /// never mix fields from before and after an update.
    pub fn snapshot(&self) -> (r: Measuring)
        ensures
            r == *self,
    {
        *self
    }
}

/// Toggling the reporting flag twice returns the control state to its
/// original value.
pub proof fn lemma_toggle_involutive(m: Measuring)
    ensures
        spec_toggle(spec_toggle(m)) == m,
{
}

} // verus!
