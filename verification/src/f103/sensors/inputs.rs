//! Debounced digital inputs.
use vstd::prelude::*;

use crate::arith;

verus! {

#[derive(Clone, Copy, Debug, Eq, PartialEq, Structural)]
pub struct DebouncedActiveLow {
    pub required_samples: u8,
    pub low_samples: u8,
    pub high_samples: u8,
    pub active: bool,
}

impl DebouncedActiveLow {
    /// The input after one sample: a run of matching samples of the required
    /// length settles it.
    pub open spec fn sampled(self, pin_is_low: bool) -> Self {
        if pin_is_low {
            let low_samples = arith::sat_u8(self.low_samples + 1) as u8;
            DebouncedActiveLow {
                high_samples: 0,
                low_samples,
                active: self.active || low_samples >= self.required_samples,
                ..self
            }
        } else {
            let high_samples = arith::sat_u8(self.high_samples + 1) as u8;
            DebouncedActiveLow {
                low_samples: 0,
                high_samples,
                active: self.active && high_samples < self.required_samples,
                ..self
            }
        }
    }

    /// The input after a run of equal samples.
    pub open spec fn after_run(self, pin_is_low: bool, samples: nat) -> Self
        decreases samples,
    {
        if samples == 0 {
            self
        } else {
            self.after_run(pin_is_low, (samples - 1) as nat).sampled(pin_is_low)
        }
    }

    pub fn new(required_samples: u8) -> (r: Self)
        ensures
            r == (DebouncedActiveLow {
                required_samples: arith::max(required_samples as int, 1) as u8,
                low_samples: 0,
                high_samples: 0,
                active: false,
            }),
    {
        DebouncedActiveLow {
            required_samples: if required_samples == 0 {
                1
            } else {
                required_samples
            },
            low_samples: 0,
            high_samples: 0,
            active: false,
        }
    }

    pub fn active(self) -> (r: bool)
        ensures
            r == self.active,
    {
        self.active
    }

    pub fn update(&mut self, pin_is_low: bool) -> (r: bool)
        ensures
            *final(self) == old(self).sampled(pin_is_low),
            r == final(self).active,
    {
        if pin_is_low {
            self.high_samples = 0;
            self.low_samples = self.low_samples.saturating_add(1);
            if self.low_samples >= self.required_samples {
                self.active = true;
            }
        } else {
            self.low_samples = 0;
            self.high_samples = self.high_samples.saturating_add(1);
            if self.high_samples >= self.required_samples {
                self.active = false;
            }
        }
        self.active
    }
}

/// A run of equal samples settles the input once it has the required length,
/// and changes nothing before. The run starts after an opposite sample, which
/// is when the matching counter is zero.
pub proof fn law_input_settles_after_the_required_run(
    input: DebouncedActiveLow,
    pin_is_low: bool,
    samples: nat,
)
    requires
        input.required_samples > 0,
        pin_is_low ==> input.low_samples == 0,
        !pin_is_low ==> input.high_samples == 0,
    ensures
        samples < input.required_samples ==> input.after_run(pin_is_low, samples).active
            == input.active,
        samples >= input.required_samples ==> input.after_run(pin_is_low, samples).active
            == pin_is_low,
        input.after_run(pin_is_low, samples).required_samples == input.required_samples,
        ({
            let after = input.after_run(pin_is_low, samples);
            let run = if pin_is_low {
                after.low_samples
            } else {
                after.high_samples
            };
            run == arith::min(samples as int, u8::MAX as int)
        }),
    decreases samples,
{
    if samples > 0 {
        law_input_settles_after_the_required_run(input, pin_is_low, (samples - 1) as nat);
    }
}

} // verus!
