# oxifoc

Field-oriented motor control for an STM32F103 controller, written in Verus. The
library in `src/` is the whole control path and its safety policy: every
function states what it computes, and the proofs show that it does so without
overflow or panic. The applications in `app/` are thin: they touch registers
and hand plain values to the library.

## Layout

- `src/arith.rs`: saturating, wrapping and rounding arithmetic.
- `src/foc/`: Q16.16 scalars, transforms, CORDIC, PI regulation, current and
  voltage circles, space-vector modulation, Hall and back-EMF phase estimation.
- `src/motor/`: the driver that joins phase, limits and regulation.
- `src/f103/`: board constants, ride policy, the stages of the 16 kHz control
  cycle, inputs, protection, reset forensics, CAN frames and their schedule.
- `src/calibration/`: resistance, inductance, flux and Hall sequences, their
  session and their CAN contract.
- `app/`: the ride and the calibration application, and a single-precision
  scalar backend.
- `tests/`: the library seen from outside.

## Reading the contracts

Units are those of the hardware: ADC counts, PWM ticks, Q16.16 words and Q0.32
turns. A state machine is specified by a spec function from state and input to
state and output, and each executable stage equals it. Properties that span
several functions stand beside them as proof functions named `law_*`; among
them are

- a voltage or current target never leaves its circle, and keeps its direction;
- rotating a vector to the rotor frame and back misses it by less than a count,
  at every angle;
- the compares of the modulator carry the commanded voltage to within two ticks,
  as long as none of them is at its limit;
- a Hall reversal within a run holds the center of the entered sector, a slow
  rotor stands at a sector center, and a refused edge revokes the angle;
- below the crossover band the Hall sensor is followed exactly, and an observer
  that disagrees by more than a quarter turn is never blended in;
- a safety loss revokes the authority that was granted before it, a lease ends
  on its own, a cycle over budget latches the outputs off, and acknowledging a
  fault leaves no authority;
- ride authority needs every condition, and a lost one needs a fresh rest of
  the throttle;
- a calibration routine runs only on a fresh arming with the challenge of its
  boot, and a failure switches it off at once.
