//! Decisions of the foreground loop.
use vstd::prelude::*;

use crate::arith;
use crate::f103::control::foc;
use crate::f103::control::foc::{authorize_ride_target, revoke_ride_authority, ControlRuntime};
use crate::f103::control::ride;
use crate::f103::control::ride::{Command, Observation};
use crate::f103::safety::watchdog_progressed;
use crate::f103::sensors::analog;
use crate::f103::sensors::environment::RawLocalSensors;
use crate::f103::sensors::wheel;

verus! {

pub const WATCHDOG_FEED_PERIOD_MS: u32 = 10;

/// Local sensor readings that the environment monitor judges.
pub fn local_sensors(inputs: &analog::Snapshot) -> (r: RawLocalSensors)
    ensures
        r == (RawLocalSensors {
            valid: inputs.analog_valid,
            bus_voltage_adc: inputs.bus_voltage_adc,
            motor_temperature_adc: inputs.motor_temperature_adc,
            controller_temperature_adc: inputs.controller_temperature_adc,
        }),
{
    RawLocalSensors {
        valid: inputs.analog_valid,
        bus_voltage_adc: inputs.bus_voltage_adc,
        motor_temperature_adc: inputs.motor_temperature_adc,
        controller_temperature_adc: inputs.controller_temperature_adc,
    }
}

/// What the ride state machine is told in one millisecond.
pub fn ride_observation(
    now_ms: u32,
    inputs: &analog::Snapshot,
    environment_limit: Option<u16>,
    control: &foc::Snapshot,
) -> (r: Observation)
    ensures
        r == (Observation {
            now_ms,
            throttle: inputs.throttle,
            brake_active: inputs.brake_active,
            environment_dc_limit_counts: environment_limit,
            hall_valid: control.hall_valid,
            current_valid: control.current_valid,
            fault_flags: control.fault_flags,
            safety_events: control.safety_events,
            hall_sequence: control.hall_sequence,
            hall_progress: control.hall_progress,
            hall_interval_us: control.hall_interval_us,
            electrical_rpm: control.electrical_rpm,
        }),
{
    Observation {
        now_ms,
        throttle: inputs.throttle,
        brake_active: inputs.brake_active,
        environment_dc_limit_counts: environment_limit,
        hall_valid: control.hall_valid,
        current_valid: control.current_valid,
        fault_flags: control.fault_flags,
        safety_events: control.safety_events,
        hall_sequence: control.hall_sequence,
        hall_progress: control.hall_progress,
        hall_interval_us: control.hall_interval_us,
        electrical_rpm: control.electrical_rpm,
    }
}

/// The runtime once a ride command has authority for the present safety epoch,
/// or has none.
pub open spec fn commanded(
    runtime: ControlRuntime,
    command: Command,
    safety_events: u32,
) -> ControlRuntime {
    ControlRuntime {
        mailbox: if command.energize {
            runtime.mailbox.authorized(
                command.target_q_counts,
                command.dc_current_limit_counts,
                ride::OUTPUT_LEASE_CYCLES,
                safety_events,
            )
        } else {
            runtime.mailbox.revoked()
        },
        ..runtime
    }
}

/// Passes a ride command on. Faults are acknowledged only after the authority
/// is gone and with the break input inactive; says whether they were.
pub fn apply_command(
    runtime: &mut ControlRuntime,
    command: &Command,
    safety_events: u32,
    break_active: bool,
) -> (r: bool)
    requires
        old(runtime).wf(),
    ensures
        final(runtime).wf(),
        r == (command.acknowledge_faults && !command.energize && !break_active),
        commanded(*old(runtime), *command, safety_events).acknowledged(r, *final(runtime)),
{
    if command.energize {
        authorize_ride_target(
            &mut runtime.mailbox,
            command.target_q_counts,
            command.dc_current_limit_counts,
            ride::OUTPUT_LEASE_CYCLES,
            safety_events,
        );
        return false;
    }
    revoke_ride_authority(&mut runtime.mailbox);
    command.acknowledge_faults && runtime.acknowledge_faults(break_active)
}

/// Progress of the control interrupt at the last watchdog feed.
#[derive(Clone, Copy, Debug, Eq, PartialEq, Structural)]
pub struct FeedGate {
    pub last_feed_ms: u32,
    pub last_control_cycles: u32,
    pub last_injected_samples: u32,
}

impl FeedGate {
    /// The watchdog may be fed: the period is over and the control cycle has
    /// moved on, with the current sampling or latched safely off.
    pub open spec fn opens(
        self,
        now_ms: u32,
        control_cycles: u32,
        injected_samples: u32,
        latched_safe_off: bool,
    ) -> bool {
        &&& arith::wrap_u32(now_ms - self.last_feed_ms) >= WATCHDOG_FEED_PERIOD_MS
        &&& control_cycles != self.last_control_cycles
        &&& injected_samples != self.last_injected_samples || latched_safe_off
    }

    pub fn new(control_cycles: u32, injected_samples: u32) -> (r: Self)
        ensures
            r == (FeedGate {
                last_feed_ms: 0,
                last_control_cycles: control_cycles,
                last_injected_samples: injected_samples,
            }),
    {
        FeedGate {
            last_feed_ms: 0,
            last_control_cycles: control_cycles,
            last_injected_samples: injected_samples,
        }
    }

    /// Says whether the watchdog is to be fed, and remembers the progress if it
    /// is.
    pub fn pass(
        &mut self,
        now_ms: u32,
        control_cycles: u32,
        injected_samples: u32,
        latched_safe_off: bool,
    ) -> (r: bool)
        ensures
            r == old(self).opens(now_ms, control_cycles, injected_samples, latched_safe_off),
            *final(self) == (if r {
                FeedGate {
                    last_feed_ms: now_ms,
                    last_control_cycles: control_cycles,
                    last_injected_samples: injected_samples,
                }
            } else {
                *old(self)
            }),
    {
        if now_ms.wrapping_sub(self.last_feed_ms) >= WATCHDOG_FEED_PERIOD_MS && watchdog_progressed(
            self.last_control_cycles,
            control_cycles,
            self.last_injected_samples,
            injected_samples,
            latched_safe_off,
        ) {
            self.last_feed_ms = now_ms;
            self.last_control_cycles = control_cycles;
            self.last_injected_samples = injected_samples;
            return true;
        }
        false
    }
}

/// A requested updater reset is carried out only with a quiet wheel and a
/// control loop that may be left; otherwise the request is discarded.
pub fn updater_reset_permitted(requested: bool, wheel: wheel::State, control_is_safe: bool) -> (r:
    bool)
    ensures
        r == (requested && wheel is Quiet && control_is_safe),
{
    requested && wheel.safe_for_update() && control_is_safe
}

/// No torque is authorized in the pass that acknowledges faults.
pub proof fn law_acknowledgement_leaves_no_authority(
    runtime: ControlRuntime,
    command: Command,
    safety_events: u32,
    after: ControlRuntime,
)
    requires
        !command.energize,
        commanded(runtime, command, safety_events).acknowledged(true, after),
    ensures
        !after.faults.is_set(),
        !after.commanded(),
        after.mailbox.target_q_counts == 0,
{
}

/// A stalled control interrupt starves the watchdog, however long the foreground
/// goes on. So does a stalled current sampling, unless a fault holds the outputs
/// safely off.
pub proof fn law_stalled_control_starves_the_watchdog(
    gate: FeedGate,
    now_ms: u32,
    control_cycles: u32,
    injected_samples: u32,
    latched_safe_off: bool,
)
    requires
        control_cycles == gate.last_control_cycles || (injected_samples
            == gate.last_injected_samples && !latched_safe_off),
    ensures
        !gate.opens(now_ms, control_cycles, injected_samples, latched_safe_off),
{
}

/// A latched fault alone does not end in a watchdog reset: as long as the control
/// interrupt runs and the outputs are verified off, every period feeds.
pub proof fn law_latched_safe_off_keeps_the_watchdog_fed(
    gate: FeedGate,
    now_ms: u32,
    control_cycles: u32,
    injected_samples: u32,
)
    requires
        control_cycles != gate.last_control_cycles,
        arith::wrap_u32(now_ms - gate.last_feed_ms) >= WATCHDOG_FEED_PERIOD_MS,
    ensures
        gate.opens(now_ms, control_cycles, injected_samples, true),
{
}

/// A running system is fed: once the period is over, progress of the control
/// interrupt together with the current sampling feeds the watchdog, and within
/// the period after a feed nothing does.
pub proof fn law_progress_feeds_the_watchdog(
    gate: FeedGate,
    now_ms: u32,
    control_cycles: u32,
    injected_samples: u32,
    latched_safe_off: bool,
)
    requires
        now_ms >= gate.last_feed_ms,
    ensures
        now_ms - gate.last_feed_ms >= 10 && control_cycles != gate.last_control_cycles
            && injected_samples != gate.last_injected_samples ==> gate.opens(
            now_ms,
            control_cycles,
            injected_samples,
            latched_safe_off,
        ),
        now_ms - gate.last_feed_ms < 10 ==> !gate.opens(
            now_ms,
            control_cycles,
            injected_samples,
            latched_safe_off,
        ),
{
}

/// A ride command reaches the control interrupt: with authority as a lease of 160
/// cycles for its own target and limit in the named epoch, without it as a
/// revocation.
pub proof fn law_command_reaches_the_control(
    runtime: ControlRuntime,
    command: Command,
    safety_events: u32,
)
    requires
        -838 <= command.target_q_counts <= 0,
        command.dc_current_limit_counts <= 480,
    ensures
        ({
            let next = commanded(runtime, command, safety_events);
            &&& next.mailbox.enabled == command.energize
            &&& command.energize ==> {
                &&& next.mailbox.target_q_counts == command.target_q_counts
                &&& next.mailbox.dc_current_limit_counts == command.dc_current_limit_counts
                &&& next.mailbox.safety_epoch == safety_events
                &&& arith::wrap_u32(next.mailbox.deadline - runtime.mailbox.control_cycle) == 160
            }
            &&& !command.energize ==> next.mailbox.target_q_counts == 0
                && next.mailbox.dc_current_limit_counts == 0
            &&& next.state == runtime.state
            &&& next.faults == runtime.faults
            &&& next.forensics == runtime.forensics
        }),
{
}

} // verus!
