//! Local-throttle ride authority and Hall-progress lifecycle.
use vstd::prelude::*;

use crate::arith;
use crate::f103::config::RIDE_PHASE_CURRENT_LIMIT_COUNTS;
use crate::f103::sensors::throttle::{
    Demand, Observation as ThrottleObservation,
};

verus! {

pub const OUTPUT_LEASE_CYCLES: u32 = 160;

pub const STARTUP_HALL_TIMEOUT_MS: u32 = 500;

pub const STARTUP_TIMEOUT_MS: u32 = 2_000;

pub const STARTUP_FORWARD_TRANSITIONS: i32 = 12;

pub const MINIMUM_HALL_TIMEOUT_MS: u32 = 100;

pub const MAXIMUM_HALL_TIMEOUT_MS: u32 = 500;

pub const HALL_ENTRY_MAXIMUM_ERPM: u32 = 2_500;

#[derive(Clone, Copy, Debug, Default, Eq, PartialEq, Structural)]
pub enum Stage {
    #[default]
    Disarmed,
    Ready,
    AwaitingFirstEdge,
    StartupTracking,
    Tracking,
    Coasting,
}

impl Stage {
    /// Number of the stage in telemetry.
    pub open spec fn number(self) -> u8 {
        match self {
            Stage::Disarmed => 0,
            Stage::Ready => 1,
            Stage::AwaitingFirstEdge => 2,
            Stage::StartupTracking => 3,
            Stage::Tracking => 4,
            Stage::Coasting => 5,
        }
    }

    pub fn code(self) -> (r: u8)
        ensures
            r == self.number(),
    {
        match self {
            Stage::Disarmed => 0,
            Stage::Ready => 1,
            Stage::AwaitingFirstEdge => 2,
            Stage::StartupTracking => 3,
            Stage::Tracking => 4,
            Stage::Coasting => 5,
        }
    }
}

#[derive(Clone, Copy, Debug, Eq, PartialEq)]
pub struct Observation {
    pub now_ms: u32,
    pub throttle: ThrottleObservation,
    pub brake_active: bool,
    pub environment_dc_limit_counts: Option<u16>,
    pub hall_valid: bool,
    pub current_valid: bool,
    pub fault_flags: u32,
    pub safety_events: u32,
    pub hall_sequence: u32,
    pub hall_progress: i32,
    pub hall_interval_us: u32,
    pub electrical_rpm: i32,
}

impl Observation {
    /// DC current that the environment grants.
    pub open spec fn dc_limit(self) -> u16 {
        match self.environment_dc_limit_counts {
            Some(limit) => limit,
            None => 0,
        }
    }

    /// Slow enough to enter or leave Hall control.
    pub open spec fn is_slow(self) -> bool {
        arith::abs(self.electrical_rpm as int) <= HALL_ENTRY_MAXIMUM_ERPM
    }
}

#[derive(Clone, Copy, Debug, Default, Eq, PartialEq, Structural)]
pub struct Command {
    pub energize: bool,
    pub acknowledge_faults: bool,
    pub target_q_counts: i16,
    pub dc_current_limit_counts: u16,
    pub stage: Stage,
}

impl Command {
    /// No authority, in a given stage.
    pub open spec fn idle(stage: Stage) -> Self {
        Command {
            energize: false,
            acknowledge_faults: false,
            target_q_counts: 0,
            dc_current_limit_counts: 0,
            stage,
        }
    }

    /// Authority for a target.
    pub open spec fn drive(target_q_counts: int, dc_limit: u16, stage: Stage) -> Self {
        Command {
            energize: true,
            acknowledge_faults: false,
            target_q_counts: target_q_counts as i16,
            dc_current_limit_counts: dc_limit,
            stage,
        }
    }

    /// Authority for a throttle demand.
    pub open spec fn follow(demand: Demand, dc_limit: u16, stage: Stage) -> Self {
        Command::drive(
            demand.forward_target(RIDE_PHASE_CURRENT_LIMIT_COUNTS as int),
            dc_limit,
            stage,
        )
    }

    /// The command that withdraws all authority.
    pub fn off() -> (r: Self)
        ensures
            r == Command::idle(Stage::Disarmed),
    {
        waiting_command(Stage::Disarmed)
    }
}

#[derive(Clone, Copy, Debug, Eq, PartialEq, Structural)]
pub struct Run {
    pub stage: Stage,
    pub startup_deadline_ms: u32,
    pub hall_deadline_ms: u32,
    pub last_hall_sequence: u32,
    pub starting_hall_progress: i32,
}

impl Run {
    /// A run that starts with an observation.
    pub open spec fn begun(o: Observation) -> Self {
        Run {
            stage: Stage::AwaitingFirstEdge,
            startup_deadline_ms: arith::wrap_u32(o.now_ms + STARTUP_TIMEOUT_MS) as u32,
            hall_deadline_ms: arith::wrap_u32(o.now_ms + STARTUP_HALL_TIMEOUT_MS) as u32,
            last_hall_sequence: o.hall_sequence,
            starting_hall_progress: o.hall_progress,
        }
    }

    /// The run has not reached tracking yet.
    pub open spec fn is_starting(self) -> bool {
        self.stage == Stage::AwaitingFirstEdge || self.stage == Stage::StartupTracking
    }

    /// Net forward transitions since the run began.
    pub open spec fn progress(self, o: Observation) -> int {
        arith::wrap_i32(o.hall_progress - self.starting_hall_progress)
    }

    /// The run with a new Hall edge taken into account: the edge renews the
    /// Hall deadline, the first one starts tracking, and enough net forward
    /// transitions complete the startup.
    pub open spec fn advanced(self, o: Observation) -> Self {
        if o.hall_sequence == self.last_hall_sequence {
            self
        } else {
            let first_edge = self.stage == Stage::AwaitingFirstEdge;
            let reached_stage = if first_edge {
                Stage::StartupTracking
            } else {
                self.stage
            };
            Run {
                last_hall_sequence: o.hall_sequence,
                hall_deadline_ms: arith::wrap_u32(
                    o.now_ms + (if first_edge {
                        STARTUP_HALL_TIMEOUT_MS as int
                    } else {
                        timeout_for(o.hall_interval_us as int)
                    }),
                ) as u32,
                stage: if reached_stage == Stage::StartupTracking && self.progress(o)
                    >= STARTUP_FORWARD_TRANSITIONS {
                    Stage::Tracking
                } else {
                    reached_stage
                },
                ..self
            }
        }
    }

    /// The run has no time left. Reversing a rolling wheel necessarily has a
    /// no-edge interval at zero speed, so only the startup deadline counts while
    /// the net progress is backward.
    pub open spec fn timed_out(self, o: Observation) -> bool {
        let hall = reached(o.now_ms as int, self.hall_deadline_ms as int);
        let startup = reached(o.now_ms as int, self.startup_deadline_ms as int);
        match self.stage {
            Stage::AwaitingFirstEdge => hall || startup,
            Stage::StartupTracking => startup || (self.progress(o) >= 0 && hall),
            Stage::Tracking => hall,
            Stage::Coasting => hall,
            Stage::Disarmed => true,
            Stage::Ready => true,
        }
    }
}

/// A wrapping clock has reached a deadline.
pub open spec fn reached(now: int, deadline: int) -> bool {
    arith::wrap_u32(now - deadline) < 0x8000_0000
}

/// Twice the sector interval in whole milliseconds, within bounds.
pub open spec fn timeout_for(interval_us: int) -> int {
    arith::clamp(
        2 * (arith::sat_u32(interval_us + 999) / 1_000),
        MINIMUM_HALL_TIMEOUT_MS as int,
        MAXIMUM_HALL_TIMEOUT_MS as int,
    )
}

#[derive(Clone, Copy, Debug, Eq, PartialEq, Structural)]
pub enum State {
    Disarmed,
    Ready,
    Active(Run),
}

#[derive(Clone, Copy, Debug, Eq, PartialEq, Structural)]
pub struct RideController {
    pub state: State,
    pub observed_safety_events: u32,
}

/// What a ready controller does: it starts a run on demand at low speed.
pub open spec fn ready_outcome(o: Observation) -> (State, Command) {
    match o.throttle.requested() {
        None => if o.throttle.state is AtRest {
            (State::Ready, Command::idle(Stage::Ready))
        } else {
            (State::Disarmed, Command::idle(Stage::Disarmed))
        },
        Some(demand) => if o.is_slow() {
            (
                State::Active(Run::begun(o)),
                Command::follow(demand, o.dc_limit(), Stage::AwaitingFirstEdge),
            )
        } else {
            (State::Ready, Command::idle(Stage::Ready))
        },
    }
}

/// What a running controller does: it follows demand, coasts without current
/// at speed, and disarms when the rider lets go at low speed or during startup,
/// or when time runs out.
pub open spec fn active_outcome(run: Run, o: Observation) -> (State, Command) {
    let disarm = (State::Disarmed, Command::idle(Stage::Disarmed));
    let demand = o.throttle.requested();
    let next = run.advanced(o);
    if run.is_starting() && demand is None {
        disarm
    } else if next.timed_out(o) {
        disarm
    } else {
        match demand {
            Some(demand) => {
                let stage = if next.stage == Stage::Coasting {
                    Stage::Tracking
                } else {
                    next.stage
                };
                (
                    State::Active(Run { stage, ..next }),
                    Command::follow(demand, o.dc_limit(), stage),
                )
            },
            None => if o.is_slow() {
                disarm
            } else {
                (
                    State::Active(Run { stage: Stage::Coasting, ..next }),
                    Command::drive(0, o.dc_limit(), Stage::Coasting),
                )
            },
        }
    }
}

impl RideController {
    /// Nothing in an observation forbids driving.
    pub open spec fn permits(self, o: Observation) -> bool {
        &&& o.fault_flags == 0
        &&& !o.brake_active
        &&& !(o.throttle.state is Invalid)
        &&& o.safety_events == self.observed_safety_events
        &&& o.hall_valid
        &&& o.current_valid
        &&& o.dc_limit() != 0
    }

    /// State and command that follow from an observation.
    pub open spec fn outcome(self, o: Observation) -> (State, Command) {
        if o.fault_flags != 0 {
            (
                State::Disarmed,
                Command {
                    acknowledge_faults: o.throttle.state is AtRest,
                    ..Command::idle(Stage::Disarmed)
                },
            )
        } else if !self.permits(o) {
            (State::Disarmed, Command::idle(Stage::Disarmed))
        } else {
            match self.state {
                State::Disarmed => if o.throttle.state is AtRest {
                    (State::Ready, Command::idle(Stage::Ready))
                } else {
                    (State::Disarmed, Command::idle(Stage::Disarmed))
                },
                State::Ready => ready_outcome(o),
                State::Active(run) => active_outcome(run, o),
            }
        }
    }

    /// The controller after an observation.
    pub open spec fn after(self, o: Observation) -> Self {
        RideController { state: self.outcome(o).0, observed_safety_events: o.safety_events }
    }

    pub fn new(initial_safety_events: u32) -> (r: Self)
        ensures
            r == (RideController {
                state: State::Disarmed,
                observed_safety_events: initial_safety_events,
            }),
    {
        RideController { state: State::Disarmed, observed_safety_events: initial_safety_events }
    }

    pub fn stage(&self) -> (r: Stage)
        ensures
            r == (match self.state {
                State::Disarmed => Stage::Disarmed,
                State::Ready => Stage::Ready,
                State::Active(run) => run.stage,
            }),
    {
        match self.state {
            State::Disarmed => Stage::Disarmed,
            State::Ready => Stage::Ready,
            State::Active(run) => run.stage,
        }
    }

    pub fn update(&mut self, observation: Observation) -> (r: Command)
        ensures
            r == old(self).outcome(observation).1,
            *final(self) == old(self).after(observation),
    {
        let safety_event: bool = observation.safety_events != self.observed_safety_events;
        self.observed_safety_events = observation.safety_events;
        if observation.fault_flags != 0 {
            self.state = State::Disarmed;
            let mut command = Command::off();
            command.acknowledge_faults = observation.throttle.is_valid()
                && observation.throttle.is_at_rest();
            return command;
        }
        let environment_limit: u16 = match observation.environment_dc_limit_counts {
            Some(limit) => limit,
            None => 0,
        };
        let safety_ready: bool = !safety_event && observation.hall_valid
            && observation.current_valid && environment_limit != 0;
        if observation.brake_active || !observation.throttle.is_valid() || !safety_ready {
            self.state = State::Disarmed;
            return Command::off();
        }
        match self.state {
            State::Disarmed => {
                if observation.throttle.is_at_rest() {
                    self.state = State::Ready;
                    waiting_command(Stage::Ready)
                } else {
                    Command::off()
                }
            },
            State::Ready => self.update_ready(observation, environment_limit),
            State::Active(run) => self.update_active(run, observation, environment_limit),
        }
    }

    fn update_ready(&mut self, observation: Observation, environment_limit: u16) -> (r: Command)
        requires
            old(self).state == State::Ready,
            environment_limit == observation.dc_limit(),
        ensures
            r == ready_outcome(observation).1,
            *final(self) == (RideController {
                state: ready_outcome(observation).0,
                ..*old(self)
            }),
    {
        let demand = match observation.throttle.demand() {
            Some(demand) => demand,
            None => {
                if !observation.throttle.is_at_rest() {
                    self.state = State::Disarmed;
                    return Command::off();
                }
                return waiting_command(Stage::Ready);
            },
        };
        if arith::unsigned_abs_i32(observation.electrical_rpm) > HALL_ENTRY_MAXIMUM_ERPM {
            return waiting_command(Stage::Ready);
        }
        let run = Run {
            stage: Stage::AwaitingFirstEdge,
            startup_deadline_ms: observation.now_ms.wrapping_add(STARTUP_TIMEOUT_MS),
            hall_deadline_ms: observation.now_ms.wrapping_add(STARTUP_HALL_TIMEOUT_MS),
            last_hall_sequence: observation.hall_sequence,
            starting_hall_progress: observation.hall_progress,
        };
        self.state = State::Active(run);
        active_command(
            demand.negative_q_target(RIDE_PHASE_CURRENT_LIMIT_COUNTS),
            environment_limit,
            run.stage,
        )
    }

    fn update_active(
        &mut self,
        run: Run,
        observation: Observation,
        environment_limit: u16,
    ) -> (r: Command)
        requires
            environment_limit == observation.dc_limit(),
        ensures
            r == active_outcome(run, observation).1,
            *final(self) == (RideController {
                state: active_outcome(run, observation).0,
                ..*old(self)
            }),
    {
        let demand = observation.throttle.demand();
        if matches!(run.stage, Stage::AwaitingFirstEdge | Stage::StartupTracking)
            && demand.is_none() {
            self.state = State::Disarmed;
            return Command::off();
        }
        let startup_progress: i32 = arith::wrapping_sub_i32(
            observation.hall_progress,
            run.starting_hall_progress,
        );
        let mut run = advance_run(run, observation, startup_progress);
        let hall_overdue: bool = deadline_reached(observation.now_ms, run.hall_deadline_ms);
        let startup_overdue: bool = deadline_reached(observation.now_ms, run.startup_deadline_ms);
        let timed_out: bool = match run.stage {
            Stage::AwaitingFirstEdge => hall_overdue || startup_overdue,
            Stage::StartupTracking => startup_overdue || (startup_progress >= 0 && hall_overdue),
            Stage::Tracking | Stage::Coasting => hall_overdue,
            Stage::Disarmed | Stage::Ready => true,
        };
        if timed_out {
            self.state = State::Disarmed;
            return Command::off();
        }
        match demand {
            None => {
                if arith::unsigned_abs_i32(observation.electrical_rpm) <= HALL_ENTRY_MAXIMUM_ERPM {
                    self.state = State::Disarmed;
                    Command::off()
                } else {
                    run.stage = Stage::Coasting;
                    self.state = State::Active(run);
                    active_command(0, environment_limit, Stage::Coasting)
                }
            },
            Some(demand) => {
                if matches!(run.stage, Stage::Coasting) {
                    run.stage = Stage::Tracking;
                }
                self.state = State::Active(run);
                active_command(
                    demand.negative_q_target(RIDE_PHASE_CURRENT_LIMIT_COUNTS),
                    environment_limit,
                    run.stage,
                )
            },
        }
    }
}

fn advance_run(run: Run, observation: Observation, startup_progress: i32) -> (r: Run)
    requires
        startup_progress == run.progress(observation),
    ensures
        r == run.advanced(observation),
{
    let mut next = run;
    if observation.hall_sequence != run.last_hall_sequence {
        let first_edge: bool = matches!(run.stage, Stage::AwaitingFirstEdge);
        next.last_hall_sequence = observation.hall_sequence;
        next.hall_deadline_ms = observation.now_ms.wrapping_add(
            if first_edge {
                STARTUP_HALL_TIMEOUT_MS
            } else {
                hall_timeout_ms(observation.hall_interval_us)
            },
        );
        if first_edge {
            next.stage = Stage::StartupTracking;
        }
        if matches!(next.stage, Stage::StartupTracking) && startup_progress
            >= STARTUP_FORWARD_TRANSITIONS {
            next.stage = Stage::Tracking;
        }
    }
    next
}

fn waiting_command(stage: Stage) -> (r: Command)
    ensures
        r == Command::idle(stage),
{
    Command {
        energize: false,
        acknowledge_faults: false,
        target_q_counts: 0,
        dc_current_limit_counts: 0,
        stage,
    }
}

fn active_command(target_q_counts: i16, environment_limit: u16, stage: Stage) -> (r: Command)
    ensures
        r == Command::drive(target_q_counts as int, environment_limit, stage),
{
    Command {
        energize: true,
        acknowledge_faults: false,
        target_q_counts,
        dc_current_limit_counts: environment_limit,
        stage,
    }
}

pub fn hall_timeout_ms(interval_us: u32) -> (r: u32)
    ensures
        r == timeout_for(interval_us as int),
{
    let interval_ms: u32 = interval_us.saturating_add(999) / 1_000;
    let timeout: u32 = interval_ms * 2;
    if timeout < MINIMUM_HALL_TIMEOUT_MS {
        MINIMUM_HALL_TIMEOUT_MS
    } else if timeout > MAXIMUM_HALL_TIMEOUT_MS {
        MAXIMUM_HALL_TIMEOUT_MS
    } else {
        timeout
    }
}

fn deadline_reached(now: u32, deadline: u32) -> (r: bool)
    ensures
        r == reached(now as int, deadline as int),
{
    now.wrapping_sub(deadline) < 0x8000_0000
}

/// Authority is granted only to an armed controller, with no fault, no brake, a
/// plausible throttle, no new safety event, valid Hall and current sensing, and
/// a DC limit to stay under.
pub proof fn law_authority_needs_every_condition(controller: RideController, o: Observation)
    requires
        controller.outcome(o).1.energize,
    ensures
        controller.permits(o),
        !(controller.state is Disarmed),
        controller.outcome(o).1.dc_current_limit_counts == o.dc_limit(),
        controller.outcome(o).0 is Active,
{
}

/// A disarmed controller becomes ready only at a valid rest, and never drives
/// before that.
pub proof fn law_disarmed_controller_needs_rest(controller: RideController, o: Observation)
    requires
        controller.state is Disarmed,
    ensures
        !controller.outcome(o).1.energize,
        controller.outcome(o).0 is Ready || controller.outcome(o).0 is Disarmed,
        controller.outcome(o).0 is Ready ==> o.throttle.state is AtRest,
{
}

/// Losing any condition disarms at once, whatever the controller was doing.
pub proof fn law_lost_condition_disarms(controller: RideController, o: Observation)
    requires
        !controller.permits(o),
    ensures
        controller.outcome(o).0 is Disarmed,
        !controller.outcome(o).1.energize,
        controller.outcome(o).1.target_q_counts == 0,
        controller.outcome(o).1.dc_current_limit_counts == 0,
{
}

/// Faults are acknowledged only while one is latched and the throttle is at a
/// valid rest, and never together with authority.
pub proof fn law_faults_are_acknowledged_only_at_rest(controller: RideController, o: Observation)
    ensures
        controller.outcome(o).1.acknowledge_faults <==> (o.fault_flags != 0
            && o.throttle.state is AtRest),
        controller.outcome(o).1.acknowledge_faults ==> !controller.outcome(o).1.energize,
{
}

/// Targets are forward and within the ride limit; without authority there is no
/// target.
pub proof fn law_target_is_forward_and_limited(controller: RideController, o: Observation)
    requires
        o.throttle.wf(),
    ensures
        -RIDE_PHASE_CURRENT_LIMIT_COUNTS <= controller.outcome(o).1.target_q_counts <= 0,
        !controller.outcome(o).1.energize ==> controller.outcome(o).1.target_q_counts == 0,
{
    if o.throttle.requested() is Some {
        crate::f103::sensors::throttle::law_target_stays_within_the_limit(
            o.throttle.requested()->0,
            RIDE_PHASE_CURRENT_LIMIT_COUNTS,
        );
    }
}

/// Startup ends in tracking only after the required net forward transitions.
pub proof fn law_tracking_needs_forward_progress(run: Run, o: Observation)
    requires
        run.is_starting(),
        run.advanced(o).stage == Stage::Tracking,
    ensures
        run.progress(o) >= STARTUP_FORWARD_TRANSITIONS,
{
}

/// A run that is still starting at its startup deadline is stopped, even while
/// it rolls backward.
pub proof fn law_startup_is_bounded(run: Run, o: Observation)
    requires
        run.advanced(o).is_starting(),
        reached(o.now_ms as int, run.startup_deadline_ms as int),
    ensures
        active_outcome(run, o).0 is Disarmed,
        !active_outcome(run, o).1.energize,
{
}

/// A Hall timeout lies between its bounds.
pub proof fn law_hall_timeout_is_bounded(interval_us: u32)
    ensures
        MINIMUM_HALL_TIMEOUT_MS <= timeout_for(interval_us as int) <= MAXIMUM_HALL_TIMEOUT_MS,
{
}

/// A demand is answered: while nothing forbids driving and no deadline has
/// passed, a running controller drives with the demand's own forward target under
/// the granted limit, also when it was coasting. A new Hall edge renews the Hall
/// deadline, so with one only the startup deadline can end the run.
pub proof fn law_demand_is_answered(controller: RideController, run: Run, o: Observation)
    requires
        controller.state == State::Active(run),
        controller.permits(o),
        o.throttle.requested() is Some,
        run.is_starting() || run.stage == Stage::Tracking || run.stage == Stage::Coasting,
        o.hall_sequence == run.last_hall_sequence ==> !reached(
            o.now_ms as int,
            run.hall_deadline_ms as int,
        ),
        run.is_starting() ==> !reached(o.now_ms as int, run.startup_deadline_ms as int),
    ensures
        ({
            let (state, command) = controller.outcome(o);
            &&& command.energize
            &&& command.target_q_counts == o.throttle.requested()->0.forward_target(
                RIDE_PHASE_CURRENT_LIMIT_COUNTS as int,
            )
            &&& command.dc_current_limit_counts == o.environment_dc_limit_counts->0
            &&& command.stage != Stage::Coasting
            &&& state is Active
            &&& state->Active_0.stage == command.stage
            &&& !run.is_starting() ==> command.stage == Stage::Tracking
        }),
{
    let demand = o.throttle.requested()->0;
    assert(0 <= demand.0 * 838 <= 255 * 838);
}

/// Letting go while running: at speed the controller coasts with the output on
/// and no target, ready to resume, and at low speed or before tracking it
/// disarms.
pub proof fn law_release_coasts_or_disarms(controller: RideController, run: Run, o: Observation)
    requires
        controller.state == State::Active(run),
        controller.permits(o),
        o.throttle.requested() is None,
    ensures
        ({
            let (state, command) = controller.outcome(o);
            let overdue = o.hall_sequence == run.last_hall_sequence && reached(
                o.now_ms as int,
                run.hall_deadline_ms as int,
            );
            let rolling = run.stage == Stage::Tracking || run.stage == Stage::Coasting;
            let fast = o.electrical_rpm > 2_500 || o.electrical_rpm < -2_500;
            &&& rolling && fast && !overdue ==> {
                &&& command == Command {
                    energize: true,
                    acknowledge_faults: false,
                    target_q_counts: 0,
                    dc_current_limit_counts: o.environment_dc_limit_counts->0,
                    stage: Stage::Coasting,
                }
                &&& state is Active
                &&& state->Active_0.stage == Stage::Coasting
            }
            &&& run.is_starting() || !fast || overdue ==> {
                &&& state is Disarmed
                &&& !command.energize
                &&& command.target_q_counts == 0
            }
        }),
{
}

/// Without a Hall edge a run ends at its Hall deadline, whatever the rider asks;
/// only a startup that rolls backward waits for the startup deadline.
pub proof fn law_missing_edges_end_the_run(controller: RideController, run: Run, o: Observation)
    requires
        controller.state == State::Active(run),
        o.hall_sequence == run.last_hall_sequence,
        reached(o.now_ms as int, run.hall_deadline_ms as int),
        run.stage == Stage::StartupTracking ==> run.progress(o) >= 0,
    ensures
        controller.outcome(o).0 is Disarmed,
        !controller.outcome(o).1.energize,
{
}

/// A throttle at rest arms a permitted controller, and a demand at low speed then
/// starts a run: it drives at once, and has half a second for its first edge and
/// two seconds to get going. At speed the controller waits.
pub proof fn law_rest_arms_and_demand_starts(controller: RideController, o: Observation)
    requires
        controller.permits(o),
    ensures
        controller.state is Disarmed && o.throttle.state is AtRest ==> controller.outcome(o).0
            is Ready && controller.outcome(o).1.stage == Stage::Ready,
        controller.state is Ready && o.throttle.state is AtRest ==> controller.outcome(o).0
            is Ready,
        controller.state is Ready && o.throttle.requested() is Some ==> ({
            let (state, command) = controller.outcome(o);
            let slow = -2_500 <= o.electrical_rpm <= 2_500;
            let run = state->Active_0;
            &&& !slow ==> state is Ready && !command.energize
            &&& slow ==> {
                &&& state is Active
                &&& command.energize
                &&& command.stage == Stage::AwaitingFirstEdge
                &&& command.target_q_counts == o.throttle.requested()->0.forward_target(
                    RIDE_PHASE_CURRENT_LIMIT_COUNTS as int,
                )
                &&& command.dc_current_limit_counts == o.environment_dc_limit_counts->0
                &&& run.stage == Stage::AwaitingFirstEdge
                &&& run.last_hall_sequence == o.hall_sequence
                &&& run.starting_hall_progress == o.hall_progress
                &&& forall|elapsed: int|
                    0 <= elapsed < 0x8000_0000 ==> (#[trigger] reached(
                        o.now_ms + elapsed,
                        run.hall_deadline_ms as int,
                    ) <==> elapsed >= 500)
                &&& forall|elapsed: int|
                    0 <= elapsed < 0x8000_0000 ==> (#[trigger] reached(
                        o.now_ms + elapsed,
                        run.startup_deadline_ms as int,
                    ) <==> elapsed >= 2_000)
            }
        }),
        controller.after(o).observed_safety_events == o.safety_events,
{
    if o.throttle.requested() is Some {
        let demand = o.throttle.requested()->0;
        assert(0 <= demand.0 * 838 <= 255 * 838);
    }
}

/// An edge renews the Hall deadline: to half a second after the first one, and
/// to twice the sector time after a later one, in whole milliseconds between a
/// tenth and half a second. The edge never changes the startup deadline or where
/// the run began.
pub proof fn law_edge_renews_the_hall_deadline(run: Run, o: Observation, elapsed: int)
    requires
        o.hall_sequence != run.last_hall_sequence,
        0 <= elapsed < 0x8000_0000,
    ensures
        ({
            let next = run.advanced(o);
            let overdue = reached(o.now_ms + elapsed, next.hall_deadline_ms as int);
            &&& run.stage == Stage::AwaitingFirstEdge ==> (overdue <==> elapsed >= 500)
            &&& run.stage != Stage::AwaitingFirstEdge ==> {
                &&& elapsed < 100 ==> !overdue
                &&& elapsed >= 500 ==> overdue
                &&& 100 <= elapsed < 500 && 1_000 * elapsed < 2 * o.hall_interval_us ==> !overdue
                &&& 100 <= elapsed < 500 && 1_000 * elapsed >= 2 * o.hall_interval_us + 2_000
                    ==> overdue
            }
            &&& next.last_hall_sequence == o.hall_sequence
            &&& next.startup_deadline_ms == run.startup_deadline_ms
            &&& next.starting_hall_progress == run.starting_hall_progress
        }),
{
}

/// Startup follows the edges: the first leads to startup tracking, the twelfth
/// net forward transition to tracking, and nothing else changes the stage.
pub proof fn law_startup_follows_the_edges(run: Run, o: Observation)
    requires
        -12 <= o.hall_progress - run.starting_hall_progress <= 0x7fff_ffff,
    ensures
        ({
            let next = run.advanced(o).stage;
            let edge = o.hall_sequence != run.last_hall_sequence;
            let forward = o.hall_progress - run.starting_hall_progress;
            &&& !edge ==> run.advanced(o) == run
            &&& edge && run.is_starting() && forward >= 12 ==> next == Stage::Tracking
            &&& edge && run.is_starting() && forward < 12 ==> next == Stage::StartupTracking
            &&& !run.is_starting() ==> next == run.stage
        }),
{
}

/// The numbers of the stages follow a ride: none while disarmed, and one more with
/// every step from there to coasting.
pub proof fn law_stage_numbers_follow_a_ride(stage: Stage, other: Stage)
    ensures
        stage.number() == other.number() ==> stage == other,
        Stage::Disarmed.number() == 0,
        Stage::Ready.number() == Stage::Disarmed.number() + 1,
        Stage::AwaitingFirstEdge.number() == Stage::Ready.number() + 1,
        Stage::StartupTracking.number() == Stage::AwaitingFirstEdge.number() + 1,
        Stage::Tracking.number() == Stage::StartupTracking.number() + 1,
        Stage::Coasting.number() == Stage::Tracking.number() + 1,
{
}

/// A wheel that still rolls backward keeps its start alive: while the net progress
/// is backward a missing edge does not end the run, and only the startup deadline
/// does.
pub proof fn law_backward_roll_waits_for_the_startup_deadline(
    controller: RideController,
    run: Run,
    o: Observation,
)
    requires
        controller.state == State::Active(run),
        controller.permits(o),
        o.throttle.requested() is Some,
        run.stage == Stage::StartupTracking,
        o.hall_sequence == run.last_hall_sequence,
        -0x8000_0000 <= o.hall_progress - run.starting_hall_progress < 0,
    ensures
        ({
            let (state, command) = controller.outcome(o);
            let overdue = reached(o.now_ms as int, run.startup_deadline_ms as int);
            &&& command.energize <==> !overdue
            &&& !overdue ==> state == State::Active(run) && command.stage == Stage::StartupTracking
            &&& overdue ==> state is Disarmed
        }),
{
}

} // verus!
