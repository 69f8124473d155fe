//! The steps from a set of elements to an observation.
//!
//! The propagator is not part of this crate. What is decided here is what
//! it is asked and what becomes of its answers: the caller runs it, tells
//! the outcome as an [`Event`], and does what the [`Action`] in reply says.
//! No position is ever handed out on the strength of anything but a
//! successful initialization followed by a successful computation.

use vstd::prelude::*;
use vstd::string::StringExecFns;
use crate::decimal::Decimal;
use crate::epoch::Timestamp;
use crate::sgp4::ConstantsSet;
use crate::sgp4::OpsMode;
use crate::sgp4::SGP4Error;
use crate::tle::TLE;

verus! {

/// What the propagator is initialized with. The angles are in degrees
/// and the mean motion is in revolutions per day, as the elements give
/// them; the propagator wants radians and radians per minute.
#[derive(Clone, Copy, Debug, PartialEq, Eq, Structural)]
pub struct PropagatorInput {
    /// The variant of the algorithm.
    pub mode: OpsMode,
    /// The set of gravitational constants.
    pub constants: ConstantsSet,
    /// The drag term.
    pub b_star: Decimal,
    /// The eccentricity.
    pub eccentricity: Decimal,
    /// The epoch of the elements.
    pub epoch: Timestamp,
    /// The argument of perigee.
    pub perigee: Decimal,
    /// The inclination.
    pub inclination: Decimal,
    /// The mean anomaly.
    pub mean_anomaly: Decimal,
    /// The mean motion.
    pub mean_motion: Decimal,
    /// The right ascension of the ascending node.
    pub right_ascension: Decimal,
}

/// How far the work on one observation has come.
#[derive(Clone, Copy, Debug, PartialEq, Eq, Structural)]
pub enum Stage {
    /// The propagator has been asked to initialize and has not answered.
    Initializing,
    /// The propagator is initialized, has been asked for the position and
    /// velocity, and has not answered.
    Computing,
    /// The observation has been handed out.
    Delivered,
    /// The propagator has failed, and the caller has been told so.
    Failed,
}

/// What the propagator answered.
#[derive(Clone, Copy, Debug, PartialEq, Eq, Structural)]
pub enum Event {
    /// The propagator is initialized.
    Initialized,
    /// The propagator could not be initialized.
    InitializationFailed(SGP4Error),
    /// The propagator has computed a position and a velocity.
    Computed,
    /// The propagator could not compute a position and a velocity.
    ComputationFailed(SGP4Error),
}

/// What the caller is to do next.
#[derive(Clone, Copy, Debug, PartialEq, Eq, Structural)]
pub enum Action {
    /// Ask the propagator for the position and velocity at this many
    /// seconds after the epoch of the elements.
    Compute(i64),
    /// Convert the position and velocity that the propagator computed
    /// from its own frame to the celestial one and hand them out as the
    /// observation, with brightness zero.
    Deliver,
    /// Report the failure of the propagator, and give the caller of the
    /// pipeline [`failure_message`] and nothing else.
    Fail(SGP4Error),
    /// The event is not an answer to what was asked. Nothing has changed.
    Ignore,
}

/// The work on one observation: of one satellite at one point in time.
#[derive(Clone, Copy, Debug, PartialEq, Eq, Structural)]
pub struct Observing {
    /// How far the work has come.
    pub stage: Stage,
    /// The seconds from the epoch of the elements to the time of the
    /// observation.
    pub elapsed_seconds: i64,
}

impl Observing {
    /// What follows from an event: the stage the work is in afterwards
    /// and what the caller is to do.
    pub open spec fn spec_step(self, event: Event) -> (Observing, Action) {
        match (self.stage, event) {
            (Stage::Initializing, Event::Initialized) => (
                Observing { stage: Stage::Computing, ..self },
                Action::Compute(self.elapsed_seconds),
            ),
            (Stage::Initializing, Event::InitializationFailed(error)) => (
                Observing { stage: Stage::Failed, ..self },
                Action::Fail(error),
            ),
            (Stage::Computing, Event::Computed) => (
                Observing { stage: Stage::Delivered, ..self },
                Action::Deliver,
            ),
            (Stage::Computing, Event::ComputationFailed(error)) => (
                Observing { stage: Stage::Failed, ..self },
                Action::Fail(error),
            ),
            _ => (self, Action::Ignore),
        }
    }

    /// The stage the work is in after a series of events.
    pub open spec fn after(self, events: Seq<Event>) -> Observing
        decreases events.len(),
    {
        if events.len() == 0 {
            self
        } else {
            self.after(events.drop_last()).spec_step(events.last()).0
        }
    }

    /// What the caller is told in reply to the last of a series of
    /// events.
    pub open spec fn reply(self, events: Seq<Event>) -> Action
        recommends
            events.len() > 0,
    {
        self.after(events.drop_last()).spec_step(events.last()).1
    }

    /// Takes an answer of the propagator and says what to do next.
    #[verifier::when_used_as_spec(spec_step)]
    pub fn step(self, event: Event) -> (next: (Observing, Action))
        ensures
            next == self.spec_step(event),
    {
        match (self.stage, event) {
            (Stage::Initializing, Event::Initialized) => (
                Observing { stage: Stage::Computing, elapsed_seconds: self.elapsed_seconds },
                Action::Compute(self.elapsed_seconds),
            ),
            (Stage::Initializing, Event::InitializationFailed(error)) => (
                Observing { stage: Stage::Failed, elapsed_seconds: self.elapsed_seconds },
                Action::Fail(error),
            ),
            (Stage::Computing, Event::Computed) => (
                Observing { stage: Stage::Delivered, elapsed_seconds: self.elapsed_seconds },
                Action::Deliver,
            ),
            (Stage::Computing, Event::ComputationFailed(error)) => (
                Observing { stage: Stage::Failed, elapsed_seconds: self.elapsed_seconds },
                Action::Fail(error),
            ),
            _ => (self, Action::Ignore),
        }
    }
}

/// What the caller of the pipeline is told when the propagator fails,
/// whatever the failure.
pub fn failure_message() -> (message: String)
    ensures
        message@ == "Cannot compute satellite position"@,
{
    String::from_str("Cannot compute satellite position")
}

impl TLE {
    /// What the propagator is to be initialized with for these elements:
    /// the Air Force Space Command variant of the algorithm, the
    /// constants of 1972, and the elements as they are.
    pub open spec fn spec_propagator_input(&self) -> PropagatorInput {
        PropagatorInput {
            mode: OpsMode::Afspc,
            constants: ConstantsSet::Set72,
            b_star: self.b_star,
            eccentricity: self.eccentricity,
            epoch: self.date,
            perigee: self.perigee,
            inclination: self.inclination,
            mean_anomaly: self.mean_anomaly,
            mean_motion: self.mean_motion,
            right_ascension: self.right_ascension,
        }
    }

    /// What the propagator is to be initialized with for these elements.
    pub fn propagator_input(&self) -> (input: PropagatorInput)
        ensures
            input == self.spec_propagator_input(),
    {
        PropagatorInput {
            mode: OpsMode::Afspc,
            constants: ConstantsSet::Set72,
            b_star: self.b_star,
            eccentricity: self.eccentricity,
            epoch: self.date,
            perigee: self.perigee,
            inclination: self.inclination,
            mean_anomaly: self.mean_anomaly,
            mean_motion: self.mean_motion,
            right_ascension: self.right_ascension,
        }
    }

    /// Begins the work on the observation of the satellite at the point
    /// in time that lies `nanosecond` nanoseconds after `time`. The
    /// propagator counts the time from the epoch of the elements in whole
    /// seconds, cut toward zero. The caller initializes the propagator
    /// with [`TLE::propagator_input`] and reports how that went.
    pub fn observation_at(&self, time: &Timestamp, nanosecond: u32) -> (work: Observing)
        ensures
            work.stage == Stage::Initializing,
            work.elapsed_seconds == time.whole_seconds_since(nanosecond, &self.date),
    {
        Observing {
            stage: Stage::Initializing,
            elapsed_seconds: time.elapsed_since(nanosecond, &self.date),
        }
    }
}

/// A series of events is answered with an observation only where the work
/// was computing before the last of them, and that event reports a
/// computed position.
pub proof fn lemma_delivery_needs_computation(start: Observing, events: Seq<Event>)
    requires
        events.len() > 0,
        start.reply(events) == Action::Deliver,
    ensures
        start.after(events.drop_last()).stage == Stage::Computing,
        events.last() == Event::Computed,
        start.after(events).stage == Stage::Delivered,
{
}

/// Once the work has failed it stays failed, whatever the propagator is
/// said to have answered afterwards.
pub proof fn lemma_failure_is_final(start: Observing, events: Seq<Event>)
    requires
        start.stage == Stage::Failed,
    ensures
        start.after(events).stage == Stage::Failed,
    decreases events.len(),
{
    if events.len() > 0 {
        lemma_failure_is_final(start, events.drop_last());
    }
}

/// Where the propagator cannot be initialized, the caller is told of the
/// failure at once, and no observation is handed out for this work ever
/// after: not in reply to any event of any series that follows.
pub proof fn lemma_failed_initialization_prevents_delivery(
    work: Observing,
    error: SGP4Error,
    later: Seq<Event>,
)
    requires
        work.stage == Stage::Initializing,
    ensures
        work.spec_step(Event::InitializationFailed(error)).1 == Action::Fail(error),
        later.len() > 0 ==> work.spec_step(Event::InitializationFailed(error)).0.reply(later)
            != Action::Deliver,
        work.spec_step(Event::InitializationFailed(error)).0.after(later).stage == Stage::Failed,
{
    let failed = work.spec_step(Event::InitializationFailed(error)).0;
    lemma_failure_is_final(failed, later);
    if later.len() > 0 {
        lemma_failure_is_final(failed, later.drop_last());
    }
}

/// The same holds where the propagator is initialized and then cannot
/// compute: the failure is reported and nothing is handed out afterwards.
pub proof fn lemma_failed_computation_prevents_delivery(
    work: Observing,
    error: SGP4Error,
    later: Seq<Event>,
)
    requires
        work.stage == Stage::Computing,
    ensures
        work.spec_step(Event::ComputationFailed(error)).1 == Action::Fail(error),
        later.len() > 0 ==> work.spec_step(Event::ComputationFailed(error)).0.reply(later)
            != Action::Deliver,
{
    let failed = work.spec_step(Event::ComputationFailed(error)).0;
    if later.len() > 0 {
        lemma_failure_is_final(failed, later.drop_last());
    }
}

/// Once the observation has been handed out, nothing more is: every
/// further answer is ignored.
pub proof fn lemma_delivery_is_final(start: Observing, events: Seq<Event>)
    requires
        start.stage == Stage::Delivered,
    ensures
        start.after(events) == start,
        events.len() > 0 ==> start.reply(events) == Action::Ignore,
    decreases events.len(),
{
    if events.len() > 0 {
        lemma_delivery_is_final(start, events.drop_last());
    }
}

} // verus!
