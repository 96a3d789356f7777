//! The accelerometer: it sleeps at its lowest current and raises an interrupt when the
//! platform moves.

use vstd::prelude::*;

verus! {

/// Where the accelerometer answers on the I2C bus.
pub const ACCEL_ADDRESS: u8 = 0x18;

/// Its register that says what it is.
pub const ACCEL_WHO_AM_I: u8 = 0x0F;

/// The resolution at which the accelerometer measures.
#[derive(Clone, Copy, Debug, PartialEq, Eq, Structural)]
pub enum Mode {
    LowPower,
    Normal,
    HighResolution,
}

/// The largest acceleration that it can tell.
#[derive(Clone, Copy, Debug, PartialEq, Eq, Structural)]
pub enum Range {
    G2,
    G4,
    G8,
    G16,
}

/// How often it measures.
#[derive(Clone, Copy, Debug, PartialEq, Eq, Structural)]
pub enum DataRate {
    PowerDown,
    Hz1,
    Hz10,
    Hz25,
    Hz50,
    Hz100,
    Hz200,
    Hz400,
}

impl DataRate {
    /// Measurements in a second.
    pub open spec fn hertz(self) -> nat {
        match self {
            DataRate::PowerDown => 0,
            DataRate::Hz1 => 1,
            DataRate::Hz10 => 10,
            DataRate::Hz25 => 25,
            DataRate::Hz50 => 50,
            DataRate::Hz100 => 100,
            DataRate::Hz200 => 200,
            DataRate::Hz400 => 400,
        }
    }

    /// No rate at which it measures at all is lower.
    pub open spec fn is_lowest(self) -> bool {
        &&& self.hertz() > 0
        &&& forall|other: DataRate| #[trigger] other.hertz() > 0 ==> self.hertz() <= other.hertz()
    }
}

/// What kind of event raises the interrupt.
#[derive(Clone, Copy, Debug, PartialEq, Eq, Structural)]
pub enum InterruptMode {
    OrCombination,
    Movement,
    AndCombination,
    Position,
}

/// How the accelerometer is set up.
#[derive(Clone, Copy, Debug, PartialEq, Eq, Structural)]
pub struct AccelSettings {
    /// Where it is looked for on the bus.
    pub address: u8,
    pub mode: Mode,
    pub range: Range,
    pub data_rate: DataRate,
    /// What raises the first interrupt.
    pub interrupt_mode: InterruptMode,
    /// Whether an acceleration above the threshold counts, on any of the axes.
    pub on_high: bool,
    /// Whether one below it counts.
    pub on_low: bool,
    /// The acceleration that counts as motion, in thousandths of g.
    pub threshold_mg: u16,
    /// How long it has to last.
    pub duration_ms: u16,
    /// Whether the interrupt stays until it is looked at.
    pub latch: bool,
    /// Whether only four of the six directions count.
    pub detect_4d: bool,
    /// Whether the interrupt shows on the first pin.
    pub route_to_pin1: bool,
}

/// How the accelerometer of the scale is set up: the least current it can run at, and motion
/// beyond the threshold held until it is seen.
pub fn accelerometer_settings() -> (settings: AccelSettings)
    ensures
        settings == (AccelSettings {
            address: ACCEL_ADDRESS,
            mode: Mode::LowPower,
            range: Range::G2,
            data_rate: DataRate::Hz1,
            interrupt_mode: InterruptMode::Movement,
            on_high: true,
            on_low: true,
            threshold_mg: 300,
            duration_ms: 0,
            latch: true,
            detect_4d: false,
            route_to_pin1: true,
        }),
        settings.data_rate.is_lowest(),
{
    AccelSettings {
        address: ACCEL_ADDRESS,
        mode: Mode::LowPower,
        range: Range::G2,
        data_rate: DataRate::Hz1,
        interrupt_mode: InterruptMode::Movement,
        on_high: true,
        on_low: true,
        threshold_mg: 300,
        duration_ms: 0,
        latch: true,
        detect_4d: false,
        route_to_pin1: true,
    }
}

/// One step of setting the accelerometer up.
#[derive(Clone, Copy, Debug, PartialEq, Eq, Structural)]
pub enum InitStep {
    /// Find it on the bus.
    Connect,
    /// Drive the pin of the light low.
    LedLow,
    Mode,
    Range,
    DataRate,
    /// Say what raises the interrupt.
    InterruptSource,
    InterruptDuration,
    InterruptThreshold,
    /// Show the interrupt on a pin.
    InterruptPin,
}

/// How far the set-up has come.
#[derive(Clone, Copy, Debug, PartialEq, Eq, Structural)]
pub enum Progress {
    /// This step is to be done.
    Pending { step: InitStep },
    /// All is done.
    Ready,
    /// This step failed: the scale panics.
    Failed { step: InitStep },
}

/// The steps in their order.
pub open spec fn plan() -> Seq<InitStep> {
    seq![
        InitStep::Connect,
        InitStep::LedLow,
        InitStep::Mode,
        InitStep::Range,
        InitStep::DataRate,
        InitStep::InterruptSource,
        InitStep::InterruptDuration,
        InitStep::InterruptThreshold,
        InitStep::InterruptPin,
    ]
}

/// How far the set-up is when the first `done` steps are done.
pub open spec fn progress_at(done: int) -> Progress {
    if done < plan().len() {
        Progress::Pending { step: plan()[done] }
    } else {
        Progress::Ready
    }
}

/// The place of a step in the plan.
pub open spec fn place(step: InitStep) -> int {
    match step {
        InitStep::Connect => 0,
        InitStep::LedLow => 1,
        InitStep::Mode => 2,
        InitStep::Range => 3,
        InitStep::DataRate => 4,
        InitStep::InterruptSource => 5,
        InitStep::InterruptDuration => 6,
        InitStep::InterruptThreshold => 7,
        InitStep::InterruptPin => 8,
    }
}

/// How far the set-up is after a step went well, or did not. A set-up that is over stays so.
pub open spec fn progresses(progress: Progress, ok: bool) -> Progress {
    match progress {
        Progress::Pending { step } => if ok {
            progress_at(place(step) + 1)
        } else {
            Progress::Failed { step }
        },
        _ => progress,
    }
}

/// How far the set-up is after outcomes, one after the other.
pub open spec fn progresses_all(progress: Progress, outcomes: Seq<bool>) -> Progress
    decreases outcomes.len(),
{
    if outcomes.len() == 0 {
        progress
    } else {
        progresses(progresses_all(progress, outcomes.drop_last()), outcomes.last())
    }
}

/// Every step stands in the plan at its place, and nowhere else.
pub proof fn law_plan_has_every_step_once(step: InitStep, i: int)
    requires
        0 <= i < plan().len(),
    ensures
        0 <= place(step) < plan().len(),
        plan()[i] == step <==> i == place(step),
{
}

impl Progress {
    /// The start of the set-up.
    pub fn start() -> (progress: Self)
        ensures
            progress == progress_at(0),
    {
        Progress::Pending { step: InitStep::Connect }
    }

    /// How far the set-up is after the step at hand went well, or did not.
    pub fn next(self, ok: bool) -> (progress: Self)
        ensures
            progress == progresses(self, ok),
    {
        match self {
            Progress::Pending { step } => {
                if !ok {
                    return Progress::Failed { step };
                }
                match step {
                    InitStep::Connect => Progress::Pending { step: InitStep::LedLow },
                    InitStep::LedLow => Progress::Pending { step: InitStep::Mode },
                    InitStep::Mode => Progress::Pending { step: InitStep::Range },
                    InitStep::Range => Progress::Pending { step: InitStep::DataRate },
                    InitStep::DataRate => Progress::Pending { step: InitStep::InterruptSource },
                    InitStep::InterruptSource => Progress::Pending {
                        step: InitStep::InterruptDuration,
                    },
                    InitStep::InterruptDuration => Progress::Pending {
                        step: InitStep::InterruptThreshold,
                    },
                    InitStep::InterruptThreshold => Progress::Pending {
                        step: InitStep::InterruptPin,
                    },
                    InitStep::InterruptPin => Progress::Ready,
                }
            },
            Progress::Ready => self,
            Progress::Failed { .. } => self,
        }
    }
}

/// As long as all goes well, the steps are done one by one in the order of the plan, and the
/// set-up is ready once all of them are done.
pub proof fn law_setup_follows_the_plan(outcomes: Seq<bool>)
    requires
        forall|i: int| 0 <= i < outcomes.len() ==> #[trigger] outcomes[i],
    ensures
        progresses_all(progress_at(0), outcomes) == progress_at(outcomes.len() as int),
    decreases outcomes.len(),
{
    if outcomes.len() > 0 {
        let earlier = outcomes.drop_last();
        assert forall|i: int| 0 <= i < earlier.len() implies #[trigger] earlier[i] by {
            assert(earlier[i] == outcomes[i]);
        }
        law_setup_follows_the_plan(earlier);
        assert(outcomes[outcomes.len() - 1]);
        if earlier.len() < plan().len() {
            law_plan_has_every_step_once(plan()[earlier.len() as int], earlier.len() as int);
        }
    }
}

/// The first failure ends the set-up at the step that failed, whatever comes after it.
pub proof fn law_first_failure_is_final(outcomes: Seq<bool>, failed: int)
    requires
        0 <= failed < outcomes.len(),
        failed < plan().len(),
        forall|i: int| 0 <= i < failed ==> #[trigger] outcomes[i],
        !outcomes[failed],
    ensures
        progresses_all(progress_at(0), outcomes) == (Progress::Failed { step: plan()[failed] }),
    decreases outcomes.len(),
{
    let earlier = outcomes.drop_last();
    if earlier.len() > failed {
        assert(earlier[failed] == outcomes[failed]);
        assert forall|i: int| 0 <= i < failed implies #[trigger] earlier[i] by {
            assert(earlier[i] == outcomes[i]);
        }
        law_first_failure_is_final(earlier, failed);
    } else {
        assert forall|i: int| 0 <= i < earlier.len() implies #[trigger] earlier[i] by {
            assert(earlier[i] == outcomes[i]);
        }
        law_setup_follows_the_plan(earlier);
    }
}

/// The set-up is ready only if every step of the plan went well.
pub proof fn law_ready_means_all_went_well(outcomes: Seq<bool>)
    requires
        progresses_all(progress_at(0), outcomes) == Progress::Ready,
    ensures
        outcomes.len() >= plan().len(),
        forall|i: int| 0 <= i < plan().len() ==> #[trigger] outcomes[i],
{
    if exists|i: int| 0 <= i < plan().len() && i < outcomes.len() && !#[trigger] outcomes[i] {
        let some = choose|i: int|
            0 <= i < plan().len() && i < outcomes.len() && !#[trigger] outcomes[i];
        let first = lemma_first_failure(outcomes, some);
        law_first_failure_is_final(outcomes, first);
    } else if outcomes.len() < plan().len() {
        law_setup_follows_the_plan(outcomes);
    }
}

/// Among the outcomes up to a failure there is a first failure.
proof fn lemma_first_failure(outcomes: Seq<bool>, some: int) -> (first: int)
    requires
        0 <= some < outcomes.len(),
        !outcomes[some],
    ensures
        0 <= first <= some,
        !outcomes[first],
        forall|i: int| 0 <= i < first ==> #[trigger] outcomes[i],
    decreases some,
{
    if exists|i: int| 0 <= i < some && !#[trigger] outcomes[i] {
        lemma_first_failure(
            outcomes,
            choose|i: int| 0 <= i < some && !#[trigger] outcomes[i],
        )
    } else {
        some
    }
}

} // verus!
