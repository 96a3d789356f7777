//! The two lights: a heartbeat while all is well, a blink after a panic.

use vstd::prelude::*;

verus! {

/// How long the heartbeat light stays as it is.
pub const HEARTBEAT_MS: u64 = 300;

/// The pin of the light that blinks after a panic, on port 0.
pub const PANIC_PIN: usize = 26;

/// How many processor cycles that light stays as it is.
pub const PANIC_HOLD_CYCLES: u32 = 1_000_000;

/// What a light has to do next.
#[derive(Clone, Copy, Debug, PartialEq, Eq, Structural)]
pub enum Heartbeat {
    /// Change over.
    Toggle,
    /// Stay as it is for so many milliseconds.
    Hold { ms: u64 },
}

/// What follows in the heartbeat.
pub open spec fn beats(step: Heartbeat) -> Heartbeat {
    match step {
        Heartbeat::Toggle => Heartbeat::Hold { ms: HEARTBEAT_MS },
        Heartbeat::Hold { .. } => Heartbeat::Toggle,
    }
}

/// The `n`-th thing that the heartbeat does, counted from nought.
pub open spec fn beat(n: nat) -> Heartbeat
    decreases n,
{
    if n == 0 {
        Heartbeat::Toggle
    } else {
        beats(beat((n - 1) as nat))
    }
}

/// The level of the heartbeat light after the first `n` steps.
pub open spec fn heartbeat_level(initial: bool, n: nat) -> bool
    decreases n,
{
    if n == 0 {
        initial
    } else {
        let before = heartbeat_level(initial, (n - 1) as nat);
        match beat((n - 1) as nat) {
            Heartbeat::Toggle => !before,
            Heartbeat::Hold { .. } => before,
        }
    }
}

impl Heartbeat {
    /// The first step.
    pub fn start() -> (step: Self)
        ensures
            step == beat(0),
    {
        Heartbeat::Toggle
    }

    /// The step after this one.
    pub fn next(self) -> (step: Self)
        ensures
            step == beats(self),
    {
        match self {
            Heartbeat::Toggle => Heartbeat::Hold { ms: HEARTBEAT_MS },
            Heartbeat::Hold { .. } => Heartbeat::Toggle,
        }
    }
}

/// The heartbeat changes over and holds in turn, for ever: after `k` of both the light is
/// where it was if `k` is even, and the other way round if it is odd.
pub proof fn law_heartbeat_alternates(initial: bool, k: nat)
    ensures
        beat(2 * k) == Heartbeat::Toggle,
        beat(2 * k + 1) == (Heartbeat::Hold { ms: HEARTBEAT_MS }),
        heartbeat_level(initial, 2 * k) == (if k % 2 == 0 {
            initial
        } else {
            !initial
        }),
    decreases k,
{
    if k > 0 {
        law_heartbeat_alternates(initial, (k - 1) as nat);
        assert(2 * (k - 1) + 1 == 2 * k - 1);
        assert(beat(2 * k) == beats(beat((2 * k - 1) as nat)));
        assert(beat(2 * k + 1) == beats(beat(2 * k)));
        assert(heartbeat_level(initial, (2 * k - 1) as nat) == !heartbeat_level(
            initial,
            (2 * k - 2) as nat,
        ));
        assert(heartbeat_level(initial, 2 * k) == heartbeat_level(initial, (2 * k - 1) as nat));
    } else {
        assert(beat(1) == beats(beat(0)));
    }
}

/// What is done after a panic.
#[derive(Clone, Copy, Debug, PartialEq, Eq, Structural)]
pub enum PanicBlink {
    /// Drive the pin high.
    High,
    /// Leave it high for so many cycles.
    HoldHigh { cycles: u32 },
    /// Drive it low.
    Low,
    /// Leave it low for so many cycles.
    HoldLow { cycles: u32 },
}

/// What follows after a panic.
pub open spec fn blinks(step: PanicBlink) -> PanicBlink {
    match step {
        PanicBlink::High => PanicBlink::HoldHigh { cycles: PANIC_HOLD_CYCLES },
        PanicBlink::HoldHigh { .. } => PanicBlink::Low,
        PanicBlink::Low => PanicBlink::HoldLow { cycles: PANIC_HOLD_CYCLES },
        PanicBlink::HoldLow { .. } => PanicBlink::High,
    }
}

/// The `n`-th thing that is done after a panic, counted from nought.
pub open spec fn blink(n: nat) -> PanicBlink
    decreases n,
{
    if n == 0 {
        PanicBlink::High
    } else {
        blinks(blink((n - 1) as nat))
    }
}

/// The level of the pin once a step is done, given the level before.
pub open spec fn driven(before: bool, step: PanicBlink) -> bool {
    match step {
        PanicBlink::High => true,
        PanicBlink::Low => false,
        _ => before,
    }
}

/// The level of the pin after the first `n` steps.
pub open spec fn panic_level(initial: bool, n: nat) -> bool
    decreases n,
{
    if n == 0 {
        initial
    } else {
        driven(panic_level(initial, (n - 1) as nat), blink((n - 1) as nat))
    }
}

impl PanicBlink {
    /// The first step.
    pub fn start() -> (step: Self)
        ensures
            step == blink(0),
    {
        PanicBlink::High
    }

    /// The step after this one.
    pub fn next(self) -> (step: Self)
        ensures
            step == blinks(self),
    {
        match self {
            PanicBlink::High => PanicBlink::HoldHigh { cycles: PANIC_HOLD_CYCLES },
            PanicBlink::HoldHigh { .. } => PanicBlink::Low,
            PanicBlink::Low => PanicBlink::HoldLow { cycles: PANIC_HOLD_CYCLES },
            PanicBlink::HoldLow { .. } => PanicBlink::High,
        }
    }
}

/// After a panic the light blinks for ever, whatever it showed before: high and held, low
/// and held, the same time both.
pub proof fn law_panic_blinks_for_ever(initial: bool, k: nat)
    ensures
        blink(4 * k) == PanicBlink::High,
        blink(4 * k + 1) == (PanicBlink::HoldHigh { cycles: PANIC_HOLD_CYCLES }),
        blink(4 * k + 2) == PanicBlink::Low,
        blink(4 * k + 3) == (PanicBlink::HoldLow { cycles: PANIC_HOLD_CYCLES }),
        panic_level(initial, 4 * k + 1),
        panic_level(initial, 4 * k + 2),
        !panic_level(initial, 4 * k + 3),
        !panic_level(initial, 4 * k + 4),
    decreases k,
{
    if k > 0 {
        law_panic_blinks_for_ever(initial, (k - 1) as nat);
        assert(4 * (k - 1) + 3 == 4 * k - 1);
        assert(blink(4 * k) == blinks(blink((4 * k - 1) as nat)));
    }
    assert(blink(4 * k + 1) == blinks(blink(4 * k)));
    assert(blink(4 * k + 2) == blinks(blink(4 * k + 1)));
    assert(blink(4 * k + 3) == blinks(blink(4 * k + 2)));
    assert(panic_level(initial, 4 * k + 1) == driven(panic_level(initial, 4 * k), blink(4 * k)));
    assert(panic_level(initial, 4 * k + 2) == driven(
        panic_level(initial, 4 * k + 1),
        blink(4 * k + 1),
    ));
    assert(panic_level(initial, 4 * k + 3) == driven(
        panic_level(initial, 4 * k + 2),
        blink(4 * k + 2),
    ));
    assert(panic_level(initial, 4 * k + 4) == driven(
        panic_level(initial, 4 * k + 3),
        blink(4 * k + 3),
    ));
}

/// However long a light was held, it changes over next, and however often it changed over, it is
/// then held for the same time.
pub proof fn law_every_hold_ends(ms: u64, cycles: u32)
    ensures
        beats(Heartbeat::Hold { ms }) == Heartbeat::Toggle,
        beats(Heartbeat::Toggle) == (Heartbeat::Hold { ms: 300 }),
        blinks(PanicBlink::HoldHigh { cycles }) == PanicBlink::Low,
        blinks(PanicBlink::HoldLow { cycles }) == PanicBlink::High,
        blinks(PanicBlink::High) == (PanicBlink::HoldHigh { cycles: 1_000_000 }),
        blinks(PanicBlink::Low) == (PanicBlink::HoldLow { cycles: 1_000_000 }),
{
}

} // verus!
