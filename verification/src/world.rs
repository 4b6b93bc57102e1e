//! The simulation clock: whether time runs, what a signal from the host sets
//! in motion, and the simulation-wide settings.

use crate::scalar::Scalar;
use vstd::prelude::*;

verus! {

/// Pattern of 0.1, the length of every integration step.
pub const STEP_SIZE_BITS: u32 = 0x3dcc_cccd;

/// Pattern of 1, the tick rate before the host has chosen one.
pub const INITIAL_SPEED_BITS: u32 = 0x3f80_0000;

/// Pattern of 30, the lowest tick rate that can be chosen.
pub const MIN_SPEED_BITS: u32 = 0x41f0_0000;

/// Pattern of 1000, the highest tick rate that can be chosen.
pub const MAX_SPEED_BITS: u32 = 0x447a_0000;

/// Whether simulated time runs.
#[derive(Clone, Copy, Debug, PartialEq, Eq, Hash, Structural)]
pub enum GameState {
    Paused,
    Running,
}

/// What the host reports to the clock.
#[derive(Clone, Copy, Debug, PartialEq, Eq, Structural)]
pub enum Signal {
    /// The pause key was pressed.
    Toggle,
    /// A fixed-cadence tick is due.
    Tick,
    /// A frame is about to be drawn; `preview` tells whether predicted paths
    /// are to be shown.
    Frame { preview: bool },
}

/// What the host has to carry out in answer to a signal.
#[derive(Clone, Copy, Debug, PartialEq, Eq, Structural)]
pub enum Work {
    /// Nothing.
    Idle,
    /// Add every staged velocity to its body's velocity, once.
    CommitStaged,
    /// Advance the live bodies by one step.
    Integrate,
    /// Compute the predicted paths from a snapshot of the bodies.
    Predict,
}

impl GameState {
    /// The other state.
    pub open spec fn flipped(self) -> GameState {
        match self {
            GameState::Paused => GameState::Running,
            GameState::Running => GameState::Paused,
        }
    }

    /// The state that follows `self` on `signal`: only a toggle changes it.
    pub open spec fn after(self, signal: Signal) -> GameState {
        match signal {
            Signal::Toggle => self.flipped(),
            _ => self,
        }
    }

    /// The work that `signal` sets in motion in state `self`.
    pub open spec fn work_on(self, signal: Signal) -> Work {
        match (self, signal) {
            (GameState::Paused, Signal::Toggle) => Work::CommitStaged,
            (GameState::Running, Signal::Tick) => Work::Integrate,
            (GameState::Paused, Signal::Frame { preview: true }) => Work::Predict,
            _ => Work::Idle,
        }
    }

    /// The state in which every simulation starts.
    pub fn initial() -> (r: GameState)
        ensures
            r == GameState::Paused,
    {
        GameState::Paused
    }

    pub fn is_running(self) -> (r: bool)
        ensures
            r == (self == GameState::Running),
    {
        match self {
            GameState::Running => true,
            GameState::Paused => false,
        }
    }

    pub fn toggled(self) -> (r: GameState)
        ensures
            r == self.flipped(),
    {
        match self {
            GameState::Paused => GameState::Running,
            GameState::Running => GameState::Paused,
        }
    }

    /// One move of the clock: the next state and the work to carry out.
    pub fn react(self, signal: Signal) -> (r: (GameState, Work))
        ensures
            r.0 == self.after(signal),
            r.1 == self.work_on(signal),
    {
        match signal {
            Signal::Toggle => match self {
                GameState::Paused => (GameState::Running, Work::CommitStaged),
                GameState::Running => (GameState::Paused, Work::Idle),
            },
            Signal::Tick => match self {
                GameState::Paused => (GameState::Paused, Work::Idle),
                GameState::Running => (GameState::Running, Work::Integrate),
            },
            Signal::Frame { preview } => match self {
                GameState::Paused => if preview {
                    (GameState::Paused, Work::Predict)
                } else {
                    (GameState::Paused, Work::Idle)
                },
                GameState::Running => (GameState::Running, Work::Idle),
            },
        }
    }
}

/// The state reached from `start` after the first `count` of `signals`.
pub open spec fn state_at(start: GameState, signals: Seq<Signal>, count: nat) -> GameState
    decreases count,
{
    if count == 0 || count > signals.len() {
        start
    } else {
        state_at(start, signals, (count - 1) as nat).after(signals[count - 1])
    }
}

/// The work set in motion by signal number `index` of a run from `start`.
pub open spec fn work_at(start: GameState, signals: Seq<Signal>, index: nat) -> Work {
    state_at(start, signals, index).work_on(signals[index as int])
}

/// Integration is due only while running, prediction only while paused, and
/// a commit of staged velocities exactly on the move from paused to running.
pub proof fn work_follows_state(state: GameState, signal: Signal)
    ensures
        state.work_on(signal) == Work::Integrate <==> state == GameState::Running && signal
            == Signal::Tick,
        state.work_on(signal) == Work::Predict <==> state == GameState::Paused && signal
            == (Signal::Frame { preview: true }),
        state.work_on(signal) == Work::CommitStaged <==> state == GameState::Paused
            && state.after(signal) == GameState::Running,
        state.after(signal) != state <==> signal == Signal::Toggle,
        state.flipped().flipped() == state,
{
}

/// Staged velocities are committed once per resume: between two commits of a
/// run the clock was paused again by a toggle.
pub proof fn commits_are_separated_by_a_pause(
    start: GameState,
    signals: Seq<Signal>,
    first: nat,
    second: nat,
)
    requires
        first < second < signals.len(),
        work_at(start, signals, first) == Work::CommitStaged,
        work_at(start, signals, second) == Work::CommitStaged,
    ensures
        exists|between: nat|
            first < between < second && state_at(start, signals, between) == GameState::Running
                && signals[between as int] == Signal::Toggle,
    decreases second - first,
{
    // Right after the first commit the clock runs; right before the second it is paused.
    assert(state_at(start, signals, first + 1) == GameState::Running);
    lemma_pause_found(start, signals, first + 1, second);
}

/// A run that is running at `from` and paused at `to` holds a toggle out of
/// the running state in between.
proof fn lemma_pause_found(start: GameState, signals: Seq<Signal>, from: nat, to: nat)
    requires
        from <= to <= signals.len(),
        state_at(start, signals, from) == GameState::Running,
        state_at(start, signals, to) == GameState::Paused,
    ensures
        exists|between: nat|
            from <= between < to && state_at(start, signals, between) == GameState::Running
                && signals[between as int] == Signal::Toggle,
    decreases to - from,
{
    if from < to {
        let before = (to - 1) as nat;
        if state_at(start, signals, before) == GameState::Running {
            assert(signals[before as int] == Signal::Toggle);
        } else {
            lemma_pause_found(start, signals, from, before);
        }
    }
}

/// The simulation-wide settings.
#[derive(Clone, Copy, Debug)]
pub struct Game {
    speed: Scalar,
    stepsize: Scalar,
    planet_count: u32,
}

/// The tick rate that is set when `requested` is asked for: the request
/// itself between 30 and 1000, else the nearer bound; a request that denotes
/// no number gives the lower bound.
pub open spec fn clamped_speed(requested: Scalar) -> Scalar {
    let low = Scalar { bits: MIN_SPEED_BITS };
    let high = Scalar { bits: MAX_SPEED_BITS };
    if requested.denotes_nan() || requested.rank() < low.rank() {
        low
    } else if requested.rank() > high.rank() {
        high
    } else {
        requested
    }
}

/// A clamped tick rate lies between the bounds, and clamping it again
/// changes nothing.
pub proof fn clamped_speed_is_bounded(requested: Scalar)
    ensures
        MIN_SPEED_BITS <= clamped_speed(requested).bits <= MAX_SPEED_BITS,
        clamped_speed(requested).denotes_positive(),
        clamped_speed(clamped_speed(requested)) == clamped_speed(requested),
{
}

impl Game {
    /// Target number of ticks per second.
    pub closed spec fn speed_value(&self) -> Scalar {
        self.speed
    }

    /// Simulated time per integration step.
    pub closed spec fn stepsize_value(&self) -> Scalar {
        self.stepsize
    }

    /// Number of bodies spawned so far.
    pub closed spec fn count(&self) -> nat {
        self.planet_count as nat
    }

    /// The step size is the fixed one, whatever else was set.
    pub open spec fn wf(&self) -> bool {
        self.stepsize_value().bits == STEP_SIZE_BITS
    }

    pub fn new() -> (r: Game)
        ensures
            r.wf(),
            r.speed_value().bits == INITIAL_SPEED_BITS,
            r.count() == 0,
    {
        Game {
            speed: Scalar { bits: INITIAL_SPEED_BITS },
            stepsize: Scalar { bits: STEP_SIZE_BITS },
            planet_count: 0,
        }
    }

    pub fn speed(&self) -> (r: Scalar)
        ensures
            r == self.speed_value(),
    {
        self.speed
    }

    pub fn stepsize(&self) -> (r: Scalar)
        ensures
            r == self.stepsize_value(),
    {
        self.stepsize
    }

    pub fn planet_count(&self) -> (r: u32)
        ensures
            r == self.count(),
    {
        self.planet_count
    }

    /// Sets the tick rate, clamped to its bounds. Step size and body count
    /// stay as they are.
    pub fn set_speed(&mut self, requested: Scalar)
        ensures
            final(self).speed_value() == clamped_speed(requested),
            final(self).stepsize_value() == old(self).stepsize_value(),
            final(self).count() == old(self).count(),
    {
        let low = Scalar::from_bits(MIN_SPEED_BITS);
        let high = Scalar::from_bits(MAX_SPEED_BITS);
        if !low.at_most(requested) {
            self.speed = low;
        } else if !requested.at_most(high) {
            self.speed = high;
        } else {
            self.speed = requested;
        }
    }

    /// Counts one more body and returns its number, unless the numbers have
    /// run out.
    pub(crate) fn count_planet(&mut self) -> (r: Option<u32>)
        ensures
            final(self).speed_value() == old(self).speed_value(),
            final(self).stepsize_value() == old(self).stepsize_value(),
            old(self).count() < u32::MAX ==> r == Some((old(self).count() + 1) as u32)
                && final(self).count() == old(self).count() + 1,
            old(self).count() >= u32::MAX ==> {
                &&& r.is_none()
                &&& final(self).count() == old(self).count()
            },
    {
        if self.planet_count < u32::MAX {
            self.planet_count = self.planet_count + 1;
            Some(self.planet_count)
        } else {
            None
        }
    }
}

} // verus!
