//! The generation pipeline's control flow.
//!
//! The host polls once per tick and never blocks: a rebuild signal starts
//! one asynchronous unit of work (script to tree, then tree to buffer),
//! and the pipeline tracks where that unit stands. Every unit carries the
//! generation number it was started with; a newer rebuild bumps the
//! number, which both supersedes the old unit (its delivery is refused)
//! and serves as the cooperative cancellation signal a worker checks at a
//! coarse granularity. Several rebuild signals in one tick coalesce into a
//! single rebuild. A failed build degrades to a buffer of the default
//! value zero rather than an error reaching the host.

use crate::sample::{grid_value, sample, NoiseOutput};
use crate::tree::{Noise, NoiseEngine, NoiseFunc};
use vstd::prelude::*;

verus! {

/// Why a script failed to produce a tree.
#[derive(Clone, Copy, PartialEq, Eq, Structural, Debug)]
pub enum ScriptError {
    /// The source text could not be parsed or compiled.
    Syntax,
    /// Execution of the script raised an error.
    Runtime,
    /// The script ran to completion but its result was not a tree.
    ResultType,
}

impl ScriptError {
    /// A short diagnostic line for logs.
    pub fn describe(&self) -> (r: &'static str)
    {
        match self {
            ScriptError::Syntax => "script error: the source could not be parsed",
            ScriptError::Runtime => "script error: execution failed",
            ScriptError::ResultType => "script error: the result is not a noise tree",
        }
    }
}

/// Where the one in-flight unit of generation work stands.
#[derive(Clone, Copy, PartialEq, Eq, Structural, Debug)]
pub enum Phase {
    /// No work in flight and nothing waiting to be observed.
    Idle,
    /// A script is being turned into a tree.
    Building,
    /// A tree is being sampled into a buffer.
    Sampling,
    /// A finished buffer waits for the host's poll.
    Ready,
}

/// What the host must do after handing this tick's signals in.
#[derive(Clone, Copy, PartialEq, Eq, Structural, Debug)]
pub enum TickAction {
    /// Nothing to do this tick.
    DoNothing,
    /// Start one asynchronous build-and-sample unit carrying this
    /// generation number.
    StartBuild {
        /// The generation number the new unit must carry.
        generation: u64,
    },
    /// Ask the consumer to reproject the last delivered buffer; nothing is
    /// rebuilt or resampled.
    Reproject,
}

/// The pipeline's host-side state: the current phase, the generation
/// number of the only unit whose results are still welcome, and whether a
/// buffer was ever delivered.
pub struct Pipeline {
    /// Where the in-flight unit stands.
    pub phase: Phase,
    /// Generation number of the current unit; results carrying an older
    /// number are discarded.
    pub generation: u64,
    /// Whether some earlier unit has delivered a buffer.
    pub has_output: bool,
}

impl Pipeline {
    /// True while a unit of work is in flight.
    pub open spec fn busy(&self) -> bool {
        self.phase is Building || self.phase is Sampling
    }

    /// A fresh pipeline: idle, generation zero, nothing delivered yet.
    pub fn new() -> (p: Pipeline)
        ensures
            p.phase is Idle,
            p.generation == 0,
            !p.has_output,
    {
        Pipeline { phase: Phase::Idle, generation: 0, has_output: false }
    }

    /// Hands in one tick's signals: how many rebuild ("algorithm changed")
    /// and how many reprojection ("parameters changed") signals arrived.
    /// Any number of rebuild signals coalesce into one rebuild, which
    /// supersedes whatever was in flight; reprojection only happens when
    /// nothing is in flight and a buffer exists to reproject.
    pub fn on_tick(&mut self, algorithm_changed: usize, params_changed: usize) -> (action:
        TickAction)
        requires
            old(self).generation < u64::MAX,
        ensures
            algorithm_changed > 0 ==> final(self).phase is Building && final(self).generation
                == old(self).generation + 1 && (action matches TickAction::StartBuild {
                generation,
            } && generation == final(self).generation),
            algorithm_changed == 0 ==> *final(self) == *old(self),
            algorithm_changed == 0 && params_changed > 0 && !old(self).busy() && old(
                self,
            ).has_output ==> action is Reproject,
            algorithm_changed == 0 && !(params_changed > 0 && !old(self).busy() && old(
                self,
            ).has_output) ==> action is DoNothing,
            final(self).has_output == old(self).has_output,
    {
        if algorithm_changed > 0 {
            self.generation = self.generation + 1;
            self.phase = Phase::Building;
            TickAction::StartBuild { generation: self.generation }
        } else if params_changed > 0 && !(matches!(self.phase, Phase::Building) || matches!(
            self.phase,
            Phase::Sampling,
        )) && self.has_output {
            TickAction::Reproject
        } else {
            TickAction::DoNothing
        }
    }

    /// A worker reports that the build step of unit `generation` finished
    /// and it is about to sample. Returns whether that unit is still
    /// current; a superseded unit must stop instead of sampling.
    pub fn on_built(&mut self, generation: u64) -> (current: bool)
        ensures
            current <==> (generation == old(self).generation && old(self).phase is Building),
            current ==> *final(self) == (Pipeline { phase: Phase::Sampling, ..*old(self) }),
            !current ==> *final(self) == *old(self),
    {
        if generation == self.generation && matches!(self.phase, Phase::Building) {
            self.phase = Phase::Sampling;
            true
        } else {
            false
        }
    }

    /// A worker delivers the finished buffer of unit `generation`. Returns
    /// whether the buffer must be applied; the buffer of a superseded unit
    /// is discarded, never applied.
    pub fn on_delivered(&mut self, generation: u64) -> (apply: bool)
        ensures
            apply <==> (generation == old(self).generation && old(self).phase is Sampling),
            apply ==> *final(self) == (Pipeline {
                phase: Phase::Ready,
                generation: old(self).generation,
                has_output: true,
            }),
            !apply ==> *final(self) == *old(self),
    {
        if generation == self.generation && matches!(self.phase, Phase::Sampling) {
            self.phase = Phase::Ready;
            self.has_output = true;
            true
        } else {
            false
        }
    }

    /// The host's non-blocking per-tick poll. Observes a finished buffer
    /// exactly once: the first poll after delivery returns true and the
    /// pipeline returns to idle until the next rebuild signal.
    pub fn poll(&mut self) -> (ready: bool)
        ensures
            ready <==> old(self).phase is Ready,
            ready ==> *final(self) == (Pipeline { phase: Phase::Idle, ..*old(self) }),
            !ready ==> *final(self) == *old(self),
    {
        if matches!(self.phase, Phase::Ready) {
            self.phase = Phase::Idle;
            true
        } else {
            false
        }
    }

    /// Cooperative cancellation check: a worker holding `generation` asks,
    /// at a coarse granularity such as once per row, whether its work is
    /// still wanted.
    pub fn is_current(&self, generation: u64) -> (r: bool)
        ensures
            r <==> generation == self.generation,
    {
        generation == self.generation
    }
}

/// One unit of generation work after its build step: turns the build's
/// outcome into the buffer the pipeline delivers. A successful build is
/// sampled densely; a failed build degrades to a buffer of the default
/// value zero, cell for cell.
pub fn run_generation<F: NoiseFunc, E: NoiseEngine>(
    built: Result<Noise<F>, ScriptError>,
    diameter: usize,
    engine: &E,
) -> (out: NoiseOutput)
    requires
        1 <= diameter,
        diameter * diameter <= usize::MAX,
    ensures
        out.diameter == diameter,
        out.well_formed(),
        built matches Ok(t) ==> forall|x: int, y: int|
            0 <= x < diameter && 0 <= y < diameter ==> out.samples[y * diameter + x]
                == grid_value(t, x, y, diameter, *engine),
        built is Err ==> forall|i: int|
            0 <= i < out.samples.len() ==> out.samples[i] == (crate::scalar::Scalar { bits: 0 }),
{
    match built {
        Ok(tree) => sample(&tree, diameter, engine),
        Err(_) => NoiseOutput::new(diameter),
    }
}

} // verus!
