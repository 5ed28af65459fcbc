use vstd::prelude::*;

use crate::extract::{extract, p_texts_of, spec_extract, span_texts_of};
use crate::occupancy::{ExtractError, ExtractErrorView, Occupancy};

verus! {

/// What a monitor loop is configured with: the fixed wait between the end
/// of one poll cycle and the start of the next.
#[derive(Clone, Copy, Debug, PartialEq, Eq, Structural)]
pub struct MonitorConfig {
    pub interval_secs: u64,
}

/// What a monitor loop just observed.
#[derive(Debug)]
pub enum LoopEvent {
    /// A poll cycle ran to its end, successfully or not.
    CycleFinished { failed: bool },
    /// The loop's task was cancelled.
    Cancelled,
}

/// What the monitor loop does next.
#[derive(Debug)]
pub enum LoopAction {
    /// Wait this many seconds, then start the next cycle.
    SleepSecs(u64),
    /// End the loop.
    Stop,
}

/// The loop's whole scheduling decision: after every finished cycle —
/// failed or not — it sleeps the full configured interval and goes on;
/// only cancellation stops it.
pub open spec fn spec_loop_step(cfg: MonitorConfig, ev: LoopEvent) -> LoopAction {
    match ev {
        LoopEvent::CycleFinished { .. } => LoopAction::SleepSecs(cfg.interval_secs),
        LoopEvent::Cancelled => LoopAction::Stop,
    }
}

/// Decides what the monitor loop does after an event.
pub fn loop_step(cfg: &MonitorConfig, ev: LoopEvent) -> (a: LoopAction)
    ensures
        a == spec_loop_step(*cfg, ev),
{
    match ev {
        LoopEvent::CycleFinished { failed: _ } => LoopAction::SleepSecs(cfg.interval_secs),
        LoopEvent::Cancelled => LoopAction::Stop,
    }
}

/// A failed poll cycle neither ends the loop nor shortens the wait: it is
/// followed by a sleep of the full configured interval, exactly as a
/// successful cycle is.
pub proof fn lemma_failed_cycle_full_interval(cfg: MonitorConfig)
    ensures
        spec_loop_step(cfg, LoopEvent::CycleFinished { failed: true }) == LoopAction::SleepSecs(
            cfg.interval_secs,
        ),
        spec_loop_step(cfg, LoopEvent::CycleFinished { failed: true }) == spec_loop_step(
            cfg,
            LoopEvent::CycleFinished { failed: false },
        ),
        !(spec_loop_step(cfg, LoopEvent::CycleFinished { failed: true }) is Stop),
{
}

/// What one poll cycle ends in once the page text is at hand: a reading to
/// publish, or an extraction error to log. Either way the cycle ends and
/// the loop goes on.
#[derive(Debug)]
pub enum CycleOutcome {
    Publish(Occupancy),
    Report(ExtractError),
}

/// Runs the compute part of one poll cycle on the fetched page text.
pub fn poll_cycle(page: &str) -> (o: CycleOutcome)
    ensures
        match o {
            CycleOutcome::Publish(occ) => spec_extract(p_texts_of(page@), span_texts_of(page@))
                == Ok::<Occupancy, ExtractErrorView>(occ),
            CycleOutcome::Report(e) => spec_extract(p_texts_of(page@), span_texts_of(page@))
                == Err::<Occupancy, ExtractErrorView>(e@),
        },
{
    match extract(page) {
        Ok(occ) => CycleOutcome::Publish(occ),
        Err(e) => CycleOutcome::Report(e),
    }
}

} // verus!
