//! The scheduler state machine.
//!
//! The host runs simulation ticks on a background task and feeds results
//! back over a channel; the user starts, pauses, single-steps and stops the
//! run. Every decision of that loop — what the next status is and whether
//! to initialise the scene, spawn a tick, apply a received result or reset
//! — is made here; the host only performs the returned action.

use vstd::prelude::*;

verus! {

/// Whether the simulation is ticking continuously, halted between ticks,
/// or torn down.
#[derive(Clone, Copy, PartialEq, Eq, Structural, Debug)]
pub enum SimulationStatus {
    Running,
    Paused,
    Stopped,
}

/// What the host must do after a scheduler decision.
#[derive(Clone, Copy, PartialEq, Eq, Structural, Debug)]
pub enum SchedulerAction {
    /// Nothing to perform.
    Idle,
    /// Spawn one simulation tick on the worker.
    Spawn,
    /// Build the scene and the strand batch, without starting the run.
    Init,
    /// Build the scene and the strand batch, then spawn one tick.
    InitAndSpawn,
    /// Tear the scene down and clear the strand batch.
    Reset,
}

/// The scheduler's own state: status, completed-tick counter and the
/// dirty flag that tells the host fresh results await display.
#[derive(Clone, Copy, PartialEq, Eq, Structural, Debug)]
pub struct SchedulerCore {
    /// Current run status.
    pub status: SimulationStatus,
    /// Number of tick results applied since the last stop.
    pub iteration_cnt: u64,
    /// A result has been applied and not yet displayed.
    pub is_dirty: bool,
}

impl SchedulerCore {
    /// A fresh scheduler: stopped, no iterations, nothing to display.
    pub fn new() -> (s: SchedulerCore)
        ensures
            s.status == SimulationStatus::Stopped,
            s.iteration_cnt == 0,
            !s.is_dirty,
    {
        SchedulerCore { status: SimulationStatus::Stopped, iteration_cnt: 0, is_dirty: false }
    }

    /// Resume a paused run: back to `Running`, one tick spawned.
    pub fn resume_scheduler(&mut self) -> (a: SchedulerAction)
        ensures
            final(self).status == SimulationStatus::Running,
            final(self).iteration_cnt == old(self).iteration_cnt,
            final(self).is_dirty == old(self).is_dirty,
            a == SchedulerAction::Spawn,
    {
        self.status = SimulationStatus::Running;
        SchedulerAction::Spawn
    }

    /// Pause the run: no further tick is spawned until resumed.
    pub fn parse_scheduler(&mut self) -> (a: SchedulerAction)
        ensures
            final(self).status == SimulationStatus::Paused,
            final(self).iteration_cnt == old(self).iteration_cnt,
            final(self).is_dirty == old(self).is_dirty,
            a == SchedulerAction::Idle,
    {
        self.status = SimulationStatus::Paused;
        SchedulerAction::Idle
    }

    /// Advance exactly one tick while staying paused.
    pub fn singlestep_scheduler(&mut self) -> (a: SchedulerAction)
        ensures
            final(self).status == SimulationStatus::Paused,
            final(self).iteration_cnt == old(self).iteration_cnt,
            final(self).is_dirty == old(self).is_dirty,
            a == SchedulerAction::Spawn,
    {
        self.status = SimulationStatus::Paused;
        SchedulerAction::Spawn
    }

    /// Stop the run: counter cleared, scene torn down by the host.
    pub fn stop_scheduler(&mut self) -> (a: SchedulerAction)
        ensures
            final(self).status == SimulationStatus::Stopped,
            final(self).iteration_cnt == 0,
            final(self).is_dirty == old(self).is_dirty,
            a == SchedulerAction::Reset,
    {
        self.status = SimulationStatus::Stopped;
        self.iteration_cnt = 0;
        SchedulerAction::Reset
    }

    /// Initialise the scene; when `with_start` also start the run.
    pub fn init_scheduler(&mut self, with_start: bool) -> (a: SchedulerAction)
        ensures
            final(self).iteration_cnt == old(self).iteration_cnt,
            final(self).is_dirty == old(self).is_dirty,
            with_start ==> final(self).status == SimulationStatus::Running && a
                == SchedulerAction::InitAndSpawn,
            !with_start ==> final(self).status == old(self).status && a == SchedulerAction::Init,
    {
        if with_start {
            self.status = SimulationStatus::Running;
            SchedulerAction::InitAndSpawn
        } else {
            SchedulerAction::Init
        }
    }

    /// The start/pause control (keyboard toggle or button): pauses a
    /// running simulation, resumes a paused one, and initialises and
    /// starts a stopped one.
    pub fn primary_control(&mut self) -> (a: SchedulerAction)
        ensures
            final(self).iteration_cnt == old(self).iteration_cnt,
            final(self).is_dirty == old(self).is_dirty,
            old(self).status == SimulationStatus::Running ==> final(self).status
                == SimulationStatus::Paused && a == SchedulerAction::Idle,
            old(self).status == SimulationStatus::Paused ==> final(self).status
                == SimulationStatus::Running && a == SchedulerAction::Spawn,
            old(self).status == SimulationStatus::Stopped ==> final(self).status
                == SimulationStatus::Running && a == SchedulerAction::InitAndSpawn,
    {
        match self.status {
            SimulationStatus::Running => self.parse_scheduler(),
            SimulationStatus::Paused => self.resume_scheduler(),
            SimulationStatus::Stopped => self.init_scheduler(true),
        }
    }

    /// The single-step control: pauses a running simulation, advances a
    /// paused one by one tick, and initialises a stopped one paused at its
    /// first tick.
    pub fn step_control(&mut self) -> (a: SchedulerAction)
        ensures
            final(self).iteration_cnt == old(self).iteration_cnt,
            final(self).is_dirty == old(self).is_dirty,
            final(self).status == SimulationStatus::Paused,
            old(self).status == SimulationStatus::Running ==> a == SchedulerAction::Idle,
            old(self).status == SimulationStatus::Paused ==> a == SchedulerAction::Spawn,
            old(self).status == SimulationStatus::Stopped ==> a == SchedulerAction::InitAndSpawn,
    {
        match self.status {
            SimulationStatus::Running => self.parse_scheduler(),
            SimulationStatus::Paused => self.singlestep_scheduler(),
            SimulationStatus::Stopped => {
                let _ = self.init_scheduler(false);
                let _ = self.singlestep_scheduler();
                SchedulerAction::InitAndSpawn
            },
        }
    }

    /// A tick result arrived. Returns `(apply, spawn_next)`: a stopped
    /// scheduler discards the result; otherwise it is applied and counted,
    /// the display is marked dirty, and a running scheduler spawns the
    /// next tick.
    pub fn on_result(&mut self) -> (r: (bool, bool))
        requires
            old(self).iteration_cnt < u64::MAX,
        ensures
            old(self).status == SimulationStatus::Stopped ==> *final(self) == *old(self),
            old(self).status != SimulationStatus::Stopped ==> final(self).status
                == old(self).status && final(self).iteration_cnt == old(self).iteration_cnt + 1
                && final(self).is_dirty,
            r.0 == (old(self).status != SimulationStatus::Stopped),
            r.1 == (old(self).status == SimulationStatus::Running),
    {
        if self.status == SimulationStatus::Stopped {
            (false, false)
        } else {
            self.iteration_cnt = self.iteration_cnt + 1;
            self.is_dirty = true;
            (true, self.status == SimulationStatus::Running)
        }
    }

    /// The display refresh: reports whether fresh results awaited display
    /// and clears the flag, so each applied batch is pushed to the render
    /// side exactly once.
    pub fn take_dirty(&mut self) -> (was: bool)
        ensures
            was == old(self).is_dirty,
            !final(self).is_dirty,
            final(self).status == old(self).status,
            final(self).iteration_cnt == old(self).iteration_cnt,
    {
        let was = self.is_dirty;
        self.is_dirty = false;
        was
    }
}

} // verus!
