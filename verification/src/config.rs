use vstd::prelude::*;

verus! {

/// Caller-owned execution settings: an optional ceiling on the number of
/// evaluation steps, a switch for the heavier solver-backed evaluation
/// strategy, and a switch for diagnostic projection tracing.
#[derive(Clone, Copy, Debug)]
pub struct RasqalConfig {
    pub step_limit: Option<u64>,
    pub activate_solver: bool,
    pub trace_projections: bool,
}

impl RasqalConfig {
    /// Caps how many evaluation steps a run may take before it is failed.
    pub fn step_count_limit(&mut self, limit: u64)
        ensures
            final(self).step_limit == Some(limit),
            final(self).activate_solver == old(self).activate_solver,
            final(self).trace_projections == old(self).trace_projections,
    {
        self.step_limit = Some(limit);
    }

    pub fn with_step_count_limit(self, limit: u64) -> (r: RasqalConfig)
        ensures
            r.step_limit == Some(limit),
            r.activate_solver == self.activate_solver,
            r.trace_projections == self.trace_projections,
    {
        RasqalConfig { step_limit: Some(limit), ..self }
    }

    pub fn with_activate_solver(self) -> (r: RasqalConfig)
        ensures
            r.activate_solver,
            r.step_limit == self.step_limit,
            r.trace_projections == self.trace_projections,
    {
        RasqalConfig { activate_solver: true, ..self }
    }

    pub fn with_trace_projections(self) -> (r: RasqalConfig)
        ensures
            r.trace_projections,
            r.step_limit == self.step_limit,
            r.activate_solver == self.activate_solver,
    {
        RasqalConfig { trace_projections: true, ..self }
    }

    /// Whether a program needing `steps` evaluation steps stays within the
    /// configured ceiling; an absent ceiling allows any step count.
    pub open spec fn allows_step_count(self, steps: usize) -> bool {
        match self.step_limit {
            Some(limit) => steps as nat <= limit as nat,
            None => true,
        }
    }
}

impl Default for RasqalConfig {
    /// The default configuration imposes no step ceiling and leaves both
    /// behavioural switches off.
    fn default() -> (r: RasqalConfig)
        ensures
            r.step_limit.is_none(),
            !r.activate_solver,
            !r.trace_projections,
    {
        RasqalConfig { step_limit: None, activate_solver: false, trace_projections: false }
    }
}

}
