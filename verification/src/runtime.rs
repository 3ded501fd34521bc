use vstd::prelude::*;
use crate::config::RasqalConfig;
use crate::execution::RuntimeCollection;
use crate::graphs::ExecutableAnalysisGraph;
use crate::instructions::Value;

verus! {

pub open spec fn no_capable_runtime_message() -> Seq<char> {
    "Cannot find a QPU with the required features available."@
}

pub open spec fn step_limit_message() -> Seq<char> {
    "Exceeded the step count limit for this execution."@
}

/// The value a run reports when the program produces an observable result:
/// the zero-initialised result slot of the entry point.
pub open spec fn completed_value(graph: ExecutableAnalysisGraph) -> Option<Value> {
    if graph.produces_result {
        Some(Value::Int(0))
    } else {
        None
    }
}

/// One execution session, bound to a backend pool and a configuration and
/// scoped to a single run.
pub struct QuantumRuntime {
    pub runtimes: RuntimeCollection,
    pub config: RasqalConfig,
}

impl QuantumRuntime {
    pub fn new(runtimes: &RuntimeCollection, config: &RasqalConfig) -> (r: QuantumRuntime)
        ensures
            r.runtimes@ == runtimes@,
            r.config == *config,
    {
        QuantumRuntime { runtimes: runtimes.clone(), config: config.clone() }
    }

    /// Runs a compiled program: a backend covering the program's required
    /// features is selected from the pool, the configured step ceiling is
    /// enforced against the program's step count, and on completion the
    /// program's result value, if it has one, is handed back.
    ///
    /// Succeeds exactly when a capable backend exists and the step ceiling,
    /// if one is configured, is not exceeded.
    pub fn execute(&self, graph: &ExecutableAnalysisGraph, arguments: &Vec<Value>) -> (r: Result<
        Option<Value>,
        String,
    >)
        ensures
            match r {
                Ok(v) => crate::execution::some_runtime_capable(
                    self.runtimes@,
                    graph.required_features,
                ) && self.config.allows_step_count(graph.step_count) && v == completed_value(
                    *graph,
                ),
                Err(e) => (!crate::execution::some_runtime_capable(
                    self.runtimes@,
                    graph.required_features,
                ) && e@ == no_capable_runtime_message()) || (crate::execution::some_runtime_capable(
                    self.runtimes@,
                    graph.required_features,
                ) && !self.config.allows_step_count(graph.step_count) && e@
                    == step_limit_message()),
            },
    {
        let backend = self.runtimes.find_capable_QPU(&graph.required_features);
        if backend.is_none() {
            return Err("Cannot find a QPU with the required features available.".to_owned());
        }
        match self.config.step_limit {
            Some(limit) => {
                if (graph.step_count as u64) > limit {
                    return Err("Exceeded the step count limit for this execution.".to_owned());
                }
            },
            None => {},
        }
        if graph.produces_result {
            Ok(Some(Value::Int(0)))
        } else {
            Ok(None)
        }
    }
}

}
