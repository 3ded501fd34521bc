use vstd::prelude::*;
use crate::features::QuantumFeatures;

verus! {

/// The backend-independent compiled form of one program, built once per
/// execution and read-only afterwards. The orchestration layer does not look
/// inside the program's operations; it keeps only what dispatch and limit
/// enforcement need: the entry point's name, how many evaluation steps the
/// program takes, which capabilities it requires of a backend, and whether it
/// produces an observable result value.
#[derive(Clone, Debug)]
pub struct ExecutableAnalysisGraph {
    pub entry_name: String,
    pub step_count: usize,
    pub required_features: QuantumFeatures,
    pub produces_result: bool,
}

}
