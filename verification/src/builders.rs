use vstd::prelude::*;
use crate::features::QuantumFeatures;

verus! {

/// One backend integration: a simulator or a hardware connection. The
/// collection matching only ever reads two things of it: whether it is
/// currently usable, and which capabilities it declares.
#[derive(Clone, Copy, PartialEq, Eq, Structural, Debug)]
pub struct IntegrationRuntime {
    pub valid: bool,
    pub features: QuantumFeatures,
}

impl IntegrationRuntime {
    pub fn new(valid: bool, features: QuantumFeatures) -> (r: IntegrationRuntime)
        ensures
            r.valid == valid,
            r.features == features,
    {
        IntegrationRuntime { valid, features }
    }

    /// Current health of the backend. Time-varying over the runtime's
    /// lifetime, so callers must ask again on every selection attempt.
    pub fn is_valid(&self) -> (r: bool)
        ensures
            r == self.valid,
    {
        self.valid
    }

    /// Marks the backend usable or unusable, e.g. after a health probe.
    pub fn set_valid(&mut self, valid: bool)
        ensures
            final(self).valid == valid,
            final(self).features == old(self).features,
    {
        self.valid = valid;
    }

    pub fn has_features(&self, requested: &QuantumFeatures) -> (r: bool)
        ensures
            r == self.features.covers(*requested),
    {
        self.features.supports(requested)
    }
}

impl Default for IntegrationRuntime {
    /// An always-valid backend declaring the full capability range.
    fn default() -> (r: IntegrationRuntime)
        ensures
            r.valid,
            r.features.qubit_count == u64::MAX,
    {
        IntegrationRuntime { valid: true, features: QuantumFeatures { qubit_count: u64::MAX } }
    }
}

}
