use vstd::prelude::*;

verus! {

/// The capabilities a backend declares, or a program requests, summarised by
/// the number of qubits that must be addressable at once.
#[derive(Clone, Copy, PartialEq, Eq, Structural, Debug)]
pub struct QuantumFeatures {
    pub qubit_count: u64,
}

impl QuantumFeatures {
    /// A request that any backend can satisfy.
    pub fn empty() -> (r: QuantumFeatures)
        ensures
            r.qubit_count == 0,
    {
        QuantumFeatures { qubit_count: 0 }
    }

    pub fn with_qubit_count(qubit_count: u64) -> (r: QuantumFeatures)
        ensures
            r.qubit_count == qubit_count,
    {
        QuantumFeatures { qubit_count }
    }

    /// Whether a backend declaring `self` covers the request `requested`:
    /// everything the request asks for is within the declared capabilities.
    pub open spec fn covers(self, requested: QuantumFeatures) -> bool {
        requested.qubit_count <= self.qubit_count
    }

    pub fn supports(&self, requested: &QuantumFeatures) -> (r: bool)
        ensures
            r == self.covers(*requested),
    {
        requested.qubit_count <= self.qubit_count
    }
}

}
