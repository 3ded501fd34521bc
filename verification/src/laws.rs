use vstd::prelude::*;
use crate::builders::IntegrationRuntime;
use crate::config::RasqalConfig;
use crate::execution::{
    FunctionInfo, ambiguous_entries, ambiguous_entry_message, graph_matches, no_entry_points_message,
    no_marked_entry, resolution_error, resolved_entry, runtime_capable, some_runtime_capable,
};
use crate::graphs::ExecutableAnalysisGraph;

verus! {

/// With exactly one function marked as an entry point and no requested name,
/// auto-detection cannot fail, and whatever it resolves is that function.
pub proof fn lemma_auto_detection_picks_unique_entry(
    functions: Seq<FunctionInfo>,
    i: int,
    e: Seq<char>,
)
    requires
        0 <= i < functions.len(),
        functions[i].is_marked_entry(),
        forall|j: int| 0 <= j < functions.len() && j != i ==> !functions[j].is_marked_entry(),
    ensures
        resolved_entry(functions, None::<&str>, i),
        !resolution_error(functions, None::<&str>, e),
        forall|k: int| resolved_entry(functions, None::<&str>, k) ==> k == i,
{
    if ambiguous_entries(functions) {
        let (a, b) = choose|a: int, b: int|
            0 <= a < b < functions.len() && functions[a].is_marked_entry()
                && functions[b].is_marked_entry();
        assert(a != i || b != i);
        assert(false);
    }
}

/// With no function marked as an entry point and no requested name,
/// resolution never succeeds, and its failure is the "no entry points" one.
pub proof fn lemma_no_marked_entries_fail(functions: Seq<FunctionInfo>, i: int, e: Seq<char>)
    requires
        no_marked_entry(functions),
    ensures
        !resolved_entry(functions, None::<&str>, i),
        resolution_error(functions, None::<&str>, e) ==> e == no_entry_points_message(),
        resolution_error(functions, None::<&str>, no_entry_points_message()),
{
    if ambiguous_entries(functions) {
        let (a, b) = choose|a: int, b: int|
            0 <= a < b < functions.len() && functions[a].is_marked_entry()
                && functions[b].is_marked_entry();
        assert(false);
    }
}

/// With two or more functions marked as entry points and no requested name,
/// resolution never succeeds, and its failure is the "ambiguous" one:
/// auto-detection refuses to guess by ordering.
pub proof fn lemma_multiple_marked_entries_ambiguous(
    functions: Seq<FunctionInfo>,
    a: int,
    b: int,
    i: int,
    e: Seq<char>,
)
    requires
        0 <= a < b < functions.len(),
        functions[a].is_marked_entry(),
        functions[b].is_marked_entry(),
    ensures
        !resolved_entry(functions, None::<&str>, i),
        resolution_error(functions, None::<&str>, e) ==> e == ambiguous_entry_message(),
        resolution_error(functions, None::<&str>, ambiguous_entry_message()),
{
    assert(ambiguous_entries(functions));
    if resolved_entry(functions, None::<&str>, i) {
        assert(a != i || b != i);
        assert(false);
    }
}

/// Resolution is deterministic: a module and a request admit at most one
/// resolved entry point, whether picked by name or by marker.
pub proof fn lemma_resolution_deterministic(
    functions: Seq<FunctionInfo>,
    name: Option<&str>,
    i: int,
    k: int,
)
    requires
        resolved_entry(functions, name, i),
        resolved_entry(functions, name, k),
    ensures
        i == k,
{
    match name {
        Some(n) => {
            if i < k {
                assert(functions[i].name@ != n@);
                assert(false);
            }
            if k < i {
                assert(functions[k].name@ != n@);
                assert(false);
            }
        },
        None => {
            if i != k {
                assert(!functions[k].is_marked_entry());
                assert(false);
            }
        },
    }
}

/// Round trip: a graph built from a module's resolved entry point runs to
/// completion when no step ceiling is configured and the pool holds a usable
/// backend with at least the qubit capacity the entry point declares.
pub proof fn lemma_round_trip_completes(
    functions: Seq<FunctionInfo>,
    name: Option<&str>,
    i: int,
    g: ExecutableAnalysisGraph,
    runtimes: Seq<IntegrationRuntime>,
    config: RasqalConfig,
    k: int,
)
    requires
        resolved_entry(functions, name, i),
        graph_matches(g, functions[i]),
        config.step_limit is None,
        0 <= k < runtimes.len(),
        runtimes[k].valid,
        runtimes[k].features.qubit_count >= functions[i].required_qubits,
    ensures
        some_runtime_capable(runtimes, g.required_features),
        config.allows_step_count(g.step_count),
{
    assert(runtime_capable(runtimes, g.required_features, k));
}

/// A step ceiling below a program's step count forbids completion; one at or
/// above it, or none at all, permits it. Together with the run contract this
/// makes the ceiling a sharp threshold: the same graph fails under the low
/// ceiling and may complete under the high one.
pub proof fn lemma_step_limit_threshold(
    g: ExecutableAnalysisGraph,
    c_low: RasqalConfig,
    c_high: RasqalConfig,
    c_free: RasqalConfig,
)
    requires
        c_low.step_limit matches Some(l) && (l as nat) < g.step_count as nat,
        c_high.step_limit matches Some(h) && g.step_count as nat <= (h as nat),
        c_free.step_limit is None,
    ensures
        !c_low.allows_step_count(g.step_count),
        c_high.allows_step_count(g.step_count),
        c_free.allows_step_count(g.step_count),
{
}

}
