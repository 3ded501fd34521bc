use rasqal::builders::IntegrationRuntime;
use rasqal::config::RasqalConfig;
use rasqal::execution::{run_source, RuntimeCollection};
use rasqal::features::QuantumFeatures;
use rasqal::instructions::Value;

/// One marked entry point over two qubits, three blocks, returning a word.
static BELL_SOURCE: &str = r#"
%Qubit = type opaque
%Result = type opaque

declare void @__quantum__qis__h__body(%Qubit*)
declare void @__quantum__qis__cnot__body(%Qubit*, %Qubit*)
declare void @__quantum__qis__mz__body(%Qubit*, %Result*)

define i64 @main() #0 {
entry:
  call void @__quantum__qis__h__body(%Qubit* null)
  br label %entangle
entangle:
  call void @__quantum__qis__cnot__body(%Qubit* null, %Qubit* inttoptr (i64 1 to %Qubit*))
  br label %measure
measure:
  call void @__quantum__qis__mz__body(%Qubit* null, %Result* null)
  ret i64 0
}

attributes #0 = { "entry_point" "requiredQubits"="2" }
"#;

/// Two functions both marked as entry points.
static AMBIGUOUS_SOURCE: &str = r#"
define i64 @first() #0 {
entry:
  ret i64 0
}

define i64 @second() #0 {
entry:
  ret i64 1
}

attributes #0 = { "entry_point" }
"#;

/// A marked entry point beside an unmarked helper.
static NAMED_SOURCE: &str = r#"
define i64 @main() #0 {
entry:
  ret i64 0
}

define void @helper() {
entry:
  ret void
}

attributes #0 = { "entry_point" }
"#;

/// A marked entry point whose return type is one of the kinds the decoding
/// toolkit's typed accessors do not model.
static MMX_RETURN_SOURCE: &str = r#"
define x86_mmx @main() #0 {
entry:
  ret x86_mmx undef
}

attributes #0 = { "entry_point" }
"#;

/// No function marked at all.
static UNMARKED_SOURCE: &str = r#"
define i64 @main() {
entry:
  ret i64 0
}
"#;

fn full_pool() -> RuntimeCollection {
    RuntimeCollection::from(&IntegrationRuntime::default())
}

fn run_with(
    source: &str,
    runtimes: &RuntimeCollection,
    entry_point: Option<&str>,
    config: &RasqalConfig,
) -> Result<Option<Value>, String> {
    run_source(source, "program.ll", &Vec::new(), runtimes, entry_point, config)
}

#[test]
fn bell_completes_with_a_present_result() {
    let result = run_with(BELL_SOURCE, &full_pool(), None, &RasqalConfig::default());
    assert!(matches!(result, Ok(Some(_))));
}

#[test]
fn step_limit_below_program_size_fails_and_above_completes() {
    let mut strict = RasqalConfig::default();
    strict.step_count_limit(2);
    assert!(run_with(BELL_SOURCE, &full_pool(), None, &strict).is_err());

    let generous = RasqalConfig::default().with_step_count_limit(3);
    assert!(run_with(BELL_SOURCE, &full_pool(), None, &generous).is_ok());
}

#[test]
fn two_marked_entry_points_abort_before_any_run() {
    let result = run_with(AMBIGUOUS_SOURCE, &full_pool(), None, &RasqalConfig::default());
    assert_eq!(
        result,
        Err("No specified method and more than one entry-point. Can't auto-detect.".to_string())
    );
}

#[test]
fn unmarked_module_reports_no_entry_points() {
    let result = run_with(UNMARKED_SOURCE, &full_pool(), None, &RasqalConfig::default());
    assert_eq!(result, Err("Can't find any entry-points.".to_string()));
}

#[test]
fn requested_name_reaches_an_unmarked_function() {
    let result = run_with(NAMED_SOURCE, &full_pool(), Some("helper"), &RasqalConfig::default());
    assert!(result.is_ok());
}

#[test]
fn requested_name_missing_reports_the_named_failure() {
    let result = run_with(NAMED_SOURCE, &full_pool(), Some("absent"), &RasqalConfig::default());
    assert_eq!(result, Err("Can't find a method with this name.".to_string()));
}

#[test]
fn declared_qubit_requirement_gates_backend_selection() {
    let narrow = RuntimeCollection::from(&IntegrationRuntime::new(
        true,
        QuantumFeatures::with_qubit_count(1),
    ));
    let result = run_with(BELL_SOURCE, &narrow, None, &RasqalConfig::default());
    assert_eq!(
        result,
        Err("Cannot find a QPU with the required features available.".to_string())
    );

    let wide = RuntimeCollection::from(&IntegrationRuntime::new(
        true,
        QuantumFeatures::with_qubit_count(2),
    ));
    assert!(run_with(BELL_SOURCE, &wide, None, &RasqalConfig::default()).is_ok());
}

#[test]
fn empty_pool_fails_every_run() {
    let empty = RuntimeCollection::default();
    let result = run_with(BELL_SOURCE, &empty, None, &RasqalConfig::default());
    assert_eq!(
        result,
        Err("Cannot find a QPU with the required features available.".to_string())
    );
}

#[test]
fn unusual_return_kinds_run_without_a_fault() {
    let result = run_with(MMX_RETURN_SOURCE, &full_pool(), None, &RasqalConfig::default());
    assert!(matches!(result, Ok(Some(_))));
}

#[test]
fn malformed_source_is_a_format_error() {
    let result = run_with("this is not intermediate representation", &full_pool(), None, &RasqalConfig::default());
    assert!(result.is_err());
}

#[test]
fn void_entry_point_completes_without_a_result() {
    let result = run_with(NAMED_SOURCE, &full_pool(), Some("helper"), &RasqalConfig::default());
    assert_eq!(result, Ok(None));
}
