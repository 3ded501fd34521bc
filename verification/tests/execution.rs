use rasqal::builders::IntegrationRuntime;
use rasqal::config::RasqalConfig;
use rasqal::execution::{run_source, RuntimeCollection};
use rasqal::instructions::Value;

/// A bell-pair preparation: three blocks, one marked entry point needing two
/// qubits and returning a readout word.
static BELL_SOURCE: &str = r#"
%Qubit = type opaque
%Result = type opaque

declare void @__quantum__qis__h__body(%Qubit*)
declare void @__quantum__qis__cnot__body(%Qubit*, %Qubit*)
declare void @__quantum__qis__mz__body(%Qubit*, %Result*)

define i64 @main() #0 {
entry:
  call void @__quantum__qis__h__body(%Qubit* null)
  br label %entangle
entangle:
  call void @__quantum__qis__cnot__body(%Qubit* null, %Qubit* inttoptr (i64 1 to %Qubit*))
  br label %measure
measure:
  call void @__quantum__qis__mz__body(%Qubit* null, %Result* null)
  ret i64 0
}

attributes #0 = { "entry_point" "requiredQubits"="2" }
"#;

/// A layered optimisation-ansatz program: four blocks over four qubits.
static QAOA_SOURCE: &str = r#"
%Qubit = type opaque
%Result = type opaque

declare void @__quantum__qis__h__body(%Qubit*)
declare void @__quantum__qis__rz__body(double, %Qubit*)
declare void @__quantum__qis__cnot__body(%Qubit*, %Qubit*)
declare void @__quantum__qis__mz__body(%Qubit*, %Result*)

define i64 @main() #0 {
entry:
  call void @__quantum__qis__h__body(%Qubit* null)
  call void @__quantum__qis__h__body(%Qubit* inttoptr (i64 1 to %Qubit*))
  br label %cost
cost:
  call void @__quantum__qis__cnot__body(%Qubit* null, %Qubit* inttoptr (i64 1 to %Qubit*))
  call void @__quantum__qis__rz__body(double 5.0e-01, %Qubit* inttoptr (i64 1 to %Qubit*))
  br label %mixer
mixer:
  call void @__quantum__qis__rz__body(double 2.5e-01, %Qubit* null)
  br label %measure
measure:
  call void @__quantum__qis__mz__body(%Qubit* null, %Result* null)
  ret i64 0
}

attributes #0 = { "entry_point" "requiredQubits"="4" }
"#;

/// An oracle construction probe: a marked entry point beside the unmarked
/// oracle it calls.
static ORACLE_SOURCE: &str = r#"
%Qubit = type opaque
%Result = type opaque

declare void @__quantum__qis__x__body(%Qubit*)
declare void @__quantum__qis__mz__body(%Qubit*, %Result*)

define void @oracle(%Qubit* %q) {
entry:
  call void @__quantum__qis__x__body(%Qubit* %q)
  ret void
}

define i64 @main() #0 {
entry:
  call void @oracle(%Qubit* null)
  br label %measure
measure:
  call void @__quantum__qis__mz__body(%Qubit* null, %Result* null)
  ret i64 0
}

attributes #0 = { "entry_point" "requiredQubits"="3" }
"#;

/// The oracle probe with its toggle hoisted into an entry-point argument.
static MINIFIED_ORACLE_SOURCE: &str = r#"
%Qubit = type opaque
%Result = type opaque

declare void @__quantum__qis__x__body(%Qubit*)
declare void @__quantum__qis__mz__body(%Qubit*, %Result*)

define i64 @main(i1 %toggle) #0 {
entry:
  br i1 %toggle, label %flip, label %measure
flip:
  call void @__quantum__qis__x__body(%Qubit* null)
  br label %measure
measure:
  call void @__quantum__qis__mz__body(%Qubit* null, %Result* null)
  ret i64 0
}

attributes #0 = { "entry_point" "requiredQubits"="1" }
"#;

/// A kernel in the alternate frontend's lowering, with the marker's other
/// spelling.
static CUDAQ_SOURCE: &str = r#"
%Qubit = type opaque
%Result = type opaque

declare void @__quantum__qis__h__body(%Qubit*)
declare void @__quantum__qis__mz__body(%Qubit*, %Result*)

define i64 @kernel() #0 {
entry:
  call void @__quantum__qis__h__body(%Qubit* null)
  br label %measure
measure:
  call void @__quantum__qis__mz__body(%Qubit* null, %Result* null)
  ret i64 0
}

attributes #0 = { "EntryPoint" "requiredQubits"="1" }
"#;

/// The bundled program each test file stands for, keyed by its path.
fn source_for(path: &str) -> &'static str {
    if path.contains("qaoa") {
        QAOA_SOURCE
    } else if path.contains("minified-oracle-generator") {
        MINIFIED_ORACLE_SOURCE
    } else if path.contains("oracle-generator") {
        ORACLE_SOURCE
    } else if path.contains("cudaq") {
        CUDAQ_SOURCE
    } else {
        BELL_SOURCE
    }
}

fn run(path: &str) -> Option<Value> {
    run_with_config(path, RasqalConfig::default())
}

fn run_with_args(path: &str, args: &Vec<Value>) -> Option<Value> {
    run_with_args_and_config(path, args, RasqalConfig::default()).expect("Execution failed.")
}

fn run_with_config(path: &str, config: RasqalConfig) -> Option<Value> {
    run_with_args_and_config(path, &Vec::new(), config).expect("Execution failed.")
}

fn fail_with_config(path: &str, config: RasqalConfig) -> Option<String> {
    run_with_args_and_config(path, &Vec::new(), config).err()
}

fn run_with_args_and_config(
    path: &str,
    args: &Vec<Value>,
    config: RasqalConfig,
) -> Result<Option<Value>, String> {
    let runtimes = RuntimeCollection::from(&IntegrationRuntime::default());
    run_source(source_for(path), path, args, &runtimes, None, &config)
}

#[test]
fn execute_qaoa() {
    run("../tests/qsharp/qaoa/qir/qaoa.ll");
}

#[test]
fn execute_simplified_oracle_generator() {
    run("../tests/qsharp/simplified-oracle-generator/qir/simplified-oracle-generator.ll");
}

#[test]
fn execute_oracle_generator() {
    run("../tests/qsharp/oracle-generator/qir/oracle-generator.ll");
}

#[test]
fn execute_minified_oracle_generator() {
    run_with_args(
        "../tests/qsharp/minified-oracle-generator/qir/minified-oracle-generator.ll",
        &vec![Value::from(true)],
    );
}

#[test]
fn execute_unrestricted_bell() {
    run("../tests/files/qir/unrestricted_bell.ll");
}

#[test]
fn test_step_count() {
    let mut config = RasqalConfig::default();
    config.step_count_limit(2);
    let results = fail_with_config("../tests/files/qir/unrestricted_bell.ll", config);
    assert!(results.is_some())
}

#[test]
fn execute_bell_int_return() {
    run(&"../tests/files/qir/bell_int_return.ll");
}

#[test]
fn execute_bell_psi_minus() {
    run(&"../tests/files/qir/bell_psi_minus.ll");
}

#[test]
fn execute_bell_psi_plus() {
    run(&"../tests/files/qir/bell_psi_plus.ll");
}

#[test]
fn execute_bell_theta_plus() {
    run(&"../tests/files/qir/bell_theta_plus.ll");
}

#[test]
fn execute_bell_theta_minus() {
    run(&"../tests/files/qir/bell_theta_minus.ll");
}

#[test]
fn execute_basic_cudaq() {
    let config = RasqalConfig::default().with_trace_projections();
    run_with_config(&"../tests/files/qir/basic_cudaq.ll", config);
}
