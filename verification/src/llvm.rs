use vstd::prelude::*;
use inkwell::context::Context;
use inkwell::memory_buffer::MemoryBuffer;
use inkwell::module::Module;
use inkwell::values::FunctionValue;

verus! {

// The decoding toolkit's handles are opaque here: nothing is assumed of what
// sits inside a context, a buffer, a module or a function value. Everything
// the orchestration logic decides on is first read out into plain values.

#[verifier::external_type_specification]
#[verifier::external_body]
pub struct ExContext(Context);

#[verifier::external_type_specification]
#[verifier::external_body]
pub struct ExMemoryBuffer(MemoryBuffer);

#[verifier::external_type_specification]
#[verifier::external_body]
pub struct ExModule<'ctx>(Module<'ctx>);

#[verifier::external_type_specification]
#[verifier::external_body]
pub struct ExFunctionValue<'ctx>(FunctionValue<'ctx>);

/// Relies on inkwell's Context::create: a fresh analysis context that owns
/// everything parsed into it.
#[verifier::external_body]
pub(crate) fn context_create() -> Context {
    Context::create()
}

/// Relies on inkwell's MemoryBuffer::create_from_file: reads one file into a
/// buffer; the result depends on what is on disk at call time.
#[verifier::external_body]
pub(crate) fn buffer_from_file(path: &str) -> Result<MemoryBuffer, String> {
    MemoryBuffer::create_from_file(std::path::Path::new(path)).map_err(|e| e.to_string())
}

/// Relies on inkwell's MemoryBuffer::create_from_memory_range_copy: wraps a
/// copy of the given bytes as a buffer under the given name.
#[verifier::external_body]
pub(crate) fn buffer_from_text(source: &str, name: &str) -> MemoryBuffer {
    MemoryBuffer::create_from_memory_range_copy(source.as_bytes(), name)
}

/// Relies on inkwell's MemoryBuffer::create_from_memory_range_copy: wraps a
/// copy of the given bytes as a buffer under the given name.
#[verifier::external_body]
pub(crate) fn buffer_from_bytes(data: &Vec<u8>, name: &str) -> MemoryBuffer {
    MemoryBuffer::create_from_memory_range_copy(data.as_slice(), name)
}

/// Relies on inkwell's Module::parse_bitcode_from_buffer: decodes a buffer of
/// bitcode into a module of this context.
#[verifier::external_body]
pub(crate) fn module_from_bitcode_buffer<'ctx>(buffer: &MemoryBuffer, context: &'ctx Context) -> Result<
    Module<'ctx>,
    String,
> {
    Module::parse_bitcode_from_buffer(buffer, context).map_err(|e| e.to_string())
}

/// Relies on inkwell's Context::create_module_from_ir: parses a buffer of
/// textual intermediate representation into a module of this context.
#[verifier::external_body]
pub(crate) fn module_from_ir<'ctx>(context: &'ctx Context, buffer: MemoryBuffer) -> Result<
    Module<'ctx>,
    String,
> {
    context.create_module_from_ir(buffer).map_err(|e| e.to_string())
}

/// Relies on inkwell's Module::parse_bitcode_from_path: reads and decodes one
/// bitcode file into a module of this context.
#[verifier::external_body]
pub(crate) fn module_from_bitcode_file<'ctx>(path: &str, context: &'ctx Context) -> Result<
    Module<'ctx>,
    String,
> {
    Module::parse_bitcode_from_path(path, context).map_err(|e| e.to_string())
}

/// Relies on inkwell's Module::verify: structural verification of the module,
/// with the verifier's diagnostic on rejection.
#[verifier::external_body]
pub(crate) fn verify_module(module: &Module) -> Result<(), String> {
    module.verify().map_err(|e| e.to_string())
}

/// Relies on inkwell's pass machinery: runs global dead-code elimination and
/// dead-prototype stripping over the module at the lowest optimisation level.
/// Normalisation only; a well-formed program keeps its meaning.
#[verifier::external_body]
pub(crate) fn run_default_passes(module: &Module) {
    let builder = inkwell::passes::PassManagerBuilder::create();
    builder.set_optimization_level(inkwell::OptimizationLevel::None);
    let passes = inkwell::passes::PassManager::create(());
    passes.add_global_dce_pass();
    passes.add_strip_dead_prototypes_pass();
    builder.populate_module_pass_manager(&passes);
    passes.run_on(module);
}

/// Relies on inkwell's Target::initialize_native: idempotent one-time
/// initialisation of the native code-generation target.
#[verifier::external_body]
pub(crate) fn initialize_native_target() -> Result<(), String> {
    inkwell::targets::Target::initialize_native(&inkwell::targets::InitializationConfig::default())
}

/// Relies on inkwell's support::load_library_permanently with an empty name:
/// makes the running process's own symbols resolvable for code generation.
#[verifier::external_body]
pub(crate) fn load_own_symbols() -> bool {
    inkwell::support::load_library_permanently("")
}

/// Relies on inkwell's Module::get_functions: every function of the module,
/// in declaration order.
#[verifier::external_body]
pub(crate) fn module_function_values<'ctx>(module: &Module<'ctx>) -> Vec<FunctionValue<'ctx>> {
    module.get_functions().collect()
}

/// Relies on inkwell's FunctionValue::get_name: the function's name, or empty
/// if the name is not valid text.
#[verifier::external_body]
pub(crate) fn function_name(function: &FunctionValue) -> String {
    function.get_name().to_str().unwrap_or("").to_owned()
}

/// Relies on inkwell's FunctionValue::get_string_attribute: the value of the
/// function-level string attribute of that name, if the function carries it.
#[verifier::external_body]
pub(crate) fn function_string_attribute(function: &FunctionValue, key: &str) -> Option<String> {
    function.get_string_attribute(inkwell::attributes::AttributeLoc::Function, key).map(
        |attribute| attribute.get_string_value().to_str().unwrap_or("").to_owned(),
    )
}

/// Relies on inkwell's FunctionValue::count_basic_blocks: how many basic
/// blocks the function's body holds; zero for a bare declaration.
#[verifier::external_body]
pub(crate) fn function_block_count(function: &FunctionValue) -> u32 {
    function.count_basic_blocks()
}

/// Relies on inkwell's FunctionType::print_to_string (LLVM's type printer):
/// the textual form of the function's type, its return type followed by the
/// parenthesised parameter list. The printer is total over every type kind,
/// unlike inkwell's typed return-type accessor, which panics on the kinds it
/// does not model.
#[verifier::external_body]
pub(crate) fn function_type_text(function: &FunctionValue) -> String {
    function.get_type().print_to_string().to_string()
}

}
