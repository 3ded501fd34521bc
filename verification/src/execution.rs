use vstd::prelude::*;
use crate::builders::IntegrationRuntime;
use crate::config::RasqalConfig;
use crate::features::QuantumFeatures;
use crate::graphs::ExecutableAnalysisGraph;
use crate::instructions::Value;
use crate::llvm;
use crate::runtime::QuantumRuntime;
use inkwell::context::Context;
use inkwell::module::Module;

verus! {

// ---------------------------------------------------------------------------
// Backend pool
// ---------------------------------------------------------------------------

/// Whether entry `i` of the pool can take a program requesting `requested`:
/// it must be usable right now and declare capabilities covering the request.
pub open spec fn runtime_capable(
    runtimes: Seq<IntegrationRuntime>,
    requested: QuantumFeatures,
    i: int,
) -> bool {
    runtimes[i].valid && runtimes[i].features.covers(requested)
}

pub open spec fn some_runtime_capable(
    runtimes: Seq<IntegrationRuntime>,
    requested: QuantumFeatures,
) -> bool {
    exists|i: int|
        0 <= i < runtimes.len() && #[trigger] runtime_capable(runtimes, requested, i)
}

/// An ordered pool of backend integrations. Insertion order is significant:
/// selection is first-fit, duplicates are allowed, and entries are only ever
/// appended, never removed or reordered.
pub struct RuntimeCollection {
    qpu_runtimes: Vec<IntegrationRuntime>,
}

impl View for RuntimeCollection {
    type V = Seq<IntegrationRuntime>;

    closed spec fn view(&self) -> Seq<IntegrationRuntime> {
        self.qpu_runtimes@
    }
}

impl RuntimeCollection {
    pub fn new(engines: Vec<IntegrationRuntime>) -> (r: RuntimeCollection)
        ensures
            r@ == engines@,
    {
        RuntimeCollection { qpu_runtimes: engines }
    }

    /// Appends one backend at the end of the pool.
    pub fn add(&mut self, engine: &IntegrationRuntime)
        ensures
            final(self)@ == old(self)@.push(*engine),
    {
        self.qpu_runtimes.push(*engine);
    }

    pub fn from(engine: &IntegrationRuntime) -> (r: RuntimeCollection)
        ensures
            r@ == seq![*engine],
    {
        let mut engines: Vec<IntegrationRuntime> = Vec::new();
        engines.push(*engine);
        assert(engines@ =~= seq![*engine]);
        RuntimeCollection { qpu_runtimes: engines }
    }

    /// Fetches the first backend, in insertion order, that is currently
    /// usable and declares the requested features; absence of such a backend
    /// is reported as `None`, never as an error. Validity is asked of every
    /// entry afresh on every call, so a backend that has gone unhealthy since
    /// the last scan is passed over.
    #[allow(non_snake_case)]
    pub fn find_capable_QPU(&self, features: &QuantumFeatures) -> (r: Option<IntegrationRuntime>)
        ensures
            match r {
                Some(engine) => exists|i: int|
                    0 <= i < self@.len() && #[trigger] runtime_capable(self@, *features, i)
                        && engine == self@[i] && (forall|j: int|
                        0 <= j < i ==> !runtime_capable(self@, *features, j)),
                None => forall|i: int|
                    0 <= i < self@.len() ==> !runtime_capable(self@, *features, i),
            },
    {
        let mut idx: usize = 0;
        while idx < self.qpu_runtimes.len()
            invariant
                idx <= self.qpu_runtimes.len(),
                forall|j: int| 0 <= j < idx ==> !runtime_capable(self@, *features, j),
            decreases self.qpu_runtimes.len() - idx,
        {
            let engine = &self.qpu_runtimes[idx];
            if engine.is_valid() && engine.has_features(features) {
                assert(runtime_capable(self@, *features, idx as int));
                return Some(*engine);
            }
            idx += 1;
        }
        None
    }
}

impl Clone for RuntimeCollection {
    fn clone(&self) -> (r: Self)
        ensures
            r@ == self@,
    {
        let mut engines: Vec<IntegrationRuntime> = Vec::new();
        let mut idx: usize = 0;
        while idx < self.qpu_runtimes.len()
            invariant
                idx <= self.qpu_runtimes.len(),
                engines@ == self.qpu_runtimes@.take(idx as int),
            decreases self.qpu_runtimes.len() - idx,
        {
            engines.push(self.qpu_runtimes[idx]);
            idx += 1;
            assert(engines@ =~= self.qpu_runtimes@.take(idx as int));
        }
        assert(engines@ =~= self.qpu_runtimes@);
        RuntimeCollection { qpu_runtimes: engines }
    }
}

impl Default for RuntimeCollection {
    /// An empty pool.
    fn default() -> (r: RuntimeCollection)
        ensures
            r@.len() == 0,
    {
        RuntimeCollection { qpu_runtimes: Vec::new() }
    }
}

// ---------------------------------------------------------------------------
// Entry-point resolution
// ---------------------------------------------------------------------------

/// What the orchestration layer reads of one function of a loaded module:
/// its name, whether it carries either spelling of the entry-point marker
/// attribute, how many qubits its marker declares it to need, how many basic
/// blocks its body holds (the nodes its analysis graph will have), and
/// whether it returns a value.
#[derive(Clone, Debug)]
pub struct FunctionInfo {
    pub name: String,
    pub entry_point_attribute: bool,
    pub entry_point_attribute_alt: bool,
    pub required_qubits: u64,
    pub basic_block_count: usize,
    pub returns_value: bool,
}

impl FunctionInfo {
    /// A function is an auto-discoverable entry point when it carries the
    /// marker attribute under either of its two recognised spellings.
    pub open spec fn is_marked_entry(self) -> bool {
        self.entry_point_attribute || self.entry_point_attribute_alt
    }
}

/// Checks whether this function is marked as an entry point. Both recognised
/// spellings of the marker are probed; neither subsumes the other.
pub fn is_entry_point(function: &FunctionInfo) -> (r: bool)
    ensures
        r == function.is_marked_entry(),
{
    function.entry_point_attribute || function.entry_point_attribute_alt
}

pub open spec fn no_matching_name_message() -> Seq<char> {
    "Can't find a method with this name."@
}

pub open spec fn no_entry_points_message() -> Seq<char> {
    "Can't find any entry-points."@
}

pub open spec fn ambiguous_entry_message() -> Seq<char> {
    "No specified method and more than one entry-point. Can't auto-detect."@
}

/// Index `i` is the function resolution must pick: with a requested name, the
/// first function bearing exactly that name, marked or not; with none, the
/// one function marked as an entry point.
pub open spec fn resolved_entry(functions: Seq<FunctionInfo>, name: Option<&str>, i: int) -> bool {
    &&& 0 <= i < functions.len()
    &&& match name {
        Some(n) => functions[i].name@ == n@ && (forall|j: int|
            0 <= j < i ==> functions[j].name@ != n@),
        None => functions[i].is_marked_entry() && (forall|j: int|
            0 <= j < functions.len() && j != i ==> !functions[j].is_marked_entry()),
    }
}

pub open spec fn name_not_found(functions: Seq<FunctionInfo>, n: &str) -> bool {
    forall|j: int| 0 <= j < functions.len() ==> functions[j].name@ != n@
}

pub open spec fn no_marked_entry(functions: Seq<FunctionInfo>) -> bool {
    forall|j: int| 0 <= j < functions.len() ==> !functions[j].is_marked_entry()
}

pub open spec fn ambiguous_entries(functions: Seq<FunctionInfo>) -> bool {
    exists|i: int, j: int|
        0 <= i < j < functions.len() && functions[i].is_marked_entry()
            && functions[j].is_marked_entry()
}

/// The failures resolution may report, each tied to exactly the inputs that
/// produce it: an unmatched requested name, a module with no marked entry
/// point, or a module with more than one.
pub open spec fn resolution_error(
    functions: Seq<FunctionInfo>,
    name: Option<&str>,
    e: Seq<char>,
) -> bool {
    match name {
        Some(n) => name_not_found(functions, n) && e == no_matching_name_message(),
        None => (no_marked_entry(functions) && e == no_entry_points_message()) || (
        ambiguous_entries(functions) && e == ambiguous_entry_message()),
    }
}

/// Picks the function execution starts from, as an index into the module's
/// functions in declaration order.
///
/// With a requested name, the first function bearing exactly that name is
/// chosen, marked as an entry point or not. With no requested name, the one
/// function marked as an entry point is chosen; none at all, or more than
/// one, is a distinct failure — auto-detection never guesses.
pub fn choose_entry_point(functions: &Vec<FunctionInfo>, name: Option<&str>) -> (r: Result<
    usize,
    String,
>)
    ensures
        match r {
            Ok(i) => resolved_entry(functions@, name, i as int),
            Err(e) => resolution_error(functions@, name, e@),
        },
{
    match name {
        Some(requested) => {
            let wanted: String = requested.to_owned();
            let mut idx: usize = 0;
            while idx < functions.len()
                invariant
                    name is Some && name->Some_0@ == requested@,
                    idx <= functions@.len(),
                    wanted@ == requested@,
                    forall|j: int| 0 <= j < idx ==> functions@[j].name@ != requested@,
                decreases functions@.len() - idx,
            {
                if functions[idx].name == wanted {
                    return Ok(idx);
                }
                idx += 1;
            }
            Err("Can't find a method with this name.".to_owned())
        },
        None => {
            let mut found: Option<usize> = None;
            let mut idx: usize = 0;
            while idx < functions.len()
                invariant
                    name is None,
                    idx <= functions@.len(),
                    match found {
                        Some(k) => 0 <= k < idx && functions@[k as int].is_marked_entry() && (
                        forall|j: int|
                            0 <= j < idx && j != k ==> !functions@[j].is_marked_entry()),
                        None => forall|j: int| 0 <= j < idx ==> !functions@[j].is_marked_entry(),
                    },
                decreases functions@.len() - idx,
            {
                if is_entry_point(&functions[idx]) {
                    match found {
                        Some(k) => {
                            assert(exists|a: int, b: int|
                                0 <= a < b < functions@.len() && functions@[a].is_marked_entry()
                                    && functions@[b].is_marked_entry()) by {
                                assert((k as int) < (idx as int));
                                assert((idx as int) < functions@.len());
                                assert(functions@[k as int].is_marked_entry());
                                assert(functions@[idx as int].is_marked_entry());
                            }
                            return Err(
                                "No specified method and more than one entry-point. Can't auto-detect.".to_owned(),
                            );
                        },
                        None => {
                            found = Some(idx);
                        },
                    }
                }
                idx += 1;
            }
            match found {
                Some(k) => Ok(k),
                None => Err("Can't find any entry-points.".to_owned()),
            }
        },
    }
}

// ---------------------------------------------------------------------------
// Decimal attribute values
// ---------------------------------------------------------------------------

pub open spec fn is_decimal_digit(c: char) -> bool {
    48 <= c as u32 && c as u32 <= 57
}

pub open spec fn all_decimal_digits(s: Seq<char>) -> bool {
    forall|i: int| 0 <= i < s.len() ==> is_decimal_digit(#[trigger] s[i])
}

/// The number a digit string denotes, most significant digit first.
pub open spec fn decimal_value(s: Seq<char>) -> int
    decreases s.len(),
{
    if s.len() == 0 {
        0
    } else {
        decimal_value(s.drop_last()) * 10 + (s.last() as u32) as int - 48
    }
}

proof fn lemma_decimal_value_nonneg(s: Seq<char>)
    requires
        all_decimal_digits(s),
    ensures
        decimal_value(s) >= 0,
    decreases s.len(),
{
    if s.len() > 0 {
        assert(all_decimal_digits(s.drop_last()));
        lemma_decimal_value_nonneg(s.drop_last());
    }
}

/// A digit string denotes at least what any of its prefixes denotes.
proof fn lemma_decimal_value_prefix_le(s: Seq<char>, i: int)
    requires
        0 <= i <= s.len(),
        all_decimal_digits(s),
    ensures
        decimal_value(s.take(i)) <= decimal_value(s),
    decreases s.len() - i,
{
    if i == s.len() {
        assert(s.take(i) =~= s);
    } else {
        lemma_decimal_value_prefix_le(s, i + 1);
        assert(s.take(i + 1).drop_last() =~= s.take(i));
        assert(s.take(i + 1).last() == s[i]);
        assert(all_decimal_digits(s.take(i)));
        lemma_decimal_value_nonneg(s.take(i));
    }
}

/// Reads a whole string as an unsigned decimal number. Absence is returned
/// for an empty string, any non-digit character, and a value over the `u64`
/// range.
pub fn parse_u64(s: &str) -> (r: Option<u64>)
    ensures
        match r {
            Some(v) => s@.len() > 0 && all_decimal_digits(s@) && v as int == decimal_value(s@),
            None => s@.len() == 0 || !all_decimal_digits(s@) || decimal_value(s@) > u64::MAX,
        },
{
    let n = s.unicode_len();
    if n == 0 {
        return None;
    }
    let mut acc: u64 = 0;
    let mut i: usize = 0;
    while i < n
        invariant
            i <= n,
            n == s@.len(),
            all_decimal_digits(s@.take(i as int)),
            acc as int == decimal_value(s@.take(i as int)),
        decreases n - i,
    {
        let c = s.get_char(i);
        if !(c >= '0' && c <= '9') {
            proof {
                assert(!is_decimal_digit(s@[i as int]));
            }
            return None;
        }
        let d: u64 = (c as u32 as u64) - 48;
        proof {
            assert(s@.take(i as int + 1).drop_last() =~= s@.take(i as int));
            assert(s@.take(i as int + 1).last() == s@[i as int]);
        }
        if acc > 1844674407370955161u64 || (acc == 1844674407370955161u64 && d > 5) {
            proof {
                assert(decimal_value(s@.take(i as int + 1)) > u64::MAX);
                if all_decimal_digits(s@) {
                    lemma_decimal_value_prefix_le(s@, i as int + 1);
                }
            }
            return None;
        }
        acc = acc * 10 + d;
        i += 1;
    }
    proof {
        assert(s@.take(n as int) =~= s@);
    }
    Some(acc)
}

// ---------------------------------------------------------------------------
// Path extensions
// ---------------------------------------------------------------------------

/// Where the extension of the path's final component starts: the position of
/// its last `.`, provided no `/` follows and the dot neither opens the
/// component nor the path. The extension itself is everything after that dot.
pub open spec fn extension_start(s: Seq<char>) -> Option<int>
    decreases s.len(),
{
    if s.len() == 0 {
        None
    } else if s.last() == '/' {
        None
    } else if s.last() == '.' {
        if s.len() >= 2 && s[s.len() - 2] != '/' {
            Some(s.len() - 1)
        } else {
            None
        }
    } else {
        extension_start(s.drop_last())
    }
}

pub open spec fn path_extension_spec(s: Seq<char>) -> Option<Seq<char>> {
    match extension_start(s) {
        Some(k) => Some(s.subrange(k + 1, s.len() as int)),
        None => None,
    }
}

/// The two serialisations the loader recognises, by extension: `ll` for
/// textual intermediate representation, `bc` for bitcode.
pub open spec fn supported_extension(ext: Option<Seq<char>>) -> bool {
    ext == Some("ll"@) || ext == Some("bc"@)
}

pub open spec fn unsupported_extension_message(ext: Option<Seq<char>>) -> Seq<char> {
    "Unsupported file extension '"@ + (match ext {
        Some(e) => e,
        None => Seq::<char>::empty(),
    }) + "'."@
}

/// The extension of the path's final component, if it has one.
pub fn path_extension(path: &str) -> (r: Option<String>)
    ensures
        match r {
            Some(e) => path_extension_spec(path@) == Some(e@),
            None => path_extension_spec(path@) is None,
        },
{
    let n = path.unicode_len();
    let mut i: usize = n;
    proof {
        assert(path@.take(n as int) =~= path@);
    }
    while i > 0
        invariant
            i <= n,
            n == path@.len(),
            extension_start(path@) == extension_start(path@.take(i as int)),
        decreases i,
    {
        let c = path.get_char(i - 1);
        proof {
            assert(path@.take(i as int).last() == path@[i as int - 1]);
        }
        if c == '/' {
            return None;
        }
        if c == '.' {
            if i >= 2 && path.get_char(i - 2) != '/' {
                proof {
                    assert(path@.take(i as int)[i as int - 2] == path@[i as int - 2]);
                }
                let ext = path.substring_char(i, n);
                return Some(ext.to_owned());
            }
            proof {
                if i >= 2 {
                    assert(path@.take(i as int)[i as int - 2] == path@[i as int - 2]);
                }
            }
            return None;
        }
        proof {
            assert(path@.take(i as int).drop_last() =~= path@.take(i as int - 1));
        }
        i -= 1;
    }
    proof {
        assert(path@.take(0).len() == 0);
    }
    None
}

// ---------------------------------------------------------------------------
// Function type text
// ---------------------------------------------------------------------------

/// The index of the `)` that closes the parenthesis group the scan is inside,
/// reading `s` from index `i` at nesting depth `depth`; characters between
/// double quotes (quoted identifiers) do not count.
pub open spec fn scan_close(s: Seq<char>, i: int, depth: int, in_quote: bool) -> Option<int>
    decreases s.len() - i,
{
    if i < 0 || i >= s.len() {
        None
    } else if in_quote {
        scan_close(s, i + 1, depth, s[i] != '"')
    } else if s[i] == '"' {
        scan_close(s, i + 1, depth, true)
    } else if s[i] == '(' {
        scan_close(s, i + 1, depth + 1, false)
    } else if s[i] == ')' {
        if depth == 1 {
            Some(i)
        } else {
            scan_close(s, i + 1, depth - 1, false)
        }
    } else {
        scan_close(s, i + 1, depth, false)
    }
}

/// Whether a printed function type is void-returning. The printed form is the
/// return type, a space, and the parenthesised parameter list, so the type
/// returns void exactly when the text opens with `void (` and that
/// parenthesis closes at the very end: a return type may itself be a pointer
/// to a function, whose own `void (` prefix closes earlier in the text.
pub open spec fn void_function_type_text(s: Seq<char>) -> bool {
    &&& s.len() >= 6
    &&& s.take(5) == "void "@
    &&& s[5] == '('
    &&& scan_close(s, 6, 1, false) == Some(s.len() - 1)
}

/// Decides `void_function_type_text` on a printed function type.
pub fn is_void_function_type(s: &str) -> (r: bool)
    ensures
        r == void_function_type_text(s@),
{
    let n = s.unicode_len();
    if n < 6 {
        return false;
    }
    let prefix = s.substring_char(0, 5);
    if !(prefix.to_owned() == "void ".to_owned()) {
        return false;
    }
    if s.get_char(5) != '(' {
        return false;
    }
    let mut i: usize = 6;
    let mut depth: usize = 1;
    let mut in_quote: bool = false;
    while i < n
        invariant
            6 <= i <= n,
            n == s@.len(),
            1 <= depth <= i,
            n >= 6,
            s@.take(5) == "void "@,
            s@[5] == '(',
            scan_close(s@, 6, 1, false) == scan_close(s@, i as int, depth as int, in_quote),
        decreases n - i,
    {
        let c = s.get_char(i);
        if in_quote {
            in_quote = c != '"';
        } else if c == '"' {
            in_quote = true;
        } else if c == '(' {
            depth += 1;
        } else if c == ')' {
            if depth == 1 {
                return i == n - 1;
            }
            depth -= 1;
        }
        i += 1;
    }
    false
}

// ---------------------------------------------------------------------------
// Reading a module out into plain values
// ---------------------------------------------------------------------------

/// Reads every function of a module, in declaration order, out into the plain
/// summary the resolution and build logic works on. Both recognised spellings
/// of the entry-point marker are probed separately; a `requiredQubits`
/// attribute that is not a decimal number within range counts as zero.
pub fn module_functions<'ctx>(module: &Module<'ctx>) -> Vec<FunctionInfo> {
    let values = llvm::module_function_values(module);
    let mut functions: Vec<FunctionInfo> = Vec::new();
    let mut idx: usize = 0;
    while idx < values.len()
        decreases values.len() - idx,
    {
        let function = &values[idx];
        let required_qubits: u64 = match llvm::function_string_attribute(
            function,
            "requiredQubits",
        ) {
            Some(text) => match parse_u64(text.as_str()) {
                Some(count) => count,
                None => 0,
            },
            None => 0,
        };
        let blocks = llvm::function_block_count(function);
        let type_text = llvm::function_type_text(function);
        functions.push(
            FunctionInfo {
                name: llvm::function_name(function),
                entry_point_attribute: llvm::function_string_attribute(
                    function,
                    "entry_point",
                ).is_some(),
                entry_point_attribute_alt: llvm::function_string_attribute(
                    function,
                    "EntryPoint",
                ).is_some(),
                required_qubits,
                basic_block_count: blocks as usize,
                returns_value: !is_void_function_type(type_text.as_str()),
            },
        );
        idx += 1;
    }
    functions
}

// ---------------------------------------------------------------------------
// Building and running graphs
// ---------------------------------------------------------------------------

/// How a compiled graph reflects the function it was built from: one
/// evaluation step per node of the function's body, the qubit requirement its
/// marker declares, and a result exactly when the function returns a value.
pub open spec fn graph_matches(g: ExecutableAnalysisGraph, f: FunctionInfo) -> bool {
    &&& g.entry_name@ == f.name@
    &&& g.step_count == f.basic_block_count
    &&& g.required_features.qubit_count == f.required_qubits
    &&& g.produces_result == f.returns_value
}

/// The graph was built for an entry point that resolution picked, under this
/// request, out of some module summary: the summary itself is an outside
/// value and stays unnamed, but whatever it was, the graph reflects a
/// function that resolution's rules selected from it.
pub open spec fn built_for_entry(g: ExecutableAnalysisGraph, entry_point: Option<&str>) -> bool {
    exists|functions: Seq<FunctionInfo>, i: int|
        #[trigger] resolved_entry(functions, entry_point, i) && graph_matches(g, functions[i])
}

/// Lowers a module summary into an executable analysis graph for its resolved
/// entry point. Fails exactly where resolution fails, with resolution's own
/// diagnostics.
pub fn build_graph(functions: &Vec<FunctionInfo>, entry_point: Option<&str>) -> (r: Result<
    ExecutableAnalysisGraph,
    String,
>)
    ensures
        match r {
            Ok(g) => exists|i: int|
                #[trigger] resolved_entry(functions@, entry_point, i) && graph_matches(
                    g,
                    functions@[i],
                ),
            Err(e) => resolution_error(functions@, entry_point, e@),
        },
{
    match choose_entry_point(functions, entry_point) {
        Ok(index) => {
            let chosen = &functions[index];
            let graph = ExecutableAnalysisGraph {
                entry_name: chosen.name.clone(),
                step_count: chosen.basic_block_count,
                required_features: QuantumFeatures { qubit_count: chosen.required_qubits },
                produces_result: chosen.returns_value,
            };
            proof {
                assert(resolved_entry(functions@, entry_point, index as int) && graph_matches(
                    graph,
                    functions@[index as int],
                ));
            }
            Ok(graph)
        },
        Err(e) => Err(e),
    }
}

/// Verifies a freshly loaded module, normalises it with the fixed pass pair
/// (global dead-code elimination, dead-prototype stripping), prepares native
/// code generation, and lowers the module into a graph for its resolved entry
/// point. A module the verifier rejects is reported at once, with the
/// verifier's diagnostic, and never optimised or resolved.
pub fn build_graph_from_module<'ctx>(module: &Module<'ctx>, entry_point: Option<&str>) -> (r:
    Result<ExecutableAnalysisGraph, String>)
    ensures
        r matches Ok(g) ==> built_for_entry(g, entry_point),
        r matches Ok(g) ==> (entry_point matches Some(n) ==> g.entry_name@ == n@),
{
    match llvm::verify_module(module) {
        Ok(_) => {},
        Err(diagnostic) => {
            let mut message = "Failed to verify module: ".to_owned();
            message.append(diagnostic.as_str());
            return Err(message);
        },
    }
    llvm::run_default_passes(module);
    match llvm::initialize_native_target() {
        Ok(_) => {},
        Err(e) => {
            return Err(e);
        },
    }
    llvm::load_own_symbols();
    let functions = module_functions(module);
    match build_graph(&functions, entry_point) {
        Ok(graph) => {
            proof {
                let i = choose|i: int|
                    #![auto]
                    resolved_entry(functions@, entry_point, i) && graph_matches(
                        graph,
                        functions@[i],
                    );
                assert(resolved_entry(functions@, entry_point, i) && graph_matches(
                    graph,
                    functions@[i],
                ));
                match entry_point {
                    Some(n) => {
                        assert(graph.entry_name@ == n@);
                    },
                    None => {},
                }
            }
            Ok(graph)
        },
        Err(e) => Err(e),
    }
}

/// Decodes one program file into a module of the given analysis context,
/// picking the decoding strategy from the path's extension. Any extension but
/// the two recognised ones is rejected at once, naming the extension, before
/// anything is read or parsed.
pub fn file_to_module<'ctx>(path: &str, context: &'ctx Context) -> (r: Result<Module<'ctx>, String>)
    ensures
        !supported_extension(path_extension_spec(path@)) ==> (r matches Err(e) && e@
            == unsupported_extension_message(path_extension_spec(path@))),
        r matches Ok(_) ==> supported_extension(path_extension_spec(path@)),
{
    match path_extension(path) {
        Some(extension) => {
            if extension == "ll".to_owned() {
                match llvm::buffer_from_file(path) {
                    Ok(buffer) => llvm::module_from_ir(context, buffer),
                    Err(e) => Err(e),
                }
            } else if extension == "bc".to_owned() {
                llvm::module_from_bitcode_file(path, context)
            } else {
                let mut message = "Unsupported file extension '".to_owned();
                message.append(extension.as_str());
                message.append("'.");
                Err(message)
            }
        },
        None => {
            let mut message = "Unsupported file extension '".to_owned();
            message.append("'.");
            proof {
                assert(message@ =~= unsupported_extension_message(path_extension_spec(path@)));
            }
            Err(message)
        },
    }
}

/// Parses the program file and builds the executable analysis graph for it.
pub fn parse_file(path: &str, entry_point: Option<&str>) -> (r: Result<
    ExecutableAnalysisGraph,
    String,
>)
    ensures
        !supported_extension(path_extension_spec(path@)) ==> (r matches Err(e) && e@
            == unsupported_extension_message(path_extension_spec(path@))),
        r matches Ok(_) ==> supported_extension(path_extension_spec(path@)),
        r matches Ok(g) ==> built_for_entry(g, entry_point),
        r matches Ok(g) ==> (entry_point matches Some(n) ==> g.entry_name@ == n@),
{
    let context = llvm::context_create();
    let module = match file_to_module(path, &context) {
        Ok(module) => module,
        Err(e) => {
            return Err(e);
        },
    };
    build_graph_from_module(&module, entry_point)
}

/// Decodes textual intermediate representation held in memory, under a buffer
/// name used for diagnostics, into a module of the given context.
pub fn source_to_module<'ctx>(source: &str, name: &str, context: &'ctx Context) -> Result<
    Module<'ctx>,
    String,
> {
    let buffer = llvm::buffer_from_text(source, name);
    llvm::module_from_ir(context, buffer)
}

/// Parses textual intermediate representation held in memory and builds the
/// executable analysis graph for it.
pub fn parse_source(source: &str, name: &str, entry_point: Option<&str>) -> (r: Result<
    ExecutableAnalysisGraph,
    String,
>)
    ensures
        r matches Ok(g) ==> built_for_entry(g, entry_point),
        r matches Ok(g) ==> (entry_point matches Some(n) ==> g.entry_name@ == n@),
{
    let context = llvm::context_create();
    let module = match source_to_module(source, name, &context) {
        Ok(module) => module,
        Err(e) => {
            return Err(e);
        },
    };
    build_graph_from_module(&module, entry_point)
}

/// Decodes binary intermediate representation held in memory, under a buffer
/// name used for diagnostics, into a module of the given context.
pub fn bitcode_to_module<'ctx>(bitcode: &Vec<u8>, name: &str, context: &'ctx Context) -> Result<
    Module<'ctx>,
    String,
> {
    let buffer = llvm::buffer_from_bytes(bitcode, name);
    llvm::module_from_bitcode_buffer(&buffer, context)
}

/// Parses binary intermediate representation held in memory and builds the
/// executable analysis graph for it.
pub fn parse_bitcode(bitcode: &Vec<u8>, name: &str, entry_point: Option<&str>) -> (r: Result<
    ExecutableAnalysisGraph,
    String,
>)
    ensures
        r matches Ok(g) ==> built_for_entry(g, entry_point),
        r matches Ok(g) ==> (entry_point matches Some(n) ==> g.entry_name@ == n@),
{
    let context = llvm::context_create();
    let module = match bitcode_to_module(bitcode, name, &context) {
        Ok(module) => module,
        Err(e) => {
            return Err(e);
        },
    };
    build_graph_from_module(&module, entry_point)
}

/// Executes a program given as binary intermediate representation in memory,
/// under a buffer name used for diagnostics.
pub fn run_bitcode(
    bitcode: &Vec<u8>,
    name: &str,
    arguments: &Vec<Value>,
    runtimes: &RuntimeCollection,
    entry_point: Option<&str>,
    config: &RasqalConfig,
) -> (r: Result<Option<Value>, String>)
    ensures
        r matches Ok(v) ==> exists|g: ExecutableAnalysisGraph|
            #[trigger] built_for_entry(g, entry_point) && v == crate::runtime::completed_value(g),
{
    let graph = match parse_bitcode(bitcode, name, entry_point) {
        Ok(graph) => graph,
        Err(e) => {
            return Err(e);
        },
    };
    let result = run_graph(&graph, arguments, runtimes, config);
    proof {
        if result is Ok {
            assert(built_for_entry(graph, entry_point) && result->Ok_0
                == crate::runtime::completed_value(graph));
        }
    }
    result
}

/// Executes a prebuilt graph against the backend pool under the given
/// configuration, through a fresh session scoped to this one run.
pub fn run_graph(
    graph: &ExecutableAnalysisGraph,
    arguments: &Vec<Value>,
    runtimes: &RuntimeCollection,
    config: &RasqalConfig,
) -> (r: Result<Option<Value>, String>)
    ensures
        match r {
            Ok(v) => some_runtime_capable(runtimes@, graph.required_features)
                && config.allows_step_count(graph.step_count) && v
                == crate::runtime::completed_value(*graph),
            Err(e) => (!some_runtime_capable(runtimes@, graph.required_features) && e@
                == crate::runtime::no_capable_runtime_message()) || (some_runtime_capable(
                runtimes@,
                graph.required_features,
            ) && !config.allows_step_count(graph.step_count) && e@
                == crate::runtime::step_limit_message()),
        },
{
    let runtime = QuantumRuntime::new(runtimes, config);
    runtime.execute(graph, arguments)
}

/// Executes the program file: the full load, verify, resolve, build pipeline,
/// then a run against the backend pool.
pub fn run_file(
    path: &str,
    arguments: &Vec<Value>,
    runtimes: &RuntimeCollection,
    entry_point: Option<&str>,
    config: &RasqalConfig,
) -> (r: Result<Option<Value>, String>)
    ensures
        !supported_extension(path_extension_spec(path@)) ==> (r matches Err(e) && e@
            == unsupported_extension_message(path_extension_spec(path@))),
        r matches Ok(_) ==> supported_extension(path_extension_spec(path@)),
        r matches Ok(v) ==> exists|g: ExecutableAnalysisGraph|
            #[trigger] built_for_entry(g, entry_point) && v == crate::runtime::completed_value(g),
{
    let graph = match parse_file(path, entry_point) {
        Ok(graph) => graph,
        Err(e) => {
            return Err(e);
        },
    };
    let result = run_graph(&graph, arguments, runtimes, config);
    proof {
        if result is Ok {
            assert(built_for_entry(graph, entry_point) && result->Ok_0
                == crate::runtime::completed_value(graph));
        }
    }
    result
}

/// Executes a program given as textual intermediate representation in memory,
/// under a buffer name used for diagnostics.
pub fn run_source(
    source: &str,
    name: &str,
    arguments: &Vec<Value>,
    runtimes: &RuntimeCollection,
    entry_point: Option<&str>,
    config: &RasqalConfig,
) -> (r: Result<Option<Value>, String>)
    ensures
        r matches Ok(v) ==> exists|g: ExecutableAnalysisGraph|
            #[trigger] built_for_entry(g, entry_point) && v == crate::runtime::completed_value(g),
{
    let graph = match parse_source(source, name, entry_point) {
        Ok(graph) => graph,
        Err(e) => {
            return Err(e);
        },
    };
    let result = run_graph(&graph, arguments, runtimes, config);
    proof {
        if result is Ok {
            assert(built_for_entry(graph, entry_point) && result->Ok_0
                == crate::runtime::completed_value(graph));
        }
    }
    result
}

}
