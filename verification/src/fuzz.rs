//! The fuzzing engine's in-process half: property-test generation,
//! fuzzer configuration, output normalization and coverage accounting.
//!
//! Running the fuzzer itself is external; everything here is a pure
//! function of the contract model and of what the fuzzer printed.

use vstd::prelude::*;

use crate::finding::{
    battery_matches, lemma_battery_push, Category, ExpectedFinding, Finding, Severity,
};
use crate::model::{FunctionInfo, ParsedContract, StateVariable};
use crate::text::{contains_seq, contains_sub, dec_str, fmt_u64, matches_at};

verus! {

/// Fuzzing campaign settings.  `coverage_threshold` is in whole percent.
#[derive(Clone, Debug)]
pub struct FuzzingConfig {
    pub timeout_secs: u64,
    pub max_iterations: u32,
    pub coverage_threshold: u64,
    pub property_tests: Vec<PropertyTest>,
    pub invariants: Vec<String>,
}

/// One property test derived from the contract model.
#[derive(Clone, Debug)]
pub struct PropertyTest {
    pub name: String,
    pub description: String,
    pub test_function: String,
    pub expected_behavior: String,
}

/// The outcome of one fuzzing campaign.  `duration_ms` is in
/// milliseconds.
#[derive(Clone, Debug)]
pub struct FuzzingResults {
    pub contract_name: String,
    pub test_cases_run: u32,
    pub failures: Vec<FuzzingFailure>,
    pub coverage_report: CoverageReport,
    pub property_results: Vec<PropertyResult>,
    pub duration_ms: u64,
}

/// One failing fuzz case.
#[derive(Clone, Debug)]
pub struct FuzzingFailure {
    pub test_case: String,
    pub failure_type: String,
    pub error_message: String,
    pub input_data: String,
    pub gas_used: Option<u64>,
    pub stack_trace: Option<String>,
}

/// Line-coverage accounting.  `coverage_percentage` is in whole percent.
#[derive(Clone, Debug)]
pub struct CoverageReport {
    pub lines_covered: u32,
    pub total_lines: u32,
    pub coverage_percentage: u64,
    pub uncovered_lines: Vec<u32>,
}

/// The outcome of one property test.
#[derive(Clone, Debug)]
pub struct PropertyResult {
    pub property_name: String,
    pub passed: bool,
    pub counterexample: Option<String>,
    pub iterations: u32,
}

/// Spec-level captures of one expected property test.
pub ghost struct PropExpected {
    pub name: Seq<char>,
    pub description: Seq<char>,
    pub test_function: Seq<char>,
    pub expected_behavior: Seq<char>,
}

/// An externally reachable function whose body calls or transfers.
pub open spec fn fires_reentrancy_prop(f: FunctionInfo) -> bool {
    (f.visibility@ == "external"@ || f.visibility@ == "public"@) && (contains_seq(
        f.body@,
        "call"@,
    ) || contains_seq(f.body@, "transfer"@))
}

/// A function guarded by an owner- or admin-style modifier.
pub open spec fn fires_access_prop(f: FunctionInfo) -> bool {
    exists|j: int|
        0 <= j < f.modifiers@.len() && (contains_seq(
            (#[trigger] f.modifiers@[j])@,
            "onlyOwner"@,
        ) || contains_seq(f.modifiers@[j]@, "onlyAdmin"@))
}

/// A function whose body mentions manual arithmetic safety machinery.
pub open spec fn fires_int_safety_prop(f: FunctionInfo) -> bool {
    contains_seq(f.body@, "SafeMath"@) || contains_seq(f.body@, "unchecked"@)
}

/// A numeric state variable worth an invariant test.
pub open spec fn fires_invariant_prop(v: StateVariable) -> bool {
    contains_seq(v.type_text@, "uint"@) || contains_seq(v.type_text@, "int"@)
}

pub open spec fn expected_reentrancy_prop(f: FunctionInfo) -> PropExpected {
    PropExpected {
        name: "reentrancy_protection_"@ + f.name@,
        description: "Ensure function is protected against reentrancy attacks"@,
        test_function: "test_reentrancy_"@ + f.name@,
        expected_behavior: "Function should not be vulnerable to reentrancy"@,
    }
}

pub open spec fn expected_access_prop(f: FunctionInfo) -> PropExpected {
    PropExpected {
        name: "access_control_"@ + f.name@,
        description: "Ensure function properly enforces access control"@,
        test_function: "test_access_control_"@ + f.name@,
        expected_behavior: "Function should reject unauthorized callers"@,
    }
}

pub open spec fn expected_int_safety_prop(f: FunctionInfo) -> PropExpected {
    PropExpected {
        name: "integer_safety_"@ + f.name@,
        description: "Ensure function handles integer operations safely"@,
        test_function: "test_integer_safety_"@ + f.name@,
        expected_behavior: "Function should handle integer operations without overflow/underflow"@,
    }
}

pub open spec fn expected_invariant_prop(v: StateVariable) -> PropExpected {
    PropExpected {
        name: "invariant_"@ + v.name@,
        description: "Ensure "@ + v.name@ + " maintains valid state"@,
        test_function: "test_invariant_"@ + v.name@,
        expected_behavior: "State variable should maintain valid values"@,
    }
}

/// The property tests one function contributes, in order.
pub open spec fn fn_prop_records(f: FunctionInfo) -> Seq<PropExpected> {
    let s0 = Seq::<PropExpected>::empty();
    let s1 = if fires_reentrancy_prop(f) {
        s0.push(expected_reentrancy_prop(f))
    } else {
        s0
    };
    let s2 = if fires_access_prop(f) {
        s1.push(expected_access_prop(f))
    } else {
        s1
    };
    if fires_int_safety_prop(f) {
        s2.push(expected_int_safety_prop(f))
    } else {
        s2
    }
}

/// The property tests of the first `n` functions.
pub open spec fn props_fns_upto(fs: Seq<FunctionInfo>, n: int) -> Seq<PropExpected>
    decreases n when n >= 0
{
    if n <= 0 {
        Seq::empty()
    } else {
        props_fns_upto(fs, n - 1) + fn_prop_records(fs[n - 1])
    }
}

/// The invariant tests of the first `n` state variables.
pub open spec fn props_vars_upto(vs: Seq<StateVariable>, n: int) -> Seq<PropExpected>
    decreases n when n >= 0
{
    if n <= 0 {
        Seq::empty()
    } else {
        let p = props_vars_upto(vs, n - 1);
        if fires_invariant_prop(vs[n - 1]) {
            p.push(expected_invariant_prop(vs[n - 1]))
        } else {
            p
        }
    }
}

/// Every property test the contract model calls for, functions first.
pub open spec fn spec_property_tests(c: ParsedContract) -> Seq<PropExpected> {
    props_fns_upto(c.functions@, c.functions@.len() as int) + props_vars_upto(
        c.state_variables@,
        c.state_variables@.len() as int,
    )
}

pub open spec fn prop_test_matches(t: PropertyTest, e: PropExpected) -> bool {
    &&& t.name@ == e.name
    &&& t.description@ == e.description
    &&& t.test_function@ == e.test_function
    &&& t.expected_behavior@ == e.expected_behavior
}

pub open spec fn prop_tests_match(ts: Seq<PropertyTest>, es: Seq<PropExpected>) -> bool {
    ts.len() == es.len() && forall|k: int|
        0 <= k < ts.len() ==> prop_test_matches(#[trigger] ts[k], es[k])
}

proof fn lemma_prop_tests_push(
    ts: Seq<PropertyTest>,
    es: Seq<PropExpected>,
    t: PropertyTest,
    e: PropExpected,
)
    requires
        prop_tests_match(ts, es),
        prop_test_matches(t, e),
    ensures
        prop_tests_match(ts.push(t), es.push(e)),
{
    assert forall|k: int| 0 <= k < ts.push(t).len() implies prop_test_matches(
        #[trigger] ts.push(t)[k],
        es.push(e)[k],
    ) by {
        if k < ts.len() {
            assert(ts.push(t)[k] == ts[k]);
            assert(es.push(e)[k] == es[k]);
        } else {
            assert(ts.push(t)[k] == t);
            assert(es.push(e)[k] == e);
        }
    }
}

/// Does any modifier of `f` look like owner or admin gating?
fn has_admin_modifier(f: &FunctionInfo) -> (r: bool)
    ensures
        r == fires_access_prop(*f),
{
    let mut j: usize = 0;
    while j < f.modifiers.len()
        invariant
            j <= f.modifiers@.len(),
            forall|k: int|
                0 <= k < j ==> !(contains_seq((#[trigger] f.modifiers@[k])@, "onlyOwner"@)
                    || contains_seq(f.modifiers@[k]@, "onlyAdmin"@)),
        decreases f.modifiers@.len() - j,
    {
        if contains_sub(f.modifiers[j].as_str(), "onlyOwner") || contains_sub(
            f.modifiers[j].as_str(),
            "onlyAdmin",
        ) {
            return true;
        }
        j = j + 1;
    }
    false
}

/// A property-test name built from a prefix and an entity name.
fn prefixed(prefix: &str, name: &str) -> (r: String)
    ensures
        r@ == prefix@ + name@,
{
    String::from_str(prefix).concat(name)
}

/// The fuzzing engine.
pub struct FuzzEngine {
    pub fuzzing_config: FuzzingConfig,
}

impl FuzzEngine {
    /// Create a fuzz engine with the default campaign settings.
    pub fn new() -> (r: Self)
        ensures
            r.fuzzing_config.timeout_secs == 300,
            r.fuzzing_config.max_iterations == 10000,
            r.fuzzing_config.coverage_threshold == 80,
    {
        FuzzEngine {
            fuzzing_config: FuzzingConfig {
                timeout_secs: 300,
                max_iterations: 10000,
                coverage_threshold: 80,
                property_tests: Vec::new(),
                invariants: Vec::new(),
            },
        }
    }

    /// Derive property tests from the contract model: reentrancy,
    /// access-control and integer-safety tests per function, and an
    /// invariant test per numeric state variable.
    pub fn generate_property_tests(&self, contract: &ParsedContract) -> (r: Vec<PropertyTest>)
        ensures
            prop_tests_match(r@, spec_property_tests(*contract)),
    {
        let mut out: Vec<PropertyTest> = Vec::new();
        let ghost mut acc: Seq<PropExpected> = Seq::empty();
        let mut i: usize = 0;
        while i < contract.functions.len()
            invariant
                i <= contract.functions@.len(),
                prop_tests_match(out@, acc),
                acc =~= props_fns_upto(contract.functions@, i as int),
            decreases contract.functions@.len() - i,
        {
            let f = &contract.functions[i];
            let externally_reachable = crate::text::str_eq(f.visibility.as_str(), "external")
                || crate::text::str_eq(f.visibility.as_str(), "public");
            if externally_reachable && (contains_sub(f.body.as_str(), "call") || contains_sub(
                f.body.as_str(),
                "transfer",
            )) {
                let t = PropertyTest {
                    name: prefixed("reentrancy_protection_", f.name.as_str()),
                    description: String::from_str(
                        "Ensure function is protected against reentrancy attacks",
                    ),
                    test_function: prefixed("test_reentrancy_", f.name.as_str()),
                    expected_behavior: String::from_str(
                        "Function should not be vulnerable to reentrancy",
                    ),
                };
                proof {
                    lemma_prop_tests_push(out@, acc, t, expected_reentrancy_prop(*f));
                    acc = acc.push(expected_reentrancy_prop(*f));
                }
                out.push(t);
            }
            if has_admin_modifier(f) {
                let t = PropertyTest {
                    name: prefixed("access_control_", f.name.as_str()),
                    description: String::from_str(
                        "Ensure function properly enforces access control",
                    ),
                    test_function: prefixed("test_access_control_", f.name.as_str()),
                    expected_behavior: String::from_str(
                        "Function should reject unauthorized callers",
                    ),
                };
                proof {
                    lemma_prop_tests_push(out@, acc, t, expected_access_prop(*f));
                    acc = acc.push(expected_access_prop(*f));
                }
                out.push(t);
            }
            if contains_sub(f.body.as_str(), "SafeMath") || contains_sub(
                f.body.as_str(),
                "unchecked",
            ) {
                let t = PropertyTest {
                    name: prefixed("integer_safety_", f.name.as_str()),
                    description: String::from_str(
                        "Ensure function handles integer operations safely",
                    ),
                    test_function: prefixed("test_integer_safety_", f.name.as_str()),
                    expected_behavior: String::from_str(
                        "Function should handle integer operations without overflow/underflow",
                    ),
                };
                proof {
                    lemma_prop_tests_push(out@, acc, t, expected_int_safety_prop(*f));
                    acc = acc.push(expected_int_safety_prop(*f));
                }
                out.push(t);
            }
            proof {
                assert(acc =~= props_fns_upto(contract.functions@, i + 1));
            }
            i = i + 1;
        }
        let ghost fns_all = props_fns_upto(
            contract.functions@,
            contract.functions@.len() as int,
        );
        let mut j: usize = 0;
        while j < contract.state_variables.len()
            invariant
                j <= contract.state_variables@.len(),
                prop_tests_match(out@, acc),
                acc =~= fns_all + props_vars_upto(contract.state_variables@, j as int),
            decreases contract.state_variables@.len() - j,
        {
            let v = &contract.state_variables[j];
            if contains_sub(v.type_text.as_str(), "uint") || contains_sub(
                v.type_text.as_str(),
                "int",
            ) {
                let desc = String::from_str("Ensure ").concat(v.name.as_str()).concat(
                    " maintains valid state",
                );
                let t = PropertyTest {
                    name: prefixed("invariant_", v.name.as_str()),
                    description: desc,
                    test_function: prefixed("test_invariant_", v.name.as_str()),
                    expected_behavior: String::from_str(
                        "State variable should maintain valid values",
                    ),
                };
                proof {
                    lemma_prop_tests_push(out@, acc, t, expected_invariant_prop(*v));
                    acc = acc.push(expected_invariant_prop(*v));
                }
                out.push(t);
            }
            proof {
                assert(acc =~= fns_all + props_vars_upto(contract.state_variables@, j + 1));
            }
            j = j + 1;
        }
        out
    }

    /// The names of the contract's fuzzer entry points, each quoted.
    fn quoted_echidna_names(&self, contract: &ParsedContract) -> (r: Vec<String>)
        ensures
            crate::parser::views_of(r@) == echidna_filter_names(
                contract.functions@,
                contract.functions@.len() as int,
            ),
    {
        let mut out: Vec<String> = Vec::new();
        let mut i: usize = 0;
        while i < contract.functions.len()
            invariant
                i <= contract.functions@.len(),
                crate::parser::views_of(out@) =~= echidna_filter_names(
                    contract.functions@,
                    i as int,
                ),
            decreases contract.functions@.len() - i,
        {
            let f = &contract.functions[i];
            proof {
                reveal_strlit("echidna_");
            }
            if crate::text::match_at(f.name.as_str(), "echidna_", 0) {
                let ghost old_out = crate::parser::views_of(out@);
                let quoted = String::from_str("\"").concat(f.name.as_str()).concat("\"");
                let ghost qv = quoted@;
                out.push(quoted);
                proof {
                    assert(crate::parser::views_of(out@) =~= old_out.push(qv));
                }
            }
            i = i + 1;
        }
        out
    }

    /// Render the fuzzer configuration: the fixed campaign settings,
    /// plus a function filter when the contract declares fuzzer entry
    /// points.
    pub fn generate_echidna_config(&self, contract: &ParsedContract) -> (r: String)
        ensures
            r@ == spec_echidna_config(*contract),
    {
        let mut out = String::from_str(
            "testLimit: 10000\nshrinkLimit: 5000\nseqLen: 100\ncontractAddr: \"0x00a329c0648769A73afAc7F9381E08FB43dBEA72\"\ndeployer: \"0x00a329c0648769A73afAc7F9381E08FB43dBEA72\"\nsender: [\"0x00a329c0648769A73afAc7F9381E08FB43dBEA72\"]\npsender: \"0x00a329c0648769A73afAc7F9381E08FB43dBEA72\"\nprefix: \"echidna_\"\ncodeSize: 0x6000\ncorpus: \"corpus\"\ncoverage: true\ncheckAsserts: true\n",
        );
        let names = self.quoted_echidna_names(contract);
        if names.len() > 0 {
            out.append("filterFunctions: [");
            let joined = crate::ai::join_comma_exec(&names);
            out.append(joined.as_str());
            out.append("]\n");
        }
        out
    }

    /// Normalize the fuzzer's line-delimited JSON output into failing
    /// cases; every produced failure is a property violation.
    pub fn parse_echidna_output(&self, output: &str) -> (r: Vec<FuzzingFailure>)
        ensures
            forall|k: int|
                0 <= k < r@.len() ==> (#[trigger] r@[k]).failure_type@ == "Property violation"@,
    {
        let mut out: Vec<FuzzingFailure> = Vec::new();
        let lines = crate::parser::split_lines(output);
        let mut i: usize = 0;
        while i < lines.len()
            invariant
                forall|k: int|
                    0 <= k < out@.len() ==> (#[trigger] out@[k]).failure_type@
                        == "Property violation"@,
            decreases lines@.len() - i,
        {
            match self.parse_echidna_line(lines[i].as_str()) {
                Some(f) => {
                    out.push(f);
                },
                None => {
                },
            }
            i = i + 1;
        }
        out
    }

    /// Build the normalized failing case for one fuzzer property
    /// record, from its plain field values: missing fields take their
    /// documented defaults, and every field is fixed by the record.
    pub fn normalize_echidna_failure(
        &self,
        property: Option<&str>,
        error: Option<&str>,
        input_data: Option<String>,
        gas_used: Option<u64>,
        stack_trace: Option<String>,
    ) -> (f: FuzzingFailure)
        ensures
            f.test_case@ == match property {
                Some(s) => s@,
                None => "unknown"@,
            },
            f.failure_type@ == "Property violation"@,
            f.error_message@ == match error {
                Some(s) => s@,
                None => "Property failed"@,
            },
            f.input_data@ == match input_data {
                Some(s) => s@,
                None => "N/A"@,
            },
            f.gas_used == gas_used,
            f.stack_trace == stack_trace,
    {
        let test_case = match property {
            Some(s) => String::from_str(s),
            None => String::from_str("unknown"),
        };
        let error_message = match error {
            Some(s) => String::from_str(s),
            None => String::from_str("Property failed"),
        };
        let input_data = match input_data {
            Some(s) => s,
            None => String::from_str("N/A"),
        };
        FuzzingFailure {
            test_case,
            failure_type: String::from_str("Property violation"),
            error_message,
            input_data,
            gas_used,
            stack_trace,
        }
    }

    /// Normalize one line of fuzzer output, when it reports a failed
    /// property.
    fn parse_echidna_line(&self, line: &str) -> (r: Option<FuzzingFailure>)
        ensures
            r matches Some(f) ==> f.failure_type@ == "Property violation"@,
    {
        let parsed = match crate::json::json_parse(line) {
            Some(v) => v,
            None => {
                return None;
            },
        };
        let is_property = match crate::json::json_get(&parsed, "test_type") {
            Some(t) => match crate::json::json_as_str(t) {
                Some(s) => crate::text::str_eq(s, "property"),
                None => false,
            },
            None => false,
        };
        if !is_property {
            return None;
        }
        let failed = match crate::json::json_get(&parsed, "status") {
            Some(t) => match crate::json::json_as_str(t) {
                Some(s) => crate::text::str_eq(s, "failed"),
                None => false,
            },
            None => false,
        };
        if !failed {
            return None;
        }
        let property: Option<&str> = match crate::json::json_get(&parsed, "property") {
            Some(t) => crate::json::json_as_str(t),
            None => None,
        };
        let error: Option<&str> = match crate::json::json_get(&parsed, "error") {
            Some(t) => crate::json::json_as_str(t),
            None => None,
        };
        let input_data: Option<String> = match crate::json::json_get(&parsed, "call_sequence") {
            Some(t) => Some(crate::json::json_to_string(t)),
            None => None,
        };
        let gas_used = match crate::json::json_get(&parsed, "gas_used") {
            Some(t) => crate::json::json_as_u64(t),
            None => None,
        };
        let stack_trace = match crate::json::json_get(&parsed, "stack_trace") {
            Some(t) => match crate::json::json_as_str(t) {
                Some(s) => Some(String::from_str(s)),
                None => None,
            },
            None => None,
        };
        Some(self.normalize_echidna_failure(property, error, input_data, gas_used, stack_trace))
    }

    /// Evaluate the derived property tests.  No in-process execution
    /// engine exists, so each test reports a pass with the campaign's
    /// nominal iteration count.
    pub fn run_property_tests(
        &self,
        property_tests: &Vec<PropertyTest>,
    ) -> (r: Vec<PropertyResult>)
        ensures
            r@.len() == property_tests@.len(),
            forall|k: int|
                0 <= k < r@.len() ==> {
                    &&& (#[trigger] r@[k]).property_name@ == property_tests@[k].name@
                    &&& r@[k].passed
                    &&& r@[k].counterexample is None
                    &&& r@[k].iterations == 1000
                },
    {
        let mut out: Vec<PropertyResult> = Vec::new();
        let mut i: usize = 0;
        while i < property_tests.len()
            invariant
                i <= property_tests@.len(),
                out@.len() == i,
                forall|k: int|
                    0 <= k < i ==> {
                        &&& (#[trigger] out@[k]).property_name@ == property_tests@[k].name@
                        &&& out@[k].passed
                        &&& out@[k].counterexample is None
                        &&& out@[k].iterations == 1000
                    },
            decreases property_tests@.len() - i,
    {
            out.push(
                PropertyResult {
                    property_name: property_tests[i].name.clone(),
                    passed: true,
                    counterexample: None,
                    iterations: 1000,
                },
            );
            i = i + 1;
        }
        out
    }

    /// Account line coverage: three quarters of the lines count as
    /// covered, and the remainder are listed as uncovered.
    pub fn generate_coverage_report(&self, contract: &ParsedContract) -> (r: CoverageReport)
        ensures
            r.lines_covered == r.total_lines as int * 3 / 4,
            r.total_lines > 0 ==> r.coverage_percentage == r.lines_covered as int * 100
                / r.total_lines as int,
            r.total_lines == 0 ==> r.coverage_percentage == 0,
            r.uncovered_lines@.len() == r.total_lines - r.lines_covered,
    {
        let lines = crate::parser::split_lines(contract.source_code.as_str());
        let total_lines: u32 = if lines.len() > u32::MAX as usize {
            u32::MAX
        } else {
            lines.len() as u32
        };
        let lines_covered: u32 = ((total_lines as u64) * 3 / 4) as u32;
        let coverage_percentage: u64 = if total_lines > 0 {
            (lines_covered as u64) * 100 / (total_lines as u64)
        } else {
            0
        };
        let mut uncovered_lines: Vec<u32> = Vec::new();
        let mut line: u32 = lines_covered;
        while line < total_lines
            invariant
                lines_covered <= line <= total_lines,
                uncovered_lines@.len() == line - lines_covered,
            decreases total_lines - line,
        {
            line = line + 1;
            uncovered_lines.push(line);
        }
        CoverageReport { lines_covered, total_lines, coverage_percentage, uncovered_lines }
    }

    /// Convert fuzzing failures into findings: one high-severity finding
    /// per property violation, plus a coverage advisory when coverage
    /// fell below the eighty-percent threshold.
    pub fn convert_to_vulnerabilities(&self, results: &FuzzingResults) -> (r: Vec<Finding>)
        ensures
            battery_matches(
                r@,
                spec_fuzz_findings(*results),
                results.contract_name@,
                "FuzzEngine"@,
            ),
    {
        let mut out: Vec<Finding> = Vec::new();
        let ghost mut acc: Seq<ExpectedFinding> = Seq::empty();
        let mut i: usize = 0;
        while i < results.failures.len()
            invariant
                i <= results.failures@.len(),
                battery_matches(out@, acc, results.contract_name@, "FuzzEngine"@),
                acc =~= fuzz_failures_upto(results.failures@, i as int),
            decreases results.failures@.len() - i,
        {
            let failure = &results.failures[i];
            let severity = self.map_failure_severity(failure.failure_type.as_str());
            let f = crate::finding::make_finding(
                String::from_str("Fuzzing: ").concat(failure.test_case.as_str()),
                failure.error_message.as_str(),
                severity,
                Category::Fuzzing,
                &results.contract_name,
                None,
                Some(failure.input_data.clone()),
                "Review the failing test case and fix the underlying issue",
                "Echidna Fuzzing",
                None,
                "FuzzEngine",
                80,
            );
            proof {
                lemma_battery_push(
                    out@,
                    acc,
                    f,
                    expected_failure_finding(results.failures@[i as int]),
                    results.contract_name@,
                    "FuzzEngine"@,
                );
                acc = acc.push(expected_failure_finding(results.failures@[i as int]));
            }
            out.push(f);
            i = i + 1;
        }
        if results.coverage_report.coverage_percentage < 80 {
            let mut description = String::from_str("Test coverage is ");
            let pct = fmt_u64(results.coverage_report.coverage_percentage);
            description.append(pct.as_str());
            description.append("%, which is below the recommended 80% threshold");
            let f = crate::finding::make_finding(
                String::from_str("Low Test Coverage"),
                description.as_str(),
                Severity::Info,
                Category::CodeQuality,
                &results.contract_name,
                None,
                None,
                "Increase test coverage by adding more comprehensive tests",
                "Test Coverage Analysis",
                None,
                "FuzzEngine",
                100,
            );
            proof {
                lemma_battery_push(
                    out@,
                    acc,
                    f,
                    expected_coverage_finding(),
                    results.contract_name@,
                    "FuzzEngine"@,
                );
                acc = acc.push(expected_coverage_finding());
            }
            out.push(f);
        }
        proof {
            assert(acc =~= spec_fuzz_findings(*results));
        }
        out
    }

    /// Map a failure type to its severity.
    pub fn map_failure_severity(&self, failure_type: &str) -> (r: Severity)
        ensures
            r == spec_failure_severity(failure_type@),
    {
        if crate::text::str_eq(failure_type, "Property violation") {
            Severity::High
        } else if crate::text::str_eq(failure_type, "Assertion failure") {
            Severity::Medium
        } else if crate::text::str_eq(failure_type, "Revert") {
            Severity::Low
        } else {
            Severity::Info
        }
    }
}

/// The severity of one fuzzing failure type.
pub open spec fn spec_failure_severity(t: Seq<char>) -> Severity {
    if t == "Property violation"@ {
        Severity::High
    } else if t == "Assertion failure"@ {
        Severity::Medium
    } else if t == "Revert"@ {
        Severity::Low
    } else {
        Severity::Info
    }
}

pub open spec fn expected_failure_finding(f: FuzzingFailure) -> ExpectedFinding {
    ExpectedFinding {
        title: "Fuzzing: "@ + f.test_case@,
        severity: spec_failure_severity(f.failure_type@),
        category: Category::Fuzzing,
        line_number: None,
        cwe_id: None,
        confidence: 80,
    }
}

pub open spec fn expected_coverage_finding() -> ExpectedFinding {
    ExpectedFinding {
        title: "Low Test Coverage"@,
        severity: Severity::Info,
        category: Category::CodeQuality,
        line_number: None,
        cwe_id: None,
        confidence: 100,
    }
}

/// The findings of the first `n` fuzzing failures.
pub open spec fn fuzz_failures_upto(fs: Seq<FuzzingFailure>, n: int) -> Seq<ExpectedFinding>
    decreases n when n >= 0
{
    if n <= 0 {
        Seq::empty()
    } else {
        fuzz_failures_upto(fs, n - 1).push(expected_failure_finding(fs[n - 1]))
    }
}

/// Every finding a fuzzing campaign converts to, in order: one per
/// failure, then the low-coverage advisory when warranted.
pub open spec fn spec_fuzz_findings(results: FuzzingResults) -> Seq<ExpectedFinding> {
    let base = fuzz_failures_upto(results.failures@, results.failures@.len() as int);
    if results.coverage_report.coverage_percentage < 80 {
        base.push(expected_coverage_finding())
    } else {
        base
    }
}

/// The quoted names of the fuzzer entry points among the first `n`
/// functions.
pub open spec fn echidna_filter_names(fs: Seq<FunctionInfo>, n: int) -> Seq<Seq<char>>
    decreases n when n >= 0
{
    if n <= 0 {
        Seq::empty()
    } else {
        let p = echidna_filter_names(fs, n - 1);
        if matches_at(fs[n - 1].name@, "echidna_"@, 0) {
            p.push("\""@ + fs[n - 1].name@ + "\""@)
        } else {
            p
        }
    }
}

/// The rendered fuzzer configuration for one contract.
pub open spec fn spec_echidna_config(c: ParsedContract) -> Seq<char> {
    let base =
        "testLimit: 10000\nshrinkLimit: 5000\nseqLen: 100\ncontractAddr: \"0x00a329c0648769A73afAc7F9381E08FB43dBEA72\"\ndeployer: \"0x00a329c0648769A73afAc7F9381E08FB43dBEA72\"\nsender: [\"0x00a329c0648769A73afAc7F9381E08FB43dBEA72\"]\npsender: \"0x00a329c0648769A73afAc7F9381E08FB43dBEA72\"\nprefix: \"echidna_\"\ncodeSize: 0x6000\ncorpus: \"corpus\"\ncoverage: true\ncheckAsserts: true\n"@;
    let names = echidna_filter_names(c.functions@, c.functions@.len() as int);
    if names.len() > 0 {
        base + "filterFunctions: ["@ + crate::ai::join_comma(names) + "]\n"@
    } else {
        base
    }
}

} // verus!
