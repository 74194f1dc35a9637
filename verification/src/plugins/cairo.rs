//! Cairo plugin: heuristic battery for Cairo smart contracts on StarkNet.

use vstd::prelude::*;

use crate::errors::AnalysisError;
use crate::finding::{
    battery_matches, lemma_battery_push, make_finding, Category, ExpectedFinding, Finding,
    Severity,
};
use crate::model::ParsedContract;
use crate::plugins::BlockchainPlugin;
use crate::text::{contains_seq, contains_sub, count_occ_from, count_occurrences};

verus! {

/// Heuristic analyzer for Cairo smart contracts.
pub struct CairoPlugin {}

pub open spec fn fires_felt_overflow(c: ParsedContract) -> bool {
    contains_seq(c.source_code@, "felt"@) && contains_seq(c.source_code@, "*"@)
}

pub open spec fn fires_felt_conversion(c: ParsedContract) -> bool {
    contains_seq(c.source_code@, "felt_to_uint256"@) || contains_seq(
        c.source_code@,
        "uint256_to_felt"@,
    )
}

pub open spec fn fires_uninitialized_storage(c: ParsedContract) -> bool {
    contains_seq(c.source_code@, "@storage_var"@) && !contains_seq(c.source_code@, "constructor"@)
        && !contains_seq(c.source_code@, "initializer"@)
}

pub open spec fn fires_unchecked_storage_access(c: ParsedContract) -> bool {
    contains_seq(c.source_code@, ".read()"@) && !contains_seq(c.source_code@, "assert"@)
}

pub open spec fn fires_external_without_access_control(c: ParsedContract) -> bool {
    contains_seq(c.source_code@, "@external"@) && !contains_seq(
        c.source_code@,
        "assert_only_owner"@,
    )
}

pub open spec fn fires_cairo_reentrancy(c: ParsedContract) -> bool {
    contains_seq(c.source_code@, "call_contract"@) && contains_seq(
        c.source_code@,
        "@storage_var"@,
    )
}

pub open spec fn fires_excessive_asserts(c: ParsedContract) -> bool {
    contains_seq(c.source_code@, "assert"@) && count_occ_from(c.source_code@, "assert"@, 0) > 10
}

pub open spec fn fires_missing_input_validation(c: ParsedContract) -> bool {
    contains_seq(c.source_code@, "@external"@) && !contains_seq(c.source_code@, "assert"@)
}

pub open spec fn fires_namespace_practice(c: ParsedContract) -> bool {
    contains_seq(c.source_code@, "namespace"@) && contains_seq(
        c.source_code@,
        "from starkware.cairo.common"@,
    )
}

pub open spec fn fires_missing_memory_management(c: ParsedContract) -> bool {
    contains_seq(c.source_code@, "from starkware.cairo.common"@) && !contains_seq(
        c.source_code@,
        "alloc"@,
    )
}

pub open spec fn expected_felt_overflow() -> ExpectedFinding {
    ExpectedFinding {
        title: "Potential Felt Overflow"@,
        severity: Severity::Medium,
        category: Category::IntegerOverflow,
        line_number: None,
        cwe_id: Some("CWE-190"@),
        confidence: 60,
    }
}

pub open spec fn expected_felt_conversion() -> ExpectedFinding {
    ExpectedFinding {
        title: "Unchecked Felt Conversion"@,
        severity: Severity::Low,
        category: Category::CodeQuality,
        line_number: None,
        cwe_id: None,
        confidence: 50,
    }
}

pub open spec fn expected_uninitialized_storage() -> ExpectedFinding {
    ExpectedFinding {
        title: "Uninitialized Storage Variables"@,
        severity: Severity::Medium,
        category: Category::CodeQuality,
        line_number: None,
        cwe_id: Some("CWE-665"@),
        confidence: 70,
    }
}

pub open spec fn expected_unchecked_storage_access() -> ExpectedFinding {
    ExpectedFinding {
        title: "Unchecked Storage Access"@,
        severity: Severity::Low,
        category: Category::CodeQuality,
        line_number: None,
        cwe_id: None,
        confidence: 40,
    }
}

pub open spec fn expected_external_without_access_control() -> ExpectedFinding {
    ExpectedFinding {
        title: "External Function Without Access Control"@,
        severity: Severity::High,
        category: Category::AccessControl,
        line_number: None,
        cwe_id: Some("CWE-862"@),
        confidence: 80,
    }
}

pub open spec fn expected_cairo_reentrancy() -> ExpectedFinding {
    ExpectedFinding {
        title: "Potential Reentrancy"@,
        severity: Severity::High,
        category: Category::Reentrancy,
        line_number: None,
        cwe_id: Some("CWE-362"@),
        confidence: 70,
    }
}

pub open spec fn expected_excessive_asserts() -> ExpectedFinding {
    ExpectedFinding {
        title: "Excessive Assert Usage"@,
        severity: Severity::Low,
        category: Category::CodeQuality,
        line_number: None,
        cwe_id: None,
        confidence: 50,
    }
}

pub open spec fn expected_missing_input_validation() -> ExpectedFinding {
    ExpectedFinding {
        title: "Missing Input Validation"@,
        severity: Severity::Medium,
        category: Category::InputValidation,
        line_number: None,
        cwe_id: Some("CWE-20"@),
        confidence: 60,
    }
}

pub open spec fn expected_namespace_practice() -> ExpectedFinding {
    ExpectedFinding {
        title: "Namespace Best Practice"@,
        severity: Severity::Info,
        category: Category::CodeQuality,
        line_number: None,
        cwe_id: None,
        confidence: 30,
    }
}

pub open spec fn expected_missing_memory_management() -> ExpectedFinding {
    ExpectedFinding {
        title: "Missing Memory Management"@,
        severity: Severity::Info,
        category: Category::CodeQuality,
        line_number: None,
        cwe_id: None,
        confidence: 20,
    }
}

/// The felt, storage, external-function and assert checks, in battery
/// order.
pub open spec fn cairo_analysis_checks(c: ParsedContract) -> Seq<ExpectedFinding> {
    let s0 = Seq::<ExpectedFinding>::empty();
    let s1 = if fires_felt_overflow(c) {
        s0.push(expected_felt_overflow())
    } else {
        s0
    };
    let s2 = if fires_felt_conversion(c) {
        s1.push(expected_felt_conversion())
    } else {
        s1
    };
    let s3 = if fires_uninitialized_storage(c) {
        s2.push(expected_uninitialized_storage())
    } else {
        s2
    };
    let s4 = if fires_unchecked_storage_access(c) {
        s3.push(expected_unchecked_storage_access())
    } else {
        s3
    };
    let s5 = if fires_external_without_access_control(c) {
        s4.push(expected_external_without_access_control())
    } else {
        s4
    };
    let s6 = if fires_cairo_reentrancy(c) {
        s5.push(expected_cairo_reentrancy())
    } else {
        s5
    };
    let s7 = if fires_excessive_asserts(c) {
        s6.push(expected_excessive_asserts())
    } else {
        s6
    };
    if fires_missing_input_validation(c) {
        s7.push(expected_missing_input_validation())
    } else {
        s7
    }
}

/// The best-practice checks, in battery order.
pub open spec fn cairo_best_practice_checks(c: ParsedContract) -> Seq<ExpectedFinding> {
    let s0 = Seq::<ExpectedFinding>::empty();
    let s1 = if fires_namespace_practice(c) {
        s0.push(expected_namespace_practice())
    } else {
        s0
    };
    if fires_missing_memory_management(c) {
        s1.push(expected_missing_memory_management())
    } else {
        s1
    }
}

/// The full Cairo heuristic battery.
pub open spec fn cairo_battery(c: ParsedContract) -> Seq<ExpectedFinding> {
    cairo_analysis_checks(c) + cairo_best_practice_checks(c)
}

/// The Cairo pre-check: non-empty source holding Cairo-specific syntax.
pub open spec fn spec_cairo_validate(c: ParsedContract) -> bool {
    &&& c.source_code@.len() > 0
    &&& (contains_seq(c.source_code@, "%lang starknet"@) || contains_seq(
        c.source_code@,
        "from starkware.cairo.common"@,
    ))
}

impl CairoPlugin {
    /// Create a new Cairo plugin.
    pub fn new() -> (r: Self) {
        CairoPlugin {  }
    }

    /// The felt, storage, external-function and assert checks.
    pub fn run_cairo_analysis(&self, contract: &ParsedContract) -> (r: Vec<Finding>)
        ensures
            battery_matches(r@, cairo_analysis_checks(*contract), contract.name@, "Cairo Plugin"@),
    {
        let mut out: Vec<Finding> = Vec::new();
        let ghost mut expected: Seq<ExpectedFinding> = Seq::empty();
        let src = contract.source_code.as_str();
        proof {
            reveal_strlit("assert");
        }
        if contains_sub(src, "felt") && contains_sub(src, "*") {
            let f = make_finding(
                String::from_str("Potential Felt Overflow"),
                "Felt operations can overflow without proper bounds checking.",
                Severity::Medium,
                Category::IntegerOverflow,
                &contract.name,
                None,
                None,
                "Use safe math operations or implement proper overflow checks for felt arithmetic.",
                "https://cairo-lang.org/docs/hello_cairo/intro.html",
                Some("CWE-190"),
                "Cairo Plugin",
                60,
            );
            proof {
                lemma_battery_push(
                    out@,
                    expected,
                    f,
                    expected_felt_overflow(),
                    contract.name@,
                    "Cairo Plugin"@,
                );
                expected = expected.push(expected_felt_overflow());
            }
            out.push(f);
        }
        if contains_sub(src, "felt_to_uint256") || contains_sub(src, "uint256_to_felt") {
            let f = make_finding(
                String::from_str("Unchecked Felt Conversion"),
                "Felt conversions should be checked for validity.",
                Severity::Low,
                Category::CodeQuality,
                &contract.name,
                None,
                None,
                "Add validation for felt conversions to prevent unexpected behavior.",
                "https://cairo-lang.org/docs/",
                None,
                "Cairo Plugin",
                50,
            );
            proof {
                lemma_battery_push(
                    out@,
                    expected,
                    f,
                    expected_felt_conversion(),
                    contract.name@,
                    "Cairo Plugin"@,
                );
                expected = expected.push(expected_felt_conversion());
            }
            out.push(f);
        }
        if contains_sub(src, "@storage_var") && !contains_sub(src, "constructor") && !contains_sub(
            src,
            "initializer",
        ) {
            let f = make_finding(
                String::from_str("Uninitialized Storage Variables"),
                "Storage variables should be properly initialized.",
                Severity::Medium,
                Category::CodeQuality,
                &contract.name,
                None,
                None,
                "Implement proper initialization for storage variables.",
                "https://cairo-lang.org/docs/hello_starknet/intro.html",
                Some("CWE-665"),
                "Cairo Plugin",
                70,
            );
            proof {
                lemma_battery_push(
                    out@,
                    expected,
                    f,
                    expected_uninitialized_storage(),
                    contract.name@,
                    "Cairo Plugin"@,
                );
                expected = expected.push(expected_uninitialized_storage());
            }
            out.push(f);
        }
        if contains_sub(src, ".read()") && !contains_sub(src, "assert") {
            let f = make_finding(
                String::from_str("Unchecked Storage Access"),
                "Storage reads should be validated for expected values.",
                Severity::Low,
                Category::CodeQuality,
                &contract.name,
                None,
                None,
                "Add validation for storage reads when appropriate.",
                "https://cairo-lang.org/docs/hello_starknet/intro.html",
                None,
                "Cairo Plugin",
                40,
            );
            proof {
                lemma_battery_push(
                    out@,
                    expected,
                    f,
                    expected_unchecked_storage_access(),
                    contract.name@,
                    "Cairo Plugin"@,
                );
                expected = expected.push(expected_unchecked_storage_access());
            }
            out.push(f);
        }
        if contains_sub(src, "@external") && !contains_sub(src, "assert_only_owner") {
            let f = make_finding(
                String::from_str("External Function Without Access Control"),
                "External functions should implement proper access control.",
                Severity::High,
                Category::AccessControl,
                &contract.name,
                None,
                None,
                "Implement access control mechanisms for external functions.",
                "https://cairo-lang.org/docs/hello_starknet/intro.html",
                Some("CWE-862"),
                "Cairo Plugin",
                80,
            );
            proof {
                lemma_battery_push(
                    out@,
                    expected,
                    f,
                    expected_external_without_access_control(),
                    contract.name@,
                    "Cairo Plugin"@,
                );
                expected = expected.push(expected_external_without_access_control());
            }
            out.push(f);
        }
        if contains_sub(src, "call_contract") && contains_sub(src, "@storage_var") {
            let f = make_finding(
                String::from_str("Potential Reentrancy"),
                "External calls combined with storage modifications can lead to reentrancy.",
                Severity::High,
                Category::Reentrancy,
                &contract.name,
                None,
                None,
                "Use checks-effects-interactions pattern or implement reentrancy guards.",
                "https://cairo-lang.org/docs/hello_starknet/intro.html",
                Some("CWE-362"),
                "Cairo Plugin",
                70,
            );
            proof {
                lemma_battery_push(
                    out@,
                    expected,
                    f,
                    expected_cairo_reentrancy(),
                    contract.name@,
                    "Cairo Plugin"@,
                );
                expected = expected.push(expected_cairo_reentrancy());
            }
            out.push(f);
        }
        if contains_sub(src, "assert") && count_occurrences(src, "assert") > 10 {
            let f = make_finding(
                String::from_str("Excessive Assert Usage"),
                "Too many assert statements can make the contract expensive to execute.",
                Severity::Low,
                Category::CodeQuality,
                &contract.name,
                None,
                None,
                "Consider using more efficient error handling patterns.",
                "https://cairo-lang.org/docs/",
                None,
                "Cairo Plugin",
                50,
            );
            proof {
                lemma_battery_push(
                    out@,
                    expected,
                    f,
                    expected_excessive_asserts(),
                    contract.name@,
                    "Cairo Plugin"@,
                );
                expected = expected.push(expected_excessive_asserts());
            }
            out.push(f);
        }
        if contains_sub(src, "@external") && !contains_sub(src, "assert") {
            let f = make_finding(
                String::from_str("Missing Input Validation"),
                "External functions should validate inputs using assertions.",
                Severity::Medium,
                Category::InputValidation,
                &contract.name,
                None,
                None,
                "Add input validation using assert statements.",
                "https://cairo-lang.org/docs/",
                Some("CWE-20"),
                "Cairo Plugin",
                60,
            );
            proof {
                lemma_battery_push(
                    out@,
                    expected,
                    f,
                    expected_missing_input_validation(),
                    contract.name@,
                    "Cairo Plugin"@,
                );
                expected = expected.push(expected_missing_input_validation());
            }
            out.push(f);
        }
        assert(expected =~= cairo_analysis_checks(*contract));
        out
    }

    /// Checks for Cairo-specific best practices.
    pub fn check_cairo_best_practices(&self, contract: &ParsedContract) -> (r: Vec<Finding>)
        ensures
            battery_matches(
                r@,
                cairo_best_practice_checks(*contract),
                contract.name@,
                "Cairo Plugin"@,
            ),
    {
        let mut out: Vec<Finding> = Vec::new();
        let ghost mut expected: Seq<ExpectedFinding> = Seq::empty();
        let src = contract.source_code.as_str();
        if contains_sub(src, "namespace") && contains_sub(src, "from starkware.cairo.common") {
            let f = make_finding(
                String::from_str("Namespace Best Practice"),
                "Using proper namespaces improves code organization.",
                Severity::Info,
                Category::CodeQuality,
                &contract.name,
                None,
                None,
                "Continue using proper namespace organization.",
                "https://cairo-lang.org/docs/",
                None,
                "Cairo Plugin",
                30,
            );
            proof {
                lemma_battery_push(
                    out@,
                    expected,
                    f,
                    expected_namespace_practice(),
                    contract.name@,
                    "Cairo Plugin"@,
                );
                expected = expected.push(expected_namespace_practice());
            }
            out.push(f);
        }
        if contains_sub(src, "from starkware.cairo.common") && !contains_sub(src, "alloc") {
            let f = make_finding(
                String::from_str("Missing Memory Management"),
                "Consider if memory allocation functions are needed.",
                Severity::Info,
                Category::CodeQuality,
                &contract.name,
                None,
                None,
                "Review if memory allocation functions are needed for this contract.",
                "https://cairo-lang.org/docs/",
                None,
                "Cairo Plugin",
                20,
            );
            proof {
                lemma_battery_push(
                    out@,
                    expected,
                    f,
                    expected_missing_memory_management(),
                    contract.name@,
                    "Cairo Plugin"@,
                );
                expected = expected.push(expected_missing_memory_management());
            }
            out.push(f);
        }
        assert(expected =~= cairo_best_practice_checks(*contract));
        out
    }

    /// Decide the pre-check without the `Result` wrapper.
    pub fn validate(&self, contract: &ParsedContract) -> (r: bool)
        ensures
            r == spec_cairo_validate(*contract),
    {
        let src = contract.source_code.as_str();
        if src.unicode_len() == 0 {
            return false;
        }
        if !contains_sub(src, "%lang starknet") && !contains_sub(
            src,
            "from starkware.cairo.common",
        ) {
            return false;
        }
        true
    }
}

impl BlockchainPlugin for CairoPlugin {
    open spec fn spec_name(&self) -> Seq<char> {
        "Cairo"@
    }

    open spec fn spec_tool(&self) -> Seq<char> {
        "Cairo Plugin"@
    }

    open spec fn spec_languages(&self) -> Seq<Seq<char>> {
        seq!["cairo"@]
    }

    open spec fn spec_tools(&self) -> Seq<Seq<char>> {
        seq!["cairo-compile"@, "starknet-compile"@, "protostar"@, "scarb"@]
    }

    open spec fn spec_battery(&self, c: ParsedContract) -> Seq<ExpectedFinding> {
        cairo_battery(c)
    }

    open spec fn spec_validate(&self, c: ParsedContract) -> bool {
        spec_cairo_validate(c)
    }

    proof fn validate_empty_is_false(&self, c: ParsedContract) {
    }

    fn name(&self) -> (r: &'static str) {
        "Cairo"
    }

    fn supported_languages(&self) -> (r: Vec<&'static str>) {
        let mut v: Vec<&'static str> = Vec::new();
        v.push("cairo");
        assert(v@.map_values(|s: &'static str| s@) =~= self.spec_languages());
        v
    }

    fn analyze_contract(&self, contract: &ParsedContract) -> (r: Result<
        Vec<Finding>,
        AnalysisError,
    >) {
        let mut out = self.run_cairo_analysis(contract);
        let mut best = self.check_cairo_best_practices(contract);
        proof {
            crate::finding::lemma_battery_concat(
                out@,
                cairo_analysis_checks(*contract),
                best@,
                cairo_best_practice_checks(*contract),
                contract.name@,
                "Cairo Plugin"@,
            );
        }
        out.append(&mut best);
        Ok(out)
    }

    fn validate_contract(&self, contract: &ParsedContract) -> (r: Result<bool, AnalysisError>) {
        Ok(self.validate(contract))
    }

    fn get_analysis_tools(&self) -> (r: Vec<&'static str>) {
        let mut v: Vec<&'static str> = Vec::new();
        v.push("cairo-compile");
        v.push("starknet-compile");
        v.push("protostar");
        v.push("scarb");
        assert(v@.map_values(|s: &'static str| s@) =~= self.spec_tools());
        v
    }
}

} // verus!
