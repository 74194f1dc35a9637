//! Move plugin: heuristic battery for Move smart contracts on Aptos and
//! Sui.

use vstd::prelude::*;

use crate::errors::AnalysisError;
use crate::finding::{
    battery_matches, lemma_battery_concat, lemma_battery_push, make_finding, Category,
    ExpectedFinding, Finding, Severity,
};
use crate::model::ParsedContract;
use crate::plugins::BlockchainPlugin;
use crate::text::{
    contains_seq, contains_sub, digit_end, digit_end_from, digits_val, find_sub_from,
    lemma_digit_end_from, lemma_skip_ws_from, matches_at, parse_u32_range, skip_ws, skip_ws_from,
};

verus! {

/// Heuristic analyzer for Move smart contracts.
pub struct MovePlugin {}

pub open spec fn fires_unchecked_resource_access(c: ParsedContract) -> bool {
    contains_seq(c.source_code@, "move_from"@) && !contains_seq(c.source_code@, "exists<"@)
}

pub open spec fn fires_resource_leak(c: ParsedContract) -> bool {
    contains_seq(c.source_code@, "move_to"@) && !contains_seq(c.source_code@, "move_from"@)
}

pub open spec fn fires_capability_management(c: ParsedContract) -> bool {
    contains_seq(c.source_code@, "capability"@) && !contains_seq(c.source_code@, "acquires"@)
        && contains_seq(c.source_code@, "&signer"@)
}

/// An `abort` keyword at `i` followed by at least one whitespace character
/// and at least one decimal digit.
pub open spec fn abort_candidate_at(h: Seq<char>, i: int) -> bool {
    &&& matches_at(h, "abort"@, i)
    &&& skip_ws_from(h, i + 5) > i + 5
    &&& digit_end_from(h, skip_ws_from(h, i + 5)) > skip_ws_from(h, i + 5)
}

/// The leftmost abort-with-code occurrence.
pub open spec fn is_first_abort_candidate(h: Seq<char>, i: int) -> bool {
    abort_candidate_at(h, i) && forall|j: int| 0 <= j < i ==> !abort_candidate_at(h, j)
}

/// The digit run of the abort code starting at the `abort` keyword at `i`.
pub open spec fn abort_digits(h: Seq<char>, i: int) -> Seq<char> {
    h.subrange(skip_ws_from(h, i + 5), digit_end_from(h, skip_ws_from(h, i + 5)))
}

/// The abort code's numeric value, with values that do not fit a `u32`
/// collapsing to zero, as a failed narrow parse would.
pub open spec fn abort_code_value(h: Seq<char>, i: int) -> int {
    if digits_val(abort_digits(h, i)) <= u32::MAX {
        digits_val(abort_digits(h, i))
    } else {
        0
    }
}

/// The first abort code in the source is a magic number above 100.
pub open spec fn fires_magic_abort(h: Seq<char>) -> bool {
    exists|i: int| is_first_abort_candidate(h, i) && abort_code_value(h, i) > 100
}

pub open spec fn fires_mutable_global_storage(c: ParsedContract) -> bool {
    contains_seq(c.source_code@, "borrow_global_mut"@)
}

pub open spec fn fires_missing_acquires(c: ParsedContract) -> bool {
    contains_seq(c.source_code@, "borrow_global"@) && !contains_seq(c.source_code@, "acquires"@)
}

pub open spec fn fires_missing_module(c: ParsedContract) -> bool {
    !contains_seq(c.source_code@, "module"@)
}

pub open spec fn fires_permissive_visibility(c: ParsedContract) -> bool {
    contains_seq(c.source_code@, "public fun"@) && !contains_seq(
        c.source_code@,
        "public(friend)"@,
    )
}

pub open spec fn expected_unchecked_resource_access() -> ExpectedFinding {
    ExpectedFinding {
        title: "Unchecked Resource Access"@,
        severity: Severity::High,
        category: Category::AccessControl,
        line_number: None,
        cwe_id: Some("CWE-476"@),
        confidence: 80,
    }
}

pub open spec fn expected_resource_leak() -> ExpectedFinding {
    ExpectedFinding {
        title: "Potential Resource Leak"@,
        severity: Severity::Medium,
        category: Category::CodeQuality,
        line_number: None,
        cwe_id: None,
        confidence: 60,
    }
}

pub open spec fn expected_capability_management() -> ExpectedFinding {
    ExpectedFinding {
        title: "Improper Capability Management"@,
        severity: Severity::High,
        category: Category::AccessControl,
        line_number: None,
        cwe_id: Some("CWE-863"@),
        confidence: 70,
    }
}

pub open spec fn expected_magic_abort() -> ExpectedFinding {
    ExpectedFinding {
        title: "Magic Number in Abort"@,
        severity: Severity::Low,
        category: Category::CodeQuality,
        line_number: None,
        cwe_id: None,
        confidence: 50,
    }
}

pub open spec fn expected_mutable_global_storage() -> ExpectedFinding {
    ExpectedFinding {
        title: "Mutable Global Storage Access"@,
        severity: Severity::Medium,
        category: Category::Reentrancy,
        line_number: None,
        cwe_id: Some("CWE-362"@),
        confidence: 60,
    }
}

pub open spec fn expected_missing_acquires() -> ExpectedFinding {
    ExpectedFinding {
        title: "Missing Acquires Declaration"@,
        severity: Severity::High,
        category: Category::CodeQuality,
        line_number: None,
        cwe_id: None,
        confidence: 90,
    }
}

pub open spec fn expected_missing_module() -> ExpectedFinding {
    ExpectedFinding {
        title: "Missing Module Declaration"@,
        severity: Severity::Medium,
        category: Category::CodeQuality,
        line_number: None,
        cwe_id: None,
        confidence: 80,
    }
}

pub open spec fn expected_permissive_visibility() -> ExpectedFinding {
    ExpectedFinding {
        title: "Overly Permissive Function Visibility"@,
        severity: Severity::Low,
        category: Category::AccessControl,
        line_number: None,
        cwe_id: Some("CWE-732"@),
        confidence: 40,
    }
}

/// The resource, capability, abort and global-storage checks, in battery
/// order.
pub open spec fn move_analysis_checks(c: ParsedContract) -> Seq<ExpectedFinding> {
    let s0 = Seq::<ExpectedFinding>::empty();
    let s1 = if fires_unchecked_resource_access(c) {
        s0.push(expected_unchecked_resource_access())
    } else {
        s0
    };
    let s2 = if fires_resource_leak(c) {
        s1.push(expected_resource_leak())
    } else {
        s1
    };
    let s3 = if fires_capability_management(c) {
        s2.push(expected_capability_management())
    } else {
        s2
    };
    let s4 = if fires_magic_abort(c.source_code@) {
        s3.push(expected_magic_abort())
    } else {
        s3
    };
    let s5 = if fires_mutable_global_storage(c) {
        s4.push(expected_mutable_global_storage())
    } else {
        s4
    };
    if fires_missing_acquires(c) {
        s5.push(expected_missing_acquires())
    } else {
        s5
    }
}

/// The best-practice checks, in battery order.
pub open spec fn move_best_practice_checks(c: ParsedContract) -> Seq<ExpectedFinding> {
    let s0 = Seq::<ExpectedFinding>::empty();
    let s1 = if fires_missing_module(c) {
        s0.push(expected_missing_module())
    } else {
        s0
    };
    if fires_permissive_visibility(c) {
        s1.push(expected_permissive_visibility())
    } else {
        s1
    }
}

/// The full Move heuristic battery.
pub open spec fn move_battery(c: ParsedContract) -> Seq<ExpectedFinding> {
    move_analysis_checks(c) + move_best_practice_checks(c)
}

/// The Move pre-check: non-empty source holding Move-specific syntax and a
/// basic construct.
pub open spec fn spec_move_validate(c: ParsedContract) -> bool {
    &&& c.source_code@.len() > 0
    &&& (contains_seq(c.source_code@, "module"@) || contains_seq(c.source_code@, "script"@))
    &&& (contains_seq(c.source_code@, "fun"@) || contains_seq(c.source_code@, "struct"@))
}

/// Find the leftmost abort-with-code occurrence.
fn find_abort_candidate(src: &str) -> (r: Option<usize>)
    ensures
        match r {
            Some(i) => is_first_abort_candidate(src@, i as int),
            None => forall|j: int| !abort_candidate_at(src@, j),
        },
{
    let hlen: usize = src.unicode_len();
    let mut from: usize = 0;
    loop
        invariant
            hlen == src@.len(),
            from <= src@.len() + 1,
            forall|j: int| 0 <= j < from ==> !abort_candidate_at(src@, j),
        ensures
            forall|j: int| !abort_candidate_at(src@, j),
        decreases src@.len() + 1 - from,
    {
        proof {
            reveal_strlit("abort");
        }
        match find_sub_from(src, "abort", from) {
            None => {
                assert forall|j: int| true implies !abort_candidate_at(src@, j) by {
                    if j < from {
                    } else {
                        assert(!matches_at(src@, "abort"@, j));
                    }
                }
                break;
            },
            Some(i) => {
                proof {
                    lemma_skip_ws_from(src@, i + 5);
                }
                let ws_end = skip_ws(src, i + 5);
                if ws_end > i + 5 {
                    proof {
                        lemma_digit_end_from(src@, ws_end as int);
                    }
                    let dig_end = digit_end(src, ws_end);
                    if dig_end > ws_end {
                        assert(abort_candidate_at(src@, i as int));
                        assert forall|j: int| 0 <= j < i implies !abort_candidate_at(src@, j) by {
                            if j < from {
                            } else {
                                assert(!matches_at(src@, "abort"@, j));
                            }
                        }
                        return Some(i);
                    }
                }
                assert(!abort_candidate_at(src@, i as int));
                assert forall|j: int| 0 <= j < i + 1 implies !abort_candidate_at(src@, j) by {
                    if j < from {
                    } else if j < i {
                        assert(!matches_at(src@, "abort"@, j));
                    }
                }
                from = i + 1;
            },
        }
    }
    None
}

impl MovePlugin {
    /// Create a new Move plugin.
    pub fn new() -> (r: Self) {
        MovePlugin {  }
    }

    /// The resource, capability, abort and global-storage checks.
    pub fn run_move_analysis(&self, contract: &ParsedContract) -> (r: Vec<Finding>)
        ensures
            battery_matches(r@, move_analysis_checks(*contract), contract.name@, "Move Plugin"@),
    {
        let mut out: Vec<Finding> = Vec::new();
        let ghost mut expected: Seq<ExpectedFinding> = Seq::empty();
        let src = contract.source_code.as_str();
        if contains_sub(src, "move_from") && !contains_sub(src, "exists<") {
            let f = make_finding(
                String::from_str("Unchecked Resource Access"),
                "Resource is being moved without checking if it exists first.",
                Severity::High,
                Category::AccessControl,
                &contract.name,
                None,
                None,
                "Always check resource existence with exists<T>() before using move_from<T>().",
                "https://move-language.github.io/move/structs-and-resources.html",
                Some("CWE-476"),
                "Move Plugin",
                80,
            );
            proof {
                lemma_battery_push(
                    out@,
                    expected,
                    f,
                    expected_unchecked_resource_access(),
                    contract.name@,
                    "Move Plugin"@,
                );
                expected = expected.push(expected_unchecked_resource_access());
            }
            out.push(f);
        }
        if contains_sub(src, "move_to") && !contains_sub(src, "move_from") {
            let f = make_finding(
                String::from_str("Potential Resource Leak"),
                "Resources are being created but never consumed, potentially leading to storage bloat.",
                Severity::Medium,
                Category::CodeQuality,
                &contract.name,
                None,
                None,
                "Ensure all resources have proper cleanup mechanisms.",
                "https://move-language.github.io/move/structs-and-resources.html",
                None,
                "Move Plugin",
                60,
            );
            proof {
                lemma_battery_push(
                    out@,
                    expected,
                    f,
                    expected_resource_leak(),
                    contract.name@,
                    "Move Plugin"@,
                );
                expected = expected.push(expected_resource_leak());
            }
            out.push(f);
        }
        if contains_sub(src, "capability") && !contains_sub(src, "acquires") && contains_sub(
            src,
            "&signer",
        ) {
            let f = make_finding(
                String::from_str("Improper Capability Management"),
                "Capability is being used without proper signer validation.",
                Severity::High,
                Category::AccessControl,
                &contract.name,
                None,
                None,
                "Implement proper signer validation and capability checking.",
                "https://aptos.dev/concepts/accounts/",
                Some("CWE-863"),
                "Move Plugin",
                70,
            );
            proof {
                lemma_battery_push(
                    out@,
                    expected,
                    f,
                    expected_capability_management(),
                    contract.name@,
                    "Move Plugin"@,
                );
                expected = expected.push(expected_capability_management());
            }
            out.push(f);
        }
        if let Some(code) = self.first_large_abort_code(src) {
            let snippet = String::from_str("abort ").concat(code.as_str());
            let f = make_finding(
                String::from_str("Magic Number in Abort"),
                "Using magic numbers in abort conditions makes debugging difficult.",
                Severity::Low,
                Category::CodeQuality,
                &contract.name,
                None,
                Some(snippet),
                "Define error constants for abort codes to improve readability.",
                "https://move-language.github.io/move/abort-and-assert.html",
                None,
                "Move Plugin",
                50,
            );
            proof {
                lemma_battery_push(
                    out@,
                    expected,
                    f,
                    expected_magic_abort(),
                    contract.name@,
                    "Move Plugin"@,
                );
                expected = expected.push(expected_magic_abort());
            }
            out.push(f);
        }
        if contains_sub(src, "borrow_global_mut") {
            let f = make_finding(
                String::from_str("Mutable Global Storage Access"),
                "Using mutable global storage access can lead to reentrancy-like issues.",
                Severity::Medium,
                Category::Reentrancy,
                &contract.name,
                None,
                None,
                "Consider using immutable references or implementing proper access patterns.",
                "https://move-language.github.io/move/global-storage-operators.html",
                Some("CWE-362"),
                "Move Plugin",
                60,
            );
            proof {
                lemma_battery_push(
                    out@,
                    expected,
                    f,
                    expected_mutable_global_storage(),
                    contract.name@,
                    "Move Plugin"@,
                );
                expected = expected.push(expected_mutable_global_storage());
            }
            out.push(f);
        }
        if contains_sub(src, "borrow_global") && !contains_sub(src, "acquires") {
            let f = make_finding(
                String::from_str("Missing Acquires Declaration"),
                "Function uses global storage but doesn't declare acquires.",
                Severity::High,
                Category::CodeQuality,
                &contract.name,
                None,
                None,
                "Add proper acquires declarations to functions that access global storage.",
                "https://move-language.github.io/move/global-storage-operators.html",
                None,
                "Move Plugin",
                90,
            );
            proof {
                lemma_battery_push(
                    out@,
                    expected,
                    f,
                    expected_missing_acquires(),
                    contract.name@,
                    "Move Plugin"@,
                );
                expected = expected.push(expected_missing_acquires());
            }
            out.push(f);
        }
        assert(expected =~= move_analysis_checks(*contract));
        out
    }

    /// The digit text of the first abort code when its value, parsed
    /// narrowly with overflow collapsing to zero, exceeds 100.
    fn first_large_abort_code(&self, src: &str) -> (r: Option<String>)
        ensures
            r is Some <==> fires_magic_abort(src@),
            r matches Some(code) ==> exists|i: int|
                is_first_abort_candidate(src@, i) && code@ == abort_digits(src@, i),
    {
        let hlen: usize = src.unicode_len();
        proof {
            reveal_strlit("abort");
        }
        match find_abort_candidate(src) {
            None => {
                assert(!fires_magic_abort(src@));
                None
            },
            Some(i) => {
                proof {
                    lemma_skip_ws_from(src@, i + 5);
                }
                let ws_end = skip_ws(src, i + 5);
                proof {
                    lemma_digit_end_from(src@, ws_end as int);
                }
                let dig_end = digit_end(src, ws_end);
                let value: u32 = match parse_u32_range(src, ws_end, dig_end) {
                    Some(v) => v,
                    None => 0,
                };
                assert(value == abort_code_value(src@, i as int));
                proof {
                    assert forall|j: int|
                        is_first_abort_candidate(src@, j) implies j == i as int by {
                        if j < i {
                        } else if j > i {
                            assert(!abort_candidate_at(src@, i as int));
                        }
                    }
                }
                if value > 100 {
                    let code = src.substring_char(ws_end, dig_end);
                    assert(code@ == abort_digits(src@, i as int));
                    Some(String::from_str(code))
                } else {
                    assert(!fires_magic_abort(src@));
                    None
                }
            },
        }
    }

    /// Checks for Move-specific best practices.
    pub fn check_move_best_practices(&self, contract: &ParsedContract) -> (r: Vec<Finding>)
        ensures
            battery_matches(
                r@,
                move_best_practice_checks(*contract),
                contract.name@,
                "Move Plugin"@,
            ),
    {
        let mut out: Vec<Finding> = Vec::new();
        let ghost mut expected: Seq<ExpectedFinding> = Seq::empty();
        let src = contract.source_code.as_str();
        if !contains_sub(src, "module") {
            let f = make_finding(
                String::from_str("Missing Module Declaration"),
                "Move code should be organized in modules.",
                Severity::Medium,
                Category::CodeQuality,
                &contract.name,
                None,
                None,
                "Organize code into proper Move modules.",
                "https://move-language.github.io/move/modules-and-scripts.html",
                None,
                "Move Plugin",
                80,
            );
            proof {
                lemma_battery_push(
                    out@,
                    expected,
                    f,
                    expected_missing_module(),
                    contract.name@,
                    "Move Plugin"@,
                );
                expected = expected.push(expected_missing_module());
            }
            out.push(f);
        }
        if contains_sub(src, "public fun") && !contains_sub(src, "public(friend)") {
            let f = make_finding(
                String::from_str("Overly Permissive Function Visibility"),
                "Functions are public without friend restrictions.",
                Severity::Low,
                Category::AccessControl,
                &contract.name,
                None,
                None,
                "Consider using public(friend) or public(script) for better access control.",
                "https://move-language.github.io/move/functions.html",
                Some("CWE-732"),
                "Move Plugin",
                40,
            );
            proof {
                lemma_battery_push(
                    out@,
                    expected,
                    f,
                    expected_permissive_visibility(),
                    contract.name@,
                    "Move Plugin"@,
                );
                expected = expected.push(expected_permissive_visibility());
            }
            out.push(f);
        }
        assert(expected =~= move_best_practice_checks(*contract));
        out
    }

    /// Decide the pre-check without the `Result` wrapper.
    pub fn validate(&self, contract: &ParsedContract) -> (r: bool)
        ensures
            r == spec_move_validate(*contract),
    {
        let src = contract.source_code.as_str();
        if src.unicode_len() == 0 {
            return false;
        }
        if !contains_sub(src, "module") && !contains_sub(src, "script") {
            return false;
        }
        if !contains_sub(src, "fun") && !contains_sub(src, "struct") {
            return false;
        }
        true
    }
}

impl BlockchainPlugin for MovePlugin {
    open spec fn spec_name(&self) -> Seq<char> {
        "Move"@
    }

    open spec fn spec_tool(&self) -> Seq<char> {
        "Move Plugin"@
    }

    open spec fn spec_languages(&self) -> Seq<Seq<char>> {
        seq!["move"@]
    }

    open spec fn spec_tools(&self) -> Seq<Seq<char>> {
        seq!["move"@, "move-prover"@, "aptos"@, "sui"@]
    }

    open spec fn spec_battery(&self, c: ParsedContract) -> Seq<ExpectedFinding> {
        move_battery(c)
    }

    open spec fn spec_validate(&self, c: ParsedContract) -> bool {
        spec_move_validate(c)
    }

    proof fn validate_empty_is_false(&self, c: ParsedContract) {
    }

    fn name(&self) -> (r: &'static str) {
        "Move"
    }

    fn supported_languages(&self) -> (r: Vec<&'static str>) {
        let mut v: Vec<&'static str> = Vec::new();
        v.push("move");
        assert(v@.map_values(|s: &'static str| s@) =~= self.spec_languages());
        v
    }

    fn analyze_contract(&self, contract: &ParsedContract) -> (r: Result<
        Vec<Finding>,
        AnalysisError,
    >) {
        let mut out = self.run_move_analysis(contract);
        let mut best = self.check_move_best_practices(contract);
        proof {
            lemma_battery_concat(
                out@,
                move_analysis_checks(*contract),
                best@,
                move_best_practice_checks(*contract),
                contract.name@,
                "Move Plugin"@,
            );
        }
        out.append(&mut best);
        Ok(out)
    }

    fn validate_contract(&self, contract: &ParsedContract) -> (r: Result<bool, AnalysisError>) {
        Ok(self.validate(contract))
    }

    fn get_analysis_tools(&self) -> (r: Vec<&'static str>) {
        let mut v: Vec<&'static str> = Vec::new();
        v.push("move");
        v.push("move-prover");
        v.push("aptos");
        v.push("sui");
        assert(v@.map_values(|s: &'static str| s@) =~= self.spec_tools());
        v
    }
}

} // verus!
