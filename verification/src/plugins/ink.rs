//! Ink plugin: heuristic battery for Ink smart contracts on Substrate
//! chains.

use vstd::prelude::*;

use crate::errors::AnalysisError;
use crate::finding::{
    battery_matches, lemma_battery_concat, lemma_battery_push, make_finding, Category,
    ExpectedFinding, Finding, Severity,
};
use crate::model::ParsedContract;
use crate::plugins::BlockchainPlugin;
use crate::text::{contains_seq, contains_sub};

verus! {

/// Heuristic analyzer for Ink smart contracts.
pub struct InkPlugin {}

pub open spec fn fires_missing_contract_attribute(c: ParsedContract) -> bool {
    !contains_seq(c.source_code@, "#[ink::contract]"@)
}

pub open spec fn fires_missing_storage_struct(c: ParsedContract) -> bool {
    contains_seq(c.source_code@, "#[ink::contract]"@) && !contains_seq(
        c.source_code@,
        "#[ink(storage)]"@,
    )
}

pub open spec fn fires_missing_constructor(c: ParsedContract) -> bool {
    contains_seq(c.source_code@, "#[ink::contract]"@) && !contains_seq(
        c.source_code@,
        "#[ink(constructor)]"@,
    )
}

pub open spec fn fires_immutable_storage_access(c: ParsedContract) -> bool {
    contains_seq(c.source_code@, "self."@) && !contains_seq(c.source_code@, "&mut self"@)
}

pub open spec fn fires_missing_mapping_import(c: ParsedContract) -> bool {
    contains_seq(c.source_code@, "Mapping"@) && !contains_seq(
        c.source_code@,
        "use ink::storage::Mapping"@,
    )
}

pub open spec fn fires_message_without_access_control(c: ParsedContract) -> bool {
    contains_seq(c.source_code@, "#[ink(message)]"@) && !contains_seq(c.source_code@, "caller"@)
}

pub open spec fn fires_payable_without_value_check(c: ParsedContract) -> bool {
    contains_seq(c.source_code@, "#[ink(message, payable)]"@) && !contains_seq(
        c.source_code@,
        "transferred_value"@,
    )
}

pub open spec fn fires_message_without_error_handling(c: ParsedContract) -> bool {
    contains_seq(c.source_code@, "#[ink(message)]"@) && !contains_seq(c.source_code@, "Result"@)
}

pub open spec fn fires_event_without_topics(c: ParsedContract) -> bool {
    contains_seq(c.source_code@, "#[ink(event)]"@) && !contains_seq(
        c.source_code@,
        "#[ink(topic)]"@,
    )
}

pub open spec fn fires_event_not_emitted(c: ParsedContract) -> bool {
    contains_seq(c.source_code@, "#[ink(event)]"@) && !contains_seq(c.source_code@, "emit_event"@)
}

pub open spec fn fires_custom_error_types(c: ParsedContract) -> bool {
    contains_seq(c.source_code@, "Result"@) && !contains_seq(c.source_code@, "enum"@)
}

pub open spec fn fires_missing_unit_tests(c: ParsedContract) -> bool {
    contains_seq(c.source_code@, "#[ink::contract]"@) && !contains_seq(
        c.source_code@,
        "#[cfg(test)]"@,
    )
}

pub open spec fn fires_unchecked_arithmetic(c: ParsedContract) -> bool {
    (contains_seq(c.source_code@, "u8"@) || contains_seq(c.source_code@, "u32"@) || contains_seq(
        c.source_code@,
        "u64"@,
    )) && !contains_seq(c.source_code@, "checked_add"@) && !contains_seq(
        c.source_code@,
        "saturating_add"@,
    )
}

pub open spec fn expected_missing_contract_attribute() -> ExpectedFinding {
    ExpectedFinding {
        title: "Missing Ink Contract Attribute"@,
        severity: Severity::High,
        category: Category::CodeQuality,
        line_number: None,
        cwe_id: None,
        confidence: 90,
    }
}

pub open spec fn expected_missing_storage_struct() -> ExpectedFinding {
    ExpectedFinding {
        title: "Missing Storage Struct"@,
        severity: Severity::High,
        category: Category::CodeQuality,
        line_number: None,
        cwe_id: None,
        confidence: 90,
    }
}

pub open spec fn expected_missing_constructor() -> ExpectedFinding {
    ExpectedFinding {
        title: "Missing Constructor"@,
        severity: Severity::Medium,
        category: Category::CodeQuality,
        line_number: None,
        cwe_id: None,
        confidence: 70,
    }
}

pub open spec fn expected_immutable_storage_access() -> ExpectedFinding {
    ExpectedFinding {
        title: "Immutable Storage Access"@,
        severity: Severity::Medium,
        category: Category::CodeQuality,
        line_number: None,
        cwe_id: None,
        confidence: 60,
    }
}

pub open spec fn expected_missing_mapping_import() -> ExpectedFinding {
    ExpectedFinding {
        title: "Missing Mapping Import"@,
        severity: Severity::Medium,
        category: Category::CodeQuality,
        line_number: None,
        cwe_id: None,
        confidence: 80,
    }
}

pub open spec fn expected_message_without_access_control() -> ExpectedFinding {
    ExpectedFinding {
        title: "Message Without Access Control"@,
        severity: Severity::High,
        category: Category::AccessControl,
        line_number: None,
        cwe_id: Some("CWE-862"@),
        confidence: 70,
    }
}

pub open spec fn expected_payable_without_value_check() -> ExpectedFinding {
    ExpectedFinding {
        title: "Payable Message Without Value Check"@,
        severity: Severity::Medium,
        category: Category::CodeQuality,
        line_number: None,
        cwe_id: None,
        confidence: 60,
    }
}

pub open spec fn expected_message_without_error_handling() -> ExpectedFinding {
    ExpectedFinding {
        title: "Message Without Error Handling"@,
        severity: Severity::Low,
        category: Category::CodeQuality,
        line_number: None,
        cwe_id: None,
        confidence: 50,
    }
}

pub open spec fn expected_event_without_topics() -> ExpectedFinding {
    ExpectedFinding {
        title: "Event Without Indexed Fields"@,
        severity: Severity::Low,
        category: Category::CodeQuality,
        line_number: None,
        cwe_id: None,
        confidence: 40,
    }
}

pub open spec fn expected_event_not_emitted() -> ExpectedFinding {
    ExpectedFinding {
        title: "Event Defined But Not Emitted"@,
        severity: Severity::Info,
        category: Category::CodeQuality,
        line_number: None,
        cwe_id: None,
        confidence: 30,
    }
}

pub open spec fn expected_custom_error_types() -> ExpectedFinding {
    ExpectedFinding {
        title: "Consider Custom Error Types"@,
        severity: Severity::Info,
        category: Category::CodeQuality,
        line_number: None,
        cwe_id: None,
        confidence: 30,
    }
}

pub open spec fn expected_missing_unit_tests() -> ExpectedFinding {
    ExpectedFinding {
        title: "Missing Unit Tests"@,
        severity: Severity::Low,
        category: Category::CodeQuality,
        line_number: None,
        cwe_id: None,
        confidence: 50,
    }
}

pub open spec fn expected_unchecked_arithmetic() -> ExpectedFinding {
    ExpectedFinding {
        title: "Potential Integer Overflow"@,
        severity: Severity::Medium,
        category: Category::IntegerOverflow,
        line_number: None,
        cwe_id: Some("CWE-190"@),
        confidence: 60,
    }
}

/// The attribute checks, in battery order.
pub open spec fn ink_attribute_checks(c: ParsedContract) -> Seq<ExpectedFinding> {
    let s0 = Seq::<ExpectedFinding>::empty();
    let s1 = if fires_missing_contract_attribute(c) {
        s0.push(expected_missing_contract_attribute())
    } else {
        s0
    };
    let s2 = if fires_missing_storage_struct(c) {
        s1.push(expected_missing_storage_struct())
    } else {
        s1
    };
    if fires_missing_constructor(c) {
        s2.push(expected_missing_constructor())
    } else {
        s2
    }
}

/// The storage checks, in battery order.
pub open spec fn ink_storage_checks(c: ParsedContract) -> Seq<ExpectedFinding> {
    let s0 = Seq::<ExpectedFinding>::empty();
    let s1 = if fires_immutable_storage_access(c) {
        s0.push(expected_immutable_storage_access())
    } else {
        s0
    };
    if fires_missing_mapping_import(c) {
        s1.push(expected_missing_mapping_import())
    } else {
        s1
    }
}

/// The message checks, in battery order.
pub open spec fn ink_message_checks(c: ParsedContract) -> Seq<ExpectedFinding> {
    let s0 = Seq::<ExpectedFinding>::empty();
    let s1 = if fires_message_without_access_control(c) {
        s0.push(expected_message_without_access_control())
    } else {
        s0
    };
    let s2 = if fires_payable_without_value_check(c) {
        s1.push(expected_payable_without_value_check())
    } else {
        s1
    };
    if fires_message_without_error_handling(c) {
        s2.push(expected_message_without_error_handling())
    } else {
        s2
    }
}

/// The event checks, in battery order.
pub open spec fn ink_event_checks(c: ParsedContract) -> Seq<ExpectedFinding> {
    let s0 = Seq::<ExpectedFinding>::empty();
    let s1 = if fires_event_without_topics(c) {
        s0.push(expected_event_without_topics())
    } else {
        s0
    };
    if fires_event_not_emitted(c) {
        s1.push(expected_event_not_emitted())
    } else {
        s1
    }
}

/// The best-practice checks, in battery order.
pub open spec fn ink_best_practice_checks(c: ParsedContract) -> Seq<ExpectedFinding> {
    let s0 = Seq::<ExpectedFinding>::empty();
    let s1 = if fires_custom_error_types(c) {
        s0.push(expected_custom_error_types())
    } else {
        s0
    };
    let s2 = if fires_missing_unit_tests(c) {
        s1.push(expected_missing_unit_tests())
    } else {
        s1
    };
    if fires_unchecked_arithmetic(c) {
        s2.push(expected_unchecked_arithmetic())
    } else {
        s2
    }
}

/// The full Ink heuristic battery for one contract.
pub open spec fn ink_battery(c: ParsedContract) -> Seq<ExpectedFinding> {
    ink_attribute_checks(c) + ink_storage_checks(c) + ink_message_checks(c) + ink_event_checks(c)
        + ink_best_practice_checks(c)
}

/// The Ink pre-check: non-empty source holding Ink-specific syntax.
pub open spec fn spec_ink_validate(c: ParsedContract) -> bool {
    &&& c.source_code@.len() > 0
    &&& (contains_seq(c.source_code@, "#[ink::contract]"@) || contains_seq(
        c.source_code@,
        "use ink"@,
    ))
}

impl InkPlugin {
    /// Create a new Ink plugin.
    pub fn new() -> (r: Self) {
        InkPlugin {  }
    }

    /// Checks on the contract-level Ink attributes.
    pub fn check_ink_attributes(&self, contract: &ParsedContract) -> (r: Vec<Finding>)
        ensures
            battery_matches(r@, ink_attribute_checks(*contract), contract.name@, "Ink Plugin"@),
    {
        let mut out: Vec<Finding> = Vec::new();
        let ghost mut expected: Seq<ExpectedFinding> = Seq::empty();
        let src = contract.source_code.as_str();
        if !contains_sub(src, "#[ink::contract]") {
            let f = make_finding(
                String::from_str("Missing Ink Contract Attribute"),
                "Ink contracts must have the #[ink::contract] attribute.",
                Severity::High,
                Category::CodeQuality,
                &contract.name,
                None,
                None,
                "Add #[ink::contract] attribute to the contract module.",
                "https://use.ink/macros-attributes/contract/",
                None,
                "Ink Plugin",
                90,
            );
            proof {
                lemma_battery_push(
                    out@,
                    expected,
                    f,
                    expected_missing_contract_attribute(),
                    contract.name@,
                    "Ink Plugin"@,
                );
                expected = expected.push(expected_missing_contract_attribute());
            }
            out.push(f);
        }
        if contains_sub(src, "#[ink::contract]") && !contains_sub(src, "#[ink(storage)]") {
            let f = make_finding(
                String::from_str("Missing Storage Struct"),
                "Ink contracts must have a storage struct with #[ink(storage)] attribute.",
                Severity::High,
                Category::CodeQuality,
                &contract.name,
                None,
                None,
                "Define a storage struct with #[ink(storage)] attribute.",
                "https://use.ink/macros-attributes/storage/",
                None,
                "Ink Plugin",
                90,
            );
            proof {
                lemma_battery_push(
                    out@,
                    expected,
                    f,
                    expected_missing_storage_struct(),
                    contract.name@,
                    "Ink Plugin"@,
                );
                expected = expected.push(expected_missing_storage_struct());
            }
            out.push(f);
        }
        if contains_sub(src, "#[ink::contract]") && !contains_sub(src, "#[ink(constructor)]") {
            let f = make_finding(
                String::from_str("Missing Constructor"),
                "Ink contracts should have at least one constructor.",
                Severity::Medium,
                Category::CodeQuality,
                &contract.name,
                None,
                None,
                "Add a constructor with #[ink(constructor)] attribute.",
                "https://use.ink/macros-attributes/constructor/",
                None,
                "Ink Plugin",
                70,
            );
            proof {
                lemma_battery_push(
                    out@,
                    expected,
                    f,
                    expected_missing_constructor(),
                    contract.name@,
                    "Ink Plugin"@,
                );
                expected = expected.push(expected_missing_constructor());
            }
            out.push(f);
        }
        assert(expected =~= ink_attribute_checks(*contract));
        out
    }

    /// Checks on storage access and storage data structures.
    pub fn check_storage_patterns(&self, contract: &ParsedContract) -> (r: Vec<Finding>)
        ensures
            battery_matches(r@, ink_storage_checks(*contract), contract.name@, "Ink Plugin"@),
    {
        let mut out: Vec<Finding> = Vec::new();
        let ghost mut expected: Seq<ExpectedFinding> = Seq::empty();
        let src = contract.source_code.as_str();
        if contains_sub(src, "self.") && !contains_sub(src, "&mut self") {
            let f = make_finding(
                String::from_str("Immutable Storage Access"),
                "Storage modifications require mutable reference to self.",
                Severity::Medium,
                Category::CodeQuality,
                &contract.name,
                None,
                None,
                "Use &mut self parameter for functions that modify storage.",
                "https://use.ink/basics/storing-values/",
                None,
                "Ink Plugin",
                60,
            );
            proof {
                lemma_battery_push(
                    out@,
                    expected,
                    f,
                    expected_immutable_storage_access(),
                    contract.name@,
                    "Ink Plugin"@,
                );
                expected = expected.push(expected_immutable_storage_access());
            }
            out.push(f);
        }
        if contains_sub(src, "Mapping") && !contains_sub(src, "use ink::storage::Mapping") {
            let f = make_finding(
                String::from_str("Missing Mapping Import"),
                "Mapping usage requires proper import.",
                Severity::Medium,
                Category::CodeQuality,
                &contract.name,
                None,
                None,
                "Add 'use ink::storage::Mapping;' import.",
                "https://use.ink/datastructures/mapping/",
                None,
                "Ink Plugin",
                80,
            );
            proof {
                lemma_battery_push(
                    out@,
                    expected,
                    f,
                    expected_missing_mapping_import(),
                    contract.name@,
                    "Ink Plugin"@,
                );
                expected = expected.push(expected_missing_mapping_import());
            }
            out.push(f);
        }
        assert(expected =~= ink_storage_checks(*contract));
        out
    }

    /// Checks on message declarations.
    pub fn check_message_patterns(&self, contract: &ParsedContract) -> (r: Vec<Finding>)
        ensures
            battery_matches(r@, ink_message_checks(*contract), contract.name@, "Ink Plugin"@),
    {
        let mut out: Vec<Finding> = Vec::new();
        let ghost mut expected: Seq<ExpectedFinding> = Seq::empty();
        let src = contract.source_code.as_str();
        if contains_sub(src, "#[ink(message)]") && !contains_sub(src, "caller") {
            let f = make_finding(
                String::from_str("Message Without Access Control"),
                "Public messages should implement proper access control.",
                Severity::High,
                Category::AccessControl,
                &contract.name,
                None,
                None,
                "Implement caller validation using self.env().caller().",
                "https://use.ink/basics/contract-calls/",
                Some("CWE-862"),
                "Ink Plugin",
                70,
            );
            proof {
                lemma_battery_push(
                    out@,
                    expected,
                    f,
                    expected_message_without_access_control(),
                    contract.name@,
                    "Ink Plugin"@,
                );
                expected = expected.push(expected_message_without_access_control());
            }
            out.push(f);
        }
        if contains_sub(src, "#[ink(message, payable)]") && !contains_sub(
            src,
            "transferred_value",
        ) {
            let f = make_finding(
                String::from_str("Payable Message Without Value Check"),
                "Payable messages should check transferred value.",
                Severity::Medium,
                Category::CodeQuality,
                &contract.name,
                None,
                None,
                "Use self.env().transferred_value() to check payment amount.",
                "https://use.ink/basics/payable/",
                None,
                "Ink Plugin",
                60,
            );
            proof {
                lemma_battery_push(
                    out@,
                    expected,
                    f,
                    expected_payable_without_value_check(),
                    contract.name@,
                    "Ink Plugin"@,
                );
                expected = expected.push(expected_payable_without_value_check());
            }
            out.push(f);
        }
        if contains_sub(src, "#[ink(message)]") && !contains_sub(src, "Result") {
            let f = make_finding(
                String::from_str("Message Without Error Handling"),
                "Messages should use Result type for proper error handling.",
                Severity::Low,
                Category::CodeQuality,
                &contract.name,
                None,
                None,
                "Use Result return type for fallible operations.",
                "https://use.ink/basics/contract-calls/",
                None,
                "Ink Plugin",
                50,
            );
            proof {
                lemma_battery_push(
                    out@,
                    expected,
                    f,
                    expected_message_without_error_handling(),
                    contract.name@,
                    "Ink Plugin"@,
                );
                expected = expected.push(expected_message_without_error_handling());
            }
            out.push(f);
        }
        assert(expected =~= ink_message_checks(*contract));
        out
    }

    /// Checks on event declarations.
    pub fn check_event_patterns(&self, contract: &ParsedContract) -> (r: Vec<Finding>)
        ensures
            battery_matches(r@, ink_event_checks(*contract), contract.name@, "Ink Plugin"@),
    {
        let mut out: Vec<Finding> = Vec::new();
        let ghost mut expected: Seq<ExpectedFinding> = Seq::empty();
        let src = contract.source_code.as_str();
        if contains_sub(src, "#[ink(event)]") && !contains_sub(src, "#[ink(topic)]") {
            let f = make_finding(
                String::from_str("Event Without Indexed Fields"),
                "Events should have indexed fields for efficient querying.",
                Severity::Low,
                Category::CodeQuality,
                &contract.name,
                None,
                None,
                "Add #[ink(topic)] attribute to important event fields.",
                "https://use.ink/basics/events/",
                None,
                "Ink Plugin",
                40,
            );
            proof {
                lemma_battery_push(
                    out@,
                    expected,
                    f,
                    expected_event_without_topics(),
                    contract.name@,
                    "Ink Plugin"@,
                );
                expected = expected.push(expected_event_without_topics());
            }
            out.push(f);
        }
        if contains_sub(src, "#[ink(event)]") && !contains_sub(src, "emit_event") {
            let f = make_finding(
                String::from_str("Event Defined But Not Emitted"),
                "Defined events should be emitted in the contract.",
                Severity::Info,
                Category::CodeQuality,
                &contract.name,
                None,
                None,
                "Use self.env().emit_event() to emit events.",
                "https://use.ink/basics/events/",
                None,
                "Ink Plugin",
                30,
            );
            proof {
                lemma_battery_push(
                    out@,
                    expected,
                    f,
                    expected_event_not_emitted(),
                    contract.name@,
                    "Ink Plugin"@,
                );
                expected = expected.push(expected_event_not_emitted());
            }
            out.push(f);
        }
        assert(expected =~= ink_event_checks(*contract));
        out
    }

    /// Checks for Ink-specific best practices.
    pub fn check_ink_best_practices(&self, contract: &ParsedContract) -> (r: Vec<Finding>)
        ensures
            battery_matches(
                r@,
                ink_best_practice_checks(*contract),
                contract.name@,
                "Ink Plugin"@,
            ),
    {
        let mut out: Vec<Finding> = Vec::new();
        let ghost mut expected: Seq<ExpectedFinding> = Seq::empty();
        let src = contract.source_code.as_str();
        if contains_sub(src, "Result") && !contains_sub(src, "enum") {
            let f = make_finding(
                String::from_str("Consider Custom Error Types"),
                "Define custom error enums for better error handling.",
                Severity::Info,
                Category::CodeQuality,
                &contract.name,
                None,
                None,
                "Define custom error enum types for specific error conditions.",
                "https://use.ink/basics/contract-calls/",
                None,
                "Ink Plugin",
                30,
            );
            proof {
                lemma_battery_push(
                    out@,
                    expected,
                    f,
                    expected_custom_error_types(),
                    contract.name@,
                    "Ink Plugin"@,
                );
                expected = expected.push(expected_custom_error_types());
            }
            out.push(f);
        }
        if contains_sub(src, "#[ink::contract]") && !contains_sub(src, "#[cfg(test)]") {
            let f = make_finding(
                String::from_str("Missing Unit Tests"),
                "Ink contracts should include unit tests.",
                Severity::Low,
                Category::CodeQuality,
                &contract.name,
                None,
                None,
                "Add unit tests in a test module.",
                "https://use.ink/basics/contract-testing/",
                None,
                "Ink Plugin",
                50,
            );
            proof {
                lemma_battery_push(
                    out@,
                    expected,
                    f,
                    expected_missing_unit_tests(),
                    contract.name@,
                    "Ink Plugin"@,
                );
                expected = expected.push(expected_missing_unit_tests());
            }
            out.push(f);
        }
        if (contains_sub(src, "u8") || contains_sub(src, "u32") || contains_sub(src, "u64"))
            && !contains_sub(src, "checked_add") && !contains_sub(src, "saturating_add") {
            let f = make_finding(
                String::from_str("Potential Integer Overflow"),
                "Consider using checked arithmetic operations.",
                Severity::Medium,
                Category::IntegerOverflow,
                &contract.name,
                None,
                None,
                "Use checked_add, saturating_add, or similar safe arithmetic operations.",
                "https://doc.rust-lang.org/std/primitive.u32.html#method.checked_add",
                Some("CWE-190"),
                "Ink Plugin",
                60,
            );
            proof {
                lemma_battery_push(
                    out@,
                    expected,
                    f,
                    expected_unchecked_arithmetic(),
                    contract.name@,
                    "Ink Plugin"@,
                );
                expected = expected.push(expected_unchecked_arithmetic());
            }
            out.push(f);
        }
        assert(expected =~= ink_best_practice_checks(*contract));
        out
    }

    /// The attribute, storage, message and event check groups in order.
    pub fn run_ink_analysis(&self, contract: &ParsedContract) -> (r: Vec<Finding>)
        ensures
            battery_matches(
                r@,
                ink_attribute_checks(*contract) + ink_storage_checks(*contract)
                    + ink_message_checks(*contract) + ink_event_checks(*contract),
                contract.name@,
                "Ink Plugin"@,
            ),
    {
        let mut out = self.check_ink_attributes(contract);
        let mut storage = self.check_storage_patterns(contract);
        let mut message = self.check_message_patterns(contract);
        let mut event = self.check_event_patterns(contract);
        proof {
            lemma_battery_concat(
                out@,
                ink_attribute_checks(*contract),
                storage@,
                ink_storage_checks(*contract),
                contract.name@,
                "Ink Plugin"@,
            );
        }
        out.append(&mut storage);
        proof {
            lemma_battery_concat(
                out@,
                ink_attribute_checks(*contract) + ink_storage_checks(*contract),
                message@,
                ink_message_checks(*contract),
                contract.name@,
                "Ink Plugin"@,
            );
        }
        out.append(&mut message);
        proof {
            lemma_battery_concat(
                out@,
                ink_attribute_checks(*contract) + ink_storage_checks(*contract)
                    + ink_message_checks(*contract),
                event@,
                ink_event_checks(*contract),
                contract.name@,
                "Ink Plugin"@,
            );
        }
        out.append(&mut event);
        out
    }

    /// Decide the pre-check without the `Result` wrapper.
    pub fn validate(&self, contract: &ParsedContract) -> (r: bool)
        ensures
            r == spec_ink_validate(*contract),
    {
        let src = contract.source_code.as_str();
        if src.unicode_len() == 0 {
            return false;
        }
        if !contains_sub(src, "#[ink::contract]") && !contains_sub(src, "use ink") {
            return false;
        }
        true
    }
}

impl BlockchainPlugin for InkPlugin {
    open spec fn spec_name(&self) -> Seq<char> {
        "Ink!"@
    }

    open spec fn spec_tool(&self) -> Seq<char> {
        "Ink Plugin"@
    }

    open spec fn spec_languages(&self) -> Seq<Seq<char>> {
        seq!["ink"@, "rust"@]
    }

    open spec fn spec_tools(&self) -> Seq<Seq<char>> {
        seq!["cargo"@, "cargo-contract"@, "substrate"@, "ink-analyzer"@]
    }

    open spec fn spec_battery(&self, c: ParsedContract) -> Seq<ExpectedFinding> {
        ink_battery(c)
    }

    open spec fn spec_validate(&self, c: ParsedContract) -> bool {
        spec_ink_validate(c)
    }

    proof fn validate_empty_is_false(&self, c: ParsedContract) {
    }

    fn name(&self) -> (r: &'static str) {
        "Ink!"
    }

    fn supported_languages(&self) -> (r: Vec<&'static str>) {
        let mut v: Vec<&'static str> = Vec::new();
        v.push("ink");
        v.push("rust");
        assert(v@.map_values(|s: &'static str| s@) =~= self.spec_languages());
        v
    }

    fn analyze_contract(&self, contract: &ParsedContract) -> (r: Result<
        Vec<Finding>,
        AnalysisError,
    >) {
        let mut out = self.run_ink_analysis(contract);
        let mut best = self.check_ink_best_practices(contract);
        proof {
            lemma_battery_concat(
                out@,
                ink_attribute_checks(*contract) + ink_storage_checks(*contract)
                    + ink_message_checks(*contract) + ink_event_checks(*contract),
                best@,
                ink_best_practice_checks(*contract),
                contract.name@,
                "Ink Plugin"@,
            );
        }
        out.append(&mut best);
        Ok(out)
    }

    fn validate_contract(&self, contract: &ParsedContract) -> (r: Result<bool, AnalysisError>) {
        Ok(self.validate(contract))
    }

    fn get_analysis_tools(&self) -> (r: Vec<&'static str>) {
        let mut v: Vec<&'static str> = Vec::new();
        v.push("cargo");
        v.push("cargo-contract");
        v.push("substrate");
        v.push("ink-analyzer");
        assert(v@.map_values(|s: &'static str| s@) =~= self.spec_tools());
        v
    }
}

} // verus!
