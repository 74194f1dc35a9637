//! Tests of the AI prompt builders and response normalization, the
//! fuzzing engine's pure half, and the exploit templates.

use securechain::ai::{
    build_analysis_request, generate_analysis_prompt, generate_creative_prompt, map_ai_category,
    map_ai_severity, parse_ai_analysis_response, parse_creative_probe_response,
};
use securechain::finding::{make_finding, Category, Severity};
use securechain::fuzz::{FuzzEngine, FuzzingFailure, FuzzingResults};
use securechain::ids::fresh_id;
use securechain::model::ContractInfo;
use securechain::parser::ContractParser;
use securechain::poc::generate_vulnerability_poc;

fn parse(name: &str, source: &str) -> securechain::model::ParsedContract {
    let info = ContractInfo {
        name: name.to_string(),
        address: String::new(),
        source_code: source.to_string(),
        compiler_version: "0.8.0".to_string(),
        optimization: false,
        network: "local".to_string(),
        verified: false,
        metadata: Vec::new(),
    };
    ContractParser::new().parse_contract(&info).unwrap()
}

#[test]
fn analysis_prompt_embeds_the_contract() {
    let contract = parse("Vault.sol", "contract Vault is Base {\n    uint256 internal x;\n}\n");
    let prompt = generate_analysis_prompt(&contract);
    assert!(prompt.starts_with("You are a senior blockchain security auditor"));
    assert!(prompt.contains("Contract Name: Vault.sol\n"));
    assert!(prompt.contains("Compiler Version: 0.8.0\n"));
    assert!(prompt.contains("Functions: 0\n"));
    assert!(prompt.contains("State Variables: 1\n"));
    assert!(prompt.contains("Inherits from: Base\n"));
    assert!(prompt.contains("contract Vault is Base {"));
    assert!(prompt.contains("\"vulnerabilities\""));
}

#[test]
fn analysis_prompt_omits_inheritance_when_absent() {
    let contract = parse("a.sol", "contract A {}\n");
    let prompt = generate_analysis_prompt(&contract);
    assert!(!prompt.contains("Inherits from:"));
}

#[test]
fn creative_prompt_varies_with_creativity_and_poc() {
    let contract = parse("a.sol", "contract A {}\n");
    let low = generate_creative_prompt(&contract, "low", false);
    assert!(low.contains("Focus on well-known vulnerability patterns"));
    assert!(!low.contains("proof_of_concept"));
    let high = generate_creative_prompt(&contract, "high", true);
    assert!(high.contains("Think creatively about novel attack vectors"));
    assert!(high.contains("For each vulnerability, provide a proof-of-concept exploit code."));
    assert!(high.contains("\"proof_of_concept\": \"Exploit code\""));
    let other = generate_creative_prompt(&contract, "wild", false);
    assert!(other.contains("Explore creative vulnerability scenarios."));
}

#[test]
fn analysis_request_carries_plain_values() {
    let contract = parse("a.sol", "contract A {}\n");
    let request = build_analysis_request(&contract, "medium", true);
    assert_eq!(request.contract_name, "a.sol");
    assert_eq!(request.contract_code, "contract A {}\n");
    assert_eq!(request.analysis_type, "security");
    assert_eq!(request.creativity_level, "medium");
    assert!(request.include_poc);
}

#[test]
fn ai_severity_mapping_never_passes_raw_values_through() {
    assert_eq!(map_ai_severity("Critical"), Severity::Critical);
    assert_eq!(map_ai_severity("Info"), Severity::Info);
    assert_eq!(map_ai_severity("catastrophic"), Severity::Medium);
}

#[test]
fn ai_category_mapping() {
    assert_eq!(map_ai_category("Reentrancy"), Category::Reentrancy);
    assert_eq!(map_ai_category("ACCESS CONTROL"), Category::AccessControl);
    assert_eq!(map_ai_category("dos"), Category::DenialOfService);
    assert_eq!(map_ai_category("novel"), Category::Other);
}

#[test]
fn ai_reply_is_normalized_despite_surrounding_prose() {
    let contract = parse("a.sol", "contract A {}\n");
    let content = "Here is my analysis:\n{\"vulnerabilities\":[{\"title\":\"Logic flaw\",\"description\":\"bad math\",\"severity\":\"High\",\"category\":\"reentrancy\",\"line_number\":3,\"code_snippet\":\"x += y\",\"fix_suggestion\":\"use checked math\",\"confidence\":1}]}\nHope this helps!";
    let findings = parse_ai_analysis_response(content, &contract);
    assert_eq!(findings.len(), 1);
    let f = &findings[0];
    assert_eq!(f.title, "AI: Logic flaw");
    assert_eq!(f.severity, Severity::High);
    assert_eq!(f.category, Category::Reentrancy);
    assert_eq!(f.line_number, Some(3));
    assert_eq!(f.code_snippet.as_deref(), Some("x += y"));
    assert_eq!(f.recommendation.as_deref(), Some("use checked math"));
    assert_eq!(f.tool, "AI Assistant");
    assert_eq!(f.file_path, "a.sol");
    assert!(f.confidence <= 100);
}

#[test]
fn replies_without_json_yield_nothing() {
    let contract = parse("a.sol", "contract A {}\n");
    assert!(parse_ai_analysis_response("no json here", &contract).is_empty());
    assert!(parse_creative_probe_response("still nothing").is_empty());
}

#[test]
fn ai_vulnerability_normalization_fixes_every_field() {
    let contract = parse("a.sol", "contract A {}\n");
    let f = securechain::ai::normalize_ai_vulnerability(
        "Logic flaw",
        "bad math",
        "High",
        "Reentrancy",
        Some(3),
        Some("x += y".to_string()),
        Some("use checked math".to_string()),
        Some(150),
        &contract.name,
    );
    assert_eq!(f.title, "AI: Logic flaw");
    assert_eq!(f.description, "bad math");
    assert_eq!(f.severity, Severity::High);
    assert_eq!(f.category, Category::Reentrancy);
    assert_eq!(f.file_path, "a.sol");
    assert_eq!(f.line_number, Some(3));
    assert_eq!(f.recommendation.as_deref(), Some("use checked math"));
    assert_eq!(f.tool, "AI Assistant");
    assert_eq!(f.confidence, 100);

    let defaulted = securechain::ai::normalize_ai_vulnerability(
        "t", "d", "weird", "weird", None, None, None, None, &contract.name,
    );
    assert_eq!(defaulted.severity, Severity::Medium);
    assert_eq!(defaulted.category, Category::Other);
    assert_eq!(defaulted.confidence, 60);
}

#[test]
fn probe_record_normalization_carries_fields_through() {
    let p = securechain::ai::normalize_probe_record(
        "Flash loan drain",
        "d",
        "Critical",
        "borrow, swap, repay",
        "loss of funds",
        Some("code".to_string()),
        None,
        None,
    );
    assert_eq!(p.title, "Flash loan drain");
    assert_eq!(p.severity, "Critical");
    assert_eq!(p.attack_vector, "borrow, swap, repay");
    assert_eq!(p.proof_of_concept.as_deref(), Some("code"));
    assert_eq!(p.recommended_fix, None);
    assert_eq!(p.confidence, 50);
}

#[test]
fn echidna_failure_normalization_applies_defaults() {
    let engine = FuzzEngine::new();
    let f = engine.normalize_echidna_failure(None, None, None, Some(21000), None);
    assert_eq!(f.test_case, "unknown");
    assert_eq!(f.failure_type, "Property violation");
    assert_eq!(f.error_message, "Property failed");
    assert_eq!(f.input_data, "N/A");
    assert_eq!(f.gas_used, Some(21000));
    let g = engine.normalize_echidna_failure(
        Some("echidna_balance"),
        Some("violated"),
        Some("[1]".to_string()),
        None,
        Some("trace".to_string()),
    );
    assert_eq!(g.test_case, "echidna_balance");
    assert_eq!(g.error_message, "violated");
    assert_eq!(g.input_data, "[1]");
    assert_eq!(g.stack_trace.as_deref(), Some("trace"));
}

#[test]
fn probe_objects_are_normalized() {
    let content = "{\"probes\":[{\"title\":\"Flash loan drain\",\"description\":\"d\",\"severity\":\"Critical\",\"attack_vector\":\"borrow, swap, repay\",\"impact\":\"loss of funds\",\"proof_of_concept\":\"code\",\"recommended_fix\":\"guard\",\"confidence\":1},{\"title\":\"incomplete\"}]}";
    let probes = parse_creative_probe_response(content);
    assert_eq!(probes.len(), 1);
    assert_eq!(probes[0].title, "Flash loan drain");
    assert_eq!(probes[0].attack_vector, "borrow, swap, repay");
    assert_eq!(probes[0].proof_of_concept.as_deref(), Some("code"));
    assert!(probes[0].confidence <= 100);
}

#[test]
fn property_tests_follow_the_contract_model() {
    let source = "contract A {\n\
    uint256 public supply;\n\
    function pay(address to) public {\n\
        to.transfer(1);\n\
    }\n\
}\n";
    let contract = parse("a.sol", source);
    let tests = FuzzEngine::new().generate_property_tests(&contract);
    let names: Vec<&str> = tests.iter().map(|t| t.name.as_str()).collect();
    assert_eq!(names, vec!["reentrancy_protection_pay", "invariant_supply"]);
    assert_eq!(tests[0].test_function, "test_reentrancy_pay");
    assert_eq!(tests[1].description, "Ensure supply maintains valid state");
}

#[test]
fn echidna_config_lists_entry_points() {
    let with_props = parse(
        "a.sol",
        "contract A {\n    function echidna_balance() public view returns (bool ok) {\n        return true;\n    }\n}\n",
    );
    let config = FuzzEngine::new().generate_echidna_config(&with_props);
    assert!(config.starts_with("testLimit: 10000\n"));
    assert!(config.contains("filterFunctions: [\"echidna_balance\"]\n"));
    let without = parse("b.sol", "contract B {}\n");
    let config = FuzzEngine::new().generate_echidna_config(&without);
    assert!(!config.contains("filterFunctions"));
}

#[test]
fn echidna_json_lines_become_failures() {
    let output = "noise\n{\"test_type\":\"property\",\"status\":\"failed\",\"property\":\"echidna_balance\",\"error\":\"violated\",\"call_sequence\":[1,2],\"gas_used\":21000}\n{\"test_type\":\"property\",\"status\":\"passed\",\"property\":\"echidna_other\"}\n";
    let failures = FuzzEngine::new().parse_echidna_output(output);
    assert_eq!(failures.len(), 1);
    assert_eq!(failures[0].test_case, "echidna_balance");
    assert_eq!(failures[0].failure_type, "Property violation");
    assert_eq!(failures[0].error_message, "violated");
    assert_eq!(failures[0].input_data, "[1,2]");
    assert_eq!(failures[0].gas_used, Some(21000));
}

#[test]
fn coverage_report_covers_three_quarters() {
    let contract = parse("a.sol", "l1\nl2\nl3\nl4\nl5\nl6\nl7\nl8\n");
    let report = FuzzEngine::new().generate_coverage_report(&contract);
    assert_eq!(report.total_lines, 8);
    assert_eq!(report.lines_covered, 6);
    assert_eq!(report.coverage_percentage, 75);
    assert_eq!(report.uncovered_lines, vec![7, 8]);
}

#[test]
fn fuzzing_failures_convert_to_findings_with_coverage_advisory() {
    let engine = FuzzEngine::new();
    let contract = parse("a.sol", "l1\nl2\n");
    let results = FuzzingResults {
        contract_name: "a.sol".to_string(),
        test_cases_run: 1,
        failures: vec![FuzzingFailure {
            test_case: "echidna_balance".to_string(),
            failure_type: "Property violation".to_string(),
            error_message: "violated".to_string(),
            input_data: "[1]".to_string(),
            gas_used: None,
            stack_trace: None,
        }],
        coverage_report: engine.generate_coverage_report(&contract),
        property_results: Vec::new(),
        duration_ms: 10,
    };
    let findings = engine.convert_to_vulnerabilities(&results);
    assert_eq!(findings.len(), 2);
    assert_eq!(findings[0].title, "Fuzzing: echidna_balance");
    assert_eq!(findings[0].severity, Severity::High);
    assert_eq!(findings[0].category, Category::Fuzzing);
    assert_eq!(findings[0].code_snippet.as_deref(), Some("[1]"));
    assert_eq!(findings[1].title, "Low Test Coverage");
    assert!(findings[1].description.contains("50%"));
    assert_eq!(findings[1].confidence, 100);
}

#[test]
fn property_results_report_passes() {
    let engine = FuzzEngine::new();
    let contract = parse("a.sol", "contract A {\n    function pay(address to) public {\n        to.transfer(1);\n    }\n}\n");
    let tests = engine.generate_property_tests(&contract);
    let results = engine.run_property_tests(&tests);
    assert_eq!(results.len(), tests.len());
    assert!(results.iter().all(|r| r.passed && r.iterations == 1000));
}

#[test]
fn poc_template_interpolates_the_finding() {
    let vuln = make_finding(
        "Reentrancy in withdraw".to_string(),
        "external call before state update",
        Severity::Critical,
        Category::Reentrancy,
        &"Bank.sol".to_string(),
        None,
        None,
        "guard it",
        "ref",
        None,
        "tool",
        90,
    );
    let poc = generate_vulnerability_poc(&vuln).unwrap();
    assert!(poc.contains("Proof of Concept Exploit for: Reentrancy in withdraw"));
    assert!(poc.contains("Severity: Critical"));
    assert!(poc.contains("Category: Reentrancy"));
    assert!(poc.contains("Description: external call before state update"));
    assert!(poc.contains("contract Exploit {"));
}

#[test]
fn fresh_ids_are_hyphenated_and_distinct() {
    let a = fresh_id();
    let b = fresh_id();
    assert_eq!(a.len(), 36);
    assert_eq!(b.len(), 36);
    assert_eq!(a.chars().filter(|c| *c == '-').count(), 4);
    assert_ne!(a, b);
}

#[test]
fn severity_and_category_names_round_out() {
    assert_eq!(Severity::Critical.as_str(), "Critical");
    assert_eq!(Severity::Info.as_str(), "Info");
    assert_eq!(Category::UnhandledExceptions.as_str(), "UnhandledExceptions");
    assert_eq!(securechain::finding::severity_weight_points(Severity::Critical), 25);
    assert_eq!(securechain::finding::severity_weight_points(Severity::Info), 1);
}
