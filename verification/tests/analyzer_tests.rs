//! Tests of the orchestrator: ingest, phase ordering, merge, scoring
//! and backend-output normalization.

use securechain::analyzer::{
    AnalysisDepth, AnalysisEngine, AnalysisPhase, AnalysisRun, BackendOutcome,
};
use securechain::errors::{get_error_category, is_retryable_error, AnalysisError};
use securechain::finding::{make_finding, Category, Finding, Severity};
use securechain::model::ContractInfo;
use securechain::plugins::PluginManager;

fn unit(name: &str, source: &str) -> ContractInfo {
    ContractInfo {
        name: name.to_string(),
        address: String::new(),
        source_code: source.to_string(),
        compiler_version: "unknown".to_string(),
        optimization: false,
        network: "local".to_string(),
        verified: false,
        metadata: Vec::new(),
    }
}

fn finding(severity: Severity) -> Finding {
    make_finding(
        "t".to_string(),
        "d",
        severity,
        Category::Other,
        &"f.sol".to_string(),
        None,
        None,
        "r",
        "ref",
        None,
        "tool",
        50,
    )
}

fn engine() -> AnalysisEngine {
    AnalysisEngine::new(PluginManager::new())
}

#[test]
fn empty_source_yields_no_contracts_found() {
    let units = vec![unit("empty.sol", "")];
    assert!(matches!(engine().ingest(&units), Err(AnalysisError::NoContractsFound)));
    let none: Vec<ContractInfo> = Vec::new();
    assert!(matches!(engine().ingest(&none), Err(AnalysisError::NoContractsFound)));
}

#[test]
fn ingest_keeps_only_parseable_units() {
    let units = vec![unit("empty.sol", ""), unit("a.sol", "contract A {}")];
    let parsed = engine().ingest(&units).unwrap();
    assert_eq!(parsed.len(), 1);
    assert_eq!(parsed[0].name, "a.sol");
}

#[test]
fn unknown_platform_fails_before_any_backend() {
    let units = vec![unit("a.sol", "contract A {}")];
    let contracts = engine().ingest(&units).unwrap();
    assert!(matches!(
        engine().run_plugin_analysis(&contracts, "unknown-chain"),
        Err(AnalysisError::PlatformNotSupported)
    ));
}

#[test]
fn plugin_phase_merges_findings_per_contract() {
    let units = vec![
        unit("a.sol", "contract A { function f() public { require(tx.origin == o); } }"),
        unit("b.sol", "contract B {}"),
    ];
    let contracts = engine().ingest(&units).unwrap();
    let findings = engine().run_plugin_analysis(&contracts, "evm").unwrap();
    assert!(findings.iter().any(|f| f.file_path == "a.sol" && f.title == "Use of tx.origin"));
    assert!(findings.iter().all(|f| f.tool == "EVM Plugin"));
}

#[test]
fn security_score_subtracts_severity_weights() {
    let e = engine();
    assert_eq!(e.calculate_security_score(&Vec::new()), 100);
    let findings = vec![finding(Severity::High), finding(Severity::Medium)];
    assert_eq!(e.calculate_security_score(&findings), 77);
    let findings = vec![finding(Severity::Critical), finding(Severity::Low), finding(Severity::Info)];
    assert_eq!(e.calculate_security_score(&findings), 71);
}

#[test]
fn security_score_clamps_at_zero() {
    let findings: Vec<Finding> = (0..5).map(|_| finding(Severity::Critical)).collect();
    assert_eq!(engine().calculate_security_score(&findings), 0);
}

#[test]
fn security_score_never_increases_as_findings_accumulate() {
    let e = engine();
    let mut findings: Vec<Finding> = Vec::new();
    let mut last = e.calculate_security_score(&findings);
    for severity in [Severity::Info, Severity::Low, Severity::Critical, Severity::High] {
        findings.push(finding(severity));
        let next = e.calculate_security_score(&findings);
        assert!(next <= last);
        assert!(next <= 100);
        last = next;
    }
}

#[test]
fn complexity_score_formula_and_cap() {
    let e = engine();
    assert_eq!(e.calculate_complexity_score(10, 200), 300);
    assert_eq!(e.calculate_complexity_score(0, 0), 0);
    assert_eq!(e.calculate_complexity_score(5000, 5000), 10000);
}

#[test]
fn summary_counts_each_severity() {
    let findings = vec![
        finding(Severity::Critical),
        finding(Severity::High),
        finding(Severity::High),
        finding(Severity::Info),
    ];
    let summary = engine().generate_analysis_summary(&findings, 1234, vec!["slither".to_string()]);
    assert_eq!(summary.total_vulnerabilities, 4);
    assert_eq!(summary.critical_count, 1);
    assert_eq!(summary.high_count, 2);
    assert_eq!(summary.medium_count, 0);
    assert_eq!(summary.low_count, 0);
    assert_eq!(summary.info_count, 1);
    assert_eq!(summary.analysis_duration, 1234);
    assert_eq!(summary.tools_used, vec!["slither".to_string()]);
    assert_eq!(summary.coverage_percentage, 85);
}

#[test]
fn merge_order_never_changes_severity_counts() {
    let a = vec![finding(Severity::High), finding(Severity::Low)];
    let b = vec![finding(Severity::High), finding(Severity::Info)];
    let c = vec![finding(Severity::Critical)];
    let e = engine();

    let mut ab_c: Vec<Finding> = Vec::new();
    for f in a.iter().chain(b.iter()).chain(c.iter()) {
        ab_c.push(f.clone());
    }
    let mut c_b_a: Vec<Finding> = Vec::new();
    for f in c.iter().chain(b.iter()).chain(a.iter()) {
        c_b_a.push(f.clone());
    }
    let s1 = e.generate_analysis_summary(&ab_c, 0, Vec::new());
    let s2 = e.generate_analysis_summary(&c_b_a, 0, Vec::new());
    assert_eq!(s1.critical_count, s2.critical_count);
    assert_eq!(s1.high_count, s2.high_count);
    assert_eq!(s1.medium_count, s2.medium_count);
    assert_eq!(s1.low_count, s2.low_count);
    assert_eq!(s1.info_count, s2.info_count);
}

#[test]
fn failed_backend_still_lets_the_run_complete() {
    let mut run = AnalysisRun::new("evm".to_string(), AnalysisDepth::Standard, false);
    run.record_backend("slither".to_string(), BackendOutcome::Unavailable);
    run.record_backend(
        "plugin".to_string(),
        BackendOutcome::Findings(vec![finding(Severity::Low)]),
    );
    run.advance_phase();
    assert_eq!(run.phase, AnalysisPhase::Complete);
    let results = engine().finish_run(run, "a.sol".to_string(), 10, 2, 5, 0);
    assert_eq!(results.vulnerabilities.len(), 1);
    assert_eq!(results.analysis_summary.tools_used, vec!["plugin".to_string()]);
    assert_eq!(results.metrics.security_score, 97);
}

#[test]
fn phases_follow_depth_and_ai_selection() {
    let mut run = AnalysisRun::new("evm".to_string(), AnalysisDepth::Deep, true);
    assert_eq!(run.phase, AnalysisPhase::StaticPass);
    run.advance_phase();
    assert_eq!(run.phase, AnalysisPhase::DynamicPass);
    run.advance_phase();
    assert_eq!(run.phase, AnalysisPhase::AiPass);
    run.advance_phase();
    assert_eq!(run.phase, AnalysisPhase::Complete);

    let mut basic = AnalysisRun::new("evm".to_string(), AnalysisDepth::Basic, false);
    basic.advance_phase();
    assert_eq!(basic.phase, AnalysisPhase::Complete);
}

#[test]
fn ai_failure_surfaces_as_an_error() {
    let mut run = AnalysisRun::new("evm".to_string(), AnalysisDepth::Standard, true);
    run.advance_phase();
    assert_eq!(run.phase, AnalysisPhase::AiPass);
    let outcome = run.record_ai(Err(AnalysisError::AiBackendFailure));
    assert_eq!(outcome, Err(AnalysisError::AiBackendFailure));
    assert!(run.findings.is_empty());

    let mut ok_run = AnalysisRun::new("evm".to_string(), AnalysisDepth::Standard, true);
    ok_run.advance_phase();
    let outcome = ok_run.record_ai(Ok(vec![finding(Severity::Medium)]));
    assert_eq!(outcome, Ok(()));
    assert_eq!(ok_run.findings.len(), 1);
    assert_eq!(ok_run.tools_used, vec!["AI Assistant".to_string()]);
}

#[test]
fn static_tool_plan_follows_platform_and_depth() {
    let e = engine();
    assert_eq!(e.plan_static_tools("evm", AnalysisDepth::Deep).unwrap(), vec!["slither", "myth"]);
    assert_eq!(e.plan_static_tools("evm", AnalysisDepth::Standard).unwrap(), vec!["slither"]);
    assert_eq!(e.plan_static_tools("move", AnalysisDepth::Deep).unwrap(), vec!["move-prover"]);
    assert!(matches!(
        e.plan_static_tools("unknown-chain", AnalysisDepth::Basic),
        Err(AnalysisError::PlatformNotSupported)
    ));
    assert_eq!(e.plan_dynamic_tools("evm"), vec!["echidna-test"]);
    assert!(e.plan_dynamic_tools("move").is_empty());
}

#[test]
fn mythril_record_normalization_fixes_every_field() {
    let f = engine().normalize_mythril_record(
        "Integer Overflow",
        "overflow in add",
        "HIGH",
        "SWC-101",
        Some(7),
        "a.sol",
    );
    assert_eq!(f.title, "Mythril: Integer Overflow");
    assert_eq!(f.description, "overflow in add");
    assert_eq!(f.severity, Severity::High);
    assert_eq!(f.category, Category::SymbolicExecution);
    assert_eq!(f.file_path, "a.sol");
    assert_eq!(f.line_number, Some(7));
    assert_eq!(f.code_snippet, None);
    assert_eq!(
        f.recommendation.as_deref(),
        Some("Review the symbolic execution result from Mythril")
    );
    assert_eq!(f.cwe_id.as_deref(), Some("SWC-101"));
    assert_eq!(f.tool, "Mythril");
    assert_eq!(f.confidence, 80);
}

#[test]
fn probes_concatenate_in_unit_order() {
    let e = engine();
    let probe = |title: &str| securechain::analyzer::CreativeProbe {
        title: title.to_string(),
        description: String::new(),
        severity: "High".to_string(),
        attack_vector: String::new(),
        impact: String::new(),
        proof_of_concept: None,
        recommended_fix: None,
        confidence: 50,
    };
    let mut all = Vec::new();
    e.append_probes(&mut all, vec![probe("a"), probe("b")]);
    e.append_probes(&mut all, vec![probe("c")]);
    let titles: Vec<&str> = all.iter().map(|p| p.title.as_str()).collect();
    assert_eq!(titles, vec!["a", "b", "c"]);
}

#[test]
fn mythril_output_is_normalized() {
    let output = "{\"issues\":[{\"title\":\"Integer Overflow\",\"description\":\"overflow in add\",\"severity\":\"High\",\"swc-id\":\"SWC-101\",\"source_map\":{\"line\":7}}]}";
    let findings = engine().parse_mythril_output(output, "a.sol");
    assert_eq!(findings.len(), 1);
    assert_eq!(findings[0].title, "Mythril: Integer Overflow");
    assert_eq!(findings[0].severity, Severity::High);
    assert_eq!(findings[0].category, Category::SymbolicExecution);
    assert_eq!(findings[0].line_number, Some(7));
    assert_eq!(findings[0].cwe_id.as_deref(), Some("SWC-101"));
    assert_eq!(findings[0].tool, "Mythril");
    assert!(engine().parse_mythril_output("garbage", "a.sol").is_empty());
}

#[test]
fn echidna_console_failure_marker_yields_one_finding() {
    let e = engine();
    let findings = e.parse_echidna_output("echidna_balance: FAILED with counterexample", "a.sol");
    assert_eq!(findings.len(), 1);
    assert_eq!(findings[0].title, "Echidna: Fuzzing Assertion Failure");
    assert_eq!(findings[0].severity, Severity::High);
    assert_eq!(findings[0].category, Category::Fuzzing);
    assert!(e.parse_echidna_output("all tests passed", "a.sol").is_empty());
}

#[test]
fn recommendations_depend_on_whether_anything_was_found() {
    let e = engine();
    let clean = e.generate_recommendations(&Vec::new());
    assert_eq!(clean.len(), 4);
    assert_eq!(clean[0], "Great job! No vulnerabilities were found in the initial analysis.");
    assert_eq!(
        clean[1],
        "Consider running a deeper analysis with fuzzing and formal verification."
    );
    assert_eq!(
        clean[2],
        "Follow secure coding practices and use established security patterns."
    );
    assert_eq!(
        clean[3],
        "Keep your dependencies up to date and monitor for new vulnerabilities."
    );
    let dirty = e.generate_recommendations(&vec![finding(Severity::High)]);
    assert_eq!(dirty.len(), 6);
    assert_eq!(dirty[0], "Address high and critical severity vulnerabilities immediately.");
    assert_eq!(
        dirty[1],
        "Implement comprehensive unit tests for all smart contract functions."
    );
    assert_eq!(dirty[2], "Consider getting a professional security audit before deployment.");
    assert_eq!(dirty[3], "Set up continuous security monitoring for your smart contracts.");
}

#[test]
fn end_to_end_plugin_run_scores_the_findings() {
    let units = vec![unit(
        "a.sol",
        "pragma solidity ^0.8.0;\ncontract A { function f() public { require(tx.origin == o); } }\n",
    )];
    let results = engine().analyze_contracts(&units, "evm", 17, 99).unwrap();
    assert_eq!(results.contract_name, "a.sol");
    assert_eq!(results.vulnerabilities.len(), 1);
    assert_eq!(results.vulnerabilities[0].title, "Use of tx.origin");
    assert_eq!(results.metrics.security_score, 85);
    assert_eq!(results.metrics.functions_analyzed, 1);
    assert_eq!(results.metrics.lines_of_code, 2);
    assert_eq!(results.metrics.complexity_score, 12);
    assert_eq!(results.analysis_summary.analysis_duration, 17);
    assert_eq!(results.timestamp, 99);
    assert_eq!(results.analysis_summary.tools_used, vec!["Plugin".to_string()]);

    let empty = vec![unit("empty.sol", "")];
    assert!(matches!(
        engine().analyze_contracts(&empty, "evm", 0, 0),
        Err(AnalysisError::NoContractsFound)
    ));
    assert!(matches!(
        engine().analyze_contracts(&units, "unknown-chain", 0, 0),
        Err(AnalysisError::PlatformNotSupported)
    ));
}

#[test]
fn error_taxonomy_helpers() {
    assert_eq!(get_error_category(&AnalysisError::NoContractsFound), "ingest");
    assert_eq!(get_error_category(&AnalysisError::BackendUnavailable), "backend");
    assert_eq!(get_error_category(&AnalysisError::AiBackendFailure), "ai");
    assert!(is_retryable_error(&AnalysisError::BackendExecutionFailed));
    assert!(!is_retryable_error(&AnalysisError::PlatformNotSupported));
    assert_eq!(
        AnalysisError::NoContractsFound.message(),
        "no contracts found in the specified path"
    );
}
