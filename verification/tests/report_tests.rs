//! Tests of the report-side tallies and recommendation synthesis.

use securechain::analyzer::{AnalysisEngine, AnalysisDepth, AnalysisPhase, AnalysisRun};
use securechain::finding::{make_finding, Category, Finding, Severity};
use securechain::plugins::PluginManager;
use securechain::report::ReportGenerator;

fn finding(severity: Severity, category: Category, tool: &str) -> Finding {
    make_finding(
        "t".to_string(),
        "d",
        severity,
        category,
        &"f.sol".to_string(),
        None,
        None,
        "r",
        "ref",
        None,
        tool,
        50,
    )
}

fn sample_findings() -> Vec<Finding> {
    vec![
        finding(Severity::High, Category::Reentrancy, "Slither"),
        finding(Severity::High, Category::AccessControl, "Slither"),
        finding(Severity::Low, Category::Reentrancy, "EVM Plugin"),
    ]
}

#[test]
fn vulnerability_analysis_tallies_severities_categories_and_tools() {
    let analysis = ReportGenerator::new().create_vulnerability_analysis(sample_findings());
    assert_eq!(analysis.vulnerabilities.len(), 3);

    let severities: Vec<(String, usize)> = analysis.severity_distribution;
    assert_eq!(severities.len(), 5);
    assert_eq!(severities[0], ("Critical".to_string(), 0));
    assert_eq!(severities[1], ("High".to_string(), 2));
    assert_eq!(severities[3], ("Low".to_string(), 1));

    let reentrancy = analysis
        .category_breakdown
        .iter()
        .find(|(name, _)| name == "Reentrancy")
        .unwrap();
    assert_eq!(reentrancy.1, 2);
    let fuzzing = analysis
        .category_breakdown
        .iter()
        .find(|(name, _)| name == "Fuzzing")
        .unwrap();
    assert_eq!(fuzzing.1, 0);

    assert_eq!(
        analysis.tool_findings,
        vec![("Slither".to_string(), 2), ("EVM Plugin".to_string(), 1)]
    );
}

#[test]
fn category_recommendation_links_related_findings() {
    let findings = sample_findings();
    let rec = ReportGenerator::new().create_category_recommendation(Category::Reentrancy, &findings);
    assert_eq!(rec.id, "REC-001");
    assert_eq!(rec.title, "Implement Reentrancy Protection");
    assert_eq!(rec.priority, "High");
    assert_eq!(rec.related_vulnerabilities.len(), 2);
    assert_eq!(rec.related_vulnerabilities[0], findings[0].id);
    assert_eq!(rec.related_vulnerabilities[1], findings[2].id);
}

#[test]
fn unknown_category_recommendation_names_the_category() {
    let rec = ReportGenerator::new().create_category_recommendation(Category::Fuzzing, &Vec::new());
    assert_eq!(rec.id, "REC-999");
    assert_eq!(rec.title, "Address Fuzzing Issues");
    assert_eq!(rec.description, "Review and address all Fuzzing related vulnerabilities.");
    assert!(rec.related_vulnerabilities.is_empty());
}

#[test]
fn recommendations_cover_each_category_once_then_general_advice() {
    let findings = sample_findings();
    let basics = vec!["Audit regularly.".to_string(), "Pin compiler versions.".to_string()];
    let recs = ReportGenerator::new().create_recommendations(&findings, &basics);
    assert_eq!(recs.len(), 4);
    assert_eq!(recs[0].id, "REC-001");
    assert_eq!(recs[1].id, "REC-002");
    assert_eq!(recs[2].id, "REC-100");
    assert_eq!(recs[2].title, "General Recommendation 1");
    assert_eq!(recs[2].description, "Audit regularly.");
    assert_eq!(recs[3].id, "REC-101");
    assert_eq!(recs[3].title, "General Recommendation 2");
}

#[test]
fn appendices_list_tools_and_metrics() {
    let engine = AnalysisEngine::new(PluginManager::new());
    let mut run = AnalysisRun::new("evm".to_string(), AnalysisDepth::Basic, false);
    run.record_backend(
        "slither".to_string(),
        securechain::analyzer::BackendOutcome::Findings(vec![finding(
            Severity::High,
            Category::Reentrancy,
            "Slither",
        )]),
    );
    run.advance_phase();
    assert_eq!(run.phase, AnalysisPhase::Complete);
    let results = engine.finish_run(run, "a.sol".to_string(), 100, 4, 7, 0);
    let appendices = ReportGenerator::new().create_appendices(&results);
    assert_eq!(appendices.len(), 2);
    assert_eq!(appendices[0].title, "Tool Configurations");
    assert_eq!(appendices[0].content, "Analysis performed using: slither");
    assert_eq!(appendices[1].title, "Analysis Metrics");
    assert!(appendices[1].content.contains("Security Score: 85"));
    assert!(appendices[1].content.contains("Lines of Code: 100"));
}
