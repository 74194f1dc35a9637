//! Tests of the per-platform heuristic batteries and the plugin
//! registry.

use securechain::errors::AnalysisError;
use securechain::finding::{Category, Severity};
use securechain::model::{ContractInfo, ParsedContract};
use securechain::parser::ContractParser;
use securechain::plugins::evm::EVMPlugin;
use securechain::plugins::cairo::CairoPlugin;
use securechain::plugins::ink::InkPlugin;
use securechain::plugins::move_lang::MovePlugin;
use securechain::plugins::{BlockchainPlugin, PluginManager, PluginRef};

fn parse(name: &str, source: &str) -> ParsedContract {
    let info = ContractInfo {
        name: name.to_string(),
        address: String::new(),
        source_code: source.to_string(),
        compiler_version: "unknown".to_string(),
        optimization: false,
        network: "local".to_string(),
        verified: false,
        metadata: Vec::new(),
    };
    ContractParser::new().parse_contract(&info).unwrap()
}

#[test]
fn reentrancy_shape_yields_reentrancy_finding() {
    let source = "pragma solidity ^0.8.0;\n\
contract Bank {\n\
    uint256 public balances;\n\
    function withdraw(uint256 amount) public {\n\
        msg.sender.call{value: amount}(\"\");\n\
        balances -= amount;\n\
    }\n\
}\n";
    let contract = parse("Bank.sol", source);
    let findings = EVMPlugin::new().analyze_contract(&contract).unwrap();
    assert!(findings.iter().any(|f| f.category == Category::Reentrancy));
}

#[test]
fn every_plugin_rejects_empty_source() {
    let empty = parse("empty.sol", "");
    assert_eq!(EVMPlugin::new().validate_contract(&empty).unwrap(), false);
    assert_eq!(MovePlugin::new().validate_contract(&empty).unwrap(), false);
    assert_eq!(CairoPlugin::new().validate_contract(&empty).unwrap(), false);
    assert_eq!(InkPlugin::new().validate_contract(&empty).unwrap(), false);
}

#[test]
fn tx_origin_check_fires_with_fixed_shape() {
    let contract = parse(
        "a.sol",
        "pragma solidity ^0.8.0;\ncontract A { function f() public { require(tx.origin == owner); } }\n",
    );
    let findings = EVMPlugin::new().run_basic_checks(&contract);
    let hit = findings.iter().find(|f| f.title == "Use of tx.origin").unwrap();
    assert_eq!(hit.severity, Severity::High);
    assert_eq!(hit.category, Category::AccessControl);
    assert_eq!(hit.confidence, 90);
    assert_eq!(hit.cwe_id.as_deref(), Some("CWE-477"));
    assert_eq!(hit.tool, "EVM Plugin");
    assert_eq!(hit.file_path, "a.sol");
    assert_eq!(hit.id.len(), 36);
}

#[test]
fn unchecked_call_fires_only_without_require() {
    let with_require = parse("a.sol", "contract A { function f() public { target.call(data); require(ok); } }\n");
    let without = parse("a.sol", "contract A { function f() public { target.call(data); } }\n");
    let plugin = EVMPlugin::new();
    assert!(!plugin
        .run_basic_checks(&with_require)
        .iter()
        .any(|f| f.title == "Unchecked External Call"));
    assert!(plugin
        .run_basic_checks(&without)
        .iter()
        .any(|f| f.title == "Unchecked External Call"));
}

#[test]
fn gas_loop_check_names_the_function_and_line() {
    let source = "contract A {\n\
    function spin() public {\n\
        while(true) {\n\
        }\n\
    }\n\
}\n";
    let contract = parse("a.sol", source);
    let findings = EVMPlugin::new().run_basic_checks(&contract);
    let hit = findings
        .iter()
        .find(|f| f.title == "Potential Gas Limit Issue in spin")
        .unwrap();
    assert_eq!(hit.line_number, Some(2));
    assert_eq!(hit.category, Category::DenialOfService);
}

#[test]
fn empty_battery_for_clean_contract() {
    let contract = parse("a.sol", "pragma solidity ^0.8.0;\ncontract A { uint256 internal x; }\n");
    let findings = EVMPlugin::new().run_basic_checks(&contract);
    assert!(findings.is_empty());
}

#[test]
fn ink_attribute_checks_fire_in_order() {
    let contract = parse("lib.rs", "use ink::prelude::*;\nfn main() {}\n");
    let plugin = InkPlugin::new();
    let findings = plugin.check_ink_attributes(&contract);
    assert_eq!(findings.len(), 1);
    assert_eq!(findings[0].title, "Missing Ink Contract Attribute");
    let with_attr = parse("lib.rs", "#[ink::contract]\nmod token {}\n");
    let findings = plugin.check_ink_attributes(&with_attr);
    assert_eq!(findings.len(), 2);
    assert_eq!(findings[0].title, "Missing Storage Struct");
    assert_eq!(findings[1].title, "Missing Constructor");
}

#[test]
fn ink_unchecked_arithmetic_check() {
    let contract = parse("lib.rs", "#[ink::contract]\nmod m { fn add(a: u64, b: u64) {} }\n");
    let findings = InkPlugin::new().check_ink_best_practices(&contract);
    assert!(findings.iter().any(|f| {
        f.title == "Potential Integer Overflow" && f.category == Category::IntegerOverflow
    }));
    let safe = parse("lib.rs", "#[ink::contract]\nmod m { fn add(a: u64) { a.checked_add(1); } }\n");
    let findings = InkPlugin::new().check_ink_best_practices(&safe);
    assert!(!findings.iter().any(|f| f.title == "Potential Integer Overflow"));
}

#[test]
fn cairo_excessive_asserts_counts_occurrences() {
    let few = parse("c.cairo", "%lang starknet\nassert a = b;\nassert c = d;\n");
    let plugin = CairoPlugin::new();
    assert!(!plugin
        .run_cairo_analysis(&few)
        .iter()
        .any(|f| f.title == "Excessive Assert Usage"));
    let many_asserts = "assert x;\n".repeat(11);
    let many = parse("c.cairo", &format!("%lang starknet\n{}", many_asserts));
    assert!(plugin
        .run_cairo_analysis(&many)
        .iter()
        .any(|f| f.title == "Excessive Assert Usage"));
}

#[test]
fn cairo_external_without_access_control() {
    let contract = parse("c.cairo", "%lang starknet\n@external\nfunc transfer() {}\n");
    let findings = CairoPlugin::new().run_cairo_analysis(&contract);
    assert!(findings
        .iter()
        .any(|f| f.title == "External Function Without Access Control"
            && f.severity == Severity::High));
    assert!(findings.iter().any(|f| f.title == "Missing Input Validation"));
}

#[test]
fn move_abort_code_check_parses_the_number() {
    let plugin = MovePlugin::new();
    let large = parse("m.move", "module m { fun f() { abort 404 } }\n");
    let findings = plugin.run_move_analysis(&large);
    let hit = findings.iter().find(|f| f.title == "Magic Number in Abort").unwrap();
    assert_eq!(hit.code_snippet.as_deref(), Some("abort 404"));
    let small = parse("m.move", "module m { fun f() { abort 7 } }\n");
    assert!(!plugin
        .run_move_analysis(&small)
        .iter()
        .any(|f| f.title == "Magic Number in Abort"));
}

#[test]
fn move_resource_checks() {
    let plugin = MovePlugin::new();
    let contract = parse("m.move", "module m { fun f(a: address) { let r = move_from<R>(a); } }\n");
    let findings = plugin.run_move_analysis(&contract);
    assert!(findings.iter().any(|f| f.title == "Unchecked Resource Access"));
    let checked = parse(
        "m.move",
        "module m { fun f(a: address) { if (exists<R>(a)) { let r = move_from<R>(a); } } }\n",
    );
    assert!(!plugin
        .run_move_analysis(&checked)
        .iter()
        .any(|f| f.title == "Unchecked Resource Access"));
}

#[test]
fn manager_lists_all_four_plugins() {
    let manager = PluginManager::new();
    let infos = manager.get_available_plugins();
    assert_eq!(infos.len(), 4);
    assert_eq!(infos[0].name, "evm");
    assert_eq!(infos[0].description, "Plugin for EVM blockchain platform");
    assert_eq!(infos[0].supported_languages, vec!["solidity".to_string(), "vyper".to_string()]);
    assert_eq!(infos[1].name, "move");
    assert_eq!(infos[2].name, "cairo");
    assert_eq!(infos[3].name, "ink");
    assert!(infos.iter().all(|i| i.enabled && i.version == "0.1.0"));
}

#[test]
fn manager_resolves_platform_identifiers() {
    let manager = PluginManager::new();
    assert!(matches!(manager.get_plugin("evm"), Some(PluginRef::Evm(_))));
    assert!(matches!(manager.get_plugin("move"), Some(PluginRef::MoveVm(_))));
    assert!(matches!(manager.get_plugin("cairo"), Some(PluginRef::Cairo(_))));
    assert!(matches!(manager.get_plugin("ink"), Some(PluginRef::Ink(_))));
    assert!(manager.get_plugin("unknown-chain").is_none());
}

#[test]
fn unknown_platform_is_rejected_before_any_analysis() {
    let manager = PluginManager::new();
    let contract = parse("a.sol", "contract A {}");
    assert!(matches!(
        manager.analyze_contract(&contract, "unknown-chain"),
        Err(AnalysisError::PlatformNotSupported)
    ));
    assert_eq!(
        manager.validate_contract(&contract, "unknown-chain"),
        Err(AnalysisError::PlatformNotSupported)
    );
}

#[test]
fn manager_dispatches_validation_per_platform() {
    let manager = PluginManager::new();
    let sol = parse("a.sol", "pragma solidity ^0.8.0;\ncontract A { uint256 internal x; }\n");
    assert_eq!(manager.validate_contract(&sol, "evm"), Ok(true));
    assert_eq!(manager.validate_contract(&sol, "move"), Ok(false));
    let mv = parse("m.move", "module m { fun f() {} }\n");
    assert_eq!(manager.validate_contract(&mv, "move"), Ok(true));
}

#[test]
fn tool_availability_is_per_platform() {
    let manager = PluginManager::new();
    assert!(manager.is_tool_available("evm", "slither"));
    assert!(manager.is_tool_available("move", "move-prover"));
    assert!(!manager.is_tool_available("evm", "move-prover"));
    assert!(!manager.is_tool_available("unknown-chain", "slither"));
}

#[test]
fn slither_severity_mapping_is_total_with_medium_default() {
    let plugin = EVMPlugin::new();
    assert_eq!(plugin.map_slither_severity("High"), Severity::High);
    assert_eq!(plugin.map_slither_severity("MEDIUM"), Severity::Medium);
    assert_eq!(plugin.map_slither_severity("low"), Severity::Low);
    assert_eq!(plugin.map_slither_severity("Informational"), Severity::Info);
    assert_eq!(plugin.map_slither_severity("bogus"), Severity::Medium);
    assert_eq!(plugin.map_slither_severity(""), Severity::Medium);
}

#[test]
fn slither_category_and_cwe_mapping() {
    let plugin = EVMPlugin::new();
    assert_eq!(plugin.map_slither_category("reentrancy-eth"), Category::Reentrancy);
    assert_eq!(plugin.map_slither_category("tx-origin"), Category::AccessControl);
    assert_eq!(plugin.map_slither_category("timestamp"), Category::TimestampDependence);
    assert_eq!(plugin.map_slither_category("something-new"), Category::Other);
    assert_eq!(plugin.get_cwe_id("reentrancy-eth").as_deref(), Some("CWE-362"));
    assert_eq!(plugin.get_cwe_id("something-new"), None);
}

#[test]
fn slither_confidence_mapping() {
    let plugin = EVMPlugin::new();
    assert_eq!(plugin.map_confidence("High"), 90);
    assert_eq!(plugin.map_confidence("medium"), 70);
    assert_eq!(plugin.map_confidence("LOW"), 50);
    assert_eq!(plugin.map_confidence("??"), 60);
}

#[test]
fn format_check_name_title_cases_words() {
    let plugin = EVMPlugin::new();
    assert_eq!(plugin.format_check_name("reentrancy-no-eth"), "Reentrancy No Eth");
    assert_eq!(plugin.format_check_name("timestamp"), "Timestamp");
    assert_eq!(plugin.format_check_name(""), "");
}

#[test]
fn unknown_check_recommendation_names_the_check() {
    let plugin = EVMPlugin::new();
    assert_eq!(
        plugin.get_slither_recommendation("shadowing-local"),
        "Review and address the shadowing-local issue detected by Slither."
    );
    assert_eq!(
        plugin.get_slither_recommendation("tx-origin"),
        "Use msg.sender instead of tx.origin for authorization checks."
    );
}

#[test]
fn slither_record_normalization_fixes_every_field() {
    let f = EVMPlugin::new().normalize_slither_record(
        "reentrancy-eth",
        "High",
        "Medium",
        "reentrancy in withdraw",
        Some(12),
        Some("call{value: x}".to_string()),
        &"Bank.sol".to_string(),
    );
    assert_eq!(f.title, "Slither: Reentrancy Eth");
    assert_eq!(f.description, "reentrancy in withdraw");
    assert_eq!(f.severity, Severity::High);
    assert_eq!(f.category, Category::Reentrancy);
    assert_eq!(f.file_path, "Bank.sol");
    assert_eq!(f.line_number, Some(12));
    assert_eq!(f.code_snippet.as_deref(), Some("call{value: x}"));
    assert_eq!(
        f.recommendation.as_deref(),
        Some("Use the Checks-Effects-Interactions pattern or implement reentrancy guards using OpenZeppelin's ReentrancyGuard.")
    );
    assert_eq!(f.references.len(), 2);
    assert_eq!(
        f.references[1],
        "https://github.com/crytic/slither/wiki/Detector-Documentation#reentrancy-eth"
    );
    assert_eq!(f.cwe_id.as_deref(), Some("CWE-362"));
    assert_eq!(f.tool, "Slither");
    assert_eq!(f.confidence, 70);
    assert_eq!(f.id.len(), 36);
}

#[test]
fn slither_output_is_normalized_into_findings() {
    let contract = parse("a.sol", "contract A {\n    uint256 internal x;\n}\n");
    let output = "{\"results\":{\"detectors\":[{\"check\":\"reentrancy-eth\",\"impact\":\"High\",\"confidence\":\"Medium\",\"description\":\"reentrancy in withdraw\",\"elements\":[{\"source_mapping\":{\"lines\":[2],\"starting_column\":4,\"ending_column\":11}}]}]}}";
    let findings = EVMPlugin::new().parse_slither_output(output, &contract);
    assert_eq!(findings.len(), 1);
    let f = &findings[0];
    assert_eq!(f.title, "Slither: Reentrancy Eth");
    assert_eq!(f.severity, Severity::High);
    assert_eq!(f.category, Category::Reentrancy);
    assert_eq!(f.confidence, 70);
    assert_eq!(f.tool, "Slither");
    assert_eq!(f.line_number, Some(2));
    assert_eq!(f.code_snippet.as_deref(), Some("uint256"));
    assert_eq!(f.references.len(), 2);
}

#[test]
fn malformed_slither_output_yields_nothing() {
    let contract = parse("a.sol", "contract A {}");
    let plugin = EVMPlugin::new();
    assert!(plugin.parse_slither_output("not json", &contract).is_empty());
    assert!(plugin.parse_slither_output("{}", &contract).is_empty());
}

#[test]
fn ink_full_battery_keeps_its_fixed_order() {
    let source = "#[ink::contract]\nmod token {\n    fn total(a: u64) -> u64 { a }\n}\n";
    let contract = parse("lib.rs", source);
    let findings = InkPlugin::new().analyze_contract(&contract).unwrap();
    let titles: Vec<&str> = findings.iter().map(|f| f.title.as_str()).collect();
    assert_eq!(
        titles,
        vec![
            "Missing Storage Struct",
            "Missing Constructor",
            "Missing Unit Tests",
            "Potential Integer Overflow",
        ]
    );
}

#[test]
fn evm_validation_requires_declared_structure() {
    let plugin = EVMPlugin::new();
    let no_structure = parse("a.sol", "pragma solidity ^0.8.0;\n// nothing declared\n");
    assert_eq!(plugin.validate_contract(&no_structure).unwrap(), false);
    let no_solidity_marker = parse("a.txt", "hello world with one uint256 public x; declaration\n");
    assert_eq!(plugin.validate_contract(&no_solidity_marker).unwrap(), false);
    let ok = parse("a.sol", "contract A { uint256 internal x; }\n");
    assert_eq!(plugin.validate_contract(&ok).unwrap(), true);
}

#[test]
fn cairo_and_move_validation_look_for_platform_syntax() {
    let cairo_src = parse("c.cairo", "%lang starknet\nfunc f() {}\n");
    assert_eq!(CairoPlugin::new().validate_contract(&cairo_src).unwrap(), true);
    let not_cairo = parse("c.txt", "plain text\n");
    assert_eq!(CairoPlugin::new().validate_contract(&not_cairo).unwrap(), false);
    let script = parse("m.move", "script { fun main() {} }\n");
    assert_eq!(MovePlugin::new().validate_contract(&script).unwrap(), true);
}

#[test]
fn plugin_names_languages_and_tools() {
    assert_eq!(EVMPlugin::new().name(), "EVM");
    assert_eq!(MovePlugin::new().name(), "Move");
    assert_eq!(CairoPlugin::new().name(), "Cairo");
    assert_eq!(InkPlugin::new().name(), "Ink!");
    assert_eq!(EVMPlugin::new().supported_languages(), vec!["solidity", "vyper"]);
    assert_eq!(
        CairoPlugin::new().get_analysis_tools(),
        vec!["cairo-compile", "starknet-compile", "protostar", "scarb"]
    );
}
