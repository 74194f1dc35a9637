//! Tests of the structural parser: entity extraction, line numbers,
//! body extraction and parameter parsing.

use securechain::model::ContractInfo;
use securechain::parser::{
    extract_imports, extract_inheritance, extract_license, extract_pragma_directives,
    extract_function_body, parse_parameters, split_lines, ContractParser,
};

fn unit(name: &str, source: &str) -> ContractInfo {
    ContractInfo {
        name: name.to_string(),
        address: String::new(),
        source_code: source.to_string(),
        compiler_version: "unknown".to_string(),
        optimization: false,
        network: "local".to_string(),
        verified: false,
        metadata: Vec::new(),
    }
}

const SAMPLE: &str = "// SPDX-License-Identifier: MIT\n\
pragma solidity ^0.8.0;\n\
import \"./token.sol\";\n\
import './lib.sol';\n\
contract Vault is Ownable, Pausable {\n\
    uint256 public total = 0;\n\
    address internal owner;\n\
    bool locked;\n\
    event Deposit(address indexed from, uint256 amount);\n\
    modifier onlyOwner() {\n\
        _;\n\
    }\n\
    function deposit(uint256 amount) public payable {\n\
        total += amount;\n\
    }\n\
    function balance() public view returns (uint256 value) {\n\
        return total;\n\
    }\n\
    function sweep() internal {\n\
        total = 0;\n\
    }\n\
}\n";

#[test]
fn parses_every_function_declaration() {
    let parser = ContractParser::new();
    let parsed = parser.parse_contract(&unit("Vault.sol", SAMPLE)).unwrap();
    assert_eq!(parsed.functions.len(), 3);
    assert_eq!(parsed.functions[0].name, "deposit");
    assert_eq!(parsed.functions[1].name, "balance");
    assert_eq!(parsed.functions[2].name, "sweep");
}

#[test]
fn function_line_numbers_point_at_header_lines() {
    let parser = ContractParser::new();
    let parsed = parser.parse_contract(&unit("Vault.sol", SAMPLE)).unwrap();
    assert_eq!(parsed.functions[0].line_number, 13);
    assert_eq!(parsed.functions[1].line_number, 16);
    assert_eq!(parsed.functions[2].line_number, 19);
}

#[test]
fn function_captures_visibility_and_mutability() {
    let parser = ContractParser::new();
    let parsed = parser.parse_contract(&unit("Vault.sol", SAMPLE)).unwrap();
    assert_eq!(parsed.functions[0].visibility, "public");
    assert_eq!(parsed.functions[0].state_mutability, "payable");
    assert_eq!(parsed.functions[1].state_mutability, "view");
    assert_eq!(parsed.functions[2].visibility, "internal");
}

#[test]
fn visibility_defaults_to_internal_when_omitted() {
    let src = "function helper(uint x) {\n    return;\n}\n";
    let parser = ContractParser::new();
    let parsed = parser.parse_contract(&unit("a.sol", src)).unwrap();
    assert_eq!(parsed.functions.len(), 1);
    assert_eq!(parsed.functions[0].visibility, "internal");
    assert_eq!(parsed.functions[0].state_mutability, "");
}

#[test]
fn constructor_fallback_receive_flags() {
    let src = "function constructor() public {\n}\n\
function fallback() external {\n}\n\
function receive() external payable {\n}\n";
    let parser = ContractParser::new();
    let parsed = parser.parse_contract(&unit("a.sol", src)).unwrap();
    assert_eq!(parsed.functions.len(), 3);
    assert!(parsed.functions[0].is_constructor);
    assert!(!parsed.functions[0].is_fallback);
    assert!(parsed.functions[1].is_fallback);
    assert!(parsed.functions[2].is_receive);
}

#[test]
fn function_body_covers_matching_braces() {
    let parser = ContractParser::new();
    let parsed = parser.parse_contract(&unit("Vault.sol", SAMPLE)).unwrap();
    let body = &parsed.functions[0].body;
    assert_eq!(body, "function deposit(uint256 amount) public payable {\ntotal += amount;\n}\n");
}

#[test]
fn body_extraction_is_idempotent_on_balanced_braces() {
    let lines = split_lines(SAMPLE);
    let body = extract_function_body(&lines, 12);
    let body_lines = split_lines(&body);
    let again = extract_function_body(&body_lines, 0);
    assert_eq!(body, again);
}

#[test]
fn unterminated_braces_consume_to_end_of_file() {
    let src = "function broken() public {\n    total = 1;\n";
    let lines = split_lines(src);
    let body = extract_function_body(&lines, 0);
    assert_eq!(body, "function broken() public {\n    total = 1;\n");
}

#[test]
fn state_variables_capture_type_visibility_and_initializer() {
    let parser = ContractParser::new();
    let parsed = parser.parse_contract(&unit("Vault.sol", SAMPLE)).unwrap();
    assert_eq!(parsed.state_variables.len(), 3);
    assert_eq!(parsed.state_variables[0].name, "total");
    assert_eq!(parsed.state_variables[0].type_text, "uint256");
    assert_eq!(parsed.state_variables[0].visibility, "public");
    assert_eq!(parsed.state_variables[0].initial_value.as_deref(), Some("0"));
    assert_eq!(parsed.state_variables[1].name, "owner");
    assert_eq!(parsed.state_variables[1].visibility, "internal");
    assert_eq!(parsed.state_variables[2].name, "locked");
    assert_eq!(parsed.state_variables[2].visibility, "internal");
    assert_eq!(parsed.state_variables[2].initial_value, None);
}

#[test]
fn constant_and_immutable_qualifiers() {
    let src = "uint256 public constant CAP = 100;\naddress immutable deployer;\n";
    let parser = ContractParser::new();
    let parsed = parser.parse_contract(&unit("a.sol", src)).unwrap();
    assert_eq!(parsed.state_variables.len(), 2);
    assert!(parsed.state_variables[0].is_constant);
    assert!(!parsed.state_variables[0].is_immutable);
    assert!(parsed.state_variables[1].is_immutable);
}

#[test]
fn modifiers_and_events_are_extracted() {
    let parser = ContractParser::new();
    let parsed = parser.parse_contract(&unit("Vault.sol", SAMPLE)).unwrap();
    assert_eq!(parsed.modifiers.len(), 1);
    assert_eq!(parsed.modifiers[0].name, "onlyOwner");
    assert_eq!(parsed.modifiers[0].line_number, 10);
    assert_eq!(parsed.events.len(), 1);
    assert_eq!(parsed.events[0].name, "Deposit");
    assert!(!parsed.events[0].anonymous);
    assert_eq!(parsed.events[0].parameters.len(), 2);
    assert!(parsed.events[0].parameters[0].indexed);
    assert!(!parsed.events[0].parameters[1].indexed);
}

#[test]
fn anonymous_events_are_flagged() {
    let src = "event Ping(uint256 n) anonymous;\n";
    let parser = ContractParser::new();
    let parsed = parser.parse_contract(&unit("a.sol", src)).unwrap();
    assert_eq!(parsed.events.len(), 1);
    assert!(parsed.events[0].anonymous);
}

#[test]
fn imports_capture_both_quote_styles() {
    let imports = extract_imports(SAMPLE);
    assert_eq!(imports, vec!["./token.sol".to_string(), "./lib.sol".to_string()]);
}

#[test]
fn pragmas_and_license_are_extracted() {
    let pragmas = extract_pragma_directives(SAMPLE);
    assert_eq!(pragmas, vec!["solidity ^0.8.0".to_string()]);
    assert_eq!(extract_license(SAMPLE).as_deref(), Some("MIT"));
    assert_eq!(extract_license("contract A {}"), None);
}

#[test]
fn inheritance_is_flattened_and_trimmed() {
    let parents = extract_inheritance(SAMPLE);
    assert_eq!(parents, vec!["Ownable".to_string(), "Pausable".to_string()]);
}

#[test]
fn parse_parameters_splits_types_and_names() {
    let params = parse_parameters("uint256 amount, address to");
    assert_eq!(params.len(), 2);
    assert_eq!(params[0].type_text, "uint256");
    assert_eq!(params[0].name, "amount");
    assert_eq!(params[1].type_text, "address");
    assert_eq!(params[1].name, "to");
}

#[test]
fn parse_parameters_drops_short_tokens_and_marks_indexed() {
    let params = parse_parameters("uint256, address indexed from, ");
    assert_eq!(params.len(), 1);
    assert_eq!(params[0].type_text, "address");
    assert_eq!(params[0].name, "indexed");
    assert!(params[0].indexed);
    assert!(parse_parameters("").is_empty());
}

#[test]
fn malformed_source_yields_fewer_entities_not_errors() {
    let parser = ContractParser::new();
    let parsed = parser.parse_contract(&unit("junk.sol", "this is not solidity at all")).unwrap();
    assert!(parsed.functions.is_empty());
    assert!(parsed.state_variables.is_empty());
    assert!(parsed.events.is_empty());
    assert!(parsed.imports.is_empty());
}

#[test]
fn split_lines_strips_carriage_returns() {
    let lines = split_lines("a\r\nb\nc");
    assert_eq!(lines, vec!["a".to_string(), "b".to_string(), "c".to_string()]);
    assert!(split_lines("").is_empty());
    assert_eq!(split_lines("x\n"), vec!["x".to_string()]);
}
