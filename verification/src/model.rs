//! The contract model: the parsed, immutable representation of one
//! contract unit, together with the raw unit handed in by a source
//! provider.

use vstd::prelude::*;

verus! {

/// One raw contract unit as delivered by a source provider.
///
/// `metadata` is an open string-to-string mapping carried through from
/// ingestion; it is opaque to the core.
#[derive(Clone, Debug)]
pub struct ContractInfo {
    pub name: String,
    pub address: String,
    pub source_code: String,
    pub compiler_version: String,
    pub optimization: bool,
    pub network: String,
    pub verified: bool,
    pub metadata: Vec<(String, String)>,
}

/// One function or event parameter.
#[derive(Clone, Debug)]
pub struct Parameter {
    pub name: String,
    pub type_text: String,
    pub indexed: bool,
}

/// One function declaration extracted from contract text.
///
/// `line_number` is 1-based and points at the line holding the signature,
/// not the body.
#[derive(Clone, Debug)]
pub struct FunctionInfo {
    pub name: String,
    pub visibility: String,
    pub state_mutability: String,
    pub parameters: Vec<Parameter>,
    pub return_parameters: Vec<Parameter>,
    pub modifiers: Vec<String>,
    pub line_number: usize,
    pub body: String,
    pub is_constructor: bool,
    pub is_fallback: bool,
    pub is_receive: bool,
}

/// One state-variable declaration.
#[derive(Clone, Debug)]
pub struct StateVariable {
    pub name: String,
    pub type_text: String,
    pub visibility: String,
    pub is_constant: bool,
    pub is_immutable: bool,
    pub initial_value: Option<String>,
    pub line_number: usize,
}

/// One modifier declaration.
#[derive(Clone, Debug)]
pub struct ModifierInfo {
    pub name: String,
    pub parameters: Vec<Parameter>,
    pub body: String,
    pub line_number: usize,
}

/// One event declaration.
#[derive(Clone, Debug)]
pub struct EventInfo {
    pub name: String,
    pub parameters: Vec<Parameter>,
    pub anonymous: bool,
    pub line_number: usize,
}

/// The parsed representation of one contract unit.  Immutable once
/// constructed; no component mutates it after parsing.
#[derive(Clone, Debug)]
pub struct ParsedContract {
    pub name: String,
    pub source_code: String,
    pub functions: Vec<FunctionInfo>,
    pub state_variables: Vec<StateVariable>,
    pub modifiers: Vec<ModifierInfo>,
    pub events: Vec<EventInfo>,
    pub imports: Vec<String>,
    pub inheritance: Vec<String>,
    pub compiler_version: String,
    pub pragma_directives: Vec<String>,
    pub license: Option<String>,
    pub metadata: Vec<(String, String)>,
}

/// One envelope record of a block-explorer contract-source response.
#[derive(Clone, Debug)]
pub struct EtherscanResponse {
    pub status: String,
    pub message: String,
    pub result: Vec<EtherscanContract>,
}

/// One verified-source record as a block explorer reports it.
#[derive(Clone, Debug)]
pub struct EtherscanContract {
    pub source_code: String,
    pub abi: String,
    pub contract_name: String,
    pub compiler_version: String,
    pub optimization_used: String,
    pub runs: String,
    pub constructor_arguments: String,
    pub evm_version: String,
    pub library: String,
    pub license_type: String,
    pub proxy: String,
    pub implementation: String,
    pub swarm_source: String,
}

} // verus!
