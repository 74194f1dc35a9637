//! The polymorphic per-platform heuristic analyzers and their registry.
//!
//! A plugin is a battery of independent heuristic checks: each check tests
//! one textual or structural pattern of the contract model and, when it
//! matches, contributes exactly one finding with a fixed severity, category
//! and confidence.  One check's match never gates another's evaluation, and
//! the battery order is fixed, so output is deterministic for one input.

use vstd::prelude::*;

use crate::errors::AnalysisError;
use crate::finding::{battery_matches, ExpectedFinding, Finding};
use crate::model::ParsedContract;

pub mod cairo;

pub mod evm;

pub mod ink;

pub mod move_lang;

verus! {

broadcast use vstd::string::group_string_axioms;

/// Capability set of one per-platform heuristic analyzer.
///
/// The spec members pin down each implementation's behaviour: which
/// findings `analyze_contract` produces for a given contract
/// (`spec_battery`), and when `validate_contract` accepts a contract
/// (`spec_validate`).  `validate_empty_is_false` is a law every plugin must
/// prove: an empty source string never validates.
pub trait BlockchainPlugin: Sized {
    /// Display name of the platform.
    spec fn spec_name(&self) -> Seq<char>;

    /// Provenance label stamped on findings this plugin produces.
    spec fn spec_tool(&self) -> Seq<char>;

    /// Languages the plugin can analyze.
    spec fn spec_languages(&self) -> Seq<Seq<char>>;

    /// External tools associated with the platform.
    spec fn spec_tools(&self) -> Seq<Seq<char>>;

    /// The findings the heuristic battery produces, in battery order.
    spec fn spec_battery(&self, c: ParsedContract) -> Seq<ExpectedFinding>;

    /// The fast pre-check: does this look like code for this platform?
    spec fn spec_validate(&self, c: ParsedContract) -> bool;

    /// Law: the pre-check rejects an empty source string, for any plugin.
    proof fn validate_empty_is_false(&self, c: ParsedContract)
        requires
            c.source_code@.len() == 0,
        ensures
            !self.spec_validate(c),
    ;

    fn name(&self) -> (r: &'static str)
        ensures
            r@ == self.spec_name(),
    ;

    fn supported_languages(&self) -> (r: Vec<&'static str>)
        ensures
            r@.map_values(|s: &'static str| s@) == self.spec_languages(),
    ;

    /// Run the heuristic battery.  Analysis never fails on a parsed
    /// contract: when no heuristic matches the finding list is empty.
    fn analyze_contract(&self, contract: &ParsedContract) -> (r: Result<
        Vec<Finding>,
        AnalysisError,
    >)
        ensures
            (r matches Ok(v) && battery_matches(
                v@,
                self.spec_battery(*contract),
                contract.name@,
                self.spec_tool(),
            )),
    ;

    fn validate_contract(&self, contract: &ParsedContract) -> (r: Result<bool, AnalysisError>)
        ensures
            (r matches Ok(b) && b == self.spec_validate(*contract)),
    ;

    fn get_analysis_tools(&self) -> (r: Vec<&'static str>)
        ensures
            r@.map_values(|s: &'static str| s@) == self.spec_tools(),
    ;
}

/// An empty source string never validates, for any plugin.
pub proof fn lemma_plugin_validate_empty<P: BlockchainPlugin>(p: &P, c: ParsedContract)
    requires
        c.source_code@.len() == 0,
    ensures
        !p.spec_validate(c),
{
    p.validate_empty_is_false(c);
}

/// Discovery record of one registered plugin.
#[derive(Clone, Debug)]
pub struct PluginInfo {
    pub name: String,
    pub version: String,
    pub description: String,
    pub supported_languages: Vec<String>,
    pub available_tools: Vec<String>,
    pub enabled: bool,
}

/// A borrowed registered plugin, dispatched as a closed sum over the known
/// platforms.
pub enum PluginRef<'a> {
    Evm(&'a evm::EVMPlugin),
    MoveVm(&'a move_lang::MovePlugin),
    Cairo(&'a cairo::CairoPlugin),
    Ink(&'a ink::InkPlugin),
}

/// The platform identifiers with a registered plugin.
pub open spec fn known_platform(p: Seq<char>) -> bool {
    p == "evm"@ || p == "move"@ || p == "cairo"@ || p == "ink"@
}

/// The heuristic battery the registry runs for a platform identifier.
pub open spec fn manager_battery(p: Seq<char>, c: ParsedContract) -> Seq<ExpectedFinding> {
    if p == "evm"@ {
        evm::evm_battery(c)
    } else if p == "move"@ {
        move_lang::move_battery(c)
    } else if p == "cairo"@ {
        cairo::cairo_battery(c)
    } else {
        ink::ink_battery(c)
    }
}

/// The provenance label of the plugin a platform identifier resolves to.
pub open spec fn manager_tool(p: Seq<char>) -> Seq<char> {
    if p == "evm"@ {
        "EVM Plugin"@
    } else if p == "move"@ {
        "Move Plugin"@
    } else if p == "cairo"@ {
        "Cairo Plugin"@
    } else {
        "Ink Plugin"@
    }
}

/// The pre-check the registry runs for a platform identifier.
pub open spec fn manager_validate(p: Seq<char>, c: ParsedContract) -> bool {
    if p == "evm"@ {
        evm::spec_evm_validate(c)
    } else if p == "move"@ {
        move_lang::spec_move_validate(c)
    } else if p == "cairo"@ {
        cairo::spec_cairo_validate(c)
    } else {
        ink::spec_ink_validate(c)
    }
}

/// The tool list of the plugin a platform identifier resolves to.
pub open spec fn manager_tools(p: Seq<char>) -> Seq<Seq<char>> {
    if p == "evm"@ {
        seq!["slither"@, "mythril"@, "echidna"@, "foundry"@, "solhint"@]
    } else if p == "move"@ {
        seq!["move"@, "move-prover"@, "aptos"@, "sui"@]
    } else if p == "cairo"@ {
        seq!["cairo-compile"@, "starknet-compile"@, "protostar"@, "scarb"@]
    } else {
        seq!["cargo"@, "cargo-contract"@, "substrate"@, "ink-analyzer"@]
    }
}

/// Does a string vector hold `s`, by character comparison?
fn contains_str(v: &Vec<&'static str>, s: &str) -> (r: bool)
    ensures
        r == v@.map_values(|x: &'static str| x@).contains(s@),
{
    let mut i: usize = 0;
    while i < v.len()
        invariant
            i <= v@.len(),
            forall|k: int| #![trigger v@[k]] 0 <= k < i ==> v@[k]@ != s@,
        decreases v@.len() - i,
    {
        if crate::text::str_eq(v[i], s) {
            assert(v@.map_values(|x: &'static str| x@)[i as int] == s@);
            return true;
        }
        i = i + 1;
    }
    proof {
        let ms = v@.map_values(|x: &'static str| x@);
        if ms.contains(s@) {
            let k = choose|k: int| 0 <= k < ms.len() && #[trigger] ms[k] == s@;
            assert(v@[k]@ == s@);
        }
    }
    false
}

/// Clone a vector of static strings into owned strings.
fn to_string_vec(v: &Vec<&'static str>) -> (r: Vec<String>)
    ensures
        r@.map_values(|s: String| s@) == v@.map_values(|x: &'static str| x@),
{
    let mut out: Vec<String> = Vec::new();
    let mut i: usize = 0;
    while i < v.len()
        invariant
            i <= v@.len(),
            out@.len() == i,
            forall|k: int| 0 <= k < i ==> #[trigger] out@[k]@ == v@[k]@,
        decreases v@.len() - i,
    {
        out.push(String::from_str(v[i]));
        i = i + 1;
    }
    assert(out@.map_values(|s: String| s@) =~= v@.map_values(|x: &'static str| x@));
    out
}

/// The discovery fields of one registry entry.
pub open spec fn plugin_info_ok(
    info: PluginInfo,
    key: Seq<char>,
    name: Seq<char>,
    langs: Seq<Seq<char>>,
    tools: Seq<Seq<char>>,
) -> bool {
    &&& info.name@ == key
    &&& info.version@ == "0.1.0"@
    &&& info.description@ == "Plugin for "@ + name + " blockchain platform"@
    &&& info.supported_languages@.map_values(|s: String| s@) == langs
    &&& info.available_tools@.map_values(|s: String| s@) == tools
    &&& info.enabled
}

/// The registry that resolves a platform identifier to exactly one plugin
/// instance.  Read-only after construction.
pub struct PluginManager {
    evm: evm::EVMPlugin,
    move_plugin: move_lang::MovePlugin,
    cairo: cairo::CairoPlugin,
    ink: ink::InkPlugin,
}

impl PluginManager {
    /// Create a manager with the built-in plugins registered.
    pub fn new() -> (r: Self) {
        PluginManager {
            evm: evm::EVMPlugin::new(),
            move_plugin: move_lang::MovePlugin::new(),
            cairo: cairo::CairoPlugin::new(),
            ink: ink::InkPlugin::new(),
        }
    }

    /// Discovery: name, languages and tool list of every registered
    /// plugin, without running analysis.
    pub fn get_available_plugins(&self) -> (r: Vec<PluginInfo>)
        ensures
            r@.len() == 4,
            plugin_info_ok(
                r@[0],
                "evm"@,
                "EVM"@,
                seq!["solidity"@, "vyper"@],
                manager_tools("evm"@),
            ),
            plugin_info_ok(r@[1], "move"@, "Move"@, seq!["move"@], manager_tools("move"@)),
            plugin_info_ok(r@[2], "cairo"@, "Cairo"@, seq!["cairo"@], manager_tools("cairo"@)),
            plugin_info_ok(r@[3], "ink"@, "Ink!"@, seq!["ink"@, "rust"@], manager_tools("ink"@)),
    {
        proof {
            reveal_strlit("evm");
            reveal_strlit("move");
            reveal_strlit("cairo");
            reveal_strlit("ink");
            assert("evm"@.len() == 3);
            assert("move"@.len() == 4);
            assert("cairo"@.len() == 5);
            assert("ink"@.len() == 3);
            assert("ink"@[0] == 'i' && "evm"@[0] == 'e');
            assert(manager_tools("evm"@) =~~= self.evm.spec_tools());
            assert(manager_tools("move"@) =~~= self.move_plugin.spec_tools());
            assert(manager_tools("cairo"@) =~~= self.cairo.spec_tools());
            assert(manager_tools("ink"@) =~~= self.ink.spec_tools());
        }
        let mut out: Vec<PluginInfo> = Vec::new();
        out.push(self.plugin_info("evm", &PluginRef::Evm(&self.evm)));
        out.push(self.plugin_info("move", &PluginRef::MoveVm(&self.move_plugin)));
        out.push(self.plugin_info("cairo", &PluginRef::Cairo(&self.cairo)));
        out.push(self.plugin_info("ink", &PluginRef::Ink(&self.ink)));
        out
    }

    /// Discovery record for one registry entry.
    fn plugin_info(&self, key: &str, plugin: &PluginRef<'_>) -> (r: PluginInfo)
        ensures
            plugin_info_ok(
                r,
                key@,
                match *plugin {
                    PluginRef::Evm(p) => p.spec_name(),
                    PluginRef::MoveVm(p) => p.spec_name(),
                    PluginRef::Cairo(p) => p.spec_name(),
                    PluginRef::Ink(p) => p.spec_name(),
                },
                match *plugin {
                    PluginRef::Evm(p) => p.spec_languages(),
                    PluginRef::MoveVm(p) => p.spec_languages(),
                    PluginRef::Cairo(p) => p.spec_languages(),
                    PluginRef::Ink(p) => p.spec_languages(),
                },
                match *plugin {
                    PluginRef::Evm(p) => p.spec_tools(),
                    PluginRef::MoveVm(p) => p.spec_tools(),
                    PluginRef::Cairo(p) => p.spec_tools(),
                    PluginRef::Ink(p) => p.spec_tools(),
                },
            ),
    {
        let name: &'static str = match plugin {
            PluginRef::Evm(p) => p.name(),
            PluginRef::MoveVm(p) => p.name(),
            PluginRef::Cairo(p) => p.name(),
            PluginRef::Ink(p) => p.name(),
        };
        let langs: Vec<&'static str> = match plugin {
            PluginRef::Evm(p) => p.supported_languages(),
            PluginRef::MoveVm(p) => p.supported_languages(),
            PluginRef::Cairo(p) => p.supported_languages(),
            PluginRef::Ink(p) => p.supported_languages(),
        };
        let tools: Vec<&'static str> = match plugin {
            PluginRef::Evm(p) => p.get_analysis_tools(),
            PluginRef::MoveVm(p) => p.get_analysis_tools(),
            PluginRef::Cairo(p) => p.get_analysis_tools(),
            PluginRef::Ink(p) => p.get_analysis_tools(),
        };
        let description = String::from_str("Plugin for ").concat(name).concat(
            " blockchain platform",
        );
        PluginInfo {
            name: String::from_str(key),
            version: String::from_str("0.1.0"),
            description,
            supported_languages: to_string_vec(&langs),
            available_tools: to_string_vec(&tools),
            enabled: true,
        }
    }

    /// Resolve a platform identifier to its plugin.
    pub fn get_plugin(&self, name: &str) -> (r: Option<PluginRef<'_>>)
        ensures
            match r {
                Some(p) => known_platform(name@) && match p {
                    PluginRef::Evm(_) => name@ == "evm"@,
                    PluginRef::MoveVm(_) => name@ == "move"@,
                    PluginRef::Cairo(_) => name@ == "cairo"@,
                    PluginRef::Ink(_) => name@ == "ink"@,
                },
                None => !known_platform(name@),
            },
    {
        proof {
            reveal_strlit("evm");
            reveal_strlit("move");
            reveal_strlit("cairo");
            reveal_strlit("ink");
        }
        if crate::text::str_eq(name, "evm") {
            Some(PluginRef::Evm(&self.evm))
        } else if crate::text::str_eq(name, "move") {
            Some(PluginRef::MoveVm(&self.move_plugin))
        } else if crate::text::str_eq(name, "cairo") {
            Some(PluginRef::Cairo(&self.cairo))
        } else if crate::text::str_eq(name, "ink") {
            Some(PluginRef::Ink(&self.ink))
        } else {
            None
        }
    }

    /// Run the resolved plugin's heuristic battery, or report an unknown
    /// platform without invoking anything.
    pub fn analyze_contract(&self, contract: &ParsedContract, target_platform: &str) -> (r: Result<
        Vec<Finding>,
        AnalysisError,
    >)
        ensures
            !known_platform(target_platform@) ==> r == Err::<Vec<Finding>, AnalysisError>(
                AnalysisError::PlatformNotSupported,
            ),
            known_platform(target_platform@) ==> (r matches Ok(v) && battery_matches(
                v@,
                manager_battery(target_platform@, *contract),
                contract.name@,
                manager_tool(target_platform@),
            )),
    {
        if crate::text::str_eq(target_platform, "evm") {
            self.evm.analyze_contract(contract)
        } else if crate::text::str_eq(target_platform, "move") {
            self.move_plugin.analyze_contract(contract)
        } else if crate::text::str_eq(target_platform, "cairo") {
            self.cairo.analyze_contract(contract)
        } else if crate::text::str_eq(target_platform, "ink") {
            self.ink.analyze_contract(contract)
        } else {
            Err(AnalysisError::PlatformNotSupported)
        }
    }

    /// Run the resolved plugin's pre-check, or report an unknown platform.
    pub fn validate_contract(&self, contract: &ParsedContract, target_platform: &str) -> (r:
        Result<bool, AnalysisError>)
        ensures
            !known_platform(target_platform@) ==> r == Err::<bool, AnalysisError>(
                AnalysisError::PlatformNotSupported,
            ),
            known_platform(target_platform@) ==> r == Ok::<bool, AnalysisError>(
                manager_validate(target_platform@, *contract),
            ),
    {
        if crate::text::str_eq(target_platform, "evm") {
            self.evm.validate_contract(contract)
        } else if crate::text::str_eq(target_platform, "move") {
            self.move_plugin.validate_contract(contract)
        } else if crate::text::str_eq(target_platform, "cairo") {
            self.cairo.validate_contract(contract)
        } else if crate::text::str_eq(target_platform, "ink") {
            self.ink.validate_contract(contract)
        } else {
            Err(AnalysisError::PlatformNotSupported)
        }
    }

    /// Is a tool associated with a platform's plugin?
    pub fn is_tool_available(&self, platform: &str, tool: &str) -> (r: bool)
        ensures
            r == (known_platform(platform@) && manager_tools(platform@).contains(tool@)),
    {
        let tools: Vec<&'static str> = if crate::text::str_eq(platform, "evm") {
            self.evm.get_analysis_tools()
        } else if crate::text::str_eq(platform, "move") {
            self.move_plugin.get_analysis_tools()
        } else if crate::text::str_eq(platform, "cairo") {
            self.cairo.get_analysis_tools()
        } else if crate::text::str_eq(platform, "ink") {
            self.ink.get_analysis_tools()
        } else {
            return false;
        };
        contains_str(&tools, tool)
    }
}

} // verus!
