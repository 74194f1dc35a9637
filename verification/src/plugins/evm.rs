//! EVM plugin: heuristic battery for Solidity contracts on EVM-compatible
//! chains.
//!
//! The battery here is the in-process part of the platform's analysis;
//! external static analyzers run out of process and their raw output is
//! normalized by the slither parsing functions of this module.

use vstd::prelude::*;

use crate::errors::AnalysisError;
use crate::finding::{
    battery_matches, lemma_battery_push, make_finding, Category, ExpectedFinding, Finding,
    Severity,
};
use crate::model::{FunctionInfo, ParsedContract};
use crate::plugins::BlockchainPlugin;
use crate::text::{contains_from, contains_seq, contains_sub, find_sub_from, matches_at};

verus! {

/// Heuristic analyzer for Solidity smart contracts.
pub struct EVMPlugin {}

/// Authorization through `tx.origin` is present.
pub open spec fn fires_tx_origin(c: ParsedContract) -> bool {
    contains_seq(c.source_code@, "tx.origin"@)
}

/// A contract-destruction primitive is used.
pub open spec fn fires_selfdestruct(c: ParsedContract) -> bool {
    contains_seq(c.source_code@, "suicide("@) || contains_seq(c.source_code@, "selfdestruct("@)
}

/// A low-level external call appears with no `require` anywhere in the
/// source.
pub open spec fn fires_unchecked_call(c: ParsedContract) -> bool {
    contains_seq(c.source_code@, ".call("@) && !contains_seq(c.source_code@, "require("@)
}

/// An external value-transfer call starts at position `i` of `h`.
pub open spec fn transfer_call_at(h: Seq<char>, i: int) -> bool {
    ||| matches_at(h, ".call{value"@, i)
    ||| matches_at(h, ".call.value("@, i)
    ||| matches_at(h, ".transfer("@, i)
    ||| matches_at(h, ".send("@, i)
}

/// The classic reentrancy shape: an external value-transfer call followed
/// (at or after the call) by a balance decrement.
pub open spec fn fires_reentrancy_src(h: Seq<char>) -> bool {
    exists|i: int, j: int| i <= j && transfer_call_at(h, i) && matches_at(h, "-="@, j)
}

pub open spec fn fires_reentrancy(c: ParsedContract) -> bool {
    fires_reentrancy_src(c.source_code@)
}

/// A function body holds an unbounded-looking loop.
pub open spec fn fires_gas_loop(f: FunctionInfo) -> bool {
    contains_seq(f.body@, "while("@) || contains_seq(f.body@, "for("@)
}

pub open spec fn expected_tx_origin() -> ExpectedFinding {
    ExpectedFinding {
        title: "Use of tx.origin"@,
        severity: Severity::High,
        category: Category::AccessControl,
        line_number: None,
        cwe_id: Some("CWE-477"@),
        confidence: 90,
    }
}

pub open spec fn expected_selfdestruct() -> ExpectedFinding {
    ExpectedFinding {
        title: "Use of selfdestruct/suicide"@,
        severity: Severity::Medium,
        category: Category::CodeQuality,
        line_number: None,
        cwe_id: None,
        confidence: 70,
    }
}

pub open spec fn expected_unchecked_call() -> ExpectedFinding {
    ExpectedFinding {
        title: "Unchecked External Call"@,
        severity: Severity::High,
        category: Category::UnhandledExceptions,
        line_number: None,
        cwe_id: Some("CWE-252"@),
        confidence: 80,
    }
}

pub open spec fn expected_reentrancy() -> ExpectedFinding {
    ExpectedFinding {
        title: "Potential Reentrancy"@,
        severity: Severity::High,
        category: Category::Reentrancy,
        line_number: None,
        cwe_id: Some("CWE-362"@),
        confidence: 70,
    }
}

pub open spec fn expected_gas_loop(f: FunctionInfo) -> ExpectedFinding {
    ExpectedFinding {
        title: "Potential Gas Limit Issue in "@ + f.name@,
        severity: Severity::Medium,
        category: Category::DenialOfService,
        line_number: Some(f.line_number),
        cwe_id: Some("CWE-400"@),
        confidence: 60,
    }
}

/// The source-wide checks of the battery, in battery order.
pub open spec fn evm_fixed_checks(c: ParsedContract) -> Seq<ExpectedFinding> {
    let s0 = Seq::<ExpectedFinding>::empty();
    let s1 = if fires_tx_origin(c) {
        s0.push(expected_tx_origin())
    } else {
        s0
    };
    let s2 = if fires_selfdestruct(c) {
        s1.push(expected_selfdestruct())
    } else {
        s1
    };
    let s3 = if fires_unchecked_call(c) {
        s2.push(expected_unchecked_call())
    } else {
        s2
    };
    if fires_reentrancy(c) {
        s3.push(expected_reentrancy())
    } else {
        s3
    }
}

/// The battery after the source-wide checks and the per-function loop
/// checks over the first `n` functions.
pub open spec fn evm_battery_upto(c: ParsedContract, n: int) -> Seq<ExpectedFinding>
    decreases n,
{
    if n <= 0 {
        evm_fixed_checks(c)
    } else {
        let prev = evm_battery_upto(c, n - 1);
        if fires_gas_loop(c.functions@[n - 1]) {
            prev.push(expected_gas_loop(c.functions@[n - 1]))
        } else {
            prev
        }
    }
}

/// The full EVM heuristic battery for one contract.
pub open spec fn evm_battery(c: ParsedContract) -> Seq<ExpectedFinding> {
    evm_battery_upto(c, c.functions@.len() as int)
}

/// The EVM pre-check: non-empty source that mentions Solidity or a
/// contract declaration and declares at least one function or state
/// variable.
pub open spec fn spec_evm_validate(c: ParsedContract) -> bool {
    &&& c.source_code@.len() > 0
    &&& (contains_seq(c.source_code@, "pragma solidity"@) || contains_seq(
        c.source_code@,
        "contract"@,
    ))
    &&& (c.functions@.len() > 0 || c.state_variables@.len() > 0)
}

/// Decide [`fires_reentrancy_src`] for a source text.
fn reentrancy_signal(src: &str) -> (r: bool)
    ensures
        r == fires_reentrancy_src(src@),
{
    let c1 = find_sub_from(src, ".call{value", 0);
    let c2 = find_sub_from(src, ".call.value(", 0);
    let c3 = find_sub_from(src, ".transfer(", 0);
    let c4 = find_sub_from(src, ".send(", 0);
    let mut first: Option<usize> = c1;
    first = min_opt(first, c2);
    first = min_opt(first, c3);
    first = min_opt(first, c4);
    match first {
        None => {
            assert(!fires_reentrancy_src(src@)) by {
                if fires_reentrancy_src(src@) {
                    let (i, j) = choose|i: int, j: int|
                        i <= j && transfer_call_at(src@, i) && matches_at(src@, "-="@, j);
                }
            }
            false
        },
        Some(m) => {
            let hit = contains_from(src, "-=", m);
            proof {
                if hit {
                    let j = choose|j: int| j >= m && matches_at(src@, "-="@, j);
                    assert(transfer_call_at(src@, m as int));
                    assert(m <= j && transfer_call_at(src@, m as int) && matches_at(
                        src@,
                        "-="@,
                        j,
                    ));
                } else {
                    if fires_reentrancy_src(src@) {
                        let (i, j) = choose|i: int, j: int|
                            i <= j && transfer_call_at(src@, i) && matches_at(src@, "-="@, j);
                        assert(i >= m);
                        assert(j >= m && matches_at(src@, "-="@, j));
                    }
                }
            }
            hit
        },
    }
}

/// The smaller of two optional positions; a present position beats an
/// absent one.
fn min_opt(a: Option<usize>, b: Option<usize>) -> (r: Option<usize>)
    ensures
        match r {
            None => a is None && b is None,
            Some(m) => (a matches Some(x) && m <= x || a is None) && (b matches Some(y) && m <= y
                || b is None) && (a == Some(m) || b == Some(m)),
        },
{
    match (a, b) {
        (None, None) => None,
        (Some(x), None) => Some(x),
        (None, Some(y)) => Some(y),
        (Some(x), Some(y)) => if x <= y {
            Some(x)
        } else {
            Some(y)
        },
    }
}

impl EVMPlugin {
    /// Create a new EVM plugin.
    pub fn new() -> (r: Self) {
        EVMPlugin {  }
    }

    /// Run the source-wide and per-function heuristic checks.
    pub fn run_basic_checks(&self, contract: &ParsedContract) -> (r: Vec<Finding>)
        ensures
            battery_matches(r@, evm_battery(*contract), contract.name@, "EVM Plugin"@),
    {
        let mut out: Vec<Finding> = Vec::new();
        let ghost mut expected: Seq<ExpectedFinding> = Seq::empty();
        let src = contract.source_code.as_str();

        if contains_sub(src, "tx.origin") {
            let f = make_finding(
                String::from_str("Use of tx.origin"),
                "The contract uses tx.origin for authorization, which can be exploited in phishing attacks.",
                Severity::High,
                Category::AccessControl,
                &contract.name,
                None,
                None,
                "Use msg.sender instead of tx.origin for authorization checks.",
                "https://consensys.github.io/smart-contract-best-practices/recommendations/#avoid-using-txorigin",
                Some("CWE-477"),
                "EVM Plugin",
                90,
            );
            proof {
                lemma_battery_push(
                    out@,
                    expected,
                    f,
                    expected_tx_origin(),
                    contract.name@,
                    "EVM Plugin"@,
                );
                expected = expected.push(expected_tx_origin());
            }
            out.push(f);
        }
        if contains_sub(src, "suicide(") || contains_sub(src, "selfdestruct(") {
            let f = make_finding(
                String::from_str("Use of selfdestruct/suicide"),
                "The contract uses selfdestruct which can lead to unexpected behavior.",
                Severity::Medium,
                Category::CodeQuality,
                &contract.name,
                None,
                None,
                "Consider alternative patterns to contract destruction.",
                "https://consensys.github.io/smart-contract-best-practices/recommendations/#be-aware-of-the-tradeoffs-between-send-transfer-and-callvalue",
                None,
                "EVM Plugin",
                70,
            );
            proof {
                lemma_battery_push(
                    out@,
                    expected,
                    f,
                    expected_selfdestruct(),
                    contract.name@,
                    "EVM Plugin"@,
                );
                expected = expected.push(expected_selfdestruct());
            }
            out.push(f);
        }
        if contains_sub(src, ".call(") && !contains_sub(src, "require(") {
            let f = make_finding(
                String::from_str("Unchecked External Call"),
                "The contract makes external calls without checking return values.",
                Severity::High,
                Category::UnhandledExceptions,
                &contract.name,
                None,
                None,
                "Always check return values of external calls and handle failures appropriately.",
                "https://consensys.github.io/smart-contract-best-practices/recommendations/#handle-errors-in-external-calls",
                Some("CWE-252"),
                "EVM Plugin",
                80,
            );
            proof {
                lemma_battery_push(
                    out@,
                    expected,
                    f,
                    expected_unchecked_call(),
                    contract.name@,
                    "EVM Plugin"@,
                );
                expected = expected.push(expected_unchecked_call());
            }
            out.push(f);
        }
        if reentrancy_signal(src) {
            let f = make_finding(
                String::from_str("Potential Reentrancy"),
                "An external value-transfer call is followed by a balance decrement, the classic reentrancy shape.",
                Severity::High,
                Category::Reentrancy,
                &contract.name,
                None,
                None,
                "Use the Checks-Effects-Interactions pattern or implement reentrancy guards.",
                "https://consensys.github.io/smart-contract-best-practices/attacks/reentrancy/",
                Some("CWE-362"),
                "EVM Plugin",
                70,
            );
            proof {
                lemma_battery_push(
                    out@,
                    expected,
                    f,
                    expected_reentrancy(),
                    contract.name@,
                    "EVM Plugin"@,
                );
                expected = expected.push(expected_reentrancy());
            }
            out.push(f);
        }
        assert(expected =~= evm_fixed_checks(*contract));
        assert(expected =~= evm_battery_upto(*contract, 0));

        let mut fi: usize = 0;
        while fi < contract.functions.len()
            invariant
                fi <= contract.functions@.len(),
                battery_matches(
                    out@,
                    evm_battery_upto(*contract, fi as int),
                    contract.name@,
                    "EVM Plugin"@,
                ),
            decreases contract.functions@.len() - fi,
        {
            let func = &contract.functions[fi];
            if contains_sub(func.body.as_str(), "while(") || contains_sub(
                func.body.as_str(),
                "for(",
            ) {
                let title = String::from_str("Potential Gas Limit Issue in ").concat(
                    func.name.as_str(),
                );
                let f = make_finding(
                    title,
                    "Function contains loops that might exceed gas limits.",
                    Severity::Medium,
                    Category::DenialOfService,
                    &contract.name,
                    Some(func.line_number),
                    None,
                    "Implement gas-efficient alternatives or add proper bounds checking.",
                    "https://consensys.github.io/smart-contract-best-practices/recommendations/#gas-limit-dos-on-a-contract-via-unbounded-operations",
                    Some("CWE-400"),
                    "EVM Plugin",
                    60,
                );
                proof {
                    lemma_battery_push(
                        out@,
                        evm_battery_upto(*contract, fi as int),
                        f,
                        expected_gas_loop(contract.functions@[fi as int]),
                        contract.name@,
                        "EVM Plugin"@,
                    );
                }
                out.push(f);
            }
            fi = fi + 1;
        }
        out
    }

    /// Decide the pre-check without the `Result` wrapper.
    pub fn validate(&self, contract: &ParsedContract) -> (r: bool)
        ensures
            r == spec_evm_validate(*contract),
    {
        let src = contract.source_code.as_str();
        if src.unicode_len() == 0 {
            return false;
        }
        if !contains_sub(src, "pragma solidity") && !contains_sub(src, "contract") {
            return false;
        }
        if contract.functions.len() == 0 && contract.state_variables.len() == 0 {
            return false;
        }
        true
    }
}

impl BlockchainPlugin for EVMPlugin {
    open spec fn spec_name(&self) -> Seq<char> {
        "EVM"@
    }

    open spec fn spec_tool(&self) -> Seq<char> {
        "EVM Plugin"@
    }

    open spec fn spec_languages(&self) -> Seq<Seq<char>> {
        seq!["solidity"@, "vyper"@]
    }

    open spec fn spec_tools(&self) -> Seq<Seq<char>> {
        seq!["slither"@, "mythril"@, "echidna"@, "foundry"@, "solhint"@]
    }

    open spec fn spec_battery(&self, c: ParsedContract) -> Seq<ExpectedFinding> {
        evm_battery(c)
    }

    open spec fn spec_validate(&self, c: ParsedContract) -> bool {
        spec_evm_validate(c)
    }

    proof fn validate_empty_is_false(&self, c: ParsedContract) {
    }

    fn name(&self) -> (r: &'static str) {
        "EVM"
    }

    fn supported_languages(&self) -> (r: Vec<&'static str>) {
        let mut v: Vec<&'static str> = Vec::new();
        v.push("solidity");
        v.push("vyper");
        assert(v@.map_values(|s: &'static str| s@) =~= self.spec_languages());
        v
    }

    fn analyze_contract(&self, contract: &ParsedContract) -> (r: Result<
        Vec<Finding>,
        AnalysisError,
    >) {
        Ok(self.run_basic_checks(contract))
    }

    fn validate_contract(&self, contract: &ParsedContract) -> (r: Result<bool, AnalysisError>) {
        Ok(self.validate(contract))
    }

    fn get_analysis_tools(&self) -> (r: Vec<&'static str>) {
        let mut v: Vec<&'static str> = Vec::new();
        v.push("slither");
        v.push("mythril");
        v.push("echidna");
        v.push("foundry");
        v.push("solhint");
        assert(v@.map_values(|s: &'static str| s@) =~= self.spec_tools());
        v
    }
}


/// A separator for check-name formatting: whitespace or a dash.
pub open spec fn sep_char(c: char) -> bool {
    crate::text::ws_char(c) || c == '-'
}

/// First position at or after `i` whose character is not a separator.
pub open spec fn skip_sep_from(h: Seq<char>, i: int) -> int
    recommends
        0 <= i <= h.len(),
    decreases h.len() - i when 0 <= i <= h.len()
{
    if i >= h.len() {
        h.len() as int
    } else if sep_char(h[i]) {
        skip_sep_from(h, i + 1)
    } else {
        i
    }
}

/// End of the non-separator run beginning at `i`.
pub open spec fn nonsep_end_from(h: Seq<char>, i: int) -> int
    recommends
        0 <= i <= h.len(),
    decreases h.len() - i when 0 <= i <= h.len()
{
    if i >= h.len() {
        h.len() as int
    } else if !sep_char(h[i]) {
        nonsep_end_from(h, i + 1)
    } else {
        i
    }
}

proof fn lemma_skip_sep_from(h: Seq<char>, i: int)
    requires
        0 <= i <= h.len(),
    ensures
        i <= skip_sep_from(h, i) <= h.len(),
        skip_sep_from(h, i) < h.len() ==> !sep_char(h[skip_sep_from(h, i)]),
    decreases h.len() - i,
{
    if i < h.len() && sep_char(h[i]) {
        lemma_skip_sep_from(h, i + 1);
    }
}

proof fn lemma_nonsep_end_from(h: Seq<char>, i: int)
    requires
        0 <= i <= h.len(),
    ensures
        i <= nonsep_end_from(h, i) <= h.len(),
        i < h.len() && !sep_char(h[i]) ==> nonsep_end_from(h, i) > i,
    decreases h.len() - i,
{
    if i < h.len() && !sep_char(h[i]) {
        lemma_nonsep_end_from(h, i + 1);
    }
}

fn skip_sep(s: &str, i: usize) -> (r: usize)
    requires
        i <= s@.len(),
    ensures
        r == skip_sep_from(s@, i as int),
        i <= r <= s@.len(),
{
    let len = s.unicode_len();
    let mut j: usize = i;
    while j < len && (crate::text::is_ws(s.get_char(j)) || s.get_char(j) == '-')
        invariant
            i <= j <= len,
            len == s@.len(),
            skip_sep_from(s@, i as int) == skip_sep_from(s@, j as int),
        decreases len - j,
    {
        j = j + 1;
    }
    j
}

fn nonsep_end(s: &str, i: usize) -> (r: usize)
    requires
        i <= s@.len(),
    ensures
        r == nonsep_end_from(s@, i as int),
        i <= r <= s@.len(),
{
    let len = s.unicode_len();
    let mut j: usize = i;
    while j < len && !crate::text::is_ws(s.get_char(j)) && s.get_char(j) != '-'
        invariant
            i <= j <= len,
            len == s@.len(),
            nonsep_end_from(s@, i as int) == nonsep_end_from(s@, j as int),
        decreases len - j,
    {
        j = j + 1;
    }
    j
}

/// ASCII upper-casing of one character; other characters are unchanged.
pub open spec fn ascii_upper(c: char) -> char {
    if 'a' <= c && c <= 'z' {
        (((c as u8) - 32) as char)
    } else {
        c
    }
}

fn to_upper_char(c: char) -> (r: char)
    ensures
        r == ascii_upper(c),
{
    if 'a' <= c && c <= 'z' {
        ((c as u8) - 32) as char
    } else {
        c
    }
}

/// The display form of a check name from position `i` onward: dashes
/// become separators, each word's first character is ASCII upper-cased,
/// and words are joined by single spaces.
pub open spec fn fmt_check_from(s: Seq<char>, i: int) -> Seq<char>
    recommends
        0 <= i <= s.len(),
    decreases s.len() - i when 0 <= i <= s.len()
{
    let a = skip_sep_from(s, i);
    if !(i <= a && a < s.len()) {
        Seq::empty()
    } else {
        let b = nonsep_end_from(s, a);
        let b2 = if a < b && b <= s.len() {
            b
        } else {
            s.len() as int
        };
        let word = seq![ascii_upper(s[a])] + s.subrange(a + 1, b2);
        if skip_sep_from(s, b2) < s.len() {
            word + seq![' '] + fmt_check_from(s, b2)
        } else {
            word
        }
    }
}

/// The display form of a whole check name.
pub open spec fn spec_format_check_name(s: Seq<char>) -> Seq<char> {
    fmt_check_from(s, 0)
}

/// The canonical severity a slither impact string maps to; unknown
/// impacts take the documented default of `Medium`.
pub open spec fn spec_map_slither_severity(s: Seq<char>) -> Severity {
    if crate::text::lower_seq(s) == "high"@ {
        Severity::High
    } else if crate::text::lower_seq(s) == "medium"@ {
        Severity::Medium
    } else if crate::text::lower_seq(s) == "low"@ {
        Severity::Low
    } else if crate::text::lower_seq(s) == "informational"@ {
        Severity::Info
    } else {
        Severity::Medium
    }
}

/// Severity mapping is total: it is a function into the closed
/// five-value severity type, every known native impact maps to its
/// canonical value, and any unknown native value maps to the documented
/// default of `Medium` rather than erroring.
pub proof fn lemma_severity_mapping_total(s: Seq<char>)
    ensures
        crate::text::lower_seq(s) == "high"@ ==> spec_map_slither_severity(s) == Severity::High,
        crate::text::lower_seq(s) == "medium"@ ==> spec_map_slither_severity(s)
            == Severity::Medium,
        crate::text::lower_seq(s) == "low"@ ==> spec_map_slither_severity(s) == Severity::Low,
        crate::text::lower_seq(s) == "informational"@ ==> spec_map_slither_severity(s)
            == Severity::Info,
        !(crate::text::lower_seq(s) == "high"@ || crate::text::lower_seq(s) == "medium"@
            || crate::text::lower_seq(s) == "low"@ || crate::text::lower_seq(s)
            == "informational"@) ==> spec_map_slither_severity(s) == Severity::Medium,
{
    reveal_strlit("high");
    reveal_strlit("medium");
    reveal_strlit("low");
    reveal_strlit("informational");
    assert("high"@.len() == 4);
    assert("medium"@.len() == 6);
    assert("low"@.len() == 3);
    assert("informational"@.len() == 13);
}

/// The category a slither check name maps to; unknown checks fall into
/// `Other`.
pub open spec fn spec_map_slither_category(c: Seq<char>) -> Category {
    if c == "reentrancy-eth"@ || c == "reentrancy-no-eth"@ || c == "reentrancy-events"@ {
        Category::Reentrancy
    } else if c == "unchecked-transfer"@ || c == "unchecked-send"@ || c == "unchecked-lowlevel"@ {
        Category::UnhandledExceptions
    } else if c == "tx-origin"@ || c == "suicidal"@ || c == "arbitrary-send"@ {
        Category::AccessControl
    } else if c == "timestamp"@ || c == "weak-prng"@ {
        Category::TimestampDependence
    } else if c == "low-level-calls"@ || c == "assembly"@ {
        Category::LowLevelCalls
    } else if c == "integer-overflow"@ || c == "divide-by-zero"@ {
        Category::IntegerOverflow
    } else if c == "locked-ether"@ || c == "missing-zero-check"@ {
        Category::CodeQuality
    } else if c == "dos-"@ {
        Category::DenialOfService
    } else {
        Category::Other
    }
}

/// The standard weakness identifier of a slither check, when one is
/// assigned.
pub open spec fn spec_get_cwe_id(c: Seq<char>) -> Option<Seq<char>> {
    if c == "reentrancy-eth"@ || c == "reentrancy-no-eth"@ {
        Some("CWE-362"@)
    } else if c == "tx-origin"@ {
        Some("CWE-477"@)
    } else if c == "timestamp"@ {
        Some("CWE-330"@)
    } else if c == "unchecked-transfer"@ {
        Some("CWE-252"@)
    } else if c == "integer-overflow"@ {
        Some("CWE-190"@)
    } else if c == "divide-by-zero"@ {
        Some("CWE-369"@)
    } else {
        None
    }
}

/// The confidence a slither confidence label maps to, in hundredths;
/// labels without a native signal take the mid-range default.
pub open spec fn spec_map_confidence(s: Seq<char>) -> u32 {
    if crate::text::lower_seq(s) == "high"@ {
        90u32
    } else if crate::text::lower_seq(s) == "medium"@ {
        70u32
    } else if crate::text::lower_seq(s) == "low"@ {
        50u32
    } else {
        60u32
    }
}

/// The remediation text of a slither check.
pub open spec fn spec_slither_recommendation(c: Seq<char>) -> Seq<char> {
    if c == "reentrancy-eth"@ || c == "reentrancy-no-eth"@ {
        "Use the Checks-Effects-Interactions pattern or implement reentrancy guards using OpenZeppelin's ReentrancyGuard."@
    } else if c == "tx-origin"@ {
        "Use msg.sender instead of tx.origin for authorization checks."@
    } else if c == "timestamp"@ {
        "Avoid using block.timestamp for critical logic. Consider using block numbers or external oracles."@
    } else if c == "unchecked-transfer"@ {
        "Check the return value of transfer operations or use SafeERC20 from OpenZeppelin."@
    } else if c == "integer-overflow"@ {
        "Use SafeMath library or Solidity 0.8+ built-in overflow protection."@
    } else if c == "low-level-calls"@ {
        "Avoid low-level calls when possible. If necessary, handle return values properly."@
    } else if c == "arbitrary-send"@ {
        "Implement proper access controls to prevent unauthorized Ether transfers."@
    } else {
        "Review and address the "@ + c + " issue detected by Slither."@
    }
}

/// A finding normalized from slither output: attributed to the slither
/// tool, localised to this contract, with a fresh identifier, two
/// references and a confidence within the unit interval.
pub open spec fn slither_finding_ok(f: Finding, file: Seq<char>) -> bool {
    &&& f.tool@ == "Slither"@
    &&& f.file_path@ == file
    &&& f.confidence <= 100
    &&& f.id@.len() == 36
    &&& f.references@.len() == 2
}

impl EVMPlugin {
    /// Format a slither check name for display: dashes to spaces, ASCII
    /// title case, words joined by single spaces.
    pub fn format_check_name(&self, check: &str) -> (r: String)
        ensures
            r@ == spec_format_check_name(check@),
    {
        let len = check.unicode_len();
        let mut out = String::new();
        let mut i: usize = 0;
        proof {
            assert(out@ + fmt_check_from(check@, 0) =~= fmt_check_from(check@, 0));
        }
        loop
            invariant_except_break
                i <= len,
                len == check@.len(),
                spec_format_check_name(check@) == out@ + fmt_check_from(check@, i as int),
            ensures
                out@ == spec_format_check_name(check@),
            decreases len - i,
        {
            let a = skip_sep(check, i);
            if a >= len {
                proof {
                    assert(fmt_check_from(check@, i as int) =~= Seq::<char>::empty());
                    assert(out@ + Seq::<char>::empty() =~= out@);
                }
                break;
            }
            proof {
                lemma_skip_sep_from(check@, i as int);
            }
            let b = nonsep_end(check, a);
            proof {
                lemma_nonsep_end_from(check@, a as int);
            }
            let ghost old_out = out@;
            crate::text::push_char(&mut out, to_upper_char(check.get_char(a)));
            out.append(check.substring_char(a + 1, b));
            let more = skip_sep(check, b);
            if more < len {
                crate::text::push_char(&mut out, ' ');
                proof {
                    let word = seq![ascii_upper(check@[a as int])] + check@.subrange(
                        a + 1,
                        b as int,
                    );
                    assert(out@ =~= old_out + (word + seq![' ']));
                    assert(fmt_check_from(check@, i as int) =~= word + seq![' ']
                        + fmt_check_from(check@, b as int));
                    assert(old_out + (word + seq![' '] + fmt_check_from(check@, b as int)) =~= (
                    old_out + (word + seq![' '])) + fmt_check_from(check@, b as int));
                }
                i = b;
            } else {
                proof {
                    let word = seq![ascii_upper(check@[a as int])] + check@.subrange(
                        a + 1,
                        b as int,
                    );
                    assert(out@ =~= old_out + word);
                    assert(fmt_check_from(check@, i as int) =~= word);
                }
                break;
            }
        }
        out
    }

    /// Map a slither impact label into the canonical severity scale.
    pub fn map_slither_severity(&self, impact: &str) -> (r: Severity)
        ensures
            r == spec_map_slither_severity(impact@),
    {
        if crate::text::lower_eq(impact, "high") {
            Severity::High
        } else if crate::text::lower_eq(impact, "medium") {
            Severity::Medium
        } else if crate::text::lower_eq(impact, "low") {
            Severity::Low
        } else if crate::text::lower_eq(impact, "informational") {
            Severity::Info
        } else {
            Severity::Medium
        }
    }

    /// Map a slither check name into the closed category taxonomy.
    pub fn map_slither_category(&self, check: &str) -> (r: Category)
        ensures
            r == spec_map_slither_category(check@),
    {
        if crate::text::str_eq(check, "reentrancy-eth") || crate::text::str_eq(
            check,
            "reentrancy-no-eth",
        ) || crate::text::str_eq(check, "reentrancy-events") {
            Category::Reentrancy
        } else if crate::text::str_eq(check, "unchecked-transfer") || crate::text::str_eq(
            check,
            "unchecked-send",
        ) || crate::text::str_eq(check, "unchecked-lowlevel") {
            Category::UnhandledExceptions
        } else if crate::text::str_eq(check, "tx-origin") || crate::text::str_eq(
            check,
            "suicidal",
        ) || crate::text::str_eq(check, "arbitrary-send") {
            Category::AccessControl
        } else if crate::text::str_eq(check, "timestamp") || crate::text::str_eq(
            check,
            "weak-prng",
        ) {
            Category::TimestampDependence
        } else if crate::text::str_eq(check, "low-level-calls") || crate::text::str_eq(
            check,
            "assembly",
        ) {
            Category::LowLevelCalls
        } else if crate::text::str_eq(check, "integer-overflow") || crate::text::str_eq(
            check,
            "divide-by-zero",
        ) {
            Category::IntegerOverflow
        } else if crate::text::str_eq(check, "locked-ether") || crate::text::str_eq(
            check,
            "missing-zero-check",
        ) {
            Category::CodeQuality
        } else if crate::text::str_eq(check, "dos-") {
            Category::DenialOfService
        } else {
            Category::Other
        }
    }

    /// The standard weakness identifier of a slither check.
    pub fn get_cwe_id(&self, check: &str) -> (r: Option<String>)
        ensures
            match spec_get_cwe_id(check@) {
                Some(g) => r matches Some(c) && c@ == g,
                None => r is None,
            },
    {
        if crate::text::str_eq(check, "reentrancy-eth") || crate::text::str_eq(
            check,
            "reentrancy-no-eth",
        ) {
            Some(String::from_str("CWE-362"))
        } else if crate::text::str_eq(check, "tx-origin") {
            Some(String::from_str("CWE-477"))
        } else if crate::text::str_eq(check, "timestamp") {
            Some(String::from_str("CWE-330"))
        } else if crate::text::str_eq(check, "unchecked-transfer") {
            Some(String::from_str("CWE-252"))
        } else if crate::text::str_eq(check, "integer-overflow") {
            Some(String::from_str("CWE-190"))
        } else if crate::text::str_eq(check, "divide-by-zero") {
            Some(String::from_str("CWE-369"))
        } else {
            None
        }
    }

    /// The remediation text of a slither check; unknown checks get a
    /// generic review recommendation naming the check.
    pub fn get_slither_recommendation(&self, check: &str) -> (r: String)
        ensures
            r@ == spec_slither_recommendation(check@),
    {
        if crate::text::str_eq(check, "reentrancy-eth") || crate::text::str_eq(
            check,
            "reentrancy-no-eth",
        ) {
            String::from_str(
                "Use the Checks-Effects-Interactions pattern or implement reentrancy guards using OpenZeppelin's ReentrancyGuard.",
            )
        } else if crate::text::str_eq(check, "tx-origin") {
            String::from_str("Use msg.sender instead of tx.origin for authorization checks.")
        } else if crate::text::str_eq(check, "timestamp") {
            String::from_str(
                "Avoid using block.timestamp for critical logic. Consider using block numbers or external oracles.",
            )
        } else if crate::text::str_eq(check, "unchecked-transfer") {
            String::from_str(
                "Check the return value of transfer operations or use SafeERC20 from OpenZeppelin.",
            )
        } else if crate::text::str_eq(check, "integer-overflow") {
            String::from_str("Use SafeMath library or Solidity 0.8+ built-in overflow protection.")
        } else if crate::text::str_eq(check, "low-level-calls") {
            String::from_str(
                "Avoid low-level calls when possible. If necessary, handle return values properly.",
            )
        } else if crate::text::str_eq(check, "arbitrary-send") {
            String::from_str(
                "Implement proper access controls to prevent unauthorized Ether transfers.",
            )
        } else {
            String::from_str("Review and address the ").concat(check).concat(
                " issue detected by Slither.",
            )
        }
    }

    /// Map a slither confidence label into hundredths.
    pub fn map_confidence(&self, confidence: &str) -> (r: u32)
        ensures
            r == spec_map_confidence(confidence@),
            r <= 100,
    {
        if crate::text::lower_eq(confidence, "high") {
            90
        } else if crate::text::lower_eq(confidence, "medium") {
            70
        } else if crate::text::lower_eq(confidence, "low") {
            50
        } else {
            60
        }
    }

    /// Normalize one slither detector record into a finding.  Every
    /// produced finding is slither-attributed, localised to this
    /// contract, and carries a mapped severity, category and confidence;
    /// records without the required fields yield nothing.
    /// Build the normalized finding for one slither detector record,
    /// from its plain field values: every field is fixed by the mapping
    /// tables and the record.
    pub fn normalize_slither_record(
        &self,
        check: &str,
        impact: &str,
        confidence: &str,
        description: &str,
        line_number: Option<usize>,
        code_snippet: Option<String>,
        contract_name: &String,
    ) -> (f: Finding)
        ensures
            f.title@ == "Slither: "@ + spec_format_check_name(check@),
            f.description@ == description@,
            f.severity == spec_map_slither_severity(impact@),
            f.category == spec_map_slither_category(check@),
            f.file_path@ == contract_name@,
            f.line_number == line_number,
            f.code_snippet == code_snippet,
            (f.recommendation matches Some(t) && t@ == spec_slither_recommendation(check@)),
            f.references@.len() == 2 && f.references@[0]@
                == "https://github.com/crytic/slither"@ && f.references@[1]@
                == "https://github.com/crytic/slither/wiki/Detector-Documentation#"@ + check@,
            match spec_get_cwe_id(check@) {
                Some(g) => f.cwe_id matches Some(c) && c@ == g,
                None => f.cwe_id is None,
            },
            f.tool@ == "Slither"@,
            f.confidence == spec_map_confidence(confidence@),
            f.id@.len() == 36,
    {
        let mut references: Vec<String> = Vec::new();
        references.push(String::from_str("https://github.com/crytic/slither"));
        references.push(
            String::from_str(
                "https://github.com/crytic/slither/wiki/Detector-Documentation#",
            ).concat(check),
        );
        let title = String::from_str("Slither: ").concat(self.format_check_name(check).as_str());
        Finding {
            id: crate::ids::fresh_id(),
            title,
            description: String::from_str(description),
            severity: self.map_slither_severity(impact),
            category: self.map_slither_category(check),
            file_path: contract_name.clone(),
            line_number,
            code_snippet,
            recommendation: Some(self.get_slither_recommendation(check)),
            references,
            cwe_id: self.get_cwe_id(check),
            tool: String::from_str("Slither"),
            confidence: self.map_confidence(confidence),
        }
    }

    pub fn parse_slither_detector(
        &self,
        detector: &serde_json::Value,
        contract: &ParsedContract,
    ) -> (r: Option<Finding>)
        ensures
            r matches Some(f) ==> slither_finding_ok(f, contract.name@),
    {
        let check = match crate::json::json_get(detector, "check") {
            Some(v) => match crate::json::json_as_str(v) {
                Some(s) => s,
                None => {
                    return None;
                },
            },
            None => {
                return None;
            },
        };
        let impact = match crate::json::json_get(detector, "impact") {
            Some(v) => match crate::json::json_as_str(v) {
                Some(s) => s,
                None => {
                    return None;
                },
            },
            None => {
                return None;
            },
        };
        let confidence = match crate::json::json_get(detector, "confidence") {
            Some(v) => match crate::json::json_as_str(v) {
                Some(s) => s,
                None => {
                    return None;
                },
            },
            None => {
                return None;
            },
        };
        let description = match crate::json::json_get(detector, "description") {
            Some(v) => match crate::json::json_as_str(v) {
                Some(s) => s,
                None => {
                    return None;
                },
            },
            None => {
                return None;
            },
        };
        let line_number = self.detector_line_number(detector);
        let code_snippet = self.detector_snippet(detector, contract, line_number);
        Some(
            self.normalize_slither_record(
                check,
                impact,
                confidence,
                description,
                line_number,
                code_snippet,
                &contract.name,
            ),
        )
    }

    /// The 1-based source line of a detector's first element, when its
    /// source mapping carries one that fits the platform's line range.
    fn detector_line_number(&self, detector: &serde_json::Value) -> (r: Option<usize>) {
        let elements = match crate::json::json_get(detector, "elements") {
            Some(v) => v,
            None => {
                return None;
            },
        };
        let arr = match crate::json::json_as_array(elements) {
            Some(a) => a,
            None => {
                return None;
            },
        };
        if arr.len() == 0 {
            return None;
        }
        let mapping = match crate::json::json_get(&arr[0], "source_mapping") {
            Some(v) => v,
            None => {
                return None;
            },
        };
        let lines = match crate::json::json_get(mapping, "lines") {
            Some(v) => v,
            None => {
                return None;
            },
        };
        let line_arr = match crate::json::json_as_array(lines) {
            Some(a) => a,
            None => {
                return None;
            },
        };
        if line_arr.len() == 0 {
            return None;
        }
        match crate::json::json_as_u64(&line_arr[0]) {
            Some(n) => {
                if n <= usize::MAX as u64 {
                    Some(n as usize)
                } else {
                    None
                }
            },
            None => None,
        }
    }

    /// The column-bounded excerpt of the located source line, when the
    /// detector's source mapping carries well-formed column bounds.
    fn detector_snippet(
        &self,
        detector: &serde_json::Value,
        contract: &ParsedContract,
        line_number: Option<usize>,
    ) -> (r: Option<String>) {
        let line_num = match line_number {
            Some(n) => n,
            None => {
                return None;
            },
        };
        let elements = match crate::json::json_get(detector, "elements") {
            Some(v) => v,
            None => {
                return None;
            },
        };
        let arr = match crate::json::json_as_array(elements) {
            Some(a) => a,
            None => {
                return None;
            },
        };
        if arr.len() == 0 {
            return None;
        }
        let mapping = match crate::json::json_get(&arr[0], "source_mapping") {
            Some(v) => v,
            None => {
                return None;
            },
        };
        let start_v = match crate::json::json_get(mapping, "starting_column") {
            Some(v) => v,
            None => {
                return None;
            },
        };
        let end_v = match crate::json::json_get(mapping, "ending_column") {
            Some(v) => v,
            None => {
                return None;
            },
        };
        let lines = crate::parser::split_lines(contract.source_code.as_str());
        if line_num == 0 || line_num > lines.len() {
            return None;
        }
        let line_content = &lines[line_num - 1];
        let line_len = line_content.as_str().unicode_len();
        let start_col: usize = match crate::json::json_as_u64(start_v) {
            Some(n) => {
                if n <= usize::MAX as u64 {
                    n as usize
                } else {
                    return None;
                }
            },
            None => 0,
        };
        let end_col: usize = match crate::json::json_as_u64(end_v) {
            Some(n) => {
                if n <= usize::MAX as u64 {
                    n as usize
                } else {
                    return None;
                }
            },
            None => line_len,
        };
        if start_col < line_len && end_col <= line_len && start_col <= end_col {
            Some(String::from_str(line_content.as_str().substring_char(start_col, end_col)))
        } else {
            None
        }
    }

    /// Normalize a whole slither JSON report: every finding in the
    /// result is slither-attributed and localised to this contract, and
    /// text that is not a well-formed report yields no findings rather
    /// than an error.
    pub fn parse_slither_output(&self, output: &str, contract: &ParsedContract) -> (r: Vec<
        Finding,
    >)
        ensures
            forall|k: int|
                0 <= k < r@.len() ==> slither_finding_ok(#[trigger] r@[k], contract.name@),
    {
        let mut out: Vec<Finding> = Vec::new();
        let parsed = match crate::json::json_parse(output) {
            Some(v) => v,
            None => {
                return out;
            },
        };
        let results = match crate::json::json_get(&parsed, "results") {
            Some(v) => v,
            None => {
                return out;
            },
        };
        let detectors = match crate::json::json_get(results, "detectors") {
            Some(v) => v,
            None => {
                return out;
            },
        };
        let arr = match crate::json::json_as_array(detectors) {
            Some(a) => a,
            None => {
                return out;
            },
        };
        let mut i: usize = 0;
        while i < arr.len()
            invariant
                forall|k: int|
                    0 <= k < out@.len() ==> slither_finding_ok(#[trigger] out@[k], contract.name@),
            decreases arr@.len() - i,
        {
            match self.parse_slither_detector(&arr[i], contract) {
                Some(f) => {
                    out.push(f);
                },
                None => {
                },
            }
            i = i + 1;
        }
        out
    }
}

} // verus!
