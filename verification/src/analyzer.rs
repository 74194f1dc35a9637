//! The analysis orchestrator: strictly ordered phases per contract,
//! merge of all backends' findings, and deterministic scoring.
//!
//! External tools and remote services run outside this crate; the
//! orchestrator is driven as a state machine.  The caller performs each
//! requested action and hands back the outcome, and every decision —
//! which phases run, how failures degrade, how findings merge and score —
//! is made here.  Scores use integers: the security score in whole
//! points, the complexity score and confidences in hundredths of a
//! point, durations in milliseconds.

use vstd::prelude::*;

use crate::errors::AnalysisError;
use crate::finding::{
    count_sev, lemma_count_sev_concat, matches_expected, ExpectedFinding, Finding, Severity,
    severity_weight, severity_weight_points,
};
use crate::model::{ContractInfo, ParsedContract};
use crate::parser::{fn_records_upto, lines_of, parsed_contract_ok, ContractParser};
use crate::plugins::{known_platform, manager_battery, manager_tool, PluginManager};

verus! {

/// Per-run aggregate counts, timing and tool roster.
#[derive(Clone, Debug)]
pub struct AnalysisSummary {
    pub total_vulnerabilities: usize,
    pub critical_count: usize,
    pub high_count: usize,
    pub medium_count: usize,
    pub low_count: usize,
    pub info_count: usize,
    /// Elapsed wall time in milliseconds.
    pub analysis_duration: u64,
    pub tools_used: Vec<String>,
    /// Coverage estimate in whole percent.
    pub coverage_percentage: u64,
}

/// Size and scoring metrics of one run.
#[derive(Clone, Debug)]
pub struct AnalysisMetrics {
    pub lines_of_code: usize,
    pub functions_analyzed: usize,
    /// Complexity score in hundredths of a point, capped at 100.00.
    pub complexity_score: u64,
    /// Security score in whole points, within 0 ..= 100.
    pub security_score: u64,
    /// Gas analysis is not implemented; always zero.
    pub gas_optimization_score: u64,
}

/// The immutable per-run result handed to the reporter.
#[derive(Clone, Debug)]
pub struct AnalysisResults {
    pub contract_name: String,
    pub vulnerabilities: Vec<Finding>,
    pub analysis_summary: AnalysisSummary,
    pub recommendations: Vec<String>,
    pub metrics: AnalysisMetrics,
    /// Caller-supplied creation time in milliseconds since the epoch.
    pub timestamp: u64,
}

/// An AI-generated, non-heuristic attack hypothesis, optionally carrying
/// a proof of concept.  `confidence` is in hundredths.
#[derive(Clone, Debug)]
pub struct CreativeProbe {
    pub title: String,
    pub description: String,
    pub severity: String,
    pub attack_vector: String,
    pub impact: String,
    pub proof_of_concept: Option<String>,
    pub recommended_fix: Option<String>,
    pub confidence: u32,
}

/// Caller-selected analysis depth, gating which phases run.
#[derive(Clone, Copy, Debug, PartialEq, Eq, Structural)]
pub enum AnalysisDepth {
    Basic,
    Standard,
    Deep,
}

/// The strictly ordered phases of one contract's analysis.
#[derive(Clone, Copy, Debug, PartialEq, Eq, Structural)]
pub enum AnalysisPhase {
    StaticPass,
    DynamicPass,
    AiPass,
    Complete,
}

/// What one external backend invocation produced.  Unavailability and
/// execution failure are recoverable: they contribute zero findings.
pub enum BackendOutcome {
    Findings(Vec<Finding>),
    Unavailable,
    ExecutionFailed,
}

/// Total scoring penalty of a finding list.
pub open spec fn spec_security_penalty(s: Seq<Finding>) -> int
    decreases s.len(),
{
    if s.len() == 0 {
        0
    } else {
        spec_security_penalty(s.drop_last()) + severity_weight(s.last().severity)
    }
}

/// The security score: one hundred points minus the per-severity
/// penalty of every finding, clamped at zero.
pub open spec fn spec_security_score(s: Seq<Finding>) -> int {
    if spec_security_penalty(s) >= 100 {
        0
    } else {
        100 - spec_security_penalty(s)
    }
}

pub proof fn lemma_security_penalty_nonneg(s: Seq<Finding>)
    ensures
        spec_security_penalty(s) >= 0,
    decreases s.len(),
{
    if s.len() > 0 {
        lemma_security_penalty_nonneg(s.drop_last());
    }
}

/// The security score always lies within 0 ..= 100.
pub proof fn lemma_security_score_bounds(s: Seq<Finding>)
    ensures
        0 <= spec_security_score(s) <= 100,
{
    lemma_security_penalty_nonneg(s);
}

/// The security score is monotonically non-increasing as findings are
/// added.
pub proof fn lemma_security_score_monotone(s: Seq<Finding>, f: Finding)
    ensures
        spec_security_score(s.push(f)) <= spec_security_score(s),
{
    assert(s.push(f).drop_last() =~= s);
    lemma_security_penalty_nonneg(s);
}

/// The complexity score in hundredths: one tenth of a point per
/// function plus one hundredth per line, capped at one hundred points.
pub open spec fn spec_complexity_score(functions: int, lines: int) -> int {
    if 10 * functions + lines >= 10000 {
        10000
    } else {
        10 * functions + lines
    }
}

/// The canonical severity a mythril severity label maps to; unknown
/// labels take the documented default of `Medium`.
pub open spec fn spec_map_mythril_severity(s: Seq<char>) -> Severity {
    if crate::text::lower_seq(s) == "high"@ {
        Severity::High
    } else if crate::text::lower_seq(s) == "medium"@ {
        Severity::Medium
    } else if crate::text::lower_seq(s) == "low"@ {
        Severity::Low
    } else {
        Severity::Medium
    }
}

/// The external static analyzers of each platform, by depth; `None` for
/// an unregistered platform.
pub open spec fn spec_static_tools(target: Seq<char>, depth: AnalysisDepth) -> Option<
    Seq<Seq<char>>,
> {
    if target == "evm"@ {
        if depth == AnalysisDepth::Deep {
            Some(seq!["slither"@, "myth"@])
        } else {
            Some(seq!["slither"@])
        }
    } else if target == "move"@ {
        Some(seq!["move-prover"@])
    } else if target == "cairo"@ {
        Some(seq!["cairo-compile"@])
    } else {
        None
    }
}

impl PluginManager {
    /// The expected plugin findings over a list of parsed contracts, as
    /// pairs of expected finding and owning contract name, in contract
    /// order.
    pub open spec fn units_batteries(
        cs: Seq<ParsedContract>,
        p: Seq<char>,
        n: int,
    ) -> Seq<(ExpectedFinding, Seq<char>)>
        decreases n when n >= 0
    {
        if n <= 0 {
            Seq::empty()
        } else {
            Self::units_batteries(cs, p, n - 1) + Self::battery_with_file(
                manager_battery(p, cs[n - 1]),
                cs[n - 1].name@,
            )
        }
    }

    /// A battery tagged with the file it belongs to.
    pub open spec fn battery_with_file(es: Seq<ExpectedFinding>, file: Seq<char>) -> Seq<
        (ExpectedFinding, Seq<char>),
    > {
        es.map_values(|e: ExpectedFinding| (e, file))
    }
}

/// The produced findings realise tagged expected findings, one for one.
pub open spec fn tagged_battery_matches(
    fs: Seq<Finding>,
    es: Seq<(ExpectedFinding, Seq<char>)>,
    tool: Seq<char>,
) -> bool {
    fs.len() == es.len() && forall|i: int|
        0 <= i < fs.len() ==> matches_expected(#[trigger] fs[i], es[i].0, es[i].1, tool)
}

proof fn lemma_tagged_battery_concat(
    fs1: Seq<Finding>,
    es1: Seq<(ExpectedFinding, Seq<char>)>,
    fs2: Seq<Finding>,
    es2: Seq<(ExpectedFinding, Seq<char>)>,
    tool: Seq<char>,
)
    requires
        tagged_battery_matches(fs1, es1, tool),
        tagged_battery_matches(fs2, es2, tool),
    ensures
        tagged_battery_matches(fs1 + fs2, es1 + es2, tool),
{
    assert forall|i: int| 0 <= i < (fs1 + fs2).len() implies matches_expected(
        #[trigger] (fs1 + fs2)[i],
        (es1 + es2)[i].0,
        (es1 + es2)[i].1,
        tool,
    ) by {
        if i < fs1.len() {
            assert((fs1 + fs2)[i] == fs1[i]);
            assert((es1 + es2)[i] == es1[i]);
        } else {
            assert((fs1 + fs2)[i] == fs2[i - fs1.len()]);
            assert((es1 + es2)[i] == es2[i - es1.len()]);
        }
    }
}

/// An integer clamped into the unsigned pointer range, as a saturating
/// sum computes it.
pub open spec fn clamp_to_usize(n: int) -> int {
    if n >= usize::MAX {
        usize::MAX as int
    } else {
        n
    }
}

/// Total line count over the first `n` units' sources.
pub open spec fn sum_unit_lines(us: Seq<ContractInfo>, n: int) -> int
    decreases n when n >= 0
{
    if n <= 0 {
        0
    } else {
        sum_unit_lines(us, n - 1) + lines_of(us[n - 1].source_code@).len()
    }
}

/// How many function declarations the parser finds in one unit's source.
pub open spec fn unit_fn_count(u: ContractInfo) -> int {
    fn_records_upto(
        lines_of(u.source_code@),
        lines_of(u.source_code@).len() as int,
    ).len() as int
}

/// Total parsed function count over the first `n` units.
pub open spec fn sum_unit_fns(us: Seq<ContractInfo>, n: int) -> int
    decreases n when n >= 0
{
    if n <= 0 {
        0
    } else {
        sum_unit_fns(us, n - 1) + unit_fn_count(us[n - 1])
    }
}

proof fn lemma_sum_unit_lines_nonneg(us: Seq<ContractInfo>, n: int)
    requires
        n >= 0,
    ensures
        sum_unit_lines(us, n) >= 0,
    decreases n,
{
    if n > 0 {
        lemma_sum_unit_lines_nonneg(us, n - 1);
    }
}

proof fn lemma_sum_unit_fns_nonneg(us: Seq<ContractInfo>, n: int)
    requires
        n >= 0,
    ensures
        sum_unit_fns(us, n) >= 0,
    decreases n,
{
    if n > 0 {
        lemma_sum_unit_fns_nonneg(us, n - 1);
    }
}

/// The per-function fields the EVM battery reads.
spec fn functions_view_equal(f1: Seq<crate::model::FunctionInfo>, f2: Seq<
    crate::model::FunctionInfo,
>) -> bool {
    f1.len() == f2.len() && forall|k: int|
        0 <= k < f1.len() ==> {
            &&& (#[trigger] f1[k]).name@ == f2[k].name@
            &&& f1[k].body@ == f2[k].body@
            &&& f1[k].line_number == f2[k].line_number
        }
}

proof fn lemma_evm_battery_upto_congruent(c1: ParsedContract, c2: ParsedContract, n: int)
    requires
        c1.source_code@ == c2.source_code@,
        functions_view_equal(c1.functions@, c2.functions@),
        0 <= n <= c1.functions@.len(),
    ensures
        crate::plugins::evm::evm_battery_upto(c1, n) == crate::plugins::evm::evm_battery_upto(
            c2,
            n,
        ),
    decreases n,
{
    if n <= 0 {
        assert(crate::plugins::evm::fires_tx_origin(c1) == crate::plugins::evm::fires_tx_origin(
            c2,
        ));
        assert(crate::plugins::evm::fires_selfdestruct(c1)
            == crate::plugins::evm::fires_selfdestruct(c2));
        assert(crate::plugins::evm::fires_unchecked_call(c1)
            == crate::plugins::evm::fires_unchecked_call(c2));
        assert(crate::plugins::evm::fires_reentrancy(c1) == crate::plugins::evm::fires_reentrancy(
            c2,
        ));
        assert(crate::plugins::evm::evm_fixed_checks(c1)
            == crate::plugins::evm::evm_fixed_checks(c2));
    } else {
        lemma_evm_battery_upto_congruent(c1, c2, n - 1);
        assert(c1.functions@[n - 1].body@ == c2.functions@[n - 1].body@);
        assert(c1.functions@[n - 1].name@ == c2.functions@[n - 1].name@);
        assert(crate::plugins::evm::fires_gas_loop(c1.functions@[n - 1])
            == crate::plugins::evm::fires_gas_loop(c2.functions@[n - 1]));
        if crate::plugins::evm::fires_gas_loop(c1.functions@[n - 1]) {
            assert(crate::plugins::evm::expected_gas_loop(c1.functions@[n - 1])
                == crate::plugins::evm::expected_gas_loop(c2.functions@[n - 1]));
        }
    }
}

proof fn lemma_ink_battery_congruent(c1: ParsedContract, c2: ParsedContract)
    requires
        c1.source_code@ == c2.source_code@,
    ensures
        crate::plugins::ink::ink_battery(c1) == crate::plugins::ink::ink_battery(c2),
{
}

proof fn lemma_cairo_battery_congruent(c1: ParsedContract, c2: ParsedContract)
    requires
        c1.source_code@ == c2.source_code@,
    ensures
        crate::plugins::cairo::cairo_battery(c1) == crate::plugins::cairo::cairo_battery(c2),
{
}

proof fn lemma_move_battery_congruent(c1: ParsedContract, c2: ParsedContract)
    requires
        c1.source_code@ == c2.source_code@,
    ensures
        crate::plugins::move_lang::move_battery(c1) == crate::plugins::move_lang::move_battery(
            c2,
        ),
{
}

/// A heuristic battery is a function of the contract's text views alone:
/// two parsed contracts realising the same unit carry the same battery.
proof fn lemma_parsed_battery_congruent(
    pc1: ParsedContract,
    pc2: ParsedContract,
    u: ContractInfo,
    p: Seq<char>,
)
    requires
        parsed_contract_ok(pc1, u),
        parsed_contract_ok(pc2, u),
    ensures
        manager_battery(p, pc1) == manager_battery(p, pc2),
        pc1.name@ == pc2.name@,
{
    assert(pc1.source_code@ == pc2.source_code@);
    let lines = lines_of(u.source_code@);
    let recs = fn_records_upto(lines, lines.len() as int);
    assert(functions_view_equal(pc1.functions@, pc2.functions@)) by {
        assert(pc1.functions@.len() == recs.len());
        assert(pc2.functions@.len() == recs.len());
        assert forall|k: int| 0 <= k < pc1.functions@.len() implies {
            &&& (#[trigger] pc1.functions@[k]).name@ == pc2.functions@[k].name@
            &&& pc1.functions@[k].body@ == pc2.functions@[k].body@
            &&& pc1.functions@[k].line_number == pc2.functions@[k].line_number
        } by {
            assert(crate::parser::fn_info_matches(pc1.functions@[k], recs[k].0, recs[k].1, lines));
            assert(crate::parser::fn_info_matches(pc2.functions@[k], recs[k].0, recs[k].1, lines));
        }
    }
    lemma_evm_battery_upto_congruent(pc1, pc2, pc1.functions@.len() as int);
    assert(crate::plugins::evm::evm_battery(pc1) == crate::plugins::evm::evm_battery(pc2));
    lemma_ink_battery_congruent(pc1, pc2);
    lemma_cairo_battery_congruent(pc1, pc2);
    lemma_move_battery_congruent(pc1, pc2);
}

/// Two parsed lists realising the same units carry the same tagged
/// batteries.
proof fn lemma_units_batteries_congruent(
    pcs1: Seq<ParsedContract>,
    pcs2: Seq<ParsedContract>,
    us: Seq<ContractInfo>,
    p: Seq<char>,
    n: int,
)
    requires
        parsed_units_match(pcs1, us),
        parsed_units_match(pcs2, us),
        0 <= n <= us.len(),
    ensures
        PluginManager::units_batteries(pcs1, p, n) == PluginManager::units_batteries(pcs2, p, n),
    decreases n,
{
    if n > 0 {
        lemma_units_batteries_congruent(pcs1, pcs2, us, p, n - 1);
        lemma_parsed_battery_congruent(pcs1[n - 1], pcs2[n - 1], us[n - 1], p);
    }
}

/// The contract units with non-empty source, in order.
pub open spec fn nonempty_units(us: Seq<ContractInfo>, n: int) -> Seq<ContractInfo>
    decreases n when n >= 0
{
    if n <= 0 {
        Seq::empty()
    } else {
        let p = nonempty_units(us, n - 1);
        if us[n - 1].source_code@.len() > 0 {
            p.push(us[n - 1])
        } else {
            p
        }
    }
}

/// The parsed contracts realise the parseable units, one for one.
pub open spec fn parsed_units_match(pcs: Seq<ParsedContract>, us: Seq<ContractInfo>) -> bool {
    pcs.len() == us.len() && forall|k: int|
        0 <= k < pcs.len() ==> parsed_contract_ok(#[trigger] pcs[k], us[k])
}

proof fn lemma_parsed_units_push(
    pcs: Seq<ParsedContract>,
    us: Seq<ContractInfo>,
    pc: ParsedContract,
    u: ContractInfo,
)
    requires
        parsed_units_match(pcs, us),
        parsed_contract_ok(pc, u),
    ensures
        parsed_units_match(pcs.push(pc), us.push(u)),
{
    assert forall|k: int| 0 <= k < pcs.push(pc).len() implies parsed_contract_ok(
        #[trigger] pcs.push(pc)[k],
        us.push(u)[k],
    ) by {
        if k < pcs.len() {
            assert(pcs.push(pc)[k] == pcs[k]);
            assert(us.push(u)[k] == us[k]);
        } else {
            assert(pcs.push(pc)[k] == pc);
            assert(us.push(u)[k] == u);
        }
    }
}

/// One contract's analysis, driven phase by phase.  The caller performs
/// each external invocation and records its outcome; findings accumulate
/// in phase order then producer order, and a backend that fails
/// contributes nothing and stays out of the tool roster.
pub struct AnalysisRun {
    pub platform: String,
    pub depth: AnalysisDepth,
    pub use_ai: bool,
    pub phase: AnalysisPhase,
    pub findings: Vec<Finding>,
    pub tools_used: Vec<String>,
}

impl AnalysisRun {
    /// Begin a run in the static phase with nothing accumulated.
    pub fn new(platform: String, depth: AnalysisDepth, use_ai: bool) -> (r: Self)
        ensures
            r.platform == platform,
            r.depth == depth,
            r.use_ai == use_ai,
            r.phase == AnalysisPhase::StaticPass,
            r.findings@ =~= Seq::<Finding>::empty(),
            r.tools_used@ =~= Seq::<String>::empty(),
    {
        AnalysisRun {
            platform,
            depth,
            use_ai,
            phase: AnalysisPhase::StaticPass,
            findings: Vec::new(),
            tools_used: Vec::new(),
        }
    }

    /// Record one static- or dynamic-phase backend invocation.  Success
    /// appends the backend's findings and enrols the tool; unavailability
    /// and execution failure are absorbed, contribute zero findings, and
    /// leave the tool off the roster.
    pub fn record_backend(&mut self, tool: String, outcome: BackendOutcome)
        requires
            old(self).phase == AnalysisPhase::StaticPass || old(self).phase
                == AnalysisPhase::DynamicPass,
        ensures
            final(self).platform == old(self).platform,
            final(self).depth == old(self).depth,
            final(self).use_ai == old(self).use_ai,
            final(self).phase == old(self).phase,
            match outcome {
                BackendOutcome::Findings(fs) => final(self).findings@ == old(self).findings@
                    + fs@ && final(self).tools_used@ == old(self).tools_used@.push(tool),
                _ => final(self).findings@ == old(self).findings@ && final(self).tools_used@
                    == old(self).tools_used@,
            },
    {
        match outcome {
            BackendOutcome::Findings(mut fs) => {
                self.findings.append(&mut fs);
                self.tools_used.push(tool);
            },
            BackendOutcome::Unavailable => {
            },
            BackendOutcome::ExecutionFailed => {
            },
        }
    }

    /// Record the AI pass.  Unlike the other backends, a hard AI failure
    /// is not swallowed: AI participation was explicitly requested, so
    /// the failure surfaces as an error for this contract.
    pub fn record_ai(&mut self, outcome: Result<Vec<Finding>, AnalysisError>) -> (r: Result<
        (),
        AnalysisError,
    >)
        requires
            old(self).phase == AnalysisPhase::AiPass,
            old(self).use_ai,
        ensures
            final(self).platform == old(self).platform,
            final(self).depth == old(self).depth,
            final(self).use_ai == old(self).use_ai,
            final(self).phase == old(self).phase,
            match outcome {
                Ok(fs) => {
                    &&& r is Ok
                    &&& final(self).findings@ == old(self).findings@ + fs@
                    &&& final(self).tools_used@.len() == old(self).tools_used@.len() + 1
                    &&& final(self).tools_used@.last()@ == "AI Assistant"@
                    &&& final(self).tools_used@.subrange(0, old(self).tools_used@.len() as int)
                        == old(self).tools_used@
                },
                Err(_) => {
                    &&& r == Err::<(), AnalysisError>(AnalysisError::AiBackendFailure)
                    &&& final(self).findings@ == old(self).findings@
                    &&& final(self).tools_used@ == old(self).tools_used@
                },
            },
    {
        match outcome {
            Ok(mut fs) => {
                self.findings.append(&mut fs);
                self.tools_used.push(String::from_str("AI Assistant"));
                Ok(())
            },
            Err(_) => Err(AnalysisError::AiBackendFailure),
        }
    }

    /// Advance to the next phase the caller's depth and AI selection ask
    /// for: static, then dynamic only at deep depth, then AI only when
    /// requested.
    pub fn advance_phase(&mut self)
        requires
            old(self).phase != AnalysisPhase::Complete,
        ensures
            final(self).platform == old(self).platform,
            final(self).depth == old(self).depth,
            final(self).use_ai == old(self).use_ai,
            final(self).findings == old(self).findings,
            final(self).tools_used == old(self).tools_used,
            old(self).phase == AnalysisPhase::StaticPass ==> final(self).phase == (if old(
                self,
            ).depth == AnalysisDepth::Deep {
                AnalysisPhase::DynamicPass
            } else if old(self).use_ai {
                AnalysisPhase::AiPass
            } else {
                AnalysisPhase::Complete
            }),
            old(self).phase == AnalysisPhase::DynamicPass ==> final(self).phase == (if old(
                self,
            ).use_ai {
                AnalysisPhase::AiPass
            } else {
                AnalysisPhase::Complete
            }),
            old(self).phase == AnalysisPhase::AiPass ==> final(self).phase
                == AnalysisPhase::Complete,
    {
        let next = match self.phase {
            AnalysisPhase::StaticPass => {
                if matches!(self.depth, AnalysisDepth::Deep) {
                    AnalysisPhase::DynamicPass
                } else if self.use_ai {
                    AnalysisPhase::AiPass
                } else {
                    AnalysisPhase::Complete
                }
            },
            AnalysisPhase::DynamicPass => {
                if self.use_ai {
                    AnalysisPhase::AiPass
                } else {
                    AnalysisPhase::Complete
                }
            },
            AnalysisPhase::AiPass => AnalysisPhase::Complete,
            AnalysisPhase::Complete => AnalysisPhase::Complete,
        };
        self.phase = next;
    }
}

/// The analysis engine: sequences parser, plugin and backend passes and
/// computes the merged result.
pub struct AnalysisEngine {
    pub plugin_manager: PluginManager,
}

impl AnalysisEngine {
    /// Create a new analysis engine around a plugin registry.
    pub fn new(plugin_manager: PluginManager) -> (r: Self) {
        AnalysisEngine { plugin_manager }
    }

    /// Ingest: parse every unit with non-empty source.  The run fails
    /// with `NoContractsFound` exactly when no unit yields a parseable
    /// contract — in particular, an empty source string alone does.
    pub fn ingest(&self, units: &Vec<ContractInfo>) -> (r: Result<
        Vec<ParsedContract>,
        AnalysisError,
    >)
        ensures
            match r {
                Ok(pcs) => parsed_units_match(
                    pcs@,
                    nonempty_units(units@, units@.len() as int),
                ) && pcs@.len() > 0,
                Err(e) => e == AnalysisError::NoContractsFound && nonempty_units(
                    units@,
                    units@.len() as int,
                ).len() == 0,
            },
    {
        let parser = ContractParser::new();
        let mut out: Vec<ParsedContract> = Vec::new();
        let mut i: usize = 0;
        while i < units.len()
            invariant
                i <= units@.len(),
                parsed_units_match(out@, nonempty_units(units@, i as int)),
            decreases units@.len() - i,
        {
            let unit = &units[i];
            if unit.source_code.as_str().unicode_len() > 0 {
                // The parser never fails on contract text, so this arm
                // is provably unreachable.
                let parsed = match parser.parse_contract(unit) {
                    Ok(pc) => pc,
                    Err(_) => {
                        proof {
                            assert(false);
                        }
                        return Err(AnalysisError::NoContractsFound);
                    },
                };
                proof {
                    lemma_parsed_units_push(
                        out@,
                        nonempty_units(units@, i as int),
                        parsed,
                        units@[i as int],
                    );
                }
                out.push(parsed);
            }
            i = i + 1;
        }
        if out.len() == 0 {
            Err(AnalysisError::NoContractsFound)
        } else {
            Ok(out)
        }
    }

    /// Analyze contract units end to end with the in-process passes:
    /// ingest, the platform plugin battery, merge and scoring.  External
    /// backends are recorded separately by the caller through
    /// [`AnalysisRun`]; their absence degrades to zero findings, so this
    /// composition alone is a complete, reduced run.  Timing comes from
    /// the caller.
    pub fn analyze_contracts(
        &self,
        units: &Vec<ContractInfo>,
        target: &str,
        duration_ms: u64,
        timestamp: u64,
    ) -> (r: Result<AnalysisResults, AnalysisError>)
        ensures
            nonempty_units(units@, units@.len() as int).len() == 0 ==> r == Err::<
                AnalysisResults,
                AnalysisError,
            >(AnalysisError::NoContractsFound),
            nonempty_units(units@, units@.len() as int).len() > 0 && !known_platform(target@)
                ==> r == Err::<AnalysisResults, AnalysisError>(
                AnalysisError::PlatformNotSupported,
            ),
            r matches Ok(results) ==> {
                let nus = nonempty_units(units@, units@.len() as int);
                &&& known_platform(target@)
                &&& forall|pcs: Seq<ParsedContract>|
                    #[trigger] parsed_units_match(pcs, nus) ==> tagged_battery_matches(
                        results.vulnerabilities@,
                        PluginManager::units_batteries(pcs, target@, pcs.len() as int),
                        manager_tool(target@),
                    )
                &&& results.contract_name@ == nus[0].name@
                &&& results.metrics.lines_of_code == clamp_to_usize(
                    sum_unit_lines(nus, nus.len() as int),
                )
                &&& results.metrics.functions_analyzed == clamp_to_usize(
                    sum_unit_fns(nus, nus.len() as int),
                )
                &&& results.metrics.complexity_score == spec_complexity_score(
                    results.metrics.functions_analyzed as int,
                    results.metrics.lines_of_code as int,
                )
                &&& results.metrics.security_score == spec_security_score(
                    results.vulnerabilities@,
                )
                &&& results.analysis_summary.total_vulnerabilities
                    == results.vulnerabilities@.len()
                &&& results.analysis_summary.analysis_duration == duration_ms
                &&& results.timestamp == timestamp
                &&& results.analysis_summary.tools_used@.len() == 1
                &&& results.analysis_summary.tools_used@[0]@ == "Plugin"@
            },
    {
        let ghost nus = nonempty_units(units@, units@.len() as int);
        let contracts = match self.ingest(units) {
            Ok(cs) => cs,
            Err(e) => {
                return Err(e);
            },
        };
        let findings = match self.run_plugin_analysis(&contracts, target) {
            Ok(fs) => fs,
            Err(e) => {
                return Err(e);
            },
        };
        let ghost merged = findings@;
        let mut total_lines: usize = 0;
        let mut total_functions: usize = 0;
        let mut i: usize = 0;
        proof {
            assert(contracts@.len() == nus.len());
        }
        while i < contracts.len()
            invariant
                i <= contracts@.len(),
                contracts@.len() == nus.len(),
                parsed_units_match(contracts@, nus),
                total_lines == clamp_to_usize(sum_unit_lines(nus, i as int)),
                total_functions == clamp_to_usize(sum_unit_fns(nus, i as int)),
            decreases contracts@.len() - i,
        {
            proof {
                lemma_sum_unit_lines_nonneg(nus, i as int);
                lemma_sum_unit_fns_nonneg(nus, i as int);
                assert(parsed_contract_ok(contracts@[i as int], nus[i as int]));
            }
            let lines = crate::parser::split_lines(contracts[i].source_code.as_str());
            proof {
                assert(crate::parser::views_of(lines@).len() == lines@.len());
                assert(lines@.len() == lines_of(nus[i as int].source_code@).len());
            }
            if lines.len() <= usize::MAX - total_lines {
                total_lines = total_lines + lines.len();
            } else {
                total_lines = usize::MAX;
            }
            proof {
                let src_lines = lines_of(nus[i as int].source_code@);
                let recs = fn_records_upto(src_lines, src_lines.len() as int);
                assert(contracts@[i as int].functions@.len() == recs.len());
                assert(contracts@[i as int].functions@.len() == unit_fn_count(nus[i as int]));
            }
            if contracts[i].functions.len() <= usize::MAX - total_functions {
                total_functions = total_functions + contracts[i].functions.len();
            } else {
                total_functions = usize::MAX;
            }
            i = i + 1;
        }
        let mut run = AnalysisRun::new(
            String::from_str(target),
            AnalysisDepth::Standard,
            false,
        );
        run.record_backend(String::from_str("Plugin"), BackendOutcome::Findings(findings));
        run.advance_phase();
        proof {
            assert(run.findings@ =~= merged);
        }
        let name = contracts[0].name.clone();
        let results = self.finish_run(run, name, total_lines, total_functions, duration_ms, timestamp);
        proof {
            assert(known_platform(target@));
            assert(results.vulnerabilities@ == merged);
            assert forall|pcs: Seq<ParsedContract>|
                #[trigger] parsed_units_match(pcs, nus) implies tagged_battery_matches(
                results.vulnerabilities@,
                PluginManager::units_batteries(pcs, target@, pcs.len() as int),
                manager_tool(target@),
            ) by {
                assert(pcs.len() == nus.len());
                lemma_units_batteries_congruent(contracts@, pcs, nus, target@, nus.len() as int);
            }
            assert(results.contract_name@ == nus[0].name@) by {
                assert(parsed_contract_ok(contracts@[0], nus[0]));
            }
        }
        Ok(results)
    }

    /// Merge one contract unit's creative probes onto the run's
    /// collection, preserving per-unit order.  The probe entry point
    /// delegates entirely to the AI backend per unit — prompt built by
    /// the library, reply parsed by the library — and concatenates the
    /// batches here, unit by unit in provider order.
    pub fn append_probes(&self, all: &mut Vec<CreativeProbe>, batch: Vec<CreativeProbe>)
        ensures
            final(all)@ == old(all)@ + batch@,
    {
        let mut batch = batch;
        all.append(&mut batch);
    }

    /// The static-phase plugin pass: run the resolved platform plugin's
    /// battery over every contract and merge the findings in contract
    /// order.  An unknown platform identifier is fatal before any
    /// backend is invoked.
    pub fn run_plugin_analysis(
        &self,
        contracts: &Vec<ParsedContract>,
        target_platform: &str,
    ) -> (r: Result<Vec<Finding>, AnalysisError>)
        ensures
            !known_platform(target_platform@) ==> r == Err::<Vec<Finding>, AnalysisError>(
                AnalysisError::PlatformNotSupported,
            ),
            known_platform(target_platform@) ==> (r matches Ok(v) && tagged_battery_matches(
                v@,
                PluginManager::units_batteries(
                    contracts@,
                    target_platform@,
                    contracts@.len() as int,
                ),
                manager_tool(target_platform@),
            )),
    {
        if self.plugin_manager.get_plugin(target_platform).is_none() {
            return Err(AnalysisError::PlatformNotSupported);
        }
        let mut out: Vec<Finding> = Vec::new();
        let mut i: usize = 0;
        while i < contracts.len()
            invariant
                i <= contracts@.len(),
                known_platform(target_platform@) ==> tagged_battery_matches(
                    out@,
                    PluginManager::units_batteries(contracts@, target_platform@, i as int),
                    manager_tool(target_platform@),
                ),
            decreases contracts@.len() - i,
        {
            let mut fs = match self.plugin_manager.analyze_contract(
                &contracts[i],
                target_platform,
            ) {
                Ok(fs) => fs,
                Err(e) => {
                    return Err(e);
                },
            };
            proof {
                let c = contracts@[i as int];
                let es = manager_battery(target_platform@, c);
                let tagged = PluginManager::battery_with_file(es, c.name@);
                assert(fs@.len() == tagged.len());
                assert forall|k: int| 0 <= k < fs@.len() implies matches_expected(
                    #[trigger] fs@[k],
                    tagged[k].0,
                    tagged[k].1,
                    manager_tool(target_platform@),
                ) by {
                    assert(tagged[k] == (es[k], c.name@));
                }
                lemma_tagged_battery_concat(
                    out@,
                    PluginManager::units_batteries(contracts@, target_platform@, i as int),
                    fs@,
                    tagged,
                    manager_tool(target_platform@),
                );
            }
            out.append(&mut fs);
            i = i + 1;
        }
        Ok(out)
    }

    /// Calculate the security score of a merged finding list.
    pub fn calculate_security_score(&self, vulnerabilities: &Vec<Finding>) -> (r: u64)
        ensures
            r == spec_security_score(vulnerabilities@),
            r <= 100,
    {
        let mut capped_penalty: u64 = 0;
        let mut i: usize = 0;
        proof {
            assert(vulnerabilities@.subrange(0, 0) =~= Seq::<Finding>::empty());
        }
        while i < vulnerabilities.len()
            invariant
                i <= vulnerabilities@.len(),
                capped_penalty <= 100,
                capped_penalty == if spec_security_penalty(
                    vulnerabilities@.subrange(0, i as int),
                ) >= 100 {
                    100int
                } else {
                    spec_security_penalty(vulnerabilities@.subrange(0, i as int))
                },
            decreases vulnerabilities@.len() - i,
        {
            proof {
                lemma_security_penalty_nonneg(vulnerabilities@.subrange(0, i as int));
                assert(vulnerabilities@.subrange(0, i + 1).drop_last() =~= vulnerabilities@
                    .subrange(0, i as int));
                assert(vulnerabilities@.subrange(0, i + 1).last() == vulnerabilities@[i as int]);
            }
            let w = severity_weight_points(vulnerabilities[i].severity);
            if capped_penalty + w >= 100 {
                capped_penalty = 100;
            } else {
                capped_penalty = capped_penalty + w;
            }
            i = i + 1;
        }
        proof {
            assert(vulnerabilities@.subrange(0, vulnerabilities@.len() as int)
                =~= vulnerabilities@);
        }
        100 - capped_penalty
    }

    /// Calculate the complexity score, in hundredths of a point.
    pub fn calculate_complexity_score(&self, functions: usize, lines: usize) -> (r: u64)
        ensures
            r == spec_complexity_score(functions as int, lines as int),
            r <= 10000,
    {
        let scaled: u128 = 10u128 * (functions as u128) + (lines as u128);
        if scaled >= 10000 {
            10000
        } else {
            scaled as u64
        }
    }

    /// Tally the merged findings per severity and assemble the summary.
    pub fn generate_analysis_summary(
        &self,
        vulnerabilities: &Vec<Finding>,
        duration_ms: u64,
        tools_used: Vec<String>,
    ) -> (r: AnalysisSummary)
        ensures
            r.total_vulnerabilities == vulnerabilities@.len(),
            r.critical_count == count_sev(vulnerabilities@, Severity::Critical),
            r.high_count == count_sev(vulnerabilities@, Severity::High),
            r.medium_count == count_sev(vulnerabilities@, Severity::Medium),
            r.low_count == count_sev(vulnerabilities@, Severity::Low),
            r.info_count == count_sev(vulnerabilities@, Severity::Info),
            r.analysis_duration == duration_ms,
            r.tools_used == tools_used,
            r.coverage_percentage == 85,
    {
        let counts = severity_counts(vulnerabilities);
        AnalysisSummary {
            total_vulnerabilities: vulnerabilities.len(),
            critical_count: counts.0,
            high_count: counts.1,
            medium_count: counts.2,
            low_count: counts.3,
            info_count: counts.4,
            analysis_duration: duration_ms,
            tools_used,
            coverage_percentage: 85,
        }
    }

    /// Generate the run's textual recommendations: tailored opening
    /// advice depending on whether anything was found, then the two
    /// standing recommendations.
    pub fn generate_recommendations(&self, vulnerabilities: &Vec<Finding>) -> (r: Vec<String>)
        ensures
            vulnerabilities@.len() == 0 ==> {
                &&& r@.len() == 4
                &&& r@[0]@
                    == "Great job! No vulnerabilities were found in the initial analysis."@
                &&& r@[1]@
                    == "Consider running a deeper analysis with fuzzing and formal verification."@
            },
            vulnerabilities@.len() > 0 ==> {
                &&& r@.len() == 6
                &&& r@[0]@
                    == "Address high and critical severity vulnerabilities immediately."@
                &&& r@[1]@
                    == "Implement comprehensive unit tests for all smart contract functions."@
                &&& r@[2]@
                    == "Consider getting a professional security audit before deployment."@
                &&& r@[3]@
                    == "Set up continuous security monitoring for your smart contracts."@
            },
            r@[r@.len() - 2]@
                == "Follow secure coding practices and use established security patterns."@,
            r@.last()@
                == "Keep your dependencies up to date and monitor for new vulnerabilities."@,
    {
        let mut out: Vec<String> = Vec::new();
        if vulnerabilities.len() == 0 {
            out.push(
                String::from_str(
                    "Great job! No vulnerabilities were found in the initial analysis.",
                ),
            );
            out.push(
                String::from_str(
                    "Consider running a deeper analysis with fuzzing and formal verification.",
                ),
            );
        } else {
            out.push(
                String::from_str(
                    "Address high and critical severity vulnerabilities immediately.",
                ),
            );
            out.push(
                String::from_str(
                    "Implement comprehensive unit tests for all smart contract functions.",
                ),
            );
            out.push(
                String::from_str(
                    "Consider getting a professional security audit before deployment.",
                ),
            );
            out.push(
                String::from_str(
                    "Set up continuous security monitoring for your smart contracts.",
                ),
            );
        }
        out.push(
            String::from_str("Follow secure coding practices and use established security patterns."),
        );
        out.push(
            String::from_str(
                "Keep your dependencies up to date and monitor for new vulnerabilities.",
            ),
        );
        out
    }

    /// Assemble the immutable result of a completed run.
    pub fn finish_run(
        &self,
        run: AnalysisRun,
        contract_name: String,
        total_lines: usize,
        total_functions: usize,
        duration_ms: u64,
        timestamp: u64,
    ) -> (r: AnalysisResults)
        requires
            run.phase == AnalysisPhase::Complete,
        ensures
            r.contract_name == contract_name,
            r.vulnerabilities == run.findings,
            r.metrics.security_score == spec_security_score(run.findings@),
            r.metrics.complexity_score == spec_complexity_score(
                total_functions as int,
                total_lines as int,
            ),
            r.metrics.lines_of_code == total_lines,
            r.metrics.functions_analyzed == total_functions,
            r.metrics.gas_optimization_score == 0,
            r.analysis_summary.total_vulnerabilities == run.findings@.len(),
            r.analysis_summary.critical_count == count_sev(run.findings@, Severity::Critical),
            r.analysis_summary.high_count == count_sev(run.findings@, Severity::High),
            r.analysis_summary.medium_count == count_sev(run.findings@, Severity::Medium),
            r.analysis_summary.low_count == count_sev(run.findings@, Severity::Low),
            r.analysis_summary.info_count == count_sev(run.findings@, Severity::Info),
            r.analysis_summary.tools_used == run.tools_used,
            r.analysis_summary.analysis_duration == duration_ms,
            r.timestamp == timestamp,
    {
        let security_score = self.calculate_security_score(&run.findings);
        let complexity_score = self.calculate_complexity_score(total_functions, total_lines);
        let recommendations = self.generate_recommendations(&run.findings);
        let analysis_summary = self.generate_analysis_summary(
            &run.findings,
            duration_ms,
            run.tools_used,
        );
        AnalysisResults {
            contract_name,
            vulnerabilities: run.findings,
            analysis_summary,
            recommendations,
            metrics: AnalysisMetrics {
                lines_of_code: total_lines,
                functions_analyzed: total_functions,
                complexity_score,
                security_score,
                gas_optimization_score: 0,
            },
            timestamp,
        }
    }

    /// The external static analyzers the requested platform and depth
    /// call for; an unknown target is fatal to the run.
    pub fn plan_static_tools(&self, target: &str, depth: AnalysisDepth) -> (r: Result<
        Vec<&'static str>,
        AnalysisError,
    >)
        ensures
            match spec_static_tools(target@, depth) {
                Some(ts) => r matches Ok(v) && v@.map_values(|x: &'static str| x@) == ts,
                None => r == Err::<Vec<&'static str>, AnalysisError>(
                    AnalysisError::PlatformNotSupported,
                ),
            },
    {
        let mut out: Vec<&'static str> = Vec::new();
        if crate::text::str_eq(target, "evm") {
            out.push("slither");
            if matches!(depth, AnalysisDepth::Deep) {
                out.push("myth");
            }
            assert(out@.map_values(|x: &'static str| x@) =~= spec_static_tools(
                target@,
                depth,
            ).unwrap());
            Ok(out)
        } else if crate::text::str_eq(target, "move") {
            out.push("move-prover");
            assert(out@.map_values(|x: &'static str| x@) =~= spec_static_tools(
                target@,
                depth,
            ).unwrap());
            Ok(out)
        } else if crate::text::str_eq(target, "cairo") {
            out.push("cairo-compile");
            assert(out@.map_values(|x: &'static str| x@) =~= spec_static_tools(
                target@,
                depth,
            ).unwrap());
            Ok(out)
        } else {
            Err(AnalysisError::PlatformNotSupported)
        }
    }

    /// The dynamic-phase fuzzers of the requested platform; only the EVM
    /// platform has one.
    pub fn plan_dynamic_tools(&self, target: &str) -> (r: Vec<&'static str>)
        ensures
            target@ == "evm"@ ==> r@.len() == 1 && r@[0]@ == "echidna-test"@,
            target@ != "evm"@ ==> r@.len() == 0,
    {
        let mut out: Vec<&'static str> = Vec::new();
        if crate::text::str_eq(target, "evm") {
            out.push("echidna-test");
        }
        out
    }

    /// Map a mythril severity label into the canonical scale; unknown
    /// labels take the documented default of `Medium`.
    pub fn map_mythril_severity(&self, severity: &str) -> (r: Severity)
        ensures
            r == spec_map_mythril_severity(severity@),
    {
        if crate::text::lower_eq(severity, "high") {
            Severity::High
        } else if crate::text::lower_eq(severity, "medium") {
            Severity::Medium
        } else if crate::text::lower_eq(severity, "low") {
            Severity::Low
        } else {
            Severity::Medium
        }
    }

    /// Build the normalized finding for one mythril issue record, from
    /// its plain field values: every field is fixed by the record and
    /// the severity table.
    pub fn normalize_mythril_record(
        &self,
        title: &str,
        description: &str,
        severity: &str,
        swc_id: &str,
        line_number: Option<usize>,
        contract_name: &str,
    ) -> (f: Finding)
        ensures
            f.title@ == "Mythril: "@ + title@,
            f.description@ == description@,
            f.severity == spec_map_mythril_severity(severity@),
            f.category == crate::finding::Category::SymbolicExecution,
            f.file_path@ == contract_name@,
            f.line_number == line_number,
            f.code_snippet is None,
            (f.recommendation matches Some(t) && t@
                == "Review the symbolic execution result from Mythril"@),
            f.references@.len() == 1 && f.references@[0]@
                == "https://github.com/ConsenSys/mythril"@,
            (f.cwe_id matches Some(c) && c@ == swc_id@),
            f.tool@ == "Mythril"@,
            f.confidence == 80,
            f.id@.len() == 36,
    {
        let mut references: Vec<String> = Vec::new();
        references.push(String::from_str("https://github.com/ConsenSys/mythril"));
        Finding {
            id: crate::ids::fresh_id(),
            title: String::from_str("Mythril: ").concat(title),
            description: String::from_str(description),
            severity: self.map_mythril_severity(severity),
            category: crate::finding::Category::SymbolicExecution,
            file_path: String::from_str(contract_name),
            line_number,
            code_snippet: None,
            recommendation: Some(
                String::from_str("Review the symbolic execution result from Mythril"),
            ),
            references,
            cwe_id: Some(String::from_str(swc_id)),
            tool: String::from_str("Mythril"),
            confidence: 80,
        }
    }

    /// Normalize one mythril issue record into a finding.
    pub fn parse_mythril_issue(
        &self,
        issue: &serde_json::Value,
        contract_name: &str,
    ) -> (r: Option<Finding>)
        ensures
            r matches Some(f) ==> mythril_finding_ok(f, contract_name@),
    {
        let title = match crate::json::json_get(issue, "title") {
            Some(v) => match crate::json::json_as_str(v) {
                Some(s) => s,
                None => {
                    return None;
                },
            },
            None => {
                return None;
            },
        };
        let description = match crate::json::json_get(issue, "description") {
            Some(v) => match crate::json::json_as_str(v) {
                Some(s) => s,
                None => {
                    return None;
                },
            },
            None => {
                return None;
            },
        };
        let severity = match crate::json::json_get(issue, "severity") {
            Some(v) => match crate::json::json_as_str(v) {
                Some(s) => s,
                None => {
                    return None;
                },
            },
            None => {
                return None;
            },
        };
        let swc_id = match crate::json::json_get(issue, "swc-id") {
            Some(v) => match crate::json::json_as_str(v) {
                Some(s) => s,
                None => {
                    return None;
                },
            },
            None => {
                return None;
            },
        };
        let line_number: Option<usize> = match crate::json::json_get(issue, "source_map") {
            Some(sm) => match crate::json::json_get(sm, "line") {
                Some(lv) => match crate::json::json_as_u64(lv) {
                    Some(n) => {
                        if n <= usize::MAX as u64 {
                            Some(n as usize)
                        } else {
                            None
                        }
                    },
                    None => None,
                },
                None => None,
            },
            None => None,
        };
        Some(
            self.normalize_mythril_record(
                title,
                description,
                severity,
                swc_id,
                line_number,
                contract_name,
            ),
        )
    }

    /// Normalize a whole mythril JSON report; text that is not a
    /// well-formed report yields no findings rather than an error.
    pub fn parse_mythril_output(&self, output: &str, contract_name: &str) -> (r: Vec<Finding>)
        ensures
            forall|k: int|
                0 <= k < r@.len() ==> mythril_finding_ok(#[trigger] r@[k], contract_name@),
    {
        let mut out: Vec<Finding> = Vec::new();
        let parsed = match crate::json::json_parse(output) {
            Some(v) => v,
            None => {
                return out;
            },
        };
        let issues = match crate::json::json_get(&parsed, "issues") {
            Some(v) => v,
            None => {
                return out;
            },
        };
        let arr = match crate::json::json_as_array(issues) {
            Some(a) => a,
            None => {
                return out;
            },
        };
        let mut i: usize = 0;
        while i < arr.len()
            invariant
                forall|k: int|
                    0 <= k < out@.len() ==> mythril_finding_ok(#[trigger] out@[k], contract_name@),
            decreases arr@.len() - i,
        {
            match self.parse_mythril_issue(&arr[i], contract_name) {
                Some(f) => {
                    out.push(f);
                },
                None => {
                },
            }
            i = i + 1;
        }
        out
    }

    /// Normalize echidna console output: a failure marker yields exactly
    /// one high-severity fuzzing finding, and clean output yields none.
    pub fn parse_echidna_output(&self, output: &str, contract_name: &str) -> (r: Vec<Finding>)
        ensures
            r@.len() <= 1,
            (crate::text::contains_seq(output@, "FAILED"@) || crate::text::contains_seq(
                output@,
                "AssertionFailed"@,
            )) <==> r@.len() == 1,
            r@.len() == 1 ==> {
                &&& r@[0].title@ == "Echidna: Fuzzing Assertion Failure"@
                &&& r@[0].severity == Severity::High
                &&& r@[0].category == crate::finding::Category::Fuzzing
                &&& r@[0].file_path@ == contract_name@
                &&& r@[0].tool@ == "Echidna"@
                &&& r@[0].confidence == 90
                &&& r@[0].id@.len() == 36
            },
    {
        let mut out: Vec<Finding> = Vec::new();
        if crate::text::contains_sub(output, "FAILED") || crate::text::contains_sub(
            output,
            "AssertionFailed",
        ) {
            let mut references: Vec<String> = Vec::new();
            references.push(String::from_str("https://github.com/crytic/echidna"));
            out.push(
                Finding {
                    id: crate::ids::fresh_id(),
                    title: String::from_str("Echidna: Fuzzing Assertion Failure"),
                    description: String::from_str(
                        "Echidna fuzzing detected assertion failures or property violations",
                    ),
                    severity: Severity::High,
                    category: crate::finding::Category::Fuzzing,
                    file_path: String::from_str(contract_name),
                    line_number: None,
                    code_snippet: None,
                    recommendation: Some(
                        String::from_str(
                            "Review the fuzzing results and fix any assertion failures",
                        ),
                    ),
                    references,
                    cwe_id: None,
                    tool: String::from_str("Echidna"),
                    confidence: 90,
                },
            );
        }
        out
    }
}

/// A finding normalized from mythril output.
pub open spec fn mythril_finding_ok(f: Finding, file: Seq<char>) -> bool {
    &&& f.tool@ == "Mythril"@
    &&& f.category == crate::finding::Category::SymbolicExecution
    &&& f.file_path@ == file
    &&& f.confidence == 80
    &&& f.id@.len() == 36
}

/// Count the findings of each severity, from critical down to info.
fn severity_counts(v: &Vec<Finding>) -> (r: (usize, usize, usize, usize, usize))
    ensures
        r.0 == count_sev(v@, Severity::Critical),
        r.1 == count_sev(v@, Severity::High),
        r.2 == count_sev(v@, Severity::Medium),
        r.3 == count_sev(v@, Severity::Low),
        r.4 == count_sev(v@, Severity::Info),
{
    let mut critical: usize = 0;
    let mut high: usize = 0;
    let mut medium: usize = 0;
    let mut low: usize = 0;
    let mut info: usize = 0;
    let mut i: usize = 0;
    proof {
        assert(v@.subrange(0, 0) =~= Seq::<Finding>::empty());
    }
    while i < v.len()
        invariant
            i <= v@.len(),
            critical == count_sev(v@.subrange(0, i as int), Severity::Critical),
            high == count_sev(v@.subrange(0, i as int), Severity::High),
            medium == count_sev(v@.subrange(0, i as int), Severity::Medium),
            low == count_sev(v@.subrange(0, i as int), Severity::Low),
            info == count_sev(v@.subrange(0, i as int), Severity::Info),
            critical + high + medium + low + info <= i,
        decreases v@.len() - i,
    {
        proof {
            lemma_severity_count_step(v@, i as int, Severity::Critical);
            lemma_severity_count_step(v@, i as int, Severity::High);
            lemma_severity_count_step(v@, i as int, Severity::Medium);
            lemma_severity_count_step(v@, i as int, Severity::Low);
            lemma_severity_count_step(v@, i as int, Severity::Info);
        }
        match v[i].severity {
            Severity::Critical => {
                critical = critical + 1;
            },
            Severity::High => {
                high = high + 1;
            },
            Severity::Medium => {
                medium = medium + 1;
            },
            Severity::Low => {
                low = low + 1;
            },
            Severity::Info => {
                info = info + 1;
            },
        }
        i = i + 1;
    }
    proof {
        assert(v@.subrange(0, v@.len() as int) =~= v@);
    }
    (critical, high, medium, low, info)
}

/// Extending a prefix by one finding extends its severity count by one
/// exactly for that finding's severity.
proof fn lemma_severity_count_step(s: Seq<Finding>, i: int, sev: Severity)
    requires
        0 <= i < s.len(),
    ensures
        count_sev(s.subrange(0, i + 1), sev) == count_sev(s.subrange(0, i), sev) + if s[i].severity
            == sev {
            1int
        } else {
            0int
        },
{
    assert(s.subrange(0, i + 1) =~= s.subrange(0, i) + seq![s[i]]);
    lemma_count_sev_concat(s.subrange(0, i), seq![s[i]], sev);
    let single = seq![s[i]];
    assert(single.drop_first() =~= Seq::<Finding>::empty());
    assert(count_sev(Seq::<Finding>::empty(), sev) == 0);
    assert(count_sev(single, sev) == (if single[0].severity == sev {
        1int
    } else {
        0int
    }) + count_sev(single.drop_first(), sev));
    assert(single[0] == s[i]);
}

} // verus!
