//! Report-side computations over the merged finding list: severity,
//! category and tool tallies, and structured recommendations.
//!
//! Rendering to Markdown or HTML is presentation and lives outside this
//! crate; what is computed here is the structured data a renderer
//! consumes.

use vstd::prelude::*;

use crate::analyzer::AnalysisResults;
use crate::finding::{
    count_sev, lemma_count_sev_concat, spec_category_name, Category, Finding, Severity,
};
use crate::text::{dec_str, fmt_u64};

verus! {

/// The merged findings with their per-category, per-severity and
/// per-tool tallies.  The original's open hash maps become association
/// lists: fixed canonical orders for severities and categories, and
/// first-seen order for tools.
#[derive(Clone, Debug)]
pub struct VulnerabilityAnalysis {
    pub vulnerabilities: Vec<Finding>,
    pub category_breakdown: Vec<(String, usize)>,
    pub severity_distribution: Vec<(String, usize)>,
    pub tool_findings: Vec<(String, usize)>,
}

/// One prioritised remediation recommendation.
#[derive(Clone, Debug)]
pub struct Recommendation {
    pub id: String,
    pub title: String,
    pub description: String,
    pub priority: String,
    pub effort: String,
    pub impact: String,
    pub related_vulnerabilities: Vec<String>,
}

/// One report appendix.
#[derive(Clone, Debug)]
pub struct Appendix {
    pub title: String,
    pub content: String,
    pub appendix_type: String,
}

/// How many findings in `s` carry category `c`.
pub open spec fn count_cat(s: Seq<Finding>, c: Category) -> int
    decreases s.len(),
{
    if s.len() == 0 {
        0
    } else {
        (if s[0].category == c {
            1int
        } else {
            0int
        }) + count_cat(s.drop_first(), c)
    }
}

proof fn lemma_count_cat_concat(a: Seq<Finding>, b: Seq<Finding>, c: Category)
    ensures
        count_cat(a + b, c) == count_cat(a, c) + count_cat(b, c),
    decreases a.len(),
{
    if a.len() == 0 {
        assert(a + b =~= b);
    } else {
        assert((a + b).drop_first() =~= a.drop_first() + b);
        lemma_count_cat_concat(a.drop_first(), b, c);
    }
}

/// How many findings in `s` carry tool label `t`.
pub open spec fn count_tool(s: Seq<Finding>, t: Seq<char>) -> int
    decreases s.len(),
{
    if s.len() == 0 {
        0
    } else {
        (if s[0].tool@ == t {
            1int
        } else {
            0int
        }) + count_tool(s.drop_first(), t)
    }
}

proof fn lemma_count_tool_concat(a: Seq<Finding>, b: Seq<Finding>, t: Seq<char>)
    ensures
        count_tool(a + b, t) == count_tool(a, t) + count_tool(b, t),
    decreases a.len(),
{
    if a.len() == 0 {
        assert(a + b =~= b);
    } else {
        assert((a + b).drop_first() =~= a.drop_first() + b);
        lemma_count_tool_concat(a.drop_first(), b, t);
    }
}

/// The distinct tool labels among the first `n` findings, in first-seen
/// order.
pub open spec fn distinct_tools(s: Seq<Finding>, n: int) -> Seq<Seq<char>>
    decreases n when n >= 0
{
    if n <= 0 {
        Seq::empty()
    } else {
        let p = distinct_tools(s, n - 1);
        if p.contains(s[n - 1].tool@) {
            p
        } else {
            p.push(s[n - 1].tool@)
        }
    }
}

/// The distinct categories among the first `n` findings, in first-seen
/// order.
pub open spec fn distinct_cats(s: Seq<Finding>, n: int) -> Seq<Category>
    decreases n when n >= 0
{
    if n <= 0 {
        Seq::empty()
    } else {
        let p = distinct_cats(s, n - 1);
        if p.contains(s[n - 1].category) {
            p
        } else {
            p.push(s[n - 1].category)
        }
    }
}

/// Count findings of one severity.
fn count_severity_exec(v: &Vec<Finding>, sev: Severity) -> (r: usize)
    ensures
        r == count_sev(v@, sev),
{
    let mut acc: usize = 0;
    let mut i: usize = 0;
    proof {
        assert(v@.subrange(0, 0) =~= Seq::<Finding>::empty());
    }
    while i < v.len()
        invariant
            i <= v@.len(),
            acc <= i,
            acc == count_sev(v@.subrange(0, i as int), sev),
        decreases v@.len() - i,
    {
        proof {
            assert(v@.subrange(0, i + 1) =~= v@.subrange(0, i as int) + seq![v@[i as int]]);
            lemma_count_sev_concat(v@.subrange(0, i as int), seq![v@[i as int]], sev);
            let single = seq![v@[i as int]];
            assert(single.drop_first() =~= Seq::<Finding>::empty());
            assert(count_sev(Seq::<Finding>::empty(), sev) == 0);
            assert(count_sev(single, sev) == (if single[0].severity == sev {
                1int
            } else {
                0int
            }) + count_sev(single.drop_first(), sev));
            assert(single[0] == v@[i as int]);
        }
        if v[i].severity == sev {
            acc = acc + 1;
        }
        i = i + 1;
    }
    proof {
        assert(v@.subrange(0, v@.len() as int) =~= v@);
    }
    acc
}

/// Count findings of one category.
fn count_category_exec(v: &Vec<Finding>, cat: Category) -> (r: usize)
    ensures
        r == count_cat(v@, cat),
{
    let mut acc: usize = 0;
    let mut i: usize = 0;
    proof {
        assert(v@.subrange(0, 0) =~= Seq::<Finding>::empty());
    }
    while i < v.len()
        invariant
            i <= v@.len(),
            acc <= i,
            acc == count_cat(v@.subrange(0, i as int), cat),
        decreases v@.len() - i,
    {
        proof {
            assert(v@.subrange(0, i + 1) =~= v@.subrange(0, i as int) + seq![v@[i as int]]);
            lemma_count_cat_concat(v@.subrange(0, i as int), seq![v@[i as int]], cat);
            let single = seq![v@[i as int]];
            assert(single.drop_first() =~= Seq::<Finding>::empty());
            assert(count_cat(Seq::<Finding>::empty(), cat) == 0);
            assert(count_cat(single, cat) == (if single[0].category == cat {
                1int
            } else {
                0int
            }) + count_cat(single.drop_first(), cat));
            assert(single[0] == v@[i as int]);
        }
        if v[i].category == cat {
            acc = acc + 1;
        }
        i = i + 1;
    }
    proof {
        assert(v@.subrange(0, v@.len() as int) =~= v@);
    }
    acc
}

/// Count findings of one tool label.
fn count_tool_exec(v: &Vec<Finding>, tool: &str) -> (r: usize)
    ensures
        r == count_tool(v@, tool@),
{
    let mut acc: usize = 0;
    let mut i: usize = 0;
    proof {
        assert(v@.subrange(0, 0) =~= Seq::<Finding>::empty());
    }
    while i < v.len()
        invariant
            i <= v@.len(),
            acc <= i,
            acc == count_tool(v@.subrange(0, i as int), tool@),
        decreases v@.len() - i,
    {
        proof {
            assert(v@.subrange(0, i + 1) =~= v@.subrange(0, i as int) + seq![v@[i as int]]);
            lemma_count_tool_concat(v@.subrange(0, i as int), seq![v@[i as int]], tool@);
            let single = seq![v@[i as int]];
            assert(single.drop_first() =~= Seq::<Finding>::empty());
            assert(count_tool(Seq::<Finding>::empty(), tool@) == 0);
            assert(count_tool(single, tool@) == (if single[0].tool@ == tool@ {
                1int
            } else {
                0int
            }) + count_tool(single.drop_first(), tool@));
            assert(single[0] == v@[i as int]);
        }
        if crate::text::str_eq(v[i].tool.as_str(), tool) {
            acc = acc + 1;
        }
        i = i + 1;
    }
    proof {
        assert(v@.subrange(0, v@.len() as int) =~= v@);
    }
    acc
}

/// Does a string list hold `s`?
fn contains_string(v: &Vec<String>, s: &str) -> (r: bool)
    ensures
        r == crate::parser::views_of(v@).contains(s@),
{
    let mut i: usize = 0;
    while i < v.len()
        invariant
            i <= v@.len(),
            forall|k: int| #![trigger v@[k]] 0 <= k < i ==> v@[k]@ != s@,
        decreases v@.len() - i,
    {
        if crate::text::str_eq(v[i].as_str(), s) {
            assert(crate::parser::views_of(v@)[i as int] == s@);
            return true;
        }
        i = i + 1;
    }
    proof {
        let vs = crate::parser::views_of(v@);
        if vs.contains(s@) {
            let k = choose|k: int| 0 <= k < vs.len() && #[trigger] vs[k] == s@;
            assert(v@[k]@ == s@);
        }
    }
    false
}

/// The distinct tool labels of the findings, in first-seen order.
fn distinct_tools_exec(v: &Vec<Finding>) -> (r: Vec<String>)
    ensures
        crate::parser::views_of(r@) == distinct_tools(v@, v@.len() as int),
{
    let mut out: Vec<String> = Vec::new();
    let mut i: usize = 0;
    while i < v.len()
        invariant
            i <= v@.len(),
            crate::parser::views_of(out@) =~= distinct_tools(v@, i as int),
        decreases v@.len() - i,
    {
        if !contains_string(&out, v[i].tool.as_str()) {
            let ghost old_out = crate::parser::views_of(out@);
            out.push(v[i].tool.clone());
            proof {
                assert(crate::parser::views_of(out@) =~= old_out.push(v@[i as int].tool@));
            }
        }
        i = i + 1;
    }
    out
}

/// The identifiers of the findings in category `c`, in order.
pub open spec fn ids_of_cat(s: Seq<Finding>, c: Category, n: int) -> Seq<Seq<char>>
    decreases n when n >= 0
{
    if n <= 0 {
        Seq::empty()
    } else {
        let p = ids_of_cat(s, c, n - 1);
        if s[n - 1].category == c {
            p.push(s[n - 1].id@)
        } else {
            p
        }
    }
}

/// Collect the identifiers of the findings in one category.
fn ids_of_category_exec(v: &Vec<Finding>, cat: Category) -> (r: Vec<String>)
    ensures
        crate::parser::views_of(r@) == ids_of_cat(v@, cat, v@.len() as int),
{
    let mut out: Vec<String> = Vec::new();
    let mut i: usize = 0;
    while i < v.len()
        invariant
            i <= v@.len(),
            crate::parser::views_of(out@) =~= ids_of_cat(v@, cat, i as int),
        decreases v@.len() - i,
    {
        if v[i].category == cat {
            let ghost old_out = crate::parser::views_of(out@);
            out.push(v[i].id.clone());
            proof {
                assert(crate::parser::views_of(out@) =~= old_out.push(v@[i as int].id@));
            }
        }
        i = i + 1;
    }
    out
}

/// The fixed fields of the recommendation for one category.
pub ghost struct RecFields {
    pub id: Seq<char>,
    pub title: Seq<char>,
    pub description: Seq<char>,
    pub priority: Seq<char>,
    pub effort: Seq<char>,
    pub impact: Seq<char>,
}

/// The recommendation text assigned to each category.
pub open spec fn spec_category_rec(c: Category) -> RecFields {
    if c == Category::Reentrancy {
        RecFields {
            id: "REC-001"@,
            title: "Implement Reentrancy Protection"@,
            description: "Use reentrancy guards or checks-effects-interactions pattern to prevent reentrancy attacks."@,
            priority: "High"@,
            effort: "Medium"@,
            impact: "High"@,
        }
    } else if c == Category::AccessControl {
        RecFields {
            id: "REC-002"@,
            title: "Strengthen Access Control"@,
            description: "Implement proper access control mechanisms using role-based permissions."@,
            priority: "High"@,
            effort: "High"@,
            impact: "High"@,
        }
    } else if c == Category::IntegerOverflow {
        RecFields {
            id: "REC-003"@,
            title: "Use Safe Math Operations"@,
            description: "Implement SafeMath library or use Solidity 0.8+ built-in overflow protection."@,
            priority: "Medium"@,
            effort: "Low"@,
            impact: "Medium"@,
        }
    } else if c == Category::UnhandledExceptions {
        RecFields {
            id: "REC-004"@,
            title: "Improve Error Handling"@,
            description: "Implement proper error handling for all external calls and operations."@,
            priority: "Medium"@,
            effort: "Medium"@,
            impact: "Medium"@,
        }
    } else {
        RecFields {
            id: "REC-999"@,
            title: "Address "@ + spec_category_name(c) + " Issues"@,
            description: "Review and address all "@ + spec_category_name(c)
                + " related vulnerabilities."@,
            priority: "Medium"@,
            effort: "Medium"@,
            impact: "Medium"@,
        }
    }
}

/// `r` is the recommendation for category `c` over findings `s`.
pub open spec fn rec_matches_category(r: Recommendation, c: Category, s: Seq<Finding>) -> bool {
    let fields = spec_category_rec(c);
    &&& r.id@ == fields.id
    &&& r.title@ == fields.title
    &&& r.description@ == fields.description
    &&& r.priority@ == fields.priority
    &&& r.effort@ == fields.effort
    &&& r.impact@ == fields.impact
    &&& crate::parser::views_of(r.related_vulnerabilities@) == ids_of_cat(s, c, s.len() as int)
}

/// The report generator's computational half.
pub struct ReportGenerator {}

impl ReportGenerator {
    /// Create a new report generator.
    pub fn new() -> (r: Self) {
        ReportGenerator {  }
    }

    /// Tally the merged findings per severity, category and tool.
    pub fn create_vulnerability_analysis(&self, vulnerabilities: Vec<Finding>) -> (r:
        VulnerabilityAnalysis)
        ensures
            r.vulnerabilities == vulnerabilities,
            r.severity_distribution@.len() == 5,
            r.severity_distribution@[0].0@ == "Critical"@,
            r.severity_distribution@[0].1 == count_sev(vulnerabilities@, Severity::Critical),
            r.severity_distribution@[1].1 == count_sev(vulnerabilities@, Severity::High),
            r.severity_distribution@[2].1 == count_sev(vulnerabilities@, Severity::Medium),
            r.severity_distribution@[3].1 == count_sev(vulnerabilities@, Severity::Low),
            r.severity_distribution@[4].1 == count_sev(vulnerabilities@, Severity::Info),
            r.category_breakdown@.len() == 12,
            forall|k: int|
                0 <= k < 12 ==> (#[trigger] r.category_breakdown@[k]).1 == count_cat(
                    vulnerabilities@,
                    category_order(k),
                ) && r.category_breakdown@[k].0@ == spec_category_name(category_order(k)),
            r.tool_findings@.len() == distinct_tools(
                vulnerabilities@,
                vulnerabilities@.len() as int,
            ).len(),
            forall|k: int|
                0 <= k < r.tool_findings@.len() ==> (#[trigger] r.tool_findings@[k]).0@
                    == distinct_tools(vulnerabilities@, vulnerabilities@.len() as int)[k]
                    && r.tool_findings@[k].1 == count_tool(
                    vulnerabilities@,
                    distinct_tools(vulnerabilities@, vulnerabilities@.len() as int)[k],
                ),
    {
        let mut severity_distribution: Vec<(String, usize)> = Vec::new();
        severity_distribution.push(
            (String::from_str("Critical"), count_severity_exec(&vulnerabilities, Severity::Critical)),
        );
        severity_distribution.push(
            (String::from_str("High"), count_severity_exec(&vulnerabilities, Severity::High)),
        );
        severity_distribution.push(
            (String::from_str("Medium"), count_severity_exec(&vulnerabilities, Severity::Medium)),
        );
        severity_distribution.push(
            (String::from_str("Low"), count_severity_exec(&vulnerabilities, Severity::Low)),
        );
        severity_distribution.push(
            (String::from_str("Info"), count_severity_exec(&vulnerabilities, Severity::Info)),
        );

        let categories = all_categories();
        let mut category_breakdown: Vec<(String, usize)> = Vec::new();
        let mut ci: usize = 0;
        while ci < categories.len()
            invariant
                ci <= categories@.len(),
                categories@.len() == 12,
                forall|k: int| 0 <= k < 12 ==> #[trigger] categories@[k] == category_order(k),
                category_breakdown@.len() == ci,
                forall|k: int|
                    0 <= k < ci ==> (#[trigger] category_breakdown@[k]).1 == count_cat(
                        vulnerabilities@,
                        category_order(k),
                    ) && category_breakdown@[k].0@ == spec_category_name(category_order(k)),
            decreases categories@.len() - ci,
        {
            let cat = categories[ci];
            category_breakdown.push(
                (String::from_str(cat.as_str()), count_category_exec(&vulnerabilities, cat)),
            );
            ci = ci + 1;
        }

        let tools = distinct_tools_exec(&vulnerabilities);
        let ghost tool_views = distinct_tools(vulnerabilities@, vulnerabilities@.len() as int);
        let mut tool_findings: Vec<(String, usize)> = Vec::new();
        let mut ti: usize = 0;
        while ti < tools.len()
            invariant
                ti <= tools@.len(),
                crate::parser::views_of(tools@) == tool_views,
                tool_findings@.len() == ti,
                forall|k: int|
                    0 <= k < ti ==> (#[trigger] tool_findings@[k]).0@ == tool_views[k]
                        && tool_findings@[k].1 == count_tool(vulnerabilities@, tool_views[k]),
            decreases tools@.len() - ti,
        {
            proof {
                assert(crate::parser::views_of(tools@)[ti as int] == tools@[ti as int]@);
            }
            let count = count_tool_exec(&vulnerabilities, tools[ti].as_str());
            tool_findings.push((tools[ti].clone(), count));
            ti = ti + 1;
        }

        VulnerabilityAnalysis {
            vulnerabilities,
            category_breakdown,
            severity_distribution,
            tool_findings,
        }
    }

    /// The recommendation for one category, with the identifiers of the
    /// findings it addresses.
    pub fn create_category_recommendation(
        &self,
        category: Category,
        vulnerabilities: &Vec<Finding>,
    ) -> (r: Recommendation)
        ensures
            rec_matches_category(r, category, vulnerabilities@),
    {
        let related_vulnerabilities = ids_of_category_exec(vulnerabilities, category);
        match category {
            Category::Reentrancy => Recommendation {
                id: String::from_str("REC-001"),
                title: String::from_str("Implement Reentrancy Protection"),
                description: String::from_str(
                    "Use reentrancy guards or checks-effects-interactions pattern to prevent reentrancy attacks.",
                ),
                priority: String::from_str("High"),
                effort: String::from_str("Medium"),
                impact: String::from_str("High"),
                related_vulnerabilities,
            },
            Category::AccessControl => Recommendation {
                id: String::from_str("REC-002"),
                title: String::from_str("Strengthen Access Control"),
                description: String::from_str(
                    "Implement proper access control mechanisms using role-based permissions.",
                ),
                priority: String::from_str("High"),
                effort: String::from_str("High"),
                impact: String::from_str("High"),
                related_vulnerabilities,
            },
            Category::IntegerOverflow => Recommendation {
                id: String::from_str("REC-003"),
                title: String::from_str("Use Safe Math Operations"),
                description: String::from_str(
                    "Implement SafeMath library or use Solidity 0.8+ built-in overflow protection.",
                ),
                priority: String::from_str("Medium"),
                effort: String::from_str("Low"),
                impact: String::from_str("Medium"),
                related_vulnerabilities,
            },
            Category::UnhandledExceptions => Recommendation {
                id: String::from_str("REC-004"),
                title: String::from_str("Improve Error Handling"),
                description: String::from_str(
                    "Implement proper error handling for all external calls and operations.",
                ),
                priority: String::from_str("Medium"),
                effort: String::from_str("Medium"),
                impact: String::from_str("Medium"),
                related_vulnerabilities,
            },
            _ => Recommendation {
                id: String::from_str("REC-999"),
                title: String::from_str("Address ").concat(category.as_str()).concat(" Issues"),
                description: String::from_str("Review and address all ").concat(
                    category.as_str(),
                ).concat(" related vulnerabilities."),
                priority: String::from_str("Medium"),
                effort: String::from_str("Medium"),
                impact: String::from_str("Medium"),
                related_vulnerabilities,
            },
        }
    }

    /// One recommendation per distinct finding category, in first-seen
    /// order, then one general recommendation per basic advice line.
    pub fn create_recommendations(
        &self,
        vulnerabilities: &Vec<Finding>,
        basic_recommendations: &Vec<String>,
    ) -> (r: Vec<Recommendation>)
        requires
            basic_recommendations@.len() + 100 <= u64::MAX,
        ensures
            r@.len() == distinct_cats(vulnerabilities@, vulnerabilities@.len() as int).len()
                + basic_recommendations@.len(),
            forall|k: int|
                0 <= k < distinct_cats(vulnerabilities@, vulnerabilities@.len() as int).len()
                    ==> rec_matches_category(
                    #[trigger] r@[k],
                    distinct_cats(vulnerabilities@, vulnerabilities@.len() as int)[k],
                    vulnerabilities@,
                ),
            forall|k: int|
                distinct_cats(vulnerabilities@, vulnerabilities@.len() as int).len() <= k
                    < r@.len() ==> {
                    let b = k - distinct_cats(
                        vulnerabilities@,
                        vulnerabilities@.len() as int,
                    ).len();
                    &&& (#[trigger] r@[k]).id@ == "REC-"@ + dec_str(b + 100)
                    &&& r@[k].title@ == "General Recommendation "@ + dec_str(b + 1)
                    &&& r@[k].description@ == basic_recommendations@[b]@
                    &&& r@[k].priority@ == "Medium"@
                },
    {
        let ghost cats = distinct_cats(vulnerabilities@, vulnerabilities@.len() as int);
        let category_list = distinct_cats_exec(vulnerabilities);
        let mut out: Vec<Recommendation> = Vec::new();
        let mut i: usize = 0;
        while i < category_list.len()
            invariant
                i <= category_list@.len(),
                category_list@ == cats,
                out@.len() == i,
                forall|k: int|
                    0 <= k < i ==> rec_matches_category(#[trigger] out@[k], cats[k], vulnerabilities@),
            decreases category_list@.len() - i,
        {
            let rec = self.create_category_recommendation(category_list[i], vulnerabilities);
            out.push(rec);
            i = i + 1;
        }
        let ghost ncats = cats.len();
        let mut b: usize = 0;
        while b < basic_recommendations.len()
            invariant
                b <= basic_recommendations@.len(),
                basic_recommendations@.len() + 100 <= u64::MAX,
                out@.len() == ncats + b,
                ncats == cats.len(),
                forall|k: int|
                    0 <= k < ncats ==> rec_matches_category(
                        #[trigger] out@[k],
                        cats[k],
                        vulnerabilities@,
                    ),
                forall|k: int|
                    ncats <= k < out@.len() ==> {
                        let bb = k - ncats;
                        &&& (#[trigger] out@[k]).id@ == "REC-"@ + dec_str(bb + 100)
                        &&& out@[k].title@ == "General Recommendation "@ + dec_str(bb + 1)
                        &&& out@[k].description@ == basic_recommendations@[bb]@
                        &&& out@[k].priority@ == "Medium"@
                    },
            decreases basic_recommendations@.len() - b,
        {
            let id_num = fmt_u64((b as u64) + 100);
            let title_num = fmt_u64((b as u64) + 1);
            let rec = Recommendation {
                id: String::from_str("REC-").concat(id_num.as_str()),
                title: String::from_str("General Recommendation ").concat(title_num.as_str()),
                description: basic_recommendations[b].clone(),
                priority: String::from_str("Medium"),
                effort: String::from_str("Medium"),
                impact: String::from_str("Medium"),
                related_vulnerabilities: Vec::new(),
            };
            out.push(rec);
            b = b + 1;
        }
        out
    }

    /// The report appendices: the tool roster and the headline metrics.
    pub fn create_appendices(&self, results: &AnalysisResults) -> (r: Vec<Appendix>)
        ensures
            r@.len() == 2,
            r@[0].title@ == "Tool Configurations"@,
            r@[0].content@ == "Analysis performed using: "@ + crate::ai::join_comma(
                crate::parser::views_of(results.analysis_summary.tools_used@),
            ),
            r@[0].appendix_type@ == "configuration"@,
            r@[1].title@ == "Analysis Metrics"@,
            r@[1].appendix_type@ == "metrics"@,
    {
        let mut out: Vec<Appendix> = Vec::new();
        let joined = crate::ai::join_comma_exec(&results.analysis_summary.tools_used);
        out.push(
            Appendix {
                title: String::from_str("Tool Configurations"),
                content: String::from_str("Analysis performed using: ").concat(joined.as_str()),
                appendix_type: String::from_str("configuration"),
            },
        );
        let mut content = String::from_str("Security Score: ");
        let score = fmt_u64(results.metrics.security_score);
        content.append(score.as_str());
        content.append("\nComplexity Score (hundredths): ");
        let complexity = fmt_u64(results.metrics.complexity_score);
        content.append(complexity.as_str());
        content.append("\nLines of Code: ");
        let lines = fmt_u64(results.metrics.lines_of_code as u64);
        content.append(lines.as_str());
        out.push(
            Appendix {
                title: String::from_str("Analysis Metrics"),
                content,
                appendix_type: String::from_str("metrics"),
            },
        );
        out
    }
}

/// The canonical category at each breakdown position.
pub open spec fn category_order(k: int) -> Category {
    if k == 0 {
        Category::Reentrancy
    } else if k == 1 {
        Category::AccessControl
    } else if k == 2 {
        Category::IntegerOverflow
    } else if k == 3 {
        Category::UnhandledExceptions
    } else if k == 4 {
        Category::TimestampDependence
    } else if k == 5 {
        Category::LowLevelCalls
    } else if k == 6 {
        Category::DenialOfService
    } else if k == 7 {
        Category::Fuzzing
    } else if k == 8 {
        Category::SymbolicExecution
    } else if k == 9 {
        Category::InputValidation
    } else if k == 10 {
        Category::CodeQuality
    } else {
        Category::Other
    }
}

/// All twelve categories in canonical order.
fn all_categories() -> (r: Vec<Category>)
    ensures
        r@.len() == 12,
        forall|k: int| 0 <= k < 12 ==> #[trigger] r@[k] == category_order(k),
{
    let mut v: Vec<Category> = Vec::new();
    v.push(Category::Reentrancy);
    v.push(Category::AccessControl);
    v.push(Category::IntegerOverflow);
    v.push(Category::UnhandledExceptions);
    v.push(Category::TimestampDependence);
    v.push(Category::LowLevelCalls);
    v.push(Category::DenialOfService);
    v.push(Category::Fuzzing);
    v.push(Category::SymbolicExecution);
    v.push(Category::InputValidation);
    v.push(Category::CodeQuality);
    v.push(Category::Other);
    v
}

/// Does a category list hold `c`?
fn contains_category(v: &Vec<Category>, c: Category) -> (r: bool)
    ensures
        r == v@.contains(c),
{
    let mut i: usize = 0;
    while i < v.len()
        invariant
            i <= v@.len(),
            forall|k: int| 0 <= k < i ==> #[trigger] v@[k] != c,
        decreases v@.len() - i,
    {
        if v[i] == c {
            return true;
        }
        i = i + 1;
    }
    proof {
        if v@.contains(c) {
            let k = choose|k: int| 0 <= k < v@.len() && #[trigger] v@[k] == c;
        }
    }
    false
}

/// The distinct finding categories, in first-seen order.
fn distinct_cats_exec(v: &Vec<Finding>) -> (r: Vec<Category>)
    ensures
        r@ == distinct_cats(v@, v@.len() as int),
{
    let mut out: Vec<Category> = Vec::new();
    let mut i: usize = 0;
    while i < v.len()
        invariant
            i <= v@.len(),
            out@ =~= distinct_cats(v@, i as int),
        decreases v@.len() - i,
    {
        if !contains_category(&out, v[i].category) {
            out.push(v[i].category);
        }
        i = i + 1;
    }
    out
}

} // verus!
