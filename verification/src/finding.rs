//! The canonical, tool-agnostic vulnerability record and its taxonomy.
//!
//! Every analysis backend's raw output is normalized into a [`Finding`]
//! whose severity is one of exactly five canonical values and whose
//! category comes from a closed enumeration.

use vstd::prelude::*;

verus! {

/// The closed, five-value severity scale.  Severity drives the scoring
/// weight, so it is an enum rather than a free-form string.
#[derive(Clone, Copy, Debug, PartialEq, Eq, Structural)]
pub enum Severity {
    Critical,
    High,
    Medium,
    Low,
    Info,
}

/// The closed category taxonomy every backend's findings are mapped into.
#[derive(Clone, Copy, Debug, PartialEq, Eq, Structural)]
pub enum Category {
    Reentrancy,
    AccessControl,
    IntegerOverflow,
    UnhandledExceptions,
    TimestampDependence,
    LowLevelCalls,
    DenialOfService,
    Fuzzing,
    SymbolicExecution,
    InputValidation,
    CodeQuality,
    Other,
}

/// One normalized, tool-attributed vulnerability record.
///
/// `confidence` is expressed in hundredths (0 ..= 100 stands for 0.0 ..= 1.0).
#[derive(Clone, Debug)]
pub struct Finding {
    pub id: String,
    pub title: String,
    pub description: String,
    pub severity: Severity,
    pub category: Category,
    pub file_path: String,
    pub line_number: Option<usize>,
    pub code_snippet: Option<String>,
    pub recommendation: Option<String>,
    pub references: Vec<String>,
    pub cwe_id: Option<String>,
    pub tool: String,
    pub confidence: u32,
}

impl Finding {
    /// A well-formed finding keeps its confidence within the unit interval.
    pub open spec fn wf(self) -> bool {
        self.confidence <= 100
    }
}

/// The display name of a severity.
pub open spec fn spec_severity_name(s: Severity) -> Seq<char> {
    match s {
        Severity::Critical => "Critical"@,
        Severity::High => "High"@,
        Severity::Medium => "Medium"@,
        Severity::Low => "Low"@,
        Severity::Info => "Info"@,
    }
}

impl Severity {
    /// The canonical, case-sensitive display name.
    pub fn as_str(&self) -> (r: &'static str)
        ensures
            r@ == spec_severity_name(*self),
    {
        match self {
            Severity::Critical => "Critical",
            Severity::High => "High",
            Severity::Medium => "Medium",
            Severity::Low => "Low",
            Severity::Info => "Info",
        }
    }
}

/// The display name of a category.
pub open spec fn spec_category_name(c: Category) -> Seq<char> {
    match c {
        Category::Reentrancy => "Reentrancy"@,
        Category::AccessControl => "AccessControl"@,
        Category::IntegerOverflow => "IntegerOverflow"@,
        Category::UnhandledExceptions => "UnhandledExceptions"@,
        Category::TimestampDependence => "TimestampDependence"@,
        Category::LowLevelCalls => "LowLevelCalls"@,
        Category::DenialOfService => "DenialOfService"@,
        Category::Fuzzing => "Fuzzing"@,
        Category::SymbolicExecution => "SymbolicExecution"@,
        Category::InputValidation => "InputValidation"@,
        Category::CodeQuality => "CodeQuality"@,
        Category::Other => "Other"@,
    }
}

impl Category {
    /// The canonical display name.
    pub fn as_str(&self) -> (r: &'static str)
        ensures
            r@ == spec_category_name(*self),
    {
        match self {
            Category::Reentrancy => "Reentrancy",
            Category::AccessControl => "AccessControl",
            Category::IntegerOverflow => "IntegerOverflow",
            Category::UnhandledExceptions => "UnhandledExceptions",
            Category::TimestampDependence => "TimestampDependence",
            Category::LowLevelCalls => "LowLevelCalls",
            Category::DenialOfService => "DenialOfService",
            Category::Fuzzing => "Fuzzing",
            Category::SymbolicExecution => "SymbolicExecution",
            Category::InputValidation => "InputValidation",
            Category::CodeQuality => "CodeQuality",
            Category::Other => "Other",
        }
    }
}

/// The scoring penalty of one finding, by severity.
pub open spec fn severity_weight(s: Severity) -> int {
    match s {
        Severity::Critical => 25,
        Severity::High => 15,
        Severity::Medium => 8,
        Severity::Low => 3,
        Severity::Info => 1,
    }
}

/// Executable twin of [`severity_weight`].
pub fn severity_weight_points(s: Severity) -> (r: u64)
    ensures
        r == severity_weight(s),
{
    match s {
        Severity::Critical => 25,
        Severity::High => 15,
        Severity::Medium => 8,
        Severity::Low => 3,
        Severity::Info => 1,
    }
}

/// The fields of `f` that every heuristic check fixes, stated once so each
/// check's contract can pin them in one clause.
pub open spec fn finding_fields(
    f: Finding,
    title: Seq<char>,
    severity: Severity,
    category: Category,
    file_path: Seq<char>,
    tool: Seq<char>,
    confidence: u32,
) -> bool {
    &&& f.title@ == title
    &&& f.severity == severity
    &&& f.category == category
    &&& f.file_path@ == file_path
    &&& f.tool@ == tool
    &&& f.confidence == confidence
    &&& f.id@.len() == 36
}

/// Build one heuristic finding with a fresh identifier and a single
/// reference.
#[allow(clippy::too_many_arguments)]
pub fn make_finding(
    title: String,
    description: &str,
    severity: Severity,
    category: Category,
    file_path: &String,
    line_number: Option<usize>,
    code_snippet: Option<String>,
    recommendation: &str,
    reference: &str,
    cwe_id: Option<&str>,
    tool: &str,
    confidence: u32,
) -> (f: Finding)
    ensures
        finding_fields(f, title@, severity, category, file_path@, tool@, confidence),
        f.description@ == description@,
        f.line_number == line_number,
        f.code_snippet == code_snippet,
        f.recommendation matches Some(r) && r@ == recommendation@,
        f.references@.len() == 1 && f.references@[0]@ == reference@,
        match cwe_id {
            Some(c) => f.cwe_id matches Some(fc) && fc@ == c@,
            None => f.cwe_id is None,
        },
{
    let mut references: Vec<String> = Vec::new();
    references.push(String::from_str(reference));
    let cwe: Option<String> = match cwe_id {
        Some(c) => Some(String::from_str(c)),
        None => None,
    };
    Finding {
        id: crate::ids::fresh_id(),
        title,
        description: String::from_str(description),
        severity,
        category,
        file_path: file_path.clone(),
        line_number,
        code_snippet,
        recommendation: Some(String::from_str(recommendation)),
        references,
        cwe_id: cwe,
        tool: String::from_str(tool),
        confidence,
    }
}

/// Ghost description of one finding a heuristic battery is expected to
/// produce: the identity- and scoring-relevant fields, with the free-text
/// fields left open.
pub ghost struct ExpectedFinding {
    pub title: Seq<char>,
    pub severity: Severity,
    pub category: Category,
    pub line_number: Option<usize>,
    pub cwe_id: Option<Seq<char>>,
    pub confidence: u32,
}

/// `f` realises the expected finding `e` for contract `file` and tool
/// `tool`, with a fresh 36-character identifier.
pub open spec fn matches_expected(
    f: Finding,
    e: ExpectedFinding,
    file: Seq<char>,
    tool: Seq<char>,
) -> bool {
    &&& f.title@ == e.title
    &&& f.severity == e.severity
    &&& f.category == e.category
    &&& f.line_number == e.line_number
    &&& match e.cwe_id {
        Some(c) => f.cwe_id matches Some(fc) && fc@ == c,
        None => f.cwe_id is None,
    }
    &&& f.confidence == e.confidence
    &&& f.file_path@ == file
    &&& f.tool@ == tool
    &&& f.id@.len() == 36
}

/// The produced findings realise the expected battery, one for one and in
/// order.
pub open spec fn battery_matches(
    fs: Seq<Finding>,
    es: Seq<ExpectedFinding>,
    file: Seq<char>,
    tool: Seq<char>,
) -> bool {
    fs.len() == es.len() && forall|i: int|
        0 <= i < fs.len() ==> matches_expected(#[trigger] fs[i], es[i], file, tool)
}

/// Appending one matching finding extends a matching battery.
pub proof fn lemma_battery_push(
    fs: Seq<Finding>,
    es: Seq<ExpectedFinding>,
    f: Finding,
    e: ExpectedFinding,
    file: Seq<char>,
    tool: Seq<char>,
)
    requires
        battery_matches(fs, es, file, tool),
        matches_expected(f, e, file, tool),
    ensures
        battery_matches(fs.push(f), es.push(e), file, tool),
{
    assert forall|i: int| 0 <= i < fs.push(f).len() implies matches_expected(
        #[trigger] fs.push(f)[i],
        es.push(e)[i],
        file,
        tool,
    ) by {
        if i < fs.len() {
            assert(fs.push(f)[i] == fs[i]);
            assert(es.push(e)[i] == es[i]);
        } else {
            assert(fs.push(f)[i] == f);
            assert(es.push(e)[i] == e);
        }
    }
}

/// Concatenating two matching batteries gives a matching battery.
pub proof fn lemma_battery_concat(
    fs1: Seq<Finding>,
    es1: Seq<ExpectedFinding>,
    fs2: Seq<Finding>,
    es2: Seq<ExpectedFinding>,
    file: Seq<char>,
    tool: Seq<char>,
)
    requires
        battery_matches(fs1, es1, file, tool),
        battery_matches(fs2, es2, file, tool),
    ensures
        battery_matches(fs1 + fs2, es1 + es2, file, tool),
{
    assert forall|i: int| 0 <= i < (fs1 + fs2).len() implies matches_expected(
        #[trigger] (fs1 + fs2)[i],
        (es1 + es2)[i],
        file,
        tool,
    ) by {
        if i < fs1.len() {
            assert((fs1 + fs2)[i] == fs1[i]);
            assert((es1 + es2)[i] == es1[i]);
        } else {
            assert((fs1 + fs2)[i] == fs2[i - fs1.len()]);
            assert((es1 + es2)[i] == es2[i - es1.len()]);
        }
    }
}

/// How many findings in `s` carry severity `sev`.
pub open spec fn count_sev(s: Seq<Finding>, sev: Severity) -> int
    decreases s.len(),
{
    if s.len() == 0 {
        0
    } else {
        (if s[0].severity == sev {
            1int
        } else {
            0int
        }) + count_sev(s.drop_first(), sev)
    }
}

pub proof fn lemma_count_sev_nonneg(s: Seq<Finding>, sev: Severity)
    ensures
        0 <= count_sev(s, sev) <= s.len(),
    decreases s.len(),
{
    if s.len() > 0 {
        lemma_count_sev_nonneg(s.drop_first(), sev);
    }
}

/// Counting a severity distributes over concatenation.
pub proof fn lemma_count_sev_concat(a: Seq<Finding>, b: Seq<Finding>, sev: Severity)
    ensures
        count_sev(a + b, sev) == count_sev(a, sev) + count_sev(b, sev),
    decreases a.len(),
{
    if a.len() == 0 {
        assert(a + b =~= b);
    } else {
        assert((a + b).drop_first() =~= a.drop_first() + b);
        lemma_count_sev_concat(a.drop_first(), b, sev);
    }
}

/// Merging finding lists from independent backends is commutative with
/// respect to the per-severity counts: reordering backend execution never
/// changes the final severity distribution.
pub proof fn lemma_merge_counts_commutative(a: Seq<Finding>, b: Seq<Finding>)
    ensures
        forall|sev: Severity| #[trigger] count_sev(a + b, sev) == count_sev(b + a, sev),
{
    assert forall|sev: Severity| #[trigger] count_sev(a + b, sev) == count_sev(b + a, sev) by {
        lemma_count_sev_concat(a, b, sev);
        lemma_count_sev_concat(b, a, sev);
    }
}

/// Merging finding lists from independent backends is associative with
/// respect to the per-severity counts.
pub proof fn lemma_merge_counts_associative(a: Seq<Finding>, b: Seq<Finding>, c: Seq<Finding>)
    ensures
        forall|sev: Severity| #[trigger] count_sev(a + b + c, sev) == count_sev(
            a + (b + c),
            sev,
        ),
{
    assert(a + b + c =~= a + (b + c));
}

} // verus!
