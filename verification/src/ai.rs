//! AI-assisted detection: prompt construction and normalization of
//! AI-service responses.
//!
//! The remote calls themselves happen outside this crate; the functions
//! here build the exact request text from the contract model and turn
//! whatever text came back into normalized findings and creative probes.

use vstd::prelude::*;

use crate::analyzer::CreativeProbe;
use crate::finding::{Category, Finding, Severity};
use crate::model::ParsedContract;
use crate::text::{dec_str, fmt_u64, lower_seq};

verus! {

/// One request to an AI backend, as plain values.
#[derive(Clone, Debug)]
pub struct AIAnalysisRequest {
    pub contract_code: String,
    pub contract_name: String,
    pub analysis_type: String,
    pub creativity_level: String,
    pub include_poc: bool,
}

/// Comma-and-space join of the strings from position `i` onward.
pub open spec fn join_from(ss: Seq<Seq<char>>, i: int) -> Seq<char>
    recommends
        0 <= i <= ss.len(),
    decreases ss.len() - i when 0 <= i <= ss.len()
{
    if i >= ss.len() {
        Seq::empty()
    } else if i == ss.len() - 1 {
        ss[i]
    } else {
        ss[i] + ", "@ + join_from(ss, i + 1)
    }
}

/// Comma-and-space join of a string list.
pub open spec fn join_comma(ss: Seq<Seq<char>>) -> Seq<char> {
    join_from(ss, 0)
}

/// Join owned strings with a comma and a space.
pub fn join_comma_exec(v: &Vec<String>) -> (r: String)
    ensures
        r@ == join_comma(crate::parser::views_of(v@)),
{
    let ghost vs = crate::parser::views_of(v@);
    let mut out = String::new();
    let mut i: usize = 0;
    proof {
        assert(out@ + join_from(vs, 0) =~= join_from(vs, 0));
    }
    while i < v.len()
        invariant
            i <= v@.len(),
            vs == crate::parser::views_of(v@),
            join_comma(vs) == out@ + join_from(vs, i as int),
        decreases v@.len() - i,
    {
        let ghost old_out = out@;
        proof {
            assert(vs[i as int] == v@[i as int]@);
        }
        out.append(v[i].as_str());
        if i + 1 < v.len() {
            out.append(", ");
            proof {
                reveal_strlit(", ");
                assert(out@ =~= old_out + (vs[i as int] + ", "@));
                assert(old_out + (vs[i as int] + ", "@) + join_from(vs, i + 1) =~= old_out + (vs[
                    i as int
                ] + ", "@ + join_from(vs, i + 1)));
            }
        } else {
            proof {
                assert(join_from(vs, i + 1) =~= Seq::<char>::empty());
                assert(out@ + Seq::<char>::empty() =~= out@);
            }
        }
        i = i + 1;
    }
    proof {
        if i >= v.len() && v@.len() == 0 {
            assert(join_from(vs, 0) =~= Seq::<char>::empty());
        }
        assert(join_from(vs, i as int) =~= Seq::<char>::empty());
        assert(out@ + Seq::<char>::empty() =~= out@);
    }
    out
}

/// The exact analysis prompt built for a contract.
pub open spec fn spec_analysis_prompt(c: ParsedContract) -> Seq<char> {
    let base =
        "You are a senior blockchain security auditor specializing in smart contract vulnerabilities. Analyze the following smart contract for security issues, focusing on:\n\n1. Reentrancy vulnerabilities\n2. Access control issues\n3. Integer overflow/underflow\n4. Unchecked external calls\n5. Gas optimization issues\n6. Logic errors and edge cases\n7. Front-running opportunities\n8. Timestamp dependence\n9. Denial of service vulnerabilities\n10. Upgrade mechanism flaws\n\n"@
        + "Contract Name: "@ + c.name@ + "\n"@ + "Compiler Version: "@ + c.compiler_version@
        + "\n"@ + "Functions: "@ + dec_str(c.functions@.len() as int) + "\n"@
        + "State Variables: "@ + dec_str(c.state_variables@.len() as int) + "\n"@;
    let with_inheritance = if c.inheritance@.len() > 0 {
        base + "Inherits from: "@ + join_comma(crate::parser::views_of(c.inheritance@)) + "\n"@
    } else {
        base
    };
    with_inheritance + "\nContract Source Code:\n```solidity\n"@ + c.source_code@ + "\n```\n\n"@
        + "Please provide a detailed analysis in JSON format with the following structure:\n{\n  \"vulnerabilities\": [\n    {\n      \"title\": \"Vulnerability Title\",\n      \"description\": \"Detailed description\",\n      \"severity\": \"Critical|High|Medium|Low|Info\",\n      \"category\": \"Category\",\n      \"line_number\": number,\n      \"code_snippet\": \"relevant code\",\n      \"exploit_scenario\": \"how to exploit\",\n      \"fix_suggestion\": \"how to fix\",\n      \"confidence\": 0.0-1.0\n    }\n  ],\n  \"creative_insights\": [\"insight1\", \"insight2\"],\n  \"recommendations\": [\"rec1\", \"rec2\"]\n}\n"@
}

/// Build the analysis prompt for a contract.
pub fn generate_analysis_prompt(contract: &ParsedContract) -> (r: String)
    ensures
        r@ == spec_analysis_prompt(*contract),
{
    let mut p = String::from_str(
        "You are a senior blockchain security auditor specializing in smart contract vulnerabilities. Analyze the following smart contract for security issues, focusing on:\n\n1. Reentrancy vulnerabilities\n2. Access control issues\n3. Integer overflow/underflow\n4. Unchecked external calls\n5. Gas optimization issues\n6. Logic errors and edge cases\n7. Front-running opportunities\n8. Timestamp dependence\n9. Denial of service vulnerabilities\n10. Upgrade mechanism flaws\n\n",
    );
    p.append("Contract Name: ");
    p.append(contract.name.as_str());
    p.append("\n");
    p.append("Compiler Version: ");
    p.append(contract.compiler_version.as_str());
    p.append("\n");
    p.append("Functions: ");
    let nf = fmt_u64(contract.functions.len() as u64);
    p.append(nf.as_str());
    p.append("\n");
    p.append("State Variables: ");
    let nv = fmt_u64(contract.state_variables.len() as u64);
    p.append(nv.as_str());
    p.append("\n");
    if contract.inheritance.len() > 0 {
        p.append("Inherits from: ");
        let joined = join_comma_exec(&contract.inheritance);
        p.append(joined.as_str());
        p.append("\n");
    }
    p.append("\nContract Source Code:\n```solidity\n");
    p.append(contract.source_code.as_str());
    p.append("\n```\n\n");
    p.append(
        "Please provide a detailed analysis in JSON format with the following structure:\n{\n  \"vulnerabilities\": [\n    {\n      \"title\": \"Vulnerability Title\",\n      \"description\": \"Detailed description\",\n      \"severity\": \"Critical|High|Medium|Low|Info\",\n      \"category\": \"Category\",\n      \"line_number\": number,\n      \"code_snippet\": \"relevant code\",\n      \"exploit_scenario\": \"how to exploit\",\n      \"fix_suggestion\": \"how to fix\",\n      \"confidence\": 0.0-1.0\n    }\n  ],\n  \"creative_insights\": [\"insight1\", \"insight2\"],\n  \"recommendations\": [\"rec1\", \"rec2\"]\n}\n",
    );
    p
}

/// The creativity-dependent middle piece of the creative prompt.
pub open spec fn spec_creativity_piece(creativity: Seq<char>) -> Seq<char> {
    if creativity == "low"@ {
        "Focus on well-known vulnerability patterns and common mistakes.\n"@
    } else if creativity == "medium"@ {
        "Explore creative combinations of known vulnerabilities and unusual edge cases.\n"@
    } else if creativity == "high"@ {
        "Think creatively about novel attack vectors, complex multi-step exploits, and unconventional ways to break the contract's assumptions.\n"@
    } else {
        "Explore creative vulnerability scenarios.\n"@
    }
}

/// The exact creative-probe prompt built for a contract.
pub open spec fn spec_creative_prompt(
    c: ParsedContract,
    creativity: Seq<char>,
    generate_poc: bool,
) -> Seq<char> {
    let head =
        "You are a creative blockchain security researcher and white-hat hacker. Your task is to think outside the box and discover novel attack vectors and edge cases that traditional static analysis tools might miss.\n\n"@
        + spec_creativity_piece(creativity)
        + "\nConsider these creative attack scenarios:\n1. Economic attacks (flash loans, arbitrage, market manipulation)\n2. Governance attacks (vote manipulation, proposal griefing)\n3. Cross-protocol interactions and composability risks\n4. MEV (Maximal Extractable Value) opportunities\n5. Social engineering combined with technical exploits\n6. Time-based attacks and deadline manipulation\n7. Gas griefing and DoS through resource exhaustion\n8. Oracle manipulation and price feed attacks\n9. Multi-block attacks and state manipulation\n10. Upgrade mechanism exploitation\n\n"@
        + "Contract to analyze: "@ + c.name@ + "\n"@ + "```solidity\n"@ + c.source_code@
        + "\n```\n\n"@;
    let with_poc = if generate_poc {
        head + "For each vulnerability, provide a proof-of-concept exploit code.\n"@
    } else {
        head
    };
    let tmpl_head =
        "Provide your analysis in JSON format with creative probes:\n{\n  \"probes\": [\n    {\n      \"title\": \"Creative Attack Title\",\n      \"description\": \"Detailed attack description\",\n      \"severity\": \"Critical|High|Medium|Low\",\n      \"attack_vector\": \"How the attack works\",\n      \"impact\": \"What damage it can cause\",\n"@;
    let tmpl_poc = if generate_poc {
        tmpl_head + "      \"proof_of_concept\": \"Exploit code\",\n"@
    } else {
        tmpl_head
    };
    with_poc + tmpl_poc
        + "      \"recommended_fix\": \"How to prevent it\",\n      \"confidence\": 0.0-1.0\n    }\n  ]\n}\n"@
}

/// Build the creative-probe prompt for a contract.
pub fn generate_creative_prompt(
    contract: &ParsedContract,
    creativity: &str,
    generate_poc: bool,
) -> (r: String)
    ensures
        r@ == spec_creative_prompt(*contract, creativity@, generate_poc),
{
    let mut p = String::from_str(
        "You are a creative blockchain security researcher and white-hat hacker. Your task is to think outside the box and discover novel attack vectors and edge cases that traditional static analysis tools might miss.\n\n",
    );
    if crate::text::str_eq(creativity, "low") {
        p.append("Focus on well-known vulnerability patterns and common mistakes.\n");
    } else if crate::text::str_eq(creativity, "medium") {
        p.append("Explore creative combinations of known vulnerabilities and unusual edge cases.\n");
    } else if crate::text::str_eq(creativity, "high") {
        p.append(
            "Think creatively about novel attack vectors, complex multi-step exploits, and unconventional ways to break the contract's assumptions.\n",
        );
    } else {
        p.append("Explore creative vulnerability scenarios.\n");
    }
    p.append(
        "\nConsider these creative attack scenarios:\n1. Economic attacks (flash loans, arbitrage, market manipulation)\n2. Governance attacks (vote manipulation, proposal griefing)\n3. Cross-protocol interactions and composability risks\n4. MEV (Maximal Extractable Value) opportunities\n5. Social engineering combined with technical exploits\n6. Time-based attacks and deadline manipulation\n7. Gas griefing and DoS through resource exhaustion\n8. Oracle manipulation and price feed attacks\n9. Multi-block attacks and state manipulation\n10. Upgrade mechanism exploitation\n\n",
    );
    p.append("Contract to analyze: ");
    p.append(contract.name.as_str());
    p.append("\n");
    p.append("```solidity\n");
    p.append(contract.source_code.as_str());
    p.append("\n```\n\n");
    if generate_poc {
        p.append("For each vulnerability, provide a proof-of-concept exploit code.\n");
    }
    p.append(
        "Provide your analysis in JSON format with creative probes:\n{\n  \"probes\": [\n    {\n      \"title\": \"Creative Attack Title\",\n      \"description\": \"Detailed attack description\",\n      \"severity\": \"Critical|High|Medium|Low\",\n      \"attack_vector\": \"How the attack works\",\n      \"impact\": \"What damage it can cause\",\n",
    );
    if generate_poc {
        p.append("      \"proof_of_concept\": \"Exploit code\",\n");
    }
    p.append(
        "      \"recommended_fix\": \"How to prevent it\",\n      \"confidence\": 0.0-1.0\n    }\n  ]\n}\n",
    );
    p
}

/// Build an AI analysis request record for a contract.
pub fn build_analysis_request(
    contract: &ParsedContract,
    creativity_level: &str,
    include_poc: bool,
) -> (r: AIAnalysisRequest)
    ensures
        r.contract_code@ == contract.source_code@,
        r.contract_name@ == contract.name@,
        r.analysis_type@ == "security"@,
        r.creativity_level@ == creativity_level@,
        r.include_poc == include_poc,
{
    AIAnalysisRequest {
        contract_code: contract.source_code.clone(),
        contract_name: contract.name.clone(),
        analysis_type: String::from_str("security"),
        creativity_level: String::from_str(creativity_level),
        include_poc,
    }
}

/// The canonical severity an AI-reported severity maps to; anything
/// outside the five canonical names takes the documented default of
/// `Medium`, so a free-form severity never passes through raw.
pub open spec fn spec_map_ai_severity(s: Seq<char>) -> Severity {
    if s == "Critical"@ {
        Severity::Critical
    } else if s == "High"@ {
        Severity::High
    } else if s == "Medium"@ {
        Severity::Medium
    } else if s == "Low"@ {
        Severity::Low
    } else if s == "Info"@ {
        Severity::Info
    } else {
        Severity::Medium
    }
}

/// Map an AI-reported severity into the canonical scale.
pub fn map_ai_severity(severity: &str) -> (r: Severity)
    ensures
        r == spec_map_ai_severity(severity@),
{
    if crate::text::str_eq(severity, "Critical") {
        Severity::Critical
    } else if crate::text::str_eq(severity, "High") {
        Severity::High
    } else if crate::text::str_eq(severity, "Medium") {
        Severity::Medium
    } else if crate::text::str_eq(severity, "Low") {
        Severity::Low
    } else if crate::text::str_eq(severity, "Info") {
        Severity::Info
    } else {
        Severity::Medium
    }
}

/// The category an AI-reported, lower-cased category label maps to.
pub open spec fn spec_map_ai_category(s: Seq<char>) -> Category {
    if lower_seq(s) == "reentrancy"@ {
        Category::Reentrancy
    } else if lower_seq(s) == "access control"@ {
        Category::AccessControl
    } else if lower_seq(s) == "integer overflow"@ {
        Category::IntegerOverflow
    } else if lower_seq(s) == "unchecked calls"@ {
        Category::UnhandledExceptions
    } else if lower_seq(s) == "timestamp"@ {
        Category::TimestampDependence
    } else if lower_seq(s) == "dos"@ {
        Category::DenialOfService
    } else {
        Category::Other
    }
}

/// Map an AI-reported category label into the closed taxonomy.
pub fn map_ai_category(category: &str) -> (r: Category)
    ensures
        r == spec_map_ai_category(category@),
{
    if crate::text::lower_eq(category, "reentrancy") {
        Category::Reentrancy
    } else if crate::text::lower_eq(category, "access control") {
        Category::AccessControl
    } else if crate::text::lower_eq(category, "integer overflow") {
        Category::IntegerOverflow
    } else if crate::text::lower_eq(category, "unchecked calls") {
        Category::UnhandledExceptions
    } else if crate::text::lower_eq(category, "timestamp") {
        Category::TimestampDependence
    } else if crate::text::lower_eq(category, "dos") {
        Category::DenialOfService
    } else {
        Category::Other
    }
}

/// A finding normalized from an AI response.
pub open spec fn ai_finding_ok(f: Finding, file: Seq<char>) -> bool {
    &&& f.tool@ == "AI Assistant"@
    &&& f.file_path@ == file
    &&& f.confidence <= 100
    &&& f.id@.len() == 36
    &&& f.references@.len() == 1
}

/// Last position before `hi` holding `c`, scanning backwards.
fn rfind_char(s: &str, c: char) -> (r: Option<usize>)
    ensures
        r matches Some(i) ==> i < s@.len() && s@[i as int] == c,
{
    let len = s.unicode_len();
    let mut j: usize = len;
    while j > 0
        invariant
            j <= len,
            len == s@.len(),
        decreases j,
    {
        j = j - 1;
        if s.get_char(j) == c {
            return Some(j);
        }
    }
    None
}

/// The confidence in hundredths carried by an integral native
/// confidence value; fractional or missing confidences take `fallback`.
/// The AI protocol reports confidence on a zero-to-one scale, so
/// integral values above one hundred clamp to one hundred.
pub open spec fn spec_clamped_confidence(native: Option<u64>, fallback: u32) -> u32 {
    match native {
        Some(n) => if n <= 100 {
            n as u32
        } else {
            100
        },
        None => fallback,
    }
}

/// Clamp a native confidence value into hundredths.
pub fn clamp_confidence(native: Option<u64>, fallback: u32) -> (r: u32)
    requires
        fallback <= 100,
    ensures
        r == spec_clamped_confidence(native, fallback),
        r <= 100,
{
    match native {
        Some(n) => {
            if n <= 100 {
                n as u32
            } else {
                100
            }
        },
        None => fallback,
    }
}

/// The integral native confidence of a JSON object's field, when it
/// carries one.
fn json_native_confidence(v: &serde_json::Value, key: &str) -> (r: Option<u64>) {
    match crate::json::json_get(v, key) {
        Some(cv) => crate::json::json_as_u64(cv),
        None => None,
    }
}

/// Extract the JSON object embedded in an AI reply: the text between the
/// first opening brace and the last closing brace, inclusive.
fn embedded_json<'a>(content: &'a str) -> (r: Option<&'a str>) {
    let len = content.unicode_len();
    let start = crate::text::find_char(content, 0, '{');
    if start >= len {
        return None;
    }
    match rfind_char(content, '}') {
        Some(end) => {
            if start <= end {
                Some(content.substring_char(start, end + 1))
            } else {
                None
            }
        },
        None => None,
    }
}

/// Normalize an AI analysis reply into findings.  Replies that do not
/// carry a well-formed vulnerability list yield no findings; every
/// produced finding is AI-attributed, localised to this contract, and
/// carries a mapped severity, category and clamped confidence.
pub fn parse_ai_analysis_response(content: &str, contract: &ParsedContract) -> (r: Vec<Finding>)
    ensures
        forall|k: int| 0 <= k < r@.len() ==> ai_finding_ok(#[trigger] r@[k], contract.name@),
{
    let mut out: Vec<Finding> = Vec::new();
    let json_text = match embedded_json(content) {
        Some(t) => t,
        None => {
            return out;
        },
    };
    let parsed = match crate::json::json_parse(json_text) {
        Some(v) => v,
        None => {
            return out;
        },
    };
    let vulns = match crate::json::json_get(&parsed, "vulnerabilities") {
        Some(v) => v,
        None => {
            return out;
        },
    };
    let arr = match crate::json::json_as_array(vulns) {
        Some(a) => a,
        None => {
            return out;
        },
    };
    let mut i: usize = 0;
    while i < arr.len()
        invariant
            forall|k: int| 0 <= k < out@.len() ==> ai_finding_ok(#[trigger] out@[k], contract.name@),
        decreases arr@.len() - i,
    {
        match parse_ai_vulnerability(&arr[i], contract) {
            Some(f) => {
                out.push(f);
            },
            None => {
            },
        }
        i = i + 1;
    }
    out
}

/// Build the normalized finding for one AI-reported vulnerability, from
/// its plain field values: every field is fixed by the record and the
/// mapping tables.
pub fn normalize_ai_vulnerability(
    title: &str,
    description: &str,
    severity: &str,
    category: &str,
    line_number: Option<usize>,
    code_snippet: Option<String>,
    fix_suggestion: Option<String>,
    native_confidence: Option<u64>,
    contract_name: &String,
) -> (f: Finding)
    ensures
        f.title@ == "AI: "@ + title@,
        f.description@ == description@,
        f.severity == spec_map_ai_severity(severity@),
        f.category == spec_map_ai_category(category@),
        f.file_path@ == contract_name@,
        f.line_number == line_number,
        f.code_snippet == code_snippet,
        f.recommendation == fix_suggestion,
        f.references@.len() == 1 && f.references@[0]@ == "AI Analysis"@,
        f.cwe_id is None,
        f.tool@ == "AI Assistant"@,
        f.confidence == spec_clamped_confidence(native_confidence, 60),
        f.id@.len() == 36,
{
    let mut references: Vec<String> = Vec::new();
    references.push(String::from_str("AI Analysis"));
    Finding {
        id: crate::ids::fresh_id(),
        title: String::from_str("AI: ").concat(title),
        description: String::from_str(description),
        severity: map_ai_severity(severity),
        category: map_ai_category(category),
        file_path: contract_name.clone(),
        line_number,
        code_snippet,
        recommendation: fix_suggestion,
        references,
        cwe_id: None,
        tool: String::from_str("AI Assistant"),
        confidence: clamp_confidence(native_confidence, 60),
    }
}

/// Normalize one AI-reported vulnerability object.
fn parse_ai_vulnerability(v: &serde_json::Value, contract: &ParsedContract) -> (r: Option<
    Finding,
>)
    ensures
        r matches Some(f) ==> ai_finding_ok(f, contract.name@),
{
    let title = match crate::json::json_get(v, "title") {
        Some(t) => match crate::json::json_as_str(t) {
            Some(s) => s,
            None => {
                return None;
            },
        },
        None => {
            return None;
        },
    };
    let description = match crate::json::json_get(v, "description") {
        Some(t) => match crate::json::json_as_str(t) {
            Some(s) => s,
            None => {
                return None;
            },
        },
        None => {
            return None;
        },
    };
    let severity = match crate::json::json_get(v, "severity") {
        Some(t) => match crate::json::json_as_str(t) {
            Some(s) => s,
            None => {
                return None;
            },
        },
        None => {
            return None;
        },
    };
    let category = match crate::json::json_get(v, "category") {
        Some(t) => match crate::json::json_as_str(t) {
            Some(s) => s,
            None => {
                return None;
            },
        },
        None => {
            return None;
        },
    };
    let line_number: Option<usize> = match crate::json::json_get(v, "line_number") {
        Some(lv) => match crate::json::json_as_u64(lv) {
            Some(n) => {
                if n <= usize::MAX as u64 {
                    Some(n as usize)
                } else {
                    None
                }
            },
            None => None,
        },
        None => None,
    };
    let code_snippet: Option<String> = match crate::json::json_get(v, "code_snippet") {
        Some(cv) => match crate::json::json_as_str(cv) {
            Some(s) => Some(String::from_str(s)),
            None => None,
        },
        None => None,
    };
    let recommendation: Option<String> = match crate::json::json_get(v, "fix_suggestion") {
        Some(fv) => match crate::json::json_as_str(fv) {
            Some(s) => Some(String::from_str(s)),
            None => None,
        },
        None => None,
    };
    Some(
        normalize_ai_vulnerability(
            title,
            description,
            severity,
            category,
            line_number,
            code_snippet,
            recommendation,
            json_native_confidence(v, "confidence"),
            &contract.name,
        ),
    )
}

/// Normalize a creative-probe reply.  Replies without a well-formed
/// probe list yield no probes; every produced probe keeps its confidence
/// within the unit interval.
pub fn parse_creative_probe_response(content: &str) -> (r: Vec<CreativeProbe>)
    ensures
        forall|k: int| 0 <= k < r@.len() ==> (#[trigger] r@[k]).confidence <= 100,
{
    let mut out: Vec<CreativeProbe> = Vec::new();
    let json_text = match embedded_json(content) {
        Some(t) => t,
        None => {
            return out;
        },
    };
    let parsed = match crate::json::json_parse(json_text) {
        Some(v) => v,
        None => {
            return out;
        },
    };
    let probes = match crate::json::json_get(&parsed, "probes") {
        Some(v) => v,
        None => {
            return out;
        },
    };
    let arr = match crate::json::json_as_array(probes) {
        Some(a) => a,
        None => {
            return out;
        },
    };
    let mut i: usize = 0;
    while i < arr.len()
        invariant
            forall|k: int| 0 <= k < out@.len() ==> (#[trigger] out@[k]).confidence <= 100,
        decreases arr@.len() - i,
    {
        match parse_probe_object(&arr[i]) {
            Some(p) => {
                out.push(p);
            },
            None => {
            },
        }
        i = i + 1;
    }
    out
}

/// Build the normalized creative probe for one AI-reported record, from
/// its plain field values: every field is carried through exactly, with
/// the confidence clamped into hundredths.
pub fn normalize_probe_record(
    title: &str,
    description: &str,
    severity: &str,
    attack_vector: &str,
    impact: &str,
    proof_of_concept: Option<String>,
    recommended_fix: Option<String>,
    native_confidence: Option<u64>,
) -> (p: CreativeProbe)
    ensures
        p.title@ == title@,
        p.description@ == description@,
        p.severity@ == severity@,
        p.attack_vector@ == attack_vector@,
        p.impact@ == impact@,
        p.proof_of_concept == proof_of_concept,
        p.recommended_fix == recommended_fix,
        p.confidence == spec_clamped_confidence(native_confidence, 50),
{
    CreativeProbe {
        title: String::from_str(title),
        description: String::from_str(description),
        severity: String::from_str(severity),
        attack_vector: String::from_str(attack_vector),
        impact: String::from_str(impact),
        proof_of_concept,
        recommended_fix,
        confidence: clamp_confidence(native_confidence, 50),
    }
}

/// Normalize one AI-reported probe object; objects missing a required
/// field yield nothing.
pub fn parse_probe_object(probe_obj: &serde_json::Value) -> (r: Option<CreativeProbe>)
    ensures
        r matches Some(p) ==> p.confidence <= 100,
{
    let title = match crate::json::json_get(probe_obj, "title") {
        Some(t) => match crate::json::json_as_str(t) {
            Some(s) => s,
            None => {
                return None;
            },
        },
        None => {
            return None;
        },
    };
    let description = match crate::json::json_get(probe_obj, "description") {
        Some(t) => match crate::json::json_as_str(t) {
            Some(s) => s,
            None => {
                return None;
            },
        },
        None => {
            return None;
        },
    };
    let severity = match crate::json::json_get(probe_obj, "severity") {
        Some(t) => match crate::json::json_as_str(t) {
            Some(s) => s,
            None => {
                return None;
            },
        },
        None => {
            return None;
        },
    };
    let attack_vector = match crate::json::json_get(probe_obj, "attack_vector") {
        Some(t) => match crate::json::json_as_str(t) {
            Some(s) => s,
            None => {
                return None;
            },
        },
        None => {
            return None;
        },
    };
    let impact = match crate::json::json_get(probe_obj, "impact") {
        Some(t) => match crate::json::json_as_str(t) {
            Some(s) => s,
            None => {
                return None;
            },
        },
        None => {
            return None;
        },
    };
    let proof_of_concept: Option<String> = match crate::json::json_get(
        probe_obj,
        "proof_of_concept",
    ) {
        Some(t) => match crate::json::json_as_str(t) {
            Some(s) => Some(String::from_str(s)),
            None => None,
        },
        None => None,
    };
    let recommended_fix: Option<String> = match crate::json::json_get(
        probe_obj,
        "recommended_fix",
    ) {
        Some(t) => match crate::json::json_as_str(t) {
            Some(s) => Some(String::from_str(s)),
            None => None,
        },
        None => None,
    };
    Some(
        normalize_probe_record(
            title,
            description,
            severity,
            attack_vector,
            impact,
            proof_of_concept,
            recommended_fix,
            json_native_confidence(probe_obj, "confidence"),
        ),
    )
}

} // verus!
