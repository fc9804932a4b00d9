//! The engine's analysis results and their marshalling into host records.
use vstd::prelude::*;
use crate::host::{host_model, host_of, to_host, Host, HostValue};
use crate::value::{CanonicalValue, FloatBits};

verus! {

/// Fields of a `BenfordAnalysis` result. Floats are binary64 encodings.
pub struct BenfordData {
    pub observed_distribution: Vec<FloatBits>,
    pub expected_distribution: Vec<FloatBits>,
    pub chi_square: FloatBits,
    pub p_value: FloatBits,
    pub mad: FloatBits,
    pub risk_level: String,
    pub total_numbers: usize,
    pub analysis_summary: String,
}

/// Fields of a `ParetoAnalysis` result. Floats are binary64 encodings.
pub struct ParetoData {
    pub top_20_percent_contribution: FloatBits,
    pub pareto_ratio: FloatBits,
    pub concentration_index: FloatBits,
    pub risk_level: String,
    pub total_items: usize,
    pub analysis_summary: String,
}

/// Fields of a `ZipfAnalysis` result. Floats are binary64 encodings.
pub struct ZipfData {
    pub zipf_coefficient: FloatBits,
    pub correlation_coefficient: FloatBits,
    pub deviation_score: FloatBits,
    pub risk_level: String,
    pub total_items: usize,
    pub analysis_summary: String,
}

/// Fields of a `NormalAnalysis` result. Floats are binary64 encodings.
pub struct NormalData {
    pub mean: FloatBits,
    pub std_dev: FloatBits,
    pub skewness: FloatBits,
    pub kurtosis: FloatBits,
    pub normality_test_p: FloatBits,
    pub risk_level: String,
    pub total_numbers: usize,
    pub analysis_summary: String,
}

/// Fields of a `PoissonAnalysis` result. Floats are binary64 encodings.
pub struct PoissonData {
    pub lambda: FloatBits,
    pub variance_ratio: FloatBits,
    pub poisson_test_p: FloatBits,
    pub risk_level: String,
    pub total_events: usize,
    pub analysis_summary: String,
}

/// Fields of a `IntegrationAnalysis` result. Floats are binary64 encodings.
pub struct IntegrationData {
    pub laws_analyzed: Vec<String>,
    pub overall_risk: String,
    pub conflicting_results: Vec<String>,
    pub recommendations: Vec<String>,
    pub analysis_summary: String,
}

/// Fields of a `ValidationResult` result. Floats are binary64 encodings.
pub struct ValidationData {
    pub validation_passed: bool,
    pub issues_found: Vec<String>,
    pub data_quality_score: FloatBits,
    pub analysis_summary: String,
}

/// Fields of a `DiagnosticResult` result. Floats are binary64 encodings.
pub struct DiagnosticData {
    pub diagnostic_type: String,
    pub findings: Vec<String>,
    pub confidence_level: FloatBits,
    pub analysis_summary: String,
}

/// Fields of a `GeneratedData` result. Floats are binary64 encodings.
pub struct GeneratedDataInfo {
    pub data_type: String,
    pub count: usize,
    pub parameters: CanonicalValue,
    pub sample_data: Vec<FloatBits>,
}

/// One result of the engine: the kind of analysis, the subject path, and its fields.
pub enum AnalysisResult {
    BenfordAnalysis(String, BenfordData),
    ParetoAnalysis(String, ParetoData),
    ZipfAnalysis(String, ZipfData),
    NormalAnalysis(String, NormalData),
    PoissonAnalysis(String, PoissonData),
    IntegrationAnalysis(String, IntegrationData),
    ValidationResult(String, ValidationData),
    DiagnosticResult(String, DiagnosticData),
    GeneratedData(String, GeneratedDataInfo),
}

/// The tag of a result's kind.
pub open spec fn tag_of(a: AnalysisResult) -> Seq<char> {
    match a {
        AnalysisResult::BenfordAnalysis(..) => "BenfordAnalysis"@,
        AnalysisResult::ParetoAnalysis(..) => "ParetoAnalysis"@,
        AnalysisResult::ZipfAnalysis(..) => "ZipfAnalysis"@,
        AnalysisResult::NormalAnalysis(..) => "NormalAnalysis"@,
        AnalysisResult::PoissonAnalysis(..) => "PoissonAnalysis"@,
        AnalysisResult::IntegrationAnalysis(..) => "IntegrationAnalysis"@,
        AnalysisResult::ValidationResult(..) => "ValidationResult"@,
        AnalysisResult::DiagnosticResult(..) => "DiagnosticResult"@,
        AnalysisResult::GeneratedData(..) => "GeneratedData"@,
    }
}

/// The field names that a result's kind declares, in order.
pub open spec fn declared_fields(a: AnalysisResult) -> Seq<Seq<char>> {
    match a {
        AnalysisResult::BenfordAnalysis(..) => seq![
            "observed_distribution"@,
            "expected_distribution"@,
            "chi_square"@,
            "p_value"@,
            "mad"@,
            "risk_level"@,
            "total_numbers"@,
            "analysis_summary"@,
        ],
        AnalysisResult::ParetoAnalysis(..) => seq![
            "top_20_percent_contribution"@,
            "pareto_ratio"@,
            "concentration_index"@,
            "risk_level"@,
            "total_items"@,
            "analysis_summary"@,
        ],
        AnalysisResult::ZipfAnalysis(..) => seq![
            "zipf_coefficient"@,
            "correlation_coefficient"@,
            "deviation_score"@,
            "risk_level"@,
            "total_items"@,
            "analysis_summary"@,
        ],
        AnalysisResult::NormalAnalysis(..) => seq![
            "mean"@,
            "std_dev"@,
            "skewness"@,
            "kurtosis"@,
            "normality_test_p"@,
            "risk_level"@,
            "total_numbers"@,
            "analysis_summary"@,
        ],
        AnalysisResult::PoissonAnalysis(..) => seq![
            "lambda"@,
            "variance_ratio"@,
            "poisson_test_p"@,
            "risk_level"@,
            "total_events"@,
            "analysis_summary"@,
        ],
        AnalysisResult::IntegrationAnalysis(..) => seq![
            "laws_analyzed"@,
            "overall_risk"@,
            "conflicting_results"@,
            "recommendations"@,
            "analysis_summary"@,
        ],
        AnalysisResult::ValidationResult(..) => seq![
            "validation_passed"@,
            "issues_found"@,
            "data_quality_score"@,
            "analysis_summary"@,
        ],
        AnalysisResult::DiagnosticResult(..) => seq![
            "diagnostic_type"@,
            "findings"@,
            "confidence_level"@,
            "analysis_summary"@,
        ],
        AnalysisResult::GeneratedData(..) => seq![
            "data_type"@,
            "count"@,
            "parameters"@,
            "sample_data"@,
        ],
    }
}

/// A host list of floats.
pub open spec fn float_list(xs: Seq<FloatBits>) -> Host {
    Host::List(Seq::new(xs.len(), |i: int| Host::Float(xs[i])))
}

/// A host list of strings.
pub open spec fn text_list(xs: Seq<String>) -> Host {
    Host::List(Seq::new(xs.len(), |i: int| Host::Text(xs[i]@)))
}

/// The host record of a result: "type" holds the kind's tag, "path" the subject
/// path, then each declared field with its value, in order.
pub open spec fn record_of(a: AnalysisResult) -> Host {
    match a {
        AnalysisResult::BenfordAnalysis(path, data) => Host::Dict(
            seq![
                ("type"@, Host::Text("BenfordAnalysis"@)),
                ("path"@, Host::Text(path@)),
                ("observed_distribution"@, float_list(data.observed_distribution@)),
                ("expected_distribution"@, float_list(data.expected_distribution@)),
                ("chi_square"@, Host::Float(data.chi_square)),
                ("p_value"@, Host::Float(data.p_value)),
                ("mad"@, Host::Float(data.mad)),
                ("risk_level"@, Host::Text(data.risk_level@)),
                ("total_numbers"@, Host::Int(data.total_numbers as int)),
                ("analysis_summary"@, Host::Text(data.analysis_summary@)),
            ],
        ),
        AnalysisResult::ParetoAnalysis(path, data) => Host::Dict(
            seq![
                ("type"@, Host::Text("ParetoAnalysis"@)),
                ("path"@, Host::Text(path@)),
                ("top_20_percent_contribution"@, Host::Float(data.top_20_percent_contribution)),
                ("pareto_ratio"@, Host::Float(data.pareto_ratio)),
                ("concentration_index"@, Host::Float(data.concentration_index)),
                ("risk_level"@, Host::Text(data.risk_level@)),
                ("total_items"@, Host::Int(data.total_items as int)),
                ("analysis_summary"@, Host::Text(data.analysis_summary@)),
            ],
        ),
        AnalysisResult::ZipfAnalysis(path, data) => Host::Dict(
            seq![
                ("type"@, Host::Text("ZipfAnalysis"@)),
                ("path"@, Host::Text(path@)),
                ("zipf_coefficient"@, Host::Float(data.zipf_coefficient)),
                ("correlation_coefficient"@, Host::Float(data.correlation_coefficient)),
                ("deviation_score"@, Host::Float(data.deviation_score)),
                ("risk_level"@, Host::Text(data.risk_level@)),
                ("total_items"@, Host::Int(data.total_items as int)),
                ("analysis_summary"@, Host::Text(data.analysis_summary@)),
            ],
        ),
        AnalysisResult::NormalAnalysis(path, data) => Host::Dict(
            seq![
                ("type"@, Host::Text("NormalAnalysis"@)),
                ("path"@, Host::Text(path@)),
                ("mean"@, Host::Float(data.mean)),
                ("std_dev"@, Host::Float(data.std_dev)),
                ("skewness"@, Host::Float(data.skewness)),
                ("kurtosis"@, Host::Float(data.kurtosis)),
                ("normality_test_p"@, Host::Float(data.normality_test_p)),
                ("risk_level"@, Host::Text(data.risk_level@)),
                ("total_numbers"@, Host::Int(data.total_numbers as int)),
                ("analysis_summary"@, Host::Text(data.analysis_summary@)),
            ],
        ),
        AnalysisResult::PoissonAnalysis(path, data) => Host::Dict(
            seq![
                ("type"@, Host::Text("PoissonAnalysis"@)),
                ("path"@, Host::Text(path@)),
                ("lambda"@, Host::Float(data.lambda)),
                ("variance_ratio"@, Host::Float(data.variance_ratio)),
                ("poisson_test_p"@, Host::Float(data.poisson_test_p)),
                ("risk_level"@, Host::Text(data.risk_level@)),
                ("total_events"@, Host::Int(data.total_events as int)),
                ("analysis_summary"@, Host::Text(data.analysis_summary@)),
            ],
        ),
        AnalysisResult::IntegrationAnalysis(path, data) => Host::Dict(
            seq![
                ("type"@, Host::Text("IntegrationAnalysis"@)),
                ("path"@, Host::Text(path@)),
                ("laws_analyzed"@, text_list(data.laws_analyzed@)),
                ("overall_risk"@, Host::Text(data.overall_risk@)),
                ("conflicting_results"@, text_list(data.conflicting_results@)),
                ("recommendations"@, text_list(data.recommendations@)),
                ("analysis_summary"@, Host::Text(data.analysis_summary@)),
            ],
        ),
        AnalysisResult::ValidationResult(path, data) => Host::Dict(
            seq![
                ("type"@, Host::Text("ValidationResult"@)),
                ("path"@, Host::Text(path@)),
                ("validation_passed"@, Host::Bool(data.validation_passed)),
                ("issues_found"@, text_list(data.issues_found@)),
                ("data_quality_score"@, Host::Float(data.data_quality_score)),
                ("analysis_summary"@, Host::Text(data.analysis_summary@)),
            ],
        ),
        AnalysisResult::DiagnosticResult(path, data) => Host::Dict(
            seq![
                ("type"@, Host::Text("DiagnosticResult"@)),
                ("path"@, Host::Text(path@)),
                ("diagnostic_type"@, Host::Text(data.diagnostic_type@)),
                ("findings"@, text_list(data.findings@)),
                ("confidence_level"@, Host::Float(data.confidence_level)),
                ("analysis_summary"@, Host::Text(data.analysis_summary@)),
            ],
        ),
        AnalysisResult::GeneratedData(path, data) => Host::Dict(
            seq![
                ("type"@, Host::Text("GeneratedData"@)),
                ("path"@, Host::Text(path@)),
                ("data_type"@, Host::Text(data.data_type@)),
                ("count"@, Host::Int(data.count as int)),
                ("parameters"@, host_of(data.parameters@)),
                ("sample_data"@, float_list(data.sample_data@)),
            ],
        ),
    }
}

/// One record field: its name and value.
fn field(name: &str, value: HostValue) -> (r: (String, HostValue))
    ensures
        r.0@ == name@,
        r.1 == value,
{
    (name.to_string(), value)
}

/// Builds a host list of floats.
fn floats_to_host(xs: &Vec<FloatBits>) -> (r: HostValue)
    ensures
        r@ == float_list(xs@),
{
    let mut out: Vec<HostValue> = Vec::new();
    let mut i: usize = 0;
    while i < xs.len()
        invariant
            i <= xs@.len(),
            out@.len() == i,
            forall|j: int| 0 <= j < i ==> #[trigger] out@[j] == HostValue::Float(xs@[j]),
        decreases xs@.len() - i,
    {
        out.push(HostValue::Float(xs[i]));
        i = i + 1;
    }
    let r = HostValue::List(out);
    assert(r@->List_0.len() == xs@.len());
    assert(forall|j: int| 0 <= j < xs@.len() ==> r@->List_0[j] == host_model(out@[j]));
    assert(r@->List_0 =~= float_list(xs@)->List_0);
    r
}

/// Builds a host list of strings.
fn texts_to_host(xs: &Vec<String>) -> (r: HostValue)
    ensures
        r@ == text_list(xs@),
{
    let mut out: Vec<HostValue> = Vec::new();
    let mut i: usize = 0;
    while i < xs.len()
        invariant
            i <= xs@.len(),
            out@.len() == i,
            forall|j: int| 0 <= j < i ==> host_model(#[trigger] out@[j]) == Host::Text(xs@[j]@),
        decreases xs@.len() - i,
    {
        out.push(HostValue::Text(xs[i].clone()));
        i = i + 1;
    }
    let r = HostValue::List(out);
    assert(r@->List_0.len() == xs@.len());
    assert(forall|j: int| 0 <= j < xs@.len() ==> r@->List_0[j] == host_model(out@[j]));
    assert(r@->List_0 =~= text_list(xs@)->List_0);
    r
}

/// Wraps the fields of a record.
fn finish_record(out: Vec<(String, HostValue)>, a: &AnalysisResult) -> (r: HostValue)
    requires
        out@.len() == record_of(*a)->Dict_0.len(),
        record_of(*a) is Dict,
        forall|j: int|
            0 <= j < out@.len() ==> (#[trigger] out@[j]).0@ == record_of(*a)->Dict_0[j].0
                && host_model(out@[j].1) == record_of(*a)->Dict_0[j].1,
    ensures
        r@ == record_of(*a),
{
    let r = HostValue::Dict(out);
    assert(r@->Dict_0 =~= record_of(*a)->Dict_0);
    r
}

/// Marshals one result into a host record: its kind's tag under "type", the
/// subject path under "path", and every field the kind declares, nothing else.
pub fn marshal(a: &AnalysisResult) -> (r: HostValue)
    ensures
        r@ == record_of(*a),
{
    match a {
        AnalysisResult::BenfordAnalysis(path, data) => {
            let mut out: Vec<(String, HostValue)> = Vec::new();
            out.push(field("type", HostValue::Text("BenfordAnalysis".to_string())));
            out.push(field("path", HostValue::Text(path.clone())));
            out.push(field("observed_distribution", floats_to_host(&data.observed_distribution)));
            out.push(field("expected_distribution", floats_to_host(&data.expected_distribution)));
            out.push(field("chi_square", HostValue::Float(data.chi_square)));
            out.push(field("p_value", HostValue::Float(data.p_value)));
            out.push(field("mad", HostValue::Float(data.mad)));
            out.push(field("risk_level", HostValue::Text(data.risk_level.clone())));
            out.push(field("total_numbers", HostValue::Int(data.total_numbers as i128)));
            out.push(field("analysis_summary", HostValue::Text(data.analysis_summary.clone())));
            finish_record(out, a)
        },
        AnalysisResult::ParetoAnalysis(path, data) => {
            let mut out: Vec<(String, HostValue)> = Vec::new();
            out.push(field("type", HostValue::Text("ParetoAnalysis".to_string())));
            out.push(field("path", HostValue::Text(path.clone())));
            out.push(field("top_20_percent_contribution", HostValue::Float(data.top_20_percent_contribution)));
            out.push(field("pareto_ratio", HostValue::Float(data.pareto_ratio)));
            out.push(field("concentration_index", HostValue::Float(data.concentration_index)));
            out.push(field("risk_level", HostValue::Text(data.risk_level.clone())));
            out.push(field("total_items", HostValue::Int(data.total_items as i128)));
            out.push(field("analysis_summary", HostValue::Text(data.analysis_summary.clone())));
            finish_record(out, a)
        },
        AnalysisResult::ZipfAnalysis(path, data) => {
            let mut out: Vec<(String, HostValue)> = Vec::new();
            out.push(field("type", HostValue::Text("ZipfAnalysis".to_string())));
            out.push(field("path", HostValue::Text(path.clone())));
            out.push(field("zipf_coefficient", HostValue::Float(data.zipf_coefficient)));
            out.push(field("correlation_coefficient", HostValue::Float(data.correlation_coefficient)));
            out.push(field("deviation_score", HostValue::Float(data.deviation_score)));
            out.push(field("risk_level", HostValue::Text(data.risk_level.clone())));
            out.push(field("total_items", HostValue::Int(data.total_items as i128)));
            out.push(field("analysis_summary", HostValue::Text(data.analysis_summary.clone())));
            finish_record(out, a)
        },
        AnalysisResult::NormalAnalysis(path, data) => {
            let mut out: Vec<(String, HostValue)> = Vec::new();
            out.push(field("type", HostValue::Text("NormalAnalysis".to_string())));
            out.push(field("path", HostValue::Text(path.clone())));
            out.push(field("mean", HostValue::Float(data.mean)));
            out.push(field("std_dev", HostValue::Float(data.std_dev)));
            out.push(field("skewness", HostValue::Float(data.skewness)));
            out.push(field("kurtosis", HostValue::Float(data.kurtosis)));
            out.push(field("normality_test_p", HostValue::Float(data.normality_test_p)));
            out.push(field("risk_level", HostValue::Text(data.risk_level.clone())));
            out.push(field("total_numbers", HostValue::Int(data.total_numbers as i128)));
            out.push(field("analysis_summary", HostValue::Text(data.analysis_summary.clone())));
            finish_record(out, a)
        },
        AnalysisResult::PoissonAnalysis(path, data) => {
            let mut out: Vec<(String, HostValue)> = Vec::new();
            out.push(field("type", HostValue::Text("PoissonAnalysis".to_string())));
            out.push(field("path", HostValue::Text(path.clone())));
            out.push(field("lambda", HostValue::Float(data.lambda)));
            out.push(field("variance_ratio", HostValue::Float(data.variance_ratio)));
            out.push(field("poisson_test_p", HostValue::Float(data.poisson_test_p)));
            out.push(field("risk_level", HostValue::Text(data.risk_level.clone())));
            out.push(field("total_events", HostValue::Int(data.total_events as i128)));
            out.push(field("analysis_summary", HostValue::Text(data.analysis_summary.clone())));
            finish_record(out, a)
        },
        AnalysisResult::IntegrationAnalysis(path, data) => {
            let mut out: Vec<(String, HostValue)> = Vec::new();
            out.push(field("type", HostValue::Text("IntegrationAnalysis".to_string())));
            out.push(field("path", HostValue::Text(path.clone())));
            out.push(field("laws_analyzed", texts_to_host(&data.laws_analyzed)));
            out.push(field("overall_risk", HostValue::Text(data.overall_risk.clone())));
            out.push(field("conflicting_results", texts_to_host(&data.conflicting_results)));
            out.push(field("recommendations", texts_to_host(&data.recommendations)));
            out.push(field("analysis_summary", HostValue::Text(data.analysis_summary.clone())));
            finish_record(out, a)
        },
        AnalysisResult::ValidationResult(path, data) => {
            let mut out: Vec<(String, HostValue)> = Vec::new();
            out.push(field("type", HostValue::Text("ValidationResult".to_string())));
            out.push(field("path", HostValue::Text(path.clone())));
            out.push(field("validation_passed", HostValue::Bool(data.validation_passed)));
            out.push(field("issues_found", texts_to_host(&data.issues_found)));
            out.push(field("data_quality_score", HostValue::Float(data.data_quality_score)));
            out.push(field("analysis_summary", HostValue::Text(data.analysis_summary.clone())));
            finish_record(out, a)
        },
        AnalysisResult::DiagnosticResult(path, data) => {
            let mut out: Vec<(String, HostValue)> = Vec::new();
            out.push(field("type", HostValue::Text("DiagnosticResult".to_string())));
            out.push(field("path", HostValue::Text(path.clone())));
            out.push(field("diagnostic_type", HostValue::Text(data.diagnostic_type.clone())));
            out.push(field("findings", texts_to_host(&data.findings)));
            out.push(field("confidence_level", HostValue::Float(data.confidence_level)));
            out.push(field("analysis_summary", HostValue::Text(data.analysis_summary.clone())));
            finish_record(out, a)
        },
        AnalysisResult::GeneratedData(path, data) => {
            let mut out: Vec<(String, HostValue)> = Vec::new();
            out.push(field("type", HostValue::Text("GeneratedData".to_string())));
            out.push(field("path", HostValue::Text(path.clone())));
            out.push(field("data_type", HostValue::Text(data.data_type.clone())));
            out.push(field("count", HostValue::Int(data.count as i128)));
            out.push(field("parameters", to_host(&data.parameters)));
            out.push(field("sample_data", floats_to_host(&data.sample_data)));
            finish_record(out, a)
        },
    }
}

/// The field names of a host record, in order.
pub open spec fn record_keys(r: Host) -> Seq<Seq<char>> {
    match r {
        Host::Dict(entries) => Seq::new(entries.len(), |i: int| entries[i].0),
        _ => Seq::empty(),
    }
}

/// Every kind of result marshals to a record whose "type" field holds the kind's
/// tag, and whose field names are exactly "type", "path" and the kind's declared
/// fields, in that order.
pub proof fn lemma_record_fields(a: AnalysisResult)
    ensures
        record_of(a) is Dict,
        record_of(a)->Dict_0[0] == ("type"@, Host::Text(tag_of(a))),
        record_keys(record_of(a)) == seq!["type"@, "path"@] + declared_fields(a),
{
    assert(record_keys(record_of(a)) =~= seq!["type"@, "path"@] + declared_fields(a));
}

} // verus!
