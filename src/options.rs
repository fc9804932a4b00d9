//! Typed engine configuration assembled from an untyped keyword mapping.
use vstd::prelude::*;
use crate::host::HostObject;
use crate::value::FloatBits;

verus! {

/// Relies on regex::Regex as an opaque compiled pattern.
#[verifier::external_type_specification]
#[verifier::external_body]
pub struct ExRegex(regex::Regex);

/// Whether the regex engine accepts a pattern.
pub uninterp spec fn regex_accepts(pattern: Seq<char>) -> bool;

/// Relies on regex::Regex::new: it compiles the pattern exactly when the pattern
/// is valid, and otherwise returns the compiler's diagnostic.
#[verifier::external_body]
fn compile_pattern(pattern: &str) -> (r: Result<regex::Regex, String>)
    ensures
        r is Ok == regex_accepts(pattern@),
{
    regex::Regex::new(pattern).map_err(|e| e.to_string())
}

/// Output formats the engine can render.
#[derive(PartialEq, Eq, Structural, Clone, Copy, Debug)]
pub enum OutputFormat {
    Lawkit,
    Json,
    Yaml,
    Csv,
    Text,
}

/// The output format that the engine assigns to an identifier, if any.
pub uninterp spec fn format_named(identifier: Seq<char>) -> Option<OutputFormat>;

/// Relies on lawkit_core::OutputFormat::parse_format: it lower-cases the identifier
/// and accepts "lawkit", "json", "yaml", "yml", "csv", "text" and "txt".
#[verifier::external_body]
fn parse_output_format(identifier: &str) -> (r: Result<OutputFormat, String>)
    ensures
        r is Ok == format_named(identifier@) is Some,
        r is Ok ==> format_named(identifier@) == Some(r->Ok_0),
        identifier@ == "lawkit"@ ==> r is Ok && r->Ok_0 == OutputFormat::Lawkit,
        identifier@ == "json"@ ==> r is Ok && r->Ok_0 == OutputFormat::Json,
        identifier@ == "yaml"@ ==> r is Ok && r->Ok_0 == OutputFormat::Yaml,
        identifier@ == "yml"@ ==> r is Ok && r->Ok_0 == OutputFormat::Yaml,
        identifier@ == "csv"@ ==> r is Ok && r->Ok_0 == OutputFormat::Csv,
        identifier@ == "text"@ ==> r is Ok && r->Ok_0 == OutputFormat::Text,
        identifier@ == "txt"@ ==> r is Ok && r->Ok_0 == OutputFormat::Text,
{
    match lawkit_core::OutputFormat::parse_format(identifier) {
        Ok(lawkit_core::OutputFormat::Lawkit) => Ok(OutputFormat::Lawkit),
        Ok(lawkit_core::OutputFormat::Json) => Ok(OutputFormat::Json),
        Ok(lawkit_core::OutputFormat::Yaml) => Ok(OutputFormat::Yaml),
        Ok(lawkit_core::OutputFormat::Csv) => Ok(OutputFormat::Csv),
        Ok(lawkit_core::OutputFormat::Text) => Ok(OutputFormat::Text),
        Err(e) => Err(e.to_string()),
    }
}

/// The recognized option names.
#[derive(PartialEq, Eq, Structural, Clone, Copy, Debug)]
pub enum OptionKey {
    IgnoreKeysRegex,
    PathFilter,
    OutputFormat,
    ShowDetails,
    ShowRecommendations,
    UseMemoryOptimization,
    BatchSize,
    RiskThreshold,
    ConfidenceLevel,
    AnalysisThreshold,
    SignificanceLevel,
    MinSampleSize,
    EnableOutlierDetection,
    EnableJapaneseNumerals,
    EnableInternationalNumerals,
    EnableParallelProcessing,
    MemoryLimitMb,
}

/// The option that a keyword names; unrecognized keywords name none.
pub open spec fn option_key(name: Seq<char>) -> Option<OptionKey> {
    if name == "ignore_keys_regex"@ {
        Some(OptionKey::IgnoreKeysRegex)
    } else if name == "path_filter"@ {
        Some(OptionKey::PathFilter)
    } else if name == "output_format"@ {
        Some(OptionKey::OutputFormat)
    } else if name == "show_details"@ {
        Some(OptionKey::ShowDetails)
    } else if name == "show_recommendations"@ {
        Some(OptionKey::ShowRecommendations)
    } else if name == "use_memory_optimization"@ {
        Some(OptionKey::UseMemoryOptimization)
    } else if name == "batch_size"@ {
        Some(OptionKey::BatchSize)
    } else if name == "risk_threshold"@ {
        Some(OptionKey::RiskThreshold)
    } else if name == "confidence_level"@ {
        Some(OptionKey::ConfidenceLevel)
    } else if name == "analysis_threshold"@ {
        Some(OptionKey::AnalysisThreshold)
    } else if name == "significance_level"@ {
        Some(OptionKey::SignificanceLevel)
    } else if name == "min_sample_size"@ {
        Some(OptionKey::MinSampleSize)
    } else if name == "enable_outlier_detection"@ {
        Some(OptionKey::EnableOutlierDetection)
    } else if name == "enable_japanese_numerals"@ {
        Some(OptionKey::EnableJapaneseNumerals)
    } else if name == "enable_international_numerals"@ {
        Some(OptionKey::EnableInternationalNumerals)
    } else if name == "enable_parallel_processing"@ {
        Some(OptionKey::EnableParallelProcessing)
    } else if name == "memory_limit_mb"@ {
        Some(OptionKey::MemoryLimitMb)
    } else {
        None
    }
}

/// Compares a keyword with an option name.
fn name_is(name: &String, candidate: &str) -> (r: bool)
    ensures
        r == (name@ == candidate@),
{
    *name == candidate.to_string()
}

/// Looks a keyword up in the table of recognized option names.
pub fn recognize(name: &String) -> (r: Option<OptionKey>)
    ensures
        r == option_key(name@),
{
    if name_is(name, "ignore_keys_regex") {
        Some(OptionKey::IgnoreKeysRegex)
    } else if name_is(name, "path_filter") {
        Some(OptionKey::PathFilter)
    } else if name_is(name, "output_format") {
        Some(OptionKey::OutputFormat)
    } else if name_is(name, "show_details") {
        Some(OptionKey::ShowDetails)
    } else if name_is(name, "show_recommendations") {
        Some(OptionKey::ShowRecommendations)
    } else if name_is(name, "use_memory_optimization") {
        Some(OptionKey::UseMemoryOptimization)
    } else if name_is(name, "batch_size") {
        Some(OptionKey::BatchSize)
    } else if name_is(name, "risk_threshold") {
        Some(OptionKey::RiskThreshold)
    } else if name_is(name, "confidence_level") {
        Some(OptionKey::ConfidenceLevel)
    } else if name_is(name, "analysis_threshold") {
        Some(OptionKey::AnalysisThreshold)
    } else if name_is(name, "significance_level") {
        Some(OptionKey::SignificanceLevel)
    } else if name_is(name, "min_sample_size") {
        Some(OptionKey::MinSampleSize)
    } else if name_is(name, "enable_outlier_detection") {
        Some(OptionKey::EnableOutlierDetection)
    } else if name_is(name, "enable_japanese_numerals") {
        Some(OptionKey::EnableJapaneseNumerals)
    } else if name_is(name, "enable_international_numerals") {
        Some(OptionKey::EnableInternationalNumerals)
    } else if name_is(name, "enable_parallel_processing") {
        Some(OptionKey::EnableParallelProcessing)
    } else if name_is(name, "memory_limit_mb") {
        Some(OptionKey::MemoryLimitMb)
    } else {
        None
    }
}

/// A key-path filter: the pattern as written and its compiled form.
#[derive(Debug)]
pub struct KeyPattern {
    source: String,
    compiled: regex::Regex,
}

impl KeyPattern {
    pub closed spec fn source_view(&self) -> Seq<char> {
        self.source@
    }

    /// The pattern as written.
    pub fn source(&self) -> (r: &String)
        ensures
            r@ == self.source_view(),
    {
        &self.source
    }

    /// The compiled pattern.
    pub fn compiled(&self) -> &regex::Regex {
        &self.compiled
    }
}

/// Options that apply whatever the statistical law.
#[derive(Debug)]
pub struct GenericOptions {
    pub ignore_keys_regex: Option<KeyPattern>,
    pub path_filter: Option<String>,
    pub output_format: Option<OutputFormat>,
    pub show_details: Option<bool>,
    pub show_recommendations: Option<bool>,
    pub use_memory_optimization: Option<bool>,
    pub batch_size: Option<usize>,
}

/// Options specific to the statistical laws. Floats are binary64 encodings.
#[derive(Debug, Clone, PartialEq)]
pub struct DomainOptions {
    pub risk_threshold: Option<String>,
    pub confidence_level: Option<FloatBits>,
    pub analysis_threshold: Option<FloatBits>,
    pub significance_level: Option<FloatBits>,
    pub min_sample_size: Option<usize>,
    pub enable_outlier_detection: Option<bool>,
    pub enable_japanese_numerals: Option<bool>,
    pub enable_international_numerals: Option<bool>,
    pub enable_parallel_processing: Option<bool>,
    pub memory_limit_mb: Option<usize>,
}

/// The configuration handed to the engine; the law-specific part is present
/// only when some law-specific option was given.
#[derive(Debug)]
pub struct EngineOptions {
    pub generic: GenericOptions,
    pub domain: Option<DomainOptions>,
}

/// Model of the generic options (a key-path filter by its pattern).
pub struct GenericModel {
    pub ignore_keys_regex: Option<Seq<char>>,
    pub path_filter: Option<Seq<char>>,
    pub output_format: Option<OutputFormat>,
    pub show_details: Option<bool>,
    pub show_recommendations: Option<bool>,
    pub use_memory_optimization: Option<bool>,
    pub batch_size: Option<usize>,
}

/// Model of the law-specific options.
pub struct DomainModel {
    pub risk_threshold: Option<Seq<char>>,
    pub confidence_level: Option<FloatBits>,
    pub analysis_threshold: Option<FloatBits>,
    pub significance_level: Option<FloatBits>,
    pub min_sample_size: Option<usize>,
    pub enable_outlier_detection: Option<bool>,
    pub enable_japanese_numerals: Option<bool>,
    pub enable_international_numerals: Option<bool>,
    pub enable_parallel_processing: Option<bool>,
    pub memory_limit_mb: Option<usize>,
}

/// Model of the configuration handed to the engine.
pub struct EngineModel {
    pub generic: GenericModel,
    pub domain: Option<DomainModel>,
}

/// The state of the builder after some keywords: both option groups, and
/// whether any law-specific option has been set.
pub struct BuildState {
    pub generic: GenericModel,
    pub domain: DomainModel,
    pub has_domain: bool,
}

impl View for GenericOptions {
    type V = GenericModel;

    open spec fn view(&self) -> GenericModel {
        GenericModel {
            ignore_keys_regex: match self.ignore_keys_regex {
                Some(p) => Some(p.source_view()),
                None => None,
            },
            path_filter: match self.path_filter {
                Some(f) => Some(f@),
                None => None,
            },
            output_format: self.output_format,
            show_details: self.show_details,
            show_recommendations: self.show_recommendations,
            use_memory_optimization: self.use_memory_optimization,
            batch_size: self.batch_size,
        }
    }
}

impl View for DomainOptions {
    type V = DomainModel;

    open spec fn view(&self) -> DomainModel {
        DomainModel {
            risk_threshold: match self.risk_threshold {
                Some(t) => Some(t@),
                None => None,
            },
            confidence_level: self.confidence_level,
            analysis_threshold: self.analysis_threshold,
            significance_level: self.significance_level,
            min_sample_size: self.min_sample_size,
            enable_outlier_detection: self.enable_outlier_detection,
            enable_japanese_numerals: self.enable_japanese_numerals,
            enable_international_numerals: self.enable_international_numerals,
            enable_parallel_processing: self.enable_parallel_processing,
            memory_limit_mb: self.memory_limit_mb,
        }
    }
}

impl View for EngineOptions {
    type V = EngineModel;

    open spec fn view(&self) -> EngineModel {
        EngineModel {
            generic: self.generic@,
            domain: match self.domain {
                Some(d) => Some(d@),
                None => None,
            },
        }
    }
}

/// Why a configuration was refused: a pattern the regex engine rejects,
/// or an identifier that names no output format.
pub enum ConfigFailure {
    Regex(Seq<char>),
    Format(Seq<char>),
}

/// A refused configuration, with the offending text and the diagnostic
/// of the component that refused it.
#[derive(Debug, Clone)]
pub enum ConfigError {
    InvalidRegex { pattern: String, message: String },
    InvalidFormat { identifier: String, message: String },
}

impl ConfigError {
    pub open spec fn failure(&self) -> ConfigFailure {
        match self {
            ConfigError::InvalidRegex { pattern, .. } => ConfigFailure::Regex(pattern@),
            ConfigError::InvalidFormat { identifier, .. } => ConfigFailure::Format(identifier@),
        }
    }
}

/// Every option unset.
pub open spec fn empty_generic() -> GenericModel {
    GenericModel {
        ignore_keys_regex: None,
        path_filter: None,
        output_format: None,
        show_details: None,
        show_recommendations: None,
        use_memory_optimization: None,
        batch_size: None,
    }
}

/// Every law-specific option unset.
pub open spec fn empty_domain() -> DomainModel {
    DomainModel {
        risk_threshold: None,
        confidence_level: None,
        analysis_threshold: None,
        significance_level: None,
        min_sample_size: None,
        enable_outlier_detection: None,
        enable_japanese_numerals: None,
        enable_international_numerals: None,
        enable_parallel_processing: None,
        memory_limit_mb: None,
    }
}

/// Sets a law-specific option and marks the group as present.
pub open spec fn with_domain(st: BuildState, d: DomainModel) -> BuildState {
    BuildState { generic: st.generic, domain: d, has_domain: true }
}

/// Sets a generic option.
pub open spec fn with_generic(st: BuildState, g: GenericModel) -> BuildState {
    BuildState { generic: g, domain: st.domain, has_domain: st.has_domain }
}

/// The effect of one keyword. A recognized option takes the value when it
/// extracts as the option's type and is otherwise left as it was; a pattern
/// the regex engine rejects and an unknown format identifier are refused.
/// Unrecognized keywords change nothing.
pub open spec fn apply_option(st: BuildState, name: Seq<char>, value: HostObject) -> Result<
    BuildState,
    ConfigFailure,
> {
    let g = st.generic;
    let d = st.domain;
    match option_key(name) {
        None => Ok(st),
        Some(key) => match key {
            OptionKey::IgnoreKeysRegex => match value.as_text {
                Some(p) => if regex_accepts(p@) {
                    Ok(with_generic(st, GenericModel { ignore_keys_regex: Some(p@), ..g }))
                } else {
                    Err(ConfigFailure::Regex(p@))
                },
                None => Ok(st),
            },
            OptionKey::PathFilter => match value.as_text {
                Some(f) => Ok(with_generic(st, GenericModel { path_filter: Some(f@), ..g })),
                None => Ok(st),
            },
            OptionKey::OutputFormat => match value.as_text {
                Some(f) => match format_named(f@) {
                    Some(fmt) => Ok(with_generic(st, GenericModel { output_format: Some(fmt), ..g })),
                    None => Err(ConfigFailure::Format(f@)),
                },
                None => Ok(st),
            },
            OptionKey::ShowDetails => match value.as_bool {
                Some(b) => Ok(with_generic(st, GenericModel { show_details: Some(b), ..g })),
                None => Ok(st),
            },
            OptionKey::ShowRecommendations => match value.as_bool {
                Some(b) => Ok(with_generic(st, GenericModel { show_recommendations: Some(b), ..g })),
                None => Ok(st),
            },
            OptionKey::UseMemoryOptimization => match value.as_bool {
                Some(b) => Ok(with_generic(st, GenericModel { use_memory_optimization: Some(b), ..g })),
                None => Ok(st),
            },
            OptionKey::BatchSize => match value.as_size {
                Some(n) => Ok(with_generic(st, GenericModel { batch_size: Some(n), ..g })),
                None => Ok(st),
            },
            OptionKey::RiskThreshold => match value.as_text {
                Some(t) => Ok(with_domain(st, DomainModel { risk_threshold: Some(t@), ..d })),
                None => Ok(st),
            },
            OptionKey::ConfidenceLevel => match value.as_float {
                Some(x) => Ok(with_domain(st, DomainModel { confidence_level: Some(x), ..d })),
                None => Ok(st),
            },
            OptionKey::AnalysisThreshold => match value.as_float {
                Some(x) => Ok(with_domain(st, DomainModel { analysis_threshold: Some(x), ..d })),
                None => Ok(st),
            },
            OptionKey::SignificanceLevel => match value.as_float {
                Some(x) => Ok(with_domain(st, DomainModel { significance_level: Some(x), ..d })),
                None => Ok(st),
            },
            OptionKey::MinSampleSize => match value.as_size {
                Some(n) => Ok(with_domain(st, DomainModel { min_sample_size: Some(n), ..d })),
                None => Ok(st),
            },
            OptionKey::EnableOutlierDetection => match value.as_bool {
                Some(b) => Ok(with_domain(st, DomainModel { enable_outlier_detection: Some(b), ..d })),
                None => Ok(st),
            },
            OptionKey::EnableJapaneseNumerals => match value.as_bool {
                Some(b) => Ok(with_domain(st, DomainModel { enable_japanese_numerals: Some(b), ..d })),
                None => Ok(st),
            },
            OptionKey::EnableInternationalNumerals => match value.as_bool {
                Some(b) => Ok(
                    with_domain(st, DomainModel { enable_international_numerals: Some(b), ..d }),
                ),
                None => Ok(st),
            },
            OptionKey::EnableParallelProcessing => match value.as_bool {
                Some(b) => Ok(
                    with_domain(st, DomainModel { enable_parallel_processing: Some(b), ..d }),
                ),
                None => Ok(st),
            },
            OptionKey::MemoryLimitMb => match value.as_size {
                Some(n) => Ok(with_domain(st, DomainModel { memory_limit_mb: Some(n), ..d })),
                None => Ok(st),
            },
        },
    }
}

/// The builder's state after the keywords in order, or the first refusal.
pub open spec fn build_state(entries: Seq<(String, HostObject)>) -> Result<BuildState, ConfigFailure>
    decreases entries.len(),
{
    if entries.len() == 0 {
        Ok(BuildState { generic: empty_generic(), domain: empty_domain(), has_domain: false })
    } else {
        match build_state(entries.drop_last()) {
            Err(e) => Err(e),
            Ok(st) => apply_option(st, entries.last().0@, entries.last().1),
        }
    }
}

/// The configuration built from keywords: the law-specific group is attached
/// only when some law-specific option was set.
pub open spec fn options_of(entries: Seq<(String, HostObject)>) -> Result<EngineModel, ConfigFailure> {
    match build_state(entries) {
        Err(e) => Err(e),
        Ok(st) => Ok(
            EngineModel {
                generic: st.generic,
                domain: if st.has_domain {
                    Some(st.domain)
                } else {
                    None
                },
            },
        ),
    }
}

/// The builder's state held by the option groups and the presence flag.
pub open spec fn state_of(generic: GenericOptions, domain: DomainOptions, has_domain: bool) -> BuildState {
    BuildState { generic: generic@, domain: domain@, has_domain }
}

/// Applies one keyword to the option groups being built.
pub fn apply_keyword(
    generic: &mut GenericOptions,
    domain: &mut DomainOptions,
    has_domain: &mut bool,
    name: &String,
    value: &HostObject,
) -> (r: Result<(), ConfigError>)
    ensures
        match r {
            Ok(()) => apply_option(state_of(*old(generic), *old(domain), *old(has_domain)), name@, *value)
                == Ok::<BuildState, ConfigFailure>(state_of(*final(generic), *final(domain), *final(has_domain))),
            Err(e) => apply_option(state_of(*old(generic), *old(domain), *old(has_domain)), name@, *value)
                == Err::<BuildState, ConfigFailure>(e.failure()),
        },
{
    match recognize(name) {
        None => Ok(()),
        Some(OptionKey::IgnoreKeysRegex) => {
            if let Some(p) = &value.as_text {
                match compile_pattern(p.as_str()) {
                    Ok(re) => {
                        generic.ignore_keys_regex = Some(KeyPattern { source: p.clone(), compiled: re });
                        Ok(())
                    },
                    Err(m) => Err(ConfigError::InvalidRegex { pattern: p.clone(), message: m }),
                }
            } else {
                Ok(())
            }
        },
        Some(OptionKey::PathFilter) => {
            if let Some(f) = &value.as_text {
                generic.path_filter = Some(f.clone());
            }
            Ok(())
        },
        Some(OptionKey::OutputFormat) => {
            if let Some(f) = &value.as_text {
                match parse_output_format(f.as_str()) {
                    Ok(fmt) => {
                        generic.output_format = Some(fmt);
                        Ok(())
                    },
                    Err(m) => Err(ConfigError::InvalidFormat { identifier: f.clone(), message: m }),
                }
            } else {
                Ok(())
            }
        },
        Some(OptionKey::ShowDetails) => {
            if let Some(b) = value.as_bool {
                generic.show_details = Some(b);
            }
            Ok(())
        },
        Some(OptionKey::ShowRecommendations) => {
            if let Some(b) = value.as_bool {
                generic.show_recommendations = Some(b);
            }
            Ok(())
        },
        Some(OptionKey::UseMemoryOptimization) => {
            if let Some(b) = value.as_bool {
                generic.use_memory_optimization = Some(b);
            }
            Ok(())
        },
        Some(OptionKey::BatchSize) => {
            if let Some(n) = value.as_size {
                generic.batch_size = Some(n);
            }
            Ok(())
        },
        Some(OptionKey::RiskThreshold) => {
            if let Some(t) = &value.as_text {
                domain.risk_threshold = Some(t.clone());
                *has_domain = true;
            }
            Ok(())
        },
        Some(OptionKey::ConfidenceLevel) => {
            if let Some(x) = value.as_float {
                domain.confidence_level = Some(x);
                *has_domain = true;
            }
            Ok(())
        },
        Some(OptionKey::AnalysisThreshold) => {
            if let Some(x) = value.as_float {
                domain.analysis_threshold = Some(x);
                *has_domain = true;
            }
            Ok(())
        },
        Some(OptionKey::SignificanceLevel) => {
            if let Some(x) = value.as_float {
                domain.significance_level = Some(x);
                *has_domain = true;
            }
            Ok(())
        },
        Some(OptionKey::EnableOutlierDetection) => {
            if let Some(x) = value.as_bool {
                domain.enable_outlier_detection = Some(x);
                *has_domain = true;
            }
            Ok(())
        },
        Some(OptionKey::EnableJapaneseNumerals) => {
            if let Some(x) = value.as_bool {
                domain.enable_japanese_numerals = Some(x);
                *has_domain = true;
            }
            Ok(())
        },
        Some(OptionKey::EnableInternationalNumerals) => {
            if let Some(x) = value.as_bool {
                domain.enable_international_numerals = Some(x);
                *has_domain = true;
            }
            Ok(())
        },
        Some(OptionKey::EnableParallelProcessing) => {
            if let Some(x) = value.as_bool {
                domain.enable_parallel_processing = Some(x);
                *has_domain = true;
            }
            Ok(())
        },
        Some(OptionKey::MinSampleSize) => {
            if let Some(x) = value.as_size {
                domain.min_sample_size = Some(x);
                *has_domain = true;
            }
            Ok(())
        },
        Some(OptionKey::MemoryLimitMb) => {
            if let Some(x) = value.as_size {
                domain.memory_limit_mb = Some(x);
                *has_domain = true;
            }
            Ok(())
        },
    }
}

/// Builds the engine configuration from keyword arguments, in order.
/// Unrecognized keywords are ignored, and so is a recognized one whose value
/// does not extract as the option's type; a pattern the regex engine rejects
/// and an unknown output-format identifier are refused.
pub fn build_options(entries: &Vec<(String, HostObject)>) -> (r: Result<EngineOptions, ConfigError>)
    ensures
        match r {
            Ok(o) => options_of(entries@) == Ok::<EngineModel, ConfigFailure>(o@),
            Err(e) => options_of(entries@) == Err::<EngineModel, ConfigFailure>(e.failure()),
        },
{
    let mut generic = GenericOptions {
        ignore_keys_regex: None,
        path_filter: None,
        output_format: None,
        show_details: None,
        show_recommendations: None,
        use_memory_optimization: None,
        batch_size: None,
    };
    let mut domain = DomainOptions {
        risk_threshold: None,
        confidence_level: None,
        analysis_threshold: None,
        significance_level: None,
        min_sample_size: None,
        enable_outlier_detection: None,
        enable_japanese_numerals: None,
        enable_international_numerals: None,
        enable_parallel_processing: None,
        memory_limit_mb: None,
    };
    let mut has_domain = false;
    let mut i: usize = 0;
    assert(entries@.take(0) =~= Seq::<(String, HostObject)>::empty());
    while i < entries.len()
        invariant
            i <= entries@.len(),
            build_state(entries@.take(i as int)) == Ok::<BuildState, ConfigFailure>(
                state_of(generic, domain, has_domain),
            ),
        decreases entries@.len() - i,
    {
        assert(entries@.take(i + 1).drop_last() =~= entries@.take(i as int));
        assert(entries@.take(i + 1).last() == entries@[i as int]);
        match apply_keyword(&mut generic, &mut domain, &mut has_domain, &entries[i].0, &entries[i].1) {
            Ok(()) => {},
            Err(e) => {
                proof {
                    lemma_refusal_persists(entries@, i + 1);
                }
                return Err(e);
            },
        }
        i = i + 1;
    }
    assert(entries@.take(i as int) =~= entries@);
    if has_domain {
        Ok(EngineOptions { generic, domain: Some(domain) })
    } else {
        Ok(EngineOptions { generic, domain: None })
    }
}

/// Once the keywords up to some point are refused, the whole mapping is refused
/// for the same reason.
proof fn lemma_refusal_persists(entries: Seq<(String, HostObject)>, n: int)
    requires
        0 <= n <= entries.len(),
        build_state(entries.take(n)) is Err,
    ensures
        build_state(entries) == build_state(entries.take(n)),
    decreases entries.len() - n,
{
    if n < entries.len() {
        assert(entries.take(n + 1).drop_last() =~= entries.take(n));
        lemma_refusal_persists(entries, n + 1);
    } else {
        assert(entries.take(n) =~= entries);
    }
}

/// An unrecognized keyword, wherever it stands among the others and whatever its
/// value, leaves the configuration (or the refusal) exactly as without it.
pub proof fn lemma_unknown_keyword_ignored(
    entries: Seq<(String, HostObject)>,
    at: int,
    name: String,
    value: HostObject,
)
    requires
        0 <= at <= entries.len(),
        option_key(name@) is None,
    ensures
        options_of(entries.insert(at, (name, value))) == options_of(entries),
{
    lemma_unknown_keyword_state(entries, at, name, value);
}

proof fn lemma_unknown_keyword_state(
    entries: Seq<(String, HostObject)>,
    at: int,
    name: String,
    value: HostObject,
)
    requires
        0 <= at <= entries.len(),
        option_key(name@) is None,
    ensures
        build_state(entries.insert(at, (name, value))) == build_state(entries),
    decreases entries.len(),
{
    let longer = entries.insert(at, (name, value));
    if at == entries.len() {
        assert(longer.drop_last() =~= entries);
    } else {
        assert(longer.drop_last() =~= entries.drop_last().insert(at, (name, value)));
        assert(longer.last() == entries.last());
        lemma_unknown_keyword_state(entries.drop_last(), at, name, value);
    }
}

} // verus!
