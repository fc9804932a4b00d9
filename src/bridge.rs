//! One call of the engine: inputs converted and configured before it,
//! results marshalled after it.
use vstd::prelude::*;
use crate::host::{canonical_of, to_canonical, ConversionError, Host, HostObject, HostValue};
use crate::options::{
    build_options, options_of, ConfigError, ConfigFailure, EngineModel, EngineOptions,
};
use crate::results::{marshal, record_of, AnalysisResult};
use crate::value::{Canon, CanonicalValue};

verus! {

/// The version identifier exposed to the host runtime.
pub const VERSION: &'static str = "2.6.0";

/// Why a call failed: the input could not be converted, the configuration was
/// refused, or the engine rejected the request (with its diagnostic).
#[derive(Debug)]
pub enum BridgeError {
    Conversion(ConversionError),
    Config(ConfigError),
    Engine(String),
}

/// Everything the engine is invoked with.
pub struct EngineRequest {
    pub subcommand: String,
    pub data: CanonicalValue,
    pub options: EngineOptions,
}

/// Converts the input and builds the configuration for one call. The input is
/// converted first, so its failure is reported before any configuration failure.
pub fn prepare_call(
    subcommand: &String,
    data: &HostObject,
    keywords: &Vec<(String, HostObject)>,
) -> (r: Result<EngineRequest, BridgeError>)
    ensures
        match r {
            Ok(req) => {
                &&& req.subcommand@ == subcommand@
                &&& canonical_of(*data) == Ok::<Canon, Seq<char>>(req.data@)
                &&& options_of(keywords@) == Ok::<EngineModel, ConfigFailure>(req.options@)
            },
            Err(BridgeError::Conversion(e)) => canonical_of(*data) == Err::<Canon, Seq<char>>(
                e.message@,
            ),
            Err(BridgeError::Config(e)) => {
                &&& canonical_of(*data) is Ok
                &&& options_of(keywords@) == Err::<EngineModel, ConfigFailure>(e.failure())
            },
            Err(BridgeError::Engine(_)) => false,
        },
{
    let value = match to_canonical(data) {
        Ok(v) => v,
        Err(e) => return Err(BridgeError::Conversion(e)),
    };
    let options = match build_options(keywords) {
        Ok(o) => o,
        Err(e) => return Err(BridgeError::Config(e)),
    };
    Ok(EngineRequest { subcommand: subcommand.clone(), data: value, options })
}

/// The host list of records for a sequence of results, in the engine's order.
pub open spec fn records_of(results: Seq<AnalysisResult>) -> Host {
    Host::List(Seq::new(results.len(), |i: int| record_of(results[i])))
}

/// Marshals every result, keeping the engine's order.
pub fn marshal_all(results: &Vec<AnalysisResult>) -> (r: HostValue)
    ensures
        r@ == records_of(results@),
{
    let mut out: Vec<HostValue> = Vec::new();
    let mut i: usize = 0;
    while i < results.len()
        invariant
            i <= results@.len(),
            out@.len() == i,
            forall|j: int| 0 <= j < i ==> (#[trigger] out@[j])@ == record_of(results@[j]),
        decreases results@.len() - i,
    {
        out.push(marshal(&results[i]));
        i = i + 1;
    }
    let r = HostValue::List(out);
    assert(r@->List_0 =~= records_of(results@)->List_0);
    r
}

/// Completes a call from the engine's outcome: all records on success, or the
/// engine's diagnostic and no partial results on failure.
pub fn finish_call(outcome: Result<Vec<AnalysisResult>, String>) -> (r: Result<
    HostValue,
    BridgeError,
>)
    ensures
        match outcome {
            Ok(results) => r is Ok && r->Ok_0@ == records_of(results@),
            Err(m) => r is Err && r->Err_0 is Engine && r->Err_0->Engine_0@ == m@,
        },
{
    match outcome {
        Ok(results) => Ok(marshal_all(&results)),
        Err(m) => Err(BridgeError::Engine(m)),
    }
}

} // verus!
