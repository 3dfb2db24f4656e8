//! The message methods a context answers over its JSON API, by name.
use vstd::prelude::*;

verus! {

/// The kinds of message a context answers.
#[derive(Copy, Clone, Debug, PartialEq, Eq, Structural)]
pub enum ContextMethod {
    /// Build a job from its inputs, outputs and steps.
    Build,
    /// Report an input's image information, unscaled.
    GetImageInfo,
    /// Report an input's image information as its decoder will scale it.
    GetScaledImageInfo,
    /// Pass a command to an input's decoder.
    TellDecoder,
    /// Execute a graph or steps over the context's inputs and outputs.
    Execute,
    /// Report the library's version.
    GetVersionInfo,
    /// Answered with HTTP status 418.
    BrewCoffee,
}

/// The method a message name selects: the `v0.1/` and `v1/` names of build, get_image_info,
/// tell_decoder and execute; the `v1/` names of get_scaled_image_info and get_version_info; and
/// brew_coffee. Any other name selects none.
pub open spec fn spec_context_method(name: Seq<char>) -> Option<ContextMethod> {
    if name == "v0.1/build"@ || name == "v1/build"@ {
        Some(ContextMethod::Build)
    } else if name == "v0.1/get_image_info"@ || name == "v1/get_image_info"@ {
        Some(ContextMethod::GetImageInfo)
    } else if name == "v1/get_scaled_image_info"@ {
        Some(ContextMethod::GetScaledImageInfo)
    } else if name == "v0.1/tell_decoder"@ || name == "v1/tell_decoder"@ {
        Some(ContextMethod::TellDecoder)
    } else if name == "v0.1/execute"@ || name == "v1/execute"@ {
        Some(ContextMethod::Execute)
    } else if name == "v1/get_version_info"@ {
        Some(ContextMethod::GetVersionInfo)
    } else if name == "brew_coffee"@ {
        Some(ContextMethod::BrewCoffee)
    } else {
        None
    }
}

/// Whether `name` is the method name `literal`.
fn names_match(name: &String, literal: &str) -> (r: bool)
    ensures
        r == (name@ == literal@),
{
    let lit: String = literal.to_owned();
    *name == lit
}

/// The method a message name selects, if any.
pub fn context_method(name: &str) -> (r: Option<ContextMethod>)
    ensures
        r == spec_context_method(name@),
{
    let n: String = name.to_owned();
    if names_match(&n, "v0.1/build") || names_match(&n, "v1/build") {
        Some(ContextMethod::Build)
    } else if names_match(&n, "v0.1/get_image_info") || names_match(&n, "v1/get_image_info") {
        Some(ContextMethod::GetImageInfo)
    } else if names_match(&n, "v1/get_scaled_image_info") {
        Some(ContextMethod::GetScaledImageInfo)
    } else if names_match(&n, "v0.1/tell_decoder") || names_match(&n, "v1/tell_decoder") {
        Some(ContextMethod::TellDecoder)
    } else if names_match(&n, "v0.1/execute") || names_match(&n, "v1/execute") {
        Some(ContextMethod::Execute)
    } else if names_match(&n, "v1/get_version_info") {
        Some(ContextMethod::GetVersionInfo)
    } else if names_match(&n, "brew_coffee") {
        Some(ContextMethod::BrewCoffee)
    } else {
        None
    }
}

} // verus!
