use vstd::prelude::*;

verus! {

/// The option payload of one filter invocation.
///
/// `Keyed` holds key/value pairs that render as `key=value` joined with `:`;
/// the pairs keep their insertion order, so the rendering is deterministic.
/// `Raw` is a pre-formatted option string emitted verbatim.
#[derive(Debug, Clone)]
pub enum FilterOptions {
    Keyed(Vec<(String, String)>),
    Raw(String),
}

/// One named filter invocation within a stage's processing chain.
#[derive(Debug, Clone)]
pub struct Filter {
    pub name: String,
    pub options: FilterOptions,
}

/// One filter stage of the graph: named input pads, an ordered chain of
/// filter invocations, and named output pads.
#[derive(Debug, Clone)]
pub struct FilterNode {
    pub name: String,
    pub inputs: Vec<String>,
    pub outputs: Vec<String>,
    pub filters: Vec<Filter>,
}

} // verus!
