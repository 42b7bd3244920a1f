use vstd::prelude::*;

verus! {

/// Whether a stream endpoint feeds data into the graph or receives its result.
#[derive(Debug, Clone)]
pub enum StreamType {
    Input,
    Output,
}

/// A stream endpoint of the graph: a file that is read into the graph or
/// written by it.
///
/// `path` is the file's location and `name` a caller-chosen identifier.
/// `inputs` is meaningful only on output streams: it names the filter-graph
/// pads that must be routed to this output with explicit mapping flags.
#[derive(Debug, Clone)]
pub struct Stream {
    pub path: String,
    pub name: String,
    pub stream_type: StreamType,
    pub inputs: Option<Vec<String>>,
}

} // verus!
