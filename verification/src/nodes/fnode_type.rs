use vstd::prelude::*;

use crate::nodes::filter::FilterNode;
use crate::nodes::stream::Stream;

verus! {

/// A graph node: either a stream endpoint or a filter stage.
#[derive(Debug, Clone)]
pub enum FNodeType {
    Stream(Stream),
    FilterNode(FilterNode),
}

/// The filter stage held by a node, if it holds one.
pub open spec fn spec_filter_node_of(n: FNodeType) -> Option<FilterNode> {
    match n {
        FNodeType::FilterNode(f) => Some(f),
        FNodeType::Stream(_) => None,
    }
}

/// The stream endpoint held by a node, if it holds one.
pub open spec fn spec_stream_of(n: FNodeType) -> Option<Stream> {
    match n {
        FNodeType::Stream(s) => Some(s),
        FNodeType::FilterNode(_) => None,
    }
}

impl FNodeType {
    /// Narrows a node to its filter stage; `None` signals a variant
    /// mismatch instead of aborting.
    pub fn into_filter_node(self) -> (r: Option<FilterNode>)
        ensures
            r == spec_filter_node_of(self),
    {
        match self {
            FNodeType::FilterNode(f) => Some(f),
            FNodeType::Stream(_) => None,
        }
    }

    /// Narrows a node to its stream endpoint; `None` signals a variant
    /// mismatch instead of aborting.
    pub fn into_stream(self) -> (r: Option<Stream>)
        ensures
            r == spec_stream_of(self),
    {
        match self {
            FNodeType::Stream(s) => Some(s),
            FNodeType::FilterNode(_) => None,
        }
    }
}

} // verus!
