use vstd::prelude::*;

use crate::nodes::filter::FilterNode;
use crate::nodes::fnode_type::FNodeType;
use crate::nodes::stream::Stream;

verus! {

/// A named graph node: the node's payload together with the identifier
/// under which the caller addresses it.
#[derive(Debug, Clone)]
pub struct FNode {
    pub data: FNodeType,
    pub name: String,
}

impl From<Stream> for FNode {
    fn from(value: Stream) -> (r: Self) {
        let name = value.name.clone();
        FNode { data: FNodeType::Stream(value), name }
    }
}

impl vstd::std_specs::convert::FromSpecImpl<Stream> for FNode {
    open spec fn obeys_from_spec() -> bool {
        true
    }

    open spec fn from_spec(v: Stream) -> FNode {
        FNode { data: FNodeType::Stream(v), name: v.name }
    }
}

impl From<FilterNode> for FNode {
    fn from(value: FilterNode) -> (r: Self) {
        let name = value.name.clone();
        FNode { data: FNodeType::FilterNode(value), name }
    }
}

impl vstd::std_specs::convert::FromSpecImpl<FilterNode> for FNode {
    open spec fn obeys_from_spec() -> bool {
        true
    }

    open spec fn from_spec(v: FilterNode) -> FNode {
        FNode { data: FNodeType::FilterNode(v), name: v.name }
    }
}

} // verus!
