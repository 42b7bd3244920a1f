pub mod f_node;
pub mod filter;
pub mod fnode_type;
pub mod stream;
