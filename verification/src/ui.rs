//! The data behind the node editor of the user interface.

pub mod node;
