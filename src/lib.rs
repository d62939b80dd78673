//! Read-only, bounds-checked, value-comparable views over the results of a
//! graph traversal: a sequence of node indices, and a sequence of
//! (node, successors) pairs from a breadth-first search.

pub mod view_error;
pub mod comparison;
pub mod node_indices;
pub mod bfs_successors;
