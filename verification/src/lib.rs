//! Core of a visual node-graph shader editor: the graph data model, the
//! socket-type registry, topological ordering, and generation of the textual
//! shader sections (vertex body, pixel body, sampler declarations) from a
//! well-formed, acyclic graph.

pub mod assemble;
pub mod codegen;
pub mod graph;
pub mod laws;
pub mod order;
pub mod registry;
pub mod text;
pub mod types;
