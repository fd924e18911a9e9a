//! FEAL block cipher and a differential computation-graph evaluator over it.

pub mod computation_graph;
pub mod feal;
pub mod feal_graph;
pub mod feal_theorems;
pub mod graph_impl;
pub mod graph_theorems;
pub mod hex;
