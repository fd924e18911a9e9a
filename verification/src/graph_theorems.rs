//! What holds of every computation graph: how a differential enters at the
//! plaintext, that the two lanes never meet, and that every value fits the
//! width of its node.

use crate::computation_graph::{ComputationGraph, ComputationNode};
use crate::graph_impl::{node_value, nodes_of, well_described, well_formed};
use vstd::prelude::*;

verus! {

/// Two to the power of a node width: 16, 32 or 64.
pub open spec fn width_bound(width: nat) -> int {
    if width == 16 {
        0x1_0000
    } else if width == 32 {
        0x1_0000_0000
    } else {
        0x1_0000_0000_0000_0000
    }
}

/// The nodes as the secondary input sees them.
pub open spec fn secondary_graph(nodes: Seq<ComputationNode>) -> Seq<ComputationNode> {
    Seq::new(nodes.len(), |i: int| nodes[i].on_secondary_input())
}

/// A plaintext leaf with the value `p` and the differential `d` evaluates to
/// the pair `(p, p ^ d)`, wherever it stands.
pub proof fn theorem_plaintext_leaf(nodes: Seq<ComputationNode>, i: int, p: u64, d: u64)
    requires
        0 <= i < nodes.len(),
        nodes[i] == (ComputationNode::Plaintext { differential: d, value: p }),
    ensures
        node_value(nodes, i) == (p, p ^ d),
{
}

/// In a graph built from descriptions, every plaintext node evaluates to the
/// plaintext and the plaintext changed by the differential.
pub proof fn theorem_plaintext_described(
    graph_data: Seq<ComputationGraph>,
    subkeys: Seq<u16>,
    i: int,
    p: u64,
    d: u64,
)
    requires
        0 <= i < graph_data.len(),
        graph_data[i] is Plaintext,
    ensures
        node_value(nodes_of(graph_data, subkeys, p, d), i) == (p, p ^ d),
{
}

/// Descriptions in which every operand is an earlier position stand for
/// nodes of which the same holds.
pub proof fn theorem_described_graph_well_formed(
    graph_data: Seq<ComputationGraph>,
    subkeys: Seq<u16>,
    p: u64,
    d: u64,
)
    requires
        well_described(graph_data),
    ensures
        well_formed(nodes_of(graph_data, subkeys, p, d)),
{
    let nodes = nodes_of(graph_data, subkeys, p, d);
    assert forall|i: int| 0 <= i < nodes.len() implies (#[trigger] nodes[i]).fits_at(i) by {
        assert(nodes[i].operands() == graph_data[i].operands());
    }
}

/// Both values of every node are below two to the power of the node's width.
pub proof fn theorem_values_within_width(nodes: Seq<ComputationNode>, i: int)
    requires
        0 <= i < nodes.len(),
    ensures
        node_value(nodes, i).0 < width_bound(nodes[i].width()),
        node_value(nodes, i).1 < width_bound(nodes[i].width()),
{
}

/// The lanes never meet: the value of a node on the secondary input is its
/// value on the primary input of the graph in which every plaintext leaf
/// holds its value changed by its differential.
pub proof fn theorem_lanes_independent(nodes: Seq<ComputationNode>, i: int)
    requires
        0 <= i < nodes.len(),
    ensures
        node_value(nodes, i).1 == node_value(secondary_graph(nodes), i).0,
    decreases i,
{
    let operands = nodes[i].operands();
    assert(secondary_graph(nodes)[i].operands() == operands);
    if operands.len() >= 1 && operands[0] < i {
        theorem_lanes_independent(nodes, operands[0] as int);
    }
    if operands.len() >= 2 && operands[1] < i {
        theorem_lanes_independent(nodes, operands[1] as int);
    }
}

/// Exclusive or with 0 changes nothing.
proof fn lemma_xor_zero(x: u64)
    by (bit_vector)
    ensures
        x ^ 0 == x,
{
}

/// Without a differential the two lanes agree: where every plaintext leaf
/// has the differential 0, every node has the same value on both inputs.
pub proof fn theorem_no_differential(nodes: Seq<ComputationNode>, i: int)
    requires
        0 <= i < nodes.len(),
        forall|j: int|
            0 <= j < nodes.len() ==> ((#[trigger] nodes[j]) matches ComputationNode::Plaintext {
                differential,
                ..
            } ==> differential == 0),
    ensures
        node_value(nodes, i).0 == node_value(nodes, i).1,
{
    assert forall|j: int| 0 <= j < nodes.len() implies (#[trigger] nodes[j]).on_secondary_input()
        == nodes[j] by {
        match nodes[j] {
            ComputationNode::Plaintext { differential, value } => {
                lemma_xor_zero(value);
            },
            _ => {},
        }
    }
    assert(secondary_graph(nodes) =~= nodes);
    theorem_lanes_independent(nodes, i);
}

} // verus!
