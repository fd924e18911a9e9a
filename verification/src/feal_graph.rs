//! The cipher as a computation graph: thirty-five nodes that lead from the
//! plaintext through whitening, eight rounds and whitening to the
//! ciphertext, and the proof that the graph computes the cipher.

use crate::computation_graph::ComputationGraph;
use crate::feal::{
    encryption, feal_core, feistel_round, feistel_rounds, halves64, key_schedule, pack16, pack32,
    round_fn,
};
use crate::graph_impl::{node_value, nodes_of, well_described};
use crate::graph_theorems::{
    secondary_graph, theorem_lanes_independent, theorem_no_differential,
};
use vstd::prelude::*;

verus! {

/// The number of nodes in the graph of the cipher.
pub const FEAL_GRAPH_LEN: usize = 35;

/// The position of the ciphertext node in the graph of the cipher.
pub const FEAL_GRAPH_SINK: usize = 34;

/// The description of the leaf that holds the subkey of round `round`.
pub open spec fn round_key_description(round: int) -> ComputationGraph {
    if round == 0 {
        ComputationGraph::Key0 {  }
    } else if round == 1 {
        ComputationGraph::Key1 {  }
    } else if round == 2 {
        ComputationGraph::Key2 {  }
    } else if round == 3 {
        ComputationGraph::Key3 {  }
    } else if round == 4 {
        ComputationGraph::Key4 {  }
    } else if round == 5 {
        ComputationGraph::Key5 {  }
    } else if round == 6 {
        ComputationGraph::Key6 {  }
    } else {
        ComputationGraph::Key7 {  }
    }
}

/// The position of the node that holds the left half before round `round`
/// (after the last round, for `round == 8`).
pub open spec fn left_position(round: int) -> int {
    if round == 0 {
        3
    } else {
        2 + 3 * round
    }
}

/// The position of the node that holds the right half before round `round`
/// (after the last round, for `round == 8`).
pub open spec fn right_position(round: int) -> int {
    5 + 3 * round
}

/// The description of the node at position `i` of the graph of the cipher.
///
/// Positions 0 to 5 whiten the plaintext and split it; round `r` takes the
/// positions `6 + 3 * r` to `8 + 3 * r`: its subkey, the round function of
/// the right half, and the new right half; positions 30 to 34 join the
/// halves, whiten them and mark the ciphertext.
pub open spec fn feal_graph_node(i: int) -> ComputationGraph {
    if i == 0 {
        ComputationGraph::Plaintext {  }
    } else if i == 1 {
        ComputationGraph::Key8_11 {  }
    } else if i == 2 {
        ComputationGraph::Xor64 { a: 0, b: 1 }
    } else if i == 3 {
        ComputationGraph::Left { src: 2 }
    } else if i == 4 {
        ComputationGraph::Right { src: 2 }
    } else if i == 5 {
        ComputationGraph::Xor32 { a: 3, b: 4 }
    } else if i < 30 {
        let round = (i - 6) / 3;
        if (i - 6) % 3 == 0 {
            round_key_description(round)
        } else if (i - 6) % 3 == 1 {
            ComputationGraph::F { subkey: (i - 1) as usize, value: right_position(round) as usize }
        } else {
            ComputationGraph::Xor32 { a: left_position(round) as usize, b: (i - 1) as usize }
        }
    } else if i == 30 {
        ComputationGraph::Xor32 { a: 26, b: 29 }
    } else if i == 31 {
        ComputationGraph::Swap { left: 30, right: 29 }
    } else if i == 32 {
        ComputationGraph::Key12_15 {  }
    } else if i == 33 {
        ComputationGraph::Xor64 { a: 31, b: 32 }
    } else {
        ComputationGraph::Ciphertext { src: 33 }
    }
}

/// The descriptions of the nodes of the graph of the cipher, in order.
pub open spec fn feal_graph_description() -> Seq<ComputationGraph> {
    Seq::new(35, |i: int| feal_graph_node(i))
}

fn round_key_leaf(round: usize) -> (r: ComputationGraph)
    requires
        round < 8,
    ensures
        r == round_key_description(round as int),
{
    if round == 0 {
        ComputationGraph::Key0 {  }
    } else if round == 1 {
        ComputationGraph::Key1 {  }
    } else if round == 2 {
        ComputationGraph::Key2 {  }
    } else if round == 3 {
        ComputationGraph::Key3 {  }
    } else if round == 4 {
        ComputationGraph::Key4 {  }
    } else if round == 5 {
        ComputationGraph::Key5 {  }
    } else if round == 6 {
        ComputationGraph::Key6 {  }
    } else {
        ComputationGraph::Key7 {  }
    }
}

/// Describes the cipher as a graph: the plaintext, the input whitening, the
/// eight rounds, the output whitening and the ciphertext.
pub fn feal_graph() -> (r: Vec<ComputationGraph>)
    ensures
        r@ == feal_graph_description(),
        r@.len() == FEAL_GRAPH_LEN,
        r@[FEAL_GRAPH_SINK as int] is Ciphertext,
        well_described(r@),
{
    let mut graph: Vec<ComputationGraph> = Vec::new();
    graph.push(ComputationGraph::Plaintext {  });
    graph.push(ComputationGraph::Key8_11 {  });
    graph.push(ComputationGraph::Xor64 { a: 0, b: 1 });
    graph.push(ComputationGraph::Left { src: 2 });
    graph.push(ComputationGraph::Right { src: 2 });
    graph.push(ComputationGraph::Xor32 { a: 3, b: 4 });
    let mut left: usize = 3;
    let mut right: usize = 5;
    for round in 0..8usize
        invariant
            graph@.len() == 6 + 3 * round,
            left == left_position(round as int),
            right == right_position(round as int),
            forall|i: int| 0 <= i < graph@.len() ==> graph@[i] == feal_graph_node(i),
    {
        let key: usize = graph.len();
        graph.push(round_key_leaf(round));
        graph.push(ComputationGraph::F { subkey: key, value: right });
        graph.push(ComputationGraph::Xor32 { a: left, b: key + 1 });
        left = right;
        right = key + 2;
    }
    graph.push(ComputationGraph::Xor32 { a: left, b: right });
    graph.push(ComputationGraph::Swap { left: 30, right });
    graph.push(ComputationGraph::Key12_15 {  });
    graph.push(ComputationGraph::Xor64 { a: 31, b: 32 });
    graph.push(ComputationGraph::Ciphertext { src: 33 });
    proof {
        lemma_feal_graph_well_described();
    }
    graph
}

/// In the graph of the cipher every operand is an earlier position.
pub proof fn lemma_feal_graph_well_described()
    ensures
        well_described(feal_graph_description()),
{
    let graph = feal_graph_description();
    assert forall|i: int| 0 <= i < graph.len() implies (#[trigger] graph[i]).fits_at(i) by {
        if 6 <= i < 30 {
            let round = (i - 6) / 3;
            assert(left_position(round) < i && right_position(round) < i || (i - 6) % 3 == 0);
        }
    }
}

/// On 32-bit words, the exclusive or of the graph is that of the cipher.
proof fn lemma_xor32_lane(l: u32, r: u32)
    by (bit_vector)
    ensures
        ((l as u64) ^ (r as u64)) % 0x1_0000_0000 == (l ^ r) as u64,
{
}

/// The subkey leaf of round `round` holds the subkey `k[round]`.
proof fn lemma_round_key_node(k: Seq<u16>, p: u64, d: u64, round: int)
    requires
        0 <= round < 8,
    ensures
        round_key_description(round).node(k, p, d).value((0, 0), (0, 0)).0 == k[round] as u64,
        round_key_description(round).node(k, p, d).operands().len() == 0,
{
}

/// On the primary input, the nodes at the left and right position of round
/// `round` hold the two halves after `round` Feistel rounds.
proof fn lemma_rounds_in_graph(k: Seq<u16>, p: u64, d: u64, round: nat)
    requires
        k.len() == 16,
        round <= 8,
    ensures
        ({
            let nodes = nodes_of(feal_graph_description(), k, p, d);
            let (l0, r0) = halves64(p ^ pack16(k[8], k[9], k[10], k[11]));
            let (left, right) = feistel_rounds(k, l0, l0 ^ r0, round);
            &&& node_value(nodes, left_position(round as int)).0 == left as u64
            &&& node_value(nodes, right_position(round as int)).0 == right as u64
        }),
    decreases round,
{
    let graph = feal_graph_description();
    let nodes = nodes_of(graph, k, p, d);
    let v = p ^ pack16(k[8], k[9], k[10], k[11]);
    let (l0, r0) = halves64(v);
    if round == 0 {
        assert(node_value(nodes, 0).0 == p);
        assert(node_value(nodes, 1).0 == pack16(k[8], k[9], k[10], k[11]));
        assert(node_value(nodes, 2).0 == v);
        assert(node_value(nodes, 3).0 == l0 as u64);
        assert(node_value(nodes, 4).0 == r0 as u64);
        lemma_xor32_lane(l0, r0);
    } else {
        let before = (round - 1) as nat;
        lemma_rounds_in_graph(k, p, d, before);
        let (left, right) = feistel_rounds(k, l0, l0 ^ r0, before);
        let key: int = 6 + 3 * (before as int);
        assert(graph[key + 1] == (ComputationGraph::F {
            subkey: key as usize,
            value: right_position(before as int) as usize,
        }));
        assert(graph[key + 2] == (ComputationGraph::Xor32 {
            a: left_position(before as int) as usize,
            b: (key + 1) as usize,
        }));
        lemma_round_key_node(k, p, d, before as int);
        assert(node_value(nodes, key).0 == k[before as int] as u64);
        let mixed = round_fn(k[before as int], right);
        assert(node_value(nodes, key + 1).0 == mixed as u64);
        lemma_xor32_lane(left, mixed);
        assert(feistel_rounds(k, l0, l0 ^ r0, round) == feistel_round(
            k[before as int],
            left,
            right,
        ));
    }
}

/// On the primary input, the ciphertext node of the graph of the cipher
/// holds what the Feistel core makes of the plaintext.
proof fn lemma_feal_graph_primary(k: Seq<u16>, p: u64, d: u64)
    requires
        k.len() == 16,
    ensures
        node_value(nodes_of(feal_graph_description(), k, p, d), FEAL_GRAPH_SINK as int).0
            == feal_core(k, p),
{
    let graph = feal_graph_description();
    let nodes = nodes_of(graph, k, p, d);
    let (l0, r0) = halves64(p ^ pack16(k[8], k[9], k[10], k[11]));
    let (l8, r8) = feistel_rounds(k, l0, l0 ^ r0, 8);
    lemma_rounds_in_graph(k, p, d, 8);
    lemma_xor32_lane(l8, r8);
    assert(node_value(nodes, 30).0 == (l8 ^ r8) as u64);
    assert(node_value(nodes, 31).0 == pack32(r8, l8 ^ r8));
    assert(node_value(nodes, 32).0 == pack16(k[12], k[13], k[14], k[15]));
    assert(node_value(nodes, 34).0 == node_value(nodes, 33).0);
}

/// The graph of the cipher computes the cipher: under any sixteen subkeys,
/// its ciphertext node evaluates to the Feistel core of the plaintext and
/// the Feistel core of the plaintext changed by the differential.
pub proof fn theorem_feal_graph_is_core(k: Seq<u16>, plaintext: u64, differential: u64)
    requires
        k.len() == 16,
    ensures
        node_value(
            nodes_of(feal_graph_description(), k, plaintext, differential),
            FEAL_GRAPH_SINK as int,
        ) == (
            feal_core(k, plaintext),
            feal_core(k, (plaintext ^ differential)),
        ),
{
    let graph = feal_graph_description();
    let nodes = nodes_of(graph, k, plaintext, differential);
    lemma_feal_graph_primary(k, plaintext, differential);
    theorem_lanes_independent(nodes, FEAL_GRAPH_SINK as int);
    assert(secondary_graph(nodes) =~= nodes_of(graph, k, (plaintext ^ differential), 0));
    lemma_feal_graph_primary(k, (plaintext ^ differential), 0);
}

/// With the subkeys of a key and no differential, the ciphertext node of the
/// graph of the cipher evaluates on both inputs to the encryption of the
/// plaintext under that key.
pub proof fn theorem_feal_graph_encrypts(key: u64, plaintext: u64)
    ensures
        node_value(
            nodes_of(
                feal_graph_description(),
                key_schedule(halves64(key).0, halves64(key).1),
                plaintext,
                0,
            ),
            FEAL_GRAPH_SINK as int,
        ) == (encryption(key, plaintext), encryption(key, plaintext)),
{
    let subkeys = key_schedule(halves64(key).0, halves64(key).1);
    theorem_feal_graph_is_core(subkeys, plaintext, 0);
    theorem_no_differential(
        nodes_of(feal_graph_description(), subkeys, plaintext, 0),
        FEAL_GRAPH_SINK as int,
    );
}

} // verus!
