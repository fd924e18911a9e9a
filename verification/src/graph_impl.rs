//! A computation graph as a whole: built once from the descriptions of its
//! nodes, then evaluated node by node, each node at most once in a pass.

use crate::computation_graph::{ComputationGraph, ComputationNode, GraphError};
use vstd::prelude::*;

verus! {

/// Whether every node's operands are positions of earlier nodes.
pub open spec fn well_formed(nodes: Seq<ComputationNode>) -> bool {
    forall|i: int| 0 <= i < nodes.len() ==> (#[trigger] nodes[i]).fits_at(i)
}

/// Whether every description's operands are positions of earlier
/// descriptions.
pub open spec fn well_described(graph_data: Seq<ComputationGraph>) -> bool {
    forall|i: int| 0 <= i < graph_data.len() ==> (#[trigger] graph_data[i]).fits_at(i)
}

/// The nodes that a list of descriptions stands for, with the leaf values
/// taken from sixteen subkeys, a plaintext and a differential.
pub open spec fn nodes_of(
    graph_data: Seq<ComputationGraph>,
    subkeys: Seq<u16>,
    plaintext: u64,
    differential: u64,
) -> Seq<ComputationNode> {
    Seq::new(graph_data.len(), |i: int| graph_data[i].node(subkeys, plaintext, differential))
}

/// The pair that the node at position `i` evaluates to. An operand that is
/// missing, or that is not the position of an earlier node, counts as the
/// pair `(0, 0)`; in a well-formed graph there is no such operand.
pub open spec fn node_value(nodes: Seq<ComputationNode>, i: int) -> (u64, u64)
    decreases i,
{
    if 0 <= i < nodes.len() {
        let operands = nodes[i].operands();
        let first = if operands.len() >= 1 && operands[0] < i {
            node_value(nodes, operands[0] as int)
        } else {
            (0, 0)
        };
        let second = if operands.len() >= 2 && operands[1] < i {
            node_value(nodes, operands[1] as int)
        } else {
            (0, 0)
        };
        nodes[i].value(first, second)
    } else {
        (0, 0)
    }
}

/// The position of the last ciphertext node among the first `n` nodes.
pub open spec fn last_ciphertext(nodes: Seq<ComputationNode>, n: nat) -> Option<int>
    decreases n,
{
    if n == 0 {
        None
    } else if nodes[n - 1] is Ciphertext {
        Some(n - 1)
    } else {
        last_ciphertext(nodes, (n - 1) as nat)
    }
}

/// The nodes with the differential of every plaintext leaf replaced.
pub open spec fn reseeded(nodes: Seq<ComputationNode>, differential: u64) -> Seq<ComputationNode> {
    Seq::new(nodes.len(), |i: int| nodes[i].with_differential(differential))
}

/// Whether every entry of the cache is the value of the node at its position.
pub open spec fn cache_holds(nodes: Seq<ComputationNode>, cache: Seq<Option<(u64, u64)>>) -> bool {
    forall|i: int|
        0 <= i < cache.len() ==> ((#[trigger] cache[i]) matches Some(pair) ==> pair == node_value(
            nodes,
            i,
        ))
}

/// A computation graph: its nodes in an order in which every node comes
/// after its operands.
pub struct GraphImpl {
    compnodes: Vec<ComputationNode>,
}

impl View for GraphImpl {
    type V = Seq<ComputationNode>;

    closed spec fn view(&self) -> Seq<ComputationNode> {
        self.compnodes@
    }
}

impl GraphImpl {
    #[verifier::type_invariant]
    spec fn ordered(&self) -> bool {
        well_formed(self.compnodes@)
    }

    /// Builds the graph that `graph_data` describes. The key leaves take
    /// their values from `subkeys`, the plaintext leaves the value
    /// `plaintext` and the differential `differential`. Fails at the first
    /// node with an operand that is not the position of an earlier node,
    /// naming the first such operand of it.
    pub fn new(
        graph_data: &Vec<ComputationGraph>,
        subkeys: [u16; 16],
        plaintext: u64,
        differential: u64,
    ) -> (r: Result<GraphImpl, GraphError>)
        ensures
            r is Ok <==> well_described(graph_data@),
            r matches Ok(graph) ==> graph@ == nodes_of(
                graph_data@,
                subkeys@,
                plaintext,
                differential,
            ) && well_formed(graph@),
            r matches Err(error) ==> error is MalformedGraph,
            r matches Err(GraphError::MalformedGraph { position, operand }) ==> {
                &&& position < graph_data@.len()
                &&& well_described(graph_data@.take(position as int))
                &&& !graph_data@[position as int].fits_at(position as int)
                &&& operand >= position
                &&& exists|j: int|
                    0 <= j < graph_data@[position as int].operands().len()
                        && graph_data@[position as int].operands()[j] == operand && forall|i: int|
                        0 <= i < j ==> graph_data@[position as int].operands()[i] < position
            },
    {
        let mut compnodes: Vec<ComputationNode> = Vec::new();
        for position in 0..graph_data.len()
            invariant
                compnodes@.len() == position,
                well_formed(compnodes@),
                well_described(graph_data@.take(position as int)),
                forall|i: int|
                    0 <= i < position ==> compnodes@[i] == graph_data@[i].node(
                        subkeys@,
                        plaintext,
                        differential,
                    ),
        {
            let description = &graph_data[position];
            match description.misplaced_operand(position) {
                Some(operand) => {
                    return Err(GraphError::MalformedGraph { position, operand });
                },
                None => {},
            }
            let node = description.instantiate(&subkeys, plaintext, differential);
            compnodes.push(node);
        }
        assert(graph_data@.take(graph_data@.len() as int) == graph_data@);
        Ok(GraphImpl { compnodes })
    }

    /// The number of nodes. In every graph each node comes after its
    /// operands.
    pub fn len(&self) -> (r: usize)
        ensures
            r == self@.len(),
            well_formed(self@),
    {
        proof {
            use_type_invariant(self);
        }
        self.compnodes.len()
    }

    /// The node at position `index`, if there is one.
    pub fn node(&self, index: usize) -> (r: Option<ComputationNode>)
        ensures
            r == if index < self@.len() {
                Some(self@[index as int])
            } else {
                None
            },
    {
        if index < self.compnodes.len() {
            Some(self.compnodes[index])
        } else {
            None
        }
    }

    /// A cache for one evaluation pass, with no value in it yet.
    fn empty_cache(&self) -> (cache: Vec<Option<(u64, u64)>>)
        ensures
            cache@.len() == self@.len(),
            forall|i: int| 0 <= i < cache@.len() ==> cache@[i] is None,
    {
        let mut cache: Vec<Option<(u64, u64)>> = Vec::new();
        for filled in 0..self.compnodes.len()
            invariant
                cache@.len() == filled,
                forall|i: int| 0 <= i < cache@.len() ==> cache@[i] is None,
        {
            cache.push(None);
        }
        cache
    }

    /// Evaluates the node at `index` within a pass: a value that the cache
    /// holds is taken from it, any other is computed from the values of the
    /// operands and put into the cache.
    fn eval_cached(&self, index: usize, cache: &mut Vec<Option<(u64, u64)>>) -> (r: (u64, u64))
        requires
            index < self@.len(),
            old(cache)@.len() == self@.len(),
            cache_holds(self@, old(cache)@),
        ensures
            r == node_value(self@, index as int),
            final(cache)@.len() == self@.len(),
            cache_holds(self@, final(cache)@),
        decreases index,
    {
        proof {
            use_type_invariant(self);
        }
        match cache[index] {
            Some(known) => {
                return known;
            },
            None => {},
        }
        let node = self.compnodes[index];
        let first = match node.first_operand() {
            Some(operand) => self.eval_cached(operand, cache),
            None => (0, 0),
        };
        let second = match node.second_operand() {
            Some(operand) => self.eval_cached(operand, cache),
            None => (0, 0),
        };
        let pair = node.eval(first, second);
        assert(pair == node_value(self@, index as int)) by {
            assert(node.is_leaf() ==> node.value(first, second) == node.value((0, 0), (0, 0)));
        }
        cache[index] = Some(pair);
        pair
    }

    /// Evaluates the node at position `index`: the pair of its values on the
    /// primary and on the secondary input. Every node that the value depends
    /// on is computed once. There is no value where there is no such node.
    pub fn eval(&self, index: usize) -> (r: Option<(u64, u64)>)
        ensures
            r == if index < self@.len() {
                Some(node_value(self@, index as int))
            } else {
                None
            },
    {
        if index < self.compnodes.len() {
            let mut cache = self.empty_cache();
            Some(self.eval_cached(index, &mut cache))
        } else {
            None
        }
    }

    /// Evaluates every node in one pass, each node once: the pairs in the
    /// order of the nodes.
    pub fn eval_all(&self) -> (r: Vec<(u64, u64)>)
        ensures
            r@.len() == self@.len(),
            forall|i: int| 0 <= i < r@.len() ==> r@[i] == node_value(self@, i),
    {
        let mut cache = self.empty_cache();
        let mut pairs: Vec<(u64, u64)> = Vec::new();
        for index in 0..self.compnodes.len()
            invariant
                cache@.len() == self@.len(),
                cache_holds(self@, cache@),
                pairs@.len() == index,
                forall|i: int| 0 <= i < index ==> pairs@[i] == node_value(self@, i),
        {
            let pair = self.eval_cached(index, &mut cache);
            pairs.push(pair);
        }
        pairs
    }

    /// The position of the sink: the last ciphertext node, if the graph has
    /// one.
    pub fn sink(&self) -> (r: Option<usize>)
        ensures
            r is Some <==> last_ciphertext(self@, self@.len()) is Some,
            r matches Some(position) ==> last_ciphertext(self@, self@.len()) == Some(
                position as int,
            ) && position < self@.len(),
    {
        let mut n = self.compnodes.len();
        while n > 0
            invariant
                n <= self@.len(),
                last_ciphertext(self@, self@.len()) == last_ciphertext(self@, n as nat),
            decreases n,
        {
            match self.compnodes[n - 1] {
                ComputationNode::Ciphertext { .. } => {
                    return Some(n - 1);
                },
                _ => {},
            }
            n = n - 1;
        }
        None
    }

    /// The graph with the differential of every plaintext leaf replaced.
    pub fn with_differential(&self, differential: u64) -> (r: GraphImpl)
        ensures
            r@ == reseeded(self@, differential),
            well_formed(r@),
    {
        proof {
            use_type_invariant(self);
        }
        let mut compnodes: Vec<ComputationNode> = Vec::new();
        for index in 0..self.compnodes.len()
            invariant
                well_formed(self@),
                compnodes@.len() == index,
                well_formed(compnodes@),
                forall|i: int|
                    0 <= i < index ==> compnodes@[i] == self@[i].with_differential(differential),
        {
            let node = match self.compnodes[index] {
                ComputationNode::Plaintext { value, .. } => ComputationNode::Plaintext {
                    differential,
                    value,
                },
                other => other,
            };
            compnodes.push(node);
        }
        GraphImpl { compnodes }
    }

    /// Passes a differential through the graph: every plaintext leaf keeps
    /// its value and takes `differential`, and the sink is evaluated. There
    /// is no value where the graph has no ciphertext node.
    pub fn pass_differential(&self, differential: u64) -> (r: Option<(u64, u64)>)
        ensures
            r == match last_ciphertext(self@, self@.len()) {
                Some(position) => Some(node_value(reseeded(self@, differential), position)),
                None => None,
            },
    {
        match self.sink() {
            Some(position) => {
                let seeded = self.with_differential(differential);
                seeded.eval(position)
            },
            None => None,
        }
    }
}

} // verus!
