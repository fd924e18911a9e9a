use feal_analysis::computation_graph::{ComputationGraph, ComputationNode, GraphError};
use feal_analysis::feal::{encrypt, f, feal4_raw, keygen, u16tou64, u64tou32};
use feal_analysis::feal_graph::{feal_graph, FEAL_GRAPH_LEN, FEAL_GRAPH_SINK};
use feal_analysis::graph_impl::GraphImpl;
use feal_analysis::hex::hexstr;

const KEY: u64 = 0x0123456789abcdef;

const PLAINTEXT: u64 = 0x0123456789abcdef;

const DIFFERENTIAL: u64 = 0x8080000080800000;

const COUNTING: [u16; 16] = [1, 2, 3, 4, 5, 6, 7, 8, 9, 10, 11, 12, 13, 14, 15, 16];

fn next_random(state: u64) -> u64 {
    let mut s: u64 = state;
    s ^= s << 13;
    s ^= s >> 7;
    s ^= s << 17;
    s
}

fn subkeys_of(key: u64) -> [u16; 16] {
    let (ka, kb) = u64tou32(key);
    keygen(ka, kb)
}

fn build(graph_data: Vec<ComputationGraph>, plaintext: u64, differential: u64) -> GraphImpl {
    match GraphImpl::new(&graph_data, COUNTING, plaintext, differential) {
        Ok(graph) => graph,
        Err(_) => panic!("the graph is well formed"),
    }
}

/// The cipher, node by node: whitening, eight rounds, whitening.
fn cipher_by_hand() -> Vec<ComputationGraph> {
    vec![
        ComputationGraph::Plaintext {},
        ComputationGraph::Key8_11 {},
        ComputationGraph::Xor64 { a: 0, b: 1 },
        ComputationGraph::Left { src: 2 },
        ComputationGraph::Right { src: 2 },
        ComputationGraph::Xor32 { a: 3, b: 4 },
        ComputationGraph::Key0 {},
        ComputationGraph::F { subkey: 6, value: 5 },
        ComputationGraph::Xor32 { a: 3, b: 7 },
        ComputationGraph::Key1 {},
        ComputationGraph::F { subkey: 9, value: 8 },
        ComputationGraph::Xor32 { a: 5, b: 10 },
        ComputationGraph::Key2 {},
        ComputationGraph::F { subkey: 12, value: 11 },
        ComputationGraph::Xor32 { a: 8, b: 13 },
        ComputationGraph::Key3 {},
        ComputationGraph::F { subkey: 15, value: 14 },
        ComputationGraph::Xor32 { a: 11, b: 16 },
        ComputationGraph::Key4 {},
        ComputationGraph::F { subkey: 18, value: 17 },
        ComputationGraph::Xor32 { a: 14, b: 19 },
        ComputationGraph::Key5 {},
        ComputationGraph::F { subkey: 21, value: 20 },
        ComputationGraph::Xor32 { a: 17, b: 22 },
        ComputationGraph::Key6 {},
        ComputationGraph::F { subkey: 24, value: 23 },
        ComputationGraph::Xor32 { a: 20, b: 25 },
        ComputationGraph::Key7 {},
        ComputationGraph::F { subkey: 27, value: 26 },
        ComputationGraph::Xor32 { a: 23, b: 28 },
        ComputationGraph::Xor32 { a: 26, b: 29 },
        ComputationGraph::Swap { left: 30, right: 29 },
        ComputationGraph::Key12_15 {},
        ComputationGraph::Xor64 { a: 31, b: 32 },
        ComputationGraph::Ciphertext { src: 33 },
    ]
}

#[test]
fn new_builds_one_node_for_each_description() {
    let graph_data: Vec<ComputationGraph> = vec![
        ComputationGraph::Plaintext {},
        ComputationGraph::Key0 {},
        ComputationGraph::Key8_11 {},
        ComputationGraph::F { subkey: 1, value: 0 },
        ComputationGraph::Ciphertext { src: 3 },
    ];
    let graph: GraphImpl = build(graph_data, PLAINTEXT, DIFFERENTIAL);
    assert_eq!(graph.len(), 5);
    assert_eq!(
        graph.node(0),
        Some(ComputationNode::Plaintext { differential: DIFFERENTIAL, value: PLAINTEXT })
    );
    assert_eq!(graph.node(1), Some(ComputationNode::Key0 { key: 1 }));
    assert_eq!(graph.node(2), Some(ComputationNode::Key8_11 { key: 0x0009000a000b000c }));
    assert_eq!(graph.node(3), Some(ComputationNode::F { subkey: 1, value: 0 }));
    assert_eq!(graph.node(4), Some(ComputationNode::Ciphertext { src: 3 }));
    assert_eq!(graph.node(5), None);
}

#[test]
fn new_accepts_the_empty_list() {
    let graph: GraphImpl = build(vec![], 0, 0);
    assert_eq!(graph.len(), 0);
    assert_eq!(graph.eval(0), None);
    assert_eq!(graph.eval_all(), vec![]);
    assert_eq!(graph.sink(), None);
    assert_eq!(graph.pass_differential(1), None);
}

#[test]
fn instantiate_takes_each_key_leaf_from_its_subkey() {
    let subkeys: [u16; 16] = subkeys_of(KEY);
    let leaves: [ComputationGraph; 8] = [
        ComputationGraph::Key0 {},
        ComputationGraph::Key1 {},
        ComputationGraph::Key2 {},
        ComputationGraph::Key3 {},
        ComputationGraph::Key4 {},
        ComputationGraph::Key5 {},
        ComputationGraph::Key6 {},
        ComputationGraph::Key7 {},
    ];
    for (index, leaf) in leaves.iter().enumerate() {
        let node: ComputationNode = leaf.instantiate(&subkeys, 0, 0);
        let key: u64 = subkeys[index] as u64;
        assert_eq!(node.eval((7, 7), (9, 9)), (key, key));
        assert_eq!(node.bitsize(), 16);
    }
    let input: ComputationNode = ComputationGraph::Key8_11 {}.instantiate(&subkeys, 0, 0);
    let output: ComputationNode = ComputationGraph::Key12_15 {}.instantiate(&subkeys, 0, 0);
    let win: u64 = u16tou64(subkeys[8], subkeys[9], subkeys[10], subkeys[11]);
    let wout: u64 = u16tou64(subkeys[12], subkeys[13], subkeys[14], subkeys[15]);
    assert_eq!(input, ComputationNode::Key8_11 { key: win });
    assert_eq!(output, ComputationNode::Key12_15 { key: wout });
    assert_eq!(input.eval((0, 0), (0, 0)), (win, win));
    assert_eq!(output.eval((0, 0), (0, 0)), (wout, wout));
}

#[test]
fn new_rejects_a_node_that_names_itself() {
    let graph_data: Vec<ComputationGraph> =
        vec![ComputationGraph::Plaintext {}, ComputationGraph::Copy64 { src: 1 }];
    let built = GraphImpl::new(&graph_data, COUNTING, 0, 0);
    assert!(matches!(built, Err(GraphError::MalformedGraph { position: 1, operand: 1 })));
}

#[test]
fn new_rejects_a_node_that_names_a_later_node() {
    let graph_data: Vec<ComputationGraph> = vec![
        ComputationGraph::Plaintext {},
        ComputationGraph::Xor64 { a: 0, b: 2 },
        ComputationGraph::Key8_11 {},
    ];
    let built = GraphImpl::new(&graph_data, COUNTING, 0, 0);
    assert!(matches!(built, Err(GraphError::MalformedGraph { position: 1, operand: 2 })));
}

#[test]
fn new_rejects_an_operand_beyond_the_list() {
    let graph_data: Vec<ComputationGraph> =
        vec![ComputationGraph::Plaintext {}, ComputationGraph::Left { src: usize::MAX }];
    let built = GraphImpl::new(&graph_data, COUNTING, 0, 0);
    assert!(matches!(
        built,
        Err(GraphError::MalformedGraph { position: 1, operand: usize::MAX })
    ));
}

#[test]
fn new_rejects_an_operation_in_the_first_place() {
    let graph_data: Vec<ComputationGraph> = vec![ComputationGraph::Ciphertext { src: 0 }];
    let built = GraphImpl::new(&graph_data, COUNTING, 0, 0);
    assert!(matches!(built, Err(GraphError::MalformedGraph { position: 0, operand: 0 })));
}

#[test]
fn new_names_the_first_misplaced_node_and_operand() {
    let graph_data: Vec<ComputationGraph> = vec![
        ComputationGraph::Plaintext {},
        ComputationGraph::Key0 {},
        ComputationGraph::F { subkey: 5, value: 9 },
        ComputationGraph::Swap { left: 7, right: 0 },
    ];
    let built = GraphImpl::new(&graph_data, COUNTING, 0, 0);
    assert!(matches!(built, Err(GraphError::MalformedGraph { position: 2, operand: 5 })));
    let second: Vec<ComputationGraph> = vec![
        ComputationGraph::Plaintext {},
        ComputationGraph::Key0 {},
        ComputationGraph::F { subkey: 1, value: 2 },
    ];
    let built = GraphImpl::new(&second, COUNTING, 0, 0);
    assert!(matches!(built, Err(GraphError::MalformedGraph { position: 2, operand: 2 })));
}

#[test]
fn every_kind_of_operation_is_rejected_when_it_names_itself() {
    let kinds: Vec<ComputationGraph> = vec![
        ComputationGraph::Copy16 { src: 1 },
        ComputationGraph::Copy32 { src: 1 },
        ComputationGraph::Copy64 { src: 1 },
        ComputationGraph::Left { src: 1 },
        ComputationGraph::Right { src: 1 },
        ComputationGraph::F { subkey: 0, value: 1 },
        ComputationGraph::F { subkey: 1, value: 0 },
        ComputationGraph::Xor32 { a: 0, b: 1 },
        ComputationGraph::Xor32 { a: 1, b: 0 },
        ComputationGraph::Xor64 { a: 0, b: 1 },
        ComputationGraph::Xor64 { a: 1, b: 0 },
        ComputationGraph::Swap { left: 0, right: 1 },
        ComputationGraph::Swap { left: 1, right: 0 },
        ComputationGraph::Ciphertext { src: 1 },
    ];
    for kind in kinds {
        assert_eq!(kind.misplaced_operand(1), Some(1));
        assert_eq!(kind.misplaced_operand(2), None);
        let graph_data: Vec<ComputationGraph> = vec![ComputationGraph::Plaintext {}, kind];
        let built = GraphImpl::new(&graph_data, COUNTING, 0, 0);
        assert!(matches!(built, Err(GraphError::MalformedGraph { position: 1, operand: 1 })));
    }
}

#[test]
fn a_leaf_fits_everywhere() {
    assert_eq!(ComputationGraph::Plaintext {}.misplaced_operand(0), None);
    assert_eq!(ComputationGraph::Key7 {}.misplaced_operand(0), None);
    assert_eq!(ComputationGraph::Key12_15 {}.misplaced_operand(0), None);
}

#[test]
fn plaintext_leaf_gives_value_and_value_changed_by_differential() {
    let mut state: u64 = 0x0badc0ffee0ddf00;
    for _ in 0..50 {
        state = next_random(state);
        let p: u64 = state;
        state = next_random(state);
        let d: u64 = state;
        let graph: GraphImpl = build(vec![ComputationGraph::Plaintext {}], p, d);
        assert_eq!(graph.eval(0), Some((p, p ^ d)));
    }
    let graph: GraphImpl = build(vec![ComputationGraph::Plaintext {}], PLAINTEXT, 0);
    assert_eq!(graph.eval(0), Some((PLAINTEXT, PLAINTEXT)));
}

#[test]
fn copies_cut_to_their_width() {
    let graph: GraphImpl = build(
        vec![
            ComputationGraph::Plaintext {},
            ComputationGraph::Copy16 { src: 0 },
            ComputationGraph::Copy32 { src: 0 },
            ComputationGraph::Copy64 { src: 0 },
        ],
        PLAINTEXT,
        DIFFERENTIAL,
    );
    assert_eq!(graph.eval(1), Some((0xcdef, 0xcdef)));
    assert_eq!(graph.eval(2), Some((0x89abcdef, 0x092bcdef)));
    assert_eq!(graph.eval(3), Some((0x0123456789abcdef, 0x81a34567092bcdef)));
}

#[test]
fn left_and_right_take_the_halves() {
    let graph: GraphImpl = build(
        vec![
            ComputationGraph::Plaintext {},
            ComputationGraph::Left { src: 0 },
            ComputationGraph::Right { src: 0 },
        ],
        PLAINTEXT,
        DIFFERENTIAL,
    );
    assert_eq!(graph.eval(1), Some((0x01234567, 0x81a34567)));
    assert_eq!(graph.eval(2), Some((0x89abcdef, 0x092bcdef)));
}

#[test]
fn xor_nodes_combine_both_operands() {
    let graph: GraphImpl = build(
        vec![
            ComputationGraph::Plaintext {},
            ComputationGraph::Key8_11 {},
            ComputationGraph::Xor32 { a: 0, b: 1 },
            ComputationGraph::Xor64 { a: 0, b: 1 },
        ],
        PLAINTEXT,
        DIFFERENTIAL,
    );
    let key: u64 = 0x0009000a000b000c;
    assert_eq!(graph.eval(1), Some((key, key)));
    assert_eq!(
        graph.eval(2),
        Some(((PLAINTEXT ^ key) & 0xffffffff, (PLAINTEXT ^ DIFFERENTIAL ^ key) & 0xffffffff))
    );
    assert_eq!(graph.eval(2), Some((0x89a0cde3, 0x0920cde3)));
    assert_eq!(graph.eval(3), Some((PLAINTEXT ^ key, PLAINTEXT ^ DIFFERENTIAL ^ key)));
}

#[test]
fn swap_puts_its_right_operand_uppermost() {
    let graph: GraphImpl = build(
        vec![
            ComputationGraph::Plaintext {},
            ComputationGraph::Left { src: 0 },
            ComputationGraph::Right { src: 0 },
            ComputationGraph::Swap { left: 1, right: 2 },
            ComputationGraph::Swap { left: 0, right: 0 },
        ],
        PLAINTEXT,
        0,
    );
    assert_eq!(graph.eval(3), Some((0x89abcdef01234567, 0x89abcdef01234567)));
    assert_eq!(graph.eval(4), Some((0x89abcdef89abcdef, 0x89abcdef89abcdef)));
}

#[test]
fn f_node_applies_the_round_function_on_each_lane() {
    let graph: GraphImpl = build(
        vec![
            ComputationGraph::Plaintext {},
            ComputationGraph::Key0 {},
            ComputationGraph::F { subkey: 1, value: 0 },
        ],
        PLAINTEXT,
        DIFFERENTIAL,
    );
    assert_eq!(graph.eval(2), Some((0x8a19f083, f(1, 0x092bcdef) as u64)));
    assert_eq!(graph.eval(2), Some((f(1, 0x89abcdef) as u64, f(1, 0x092bcdef) as u64)));
}

#[test]
fn f_node_reads_the_low_bits_of_its_operands() {
    let node: ComputationNode = ComputationNode::F { subkey: 0, value: 1 };
    let pair: (u64, u64) =
        node.eval((0x1234abcd, 0xffff00000000015f), (0x5566778899aabbcc, 0xe529577a));
    assert_eq!(pair, (0x9b4d1ca7, 0x9b01cd21));
    assert_eq!(pair.0, f(0xabcd, 0x99aabbcc) as u64);
}

#[test]
fn ciphertext_passes_its_operand_on() {
    let graph: GraphImpl = build(
        vec![ComputationGraph::Plaintext {}, ComputationGraph::Ciphertext { src: 0 }],
        PLAINTEXT,
        DIFFERENTIAL,
    );
    assert_eq!(graph.eval(1), Some((PLAINTEXT, PLAINTEXT ^ DIFFERENTIAL)));
}

#[test]
fn cipher_graph_by_hand_gives_the_ciphertext_without_differential() {
    let mut state: u64 = 0x0fedcba987654321;
    for _ in 0..50 {
        state = next_random(state);
        let key: u64 = state;
        state = next_random(state);
        let plaintext: u64 = state;
        let built = GraphImpl::new(&cipher_by_hand(), subkeys_of(key), plaintext, 0);
        let graph: GraphImpl = match built {
            Ok(graph) => graph,
            Err(_) => panic!("the graph is well formed"),
        };
        let expected: u64 = encrypt(key, plaintext);
        assert_eq!(graph.eval(34), Some((expected, expected)));
    }
}

#[test]
fn cipher_graph_by_hand_gives_known_ciphertexts() {
    let built = GraphImpl::new(&cipher_by_hand(), subkeys_of(KEY), PLAINTEXT, DIFFERENTIAL);
    let graph: GraphImpl = match built {
        Ok(graph) => graph,
        Err(_) => panic!("the graph is well formed"),
    };
    assert_eq!(graph.eval(34), Some((0x0e38b9644631bebd, 0xdbf362732f1d88bb)));
    assert_eq!(
        graph.eval(34),
        Some((encrypt(KEY, PLAINTEXT), encrypt(KEY, PLAINTEXT ^ DIFFERENTIAL)))
    );
    let counting: GraphImpl = build(cipher_by_hand(), PLAINTEXT, DIFFERENTIAL);
    assert_eq!(counting.eval(34), Some((0x6ff08bd4424bd18e, 0x585e70f6b734f3f7)));
    assert_eq!(
        counting.eval(34),
        Some((feal4_raw(COUNTING, PLAINTEXT), feal4_raw(COUNTING, PLAINTEXT ^ DIFFERENTIAL)))
    );
}

#[test]
fn feal_graph_is_the_cipher_graph_by_hand() {
    let graph_data: Vec<ComputationGraph> = feal_graph();
    assert_eq!(graph_data.len(), FEAL_GRAPH_LEN);
    assert_eq!(graph_data, cipher_by_hand());
    assert_eq!(graph_data[FEAL_GRAPH_SINK], ComputationGraph::Ciphertext { src: 33 });
    let graph: GraphImpl = build(graph_data, PLAINTEXT, DIFFERENTIAL);
    assert_eq!(graph.sink(), Some(FEAL_GRAPH_SINK));
    assert_eq!(graph.eval(FEAL_GRAPH_SINK), Some((0x6ff08bd4424bd18e, 0x585e70f6b734f3f7)));
}

#[test]
fn eval_gives_no_value_beyond_the_last_node() {
    let graph: GraphImpl = build(cipher_by_hand(), PLAINTEXT, 0);
    assert!(graph.eval(34).is_some());
    assert_eq!(graph.eval(35), None);
    assert_eq!(graph.eval(usize::MAX), None);
}

#[test]
fn eval_all_gives_the_value_of_every_node() {
    let graph: GraphImpl = build(cipher_by_hand(), PLAINTEXT, DIFFERENTIAL);
    let pairs: Vec<(u64, u64)> = graph.eval_all();
    assert_eq!(pairs.len(), graph.len());
    for (index, pair) in pairs.iter().enumerate() {
        assert_eq!(graph.eval(index), Some(*pair));
    }
    assert_eq!(pairs[0], (PLAINTEXT, PLAINTEXT ^ DIFFERENTIAL));
    assert_eq!(pairs[34], (0x6ff08bd4424bd18e, 0x585e70f6b734f3f7));
}

#[test]
fn evaluation_is_linear_in_a_graph_with_shared_operands() {
    let mut graph_data: Vec<ComputationGraph> = vec![ComputationGraph::Plaintext {}];
    for index in 1..2000usize {
        graph_data.push(ComputationGraph::Xor64 { a: index - 1, b: index - 1 });
    }
    let graph: GraphImpl = build(graph_data, PLAINTEXT, DIFFERENTIAL);
    assert_eq!(graph.eval(1999), Some((0, 0)));
    assert_eq!(graph.eval_all().len(), 2000);
}

#[test]
fn every_value_fits_the_width_of_its_node() {
    let graph: GraphImpl = build(cipher_by_hand(), u64::MAX, u64::MAX >> 1);
    let pairs: Vec<(u64, u64)> = graph.eval_all();
    for (index, pair) in pairs.iter().enumerate() {
        let node: ComputationNode = match graph.node(index) {
            Some(node) => node,
            None => panic!("the node is there"),
        };
        let width: u32 = node.bitsize();
        assert!(width == 16 || width == 32 || width == 64);
        if width < 64 {
            assert!(pair.0 < (1u64 << width));
            assert!(pair.1 < (1u64 << width));
        }
    }
}

#[test]
fn lanes_agree_without_differential() {
    let graph: GraphImpl = build(cipher_by_hand(), PLAINTEXT, 0);
    for pair in graph.eval_all() {
        assert_eq!(pair.0, pair.1);
    }
}

#[test]
fn secondary_lane_is_the_primary_lane_of_the_changed_plaintext() {
    let graph: GraphImpl = build(cipher_by_hand(), PLAINTEXT, DIFFERENTIAL);
    let changed: GraphImpl = build(cipher_by_hand(), PLAINTEXT ^ DIFFERENTIAL, 0);
    let pairs: Vec<(u64, u64)> = graph.eval_all();
    let others: Vec<(u64, u64)> = changed.eval_all();
    for index in 0..pairs.len() {
        assert_eq!(pairs[index].1, others[index].0);
    }
}

#[test]
fn sink_is_the_last_ciphertext_node() {
    let graph: GraphImpl = build(
        vec![
            ComputationGraph::Plaintext {},
            ComputationGraph::Ciphertext { src: 0 },
            ComputationGraph::Copy16 { src: 0 },
            ComputationGraph::Ciphertext { src: 2 },
            ComputationGraph::Key0 {},
        ],
        PLAINTEXT,
        0,
    );
    assert_eq!(graph.sink(), Some(3));
    let none: GraphImpl = build(vec![ComputationGraph::Plaintext {}], PLAINTEXT, 0);
    assert_eq!(none.sink(), None);
}

#[test]
fn pass_differential_seeds_the_plaintext_and_evaluates_the_sink() {
    let graph: GraphImpl = build(cipher_by_hand(), PLAINTEXT, 0);
    assert_eq!(
        graph.pass_differential(DIFFERENTIAL),
        Some((0x6ff08bd4424bd18e, 0x585e70f6b734f3f7))
    );
    assert_eq!(graph.pass_differential(0), Some((0x6ff08bd4424bd18e, 0x6ff08bd4424bd18e)));
    assert_eq!(graph.eval(34), Some((0x6ff08bd4424bd18e, 0x6ff08bd4424bd18e)));
    let leaf: GraphImpl = build(
        vec![ComputationGraph::Plaintext {}, ComputationGraph::Ciphertext { src: 0 }],
        PLAINTEXT,
        1,
    );
    assert_eq!(leaf.pass_differential(DIFFERENTIAL), Some((PLAINTEXT, PLAINTEXT ^ DIFFERENTIAL)));
    let no_sink: GraphImpl = build(vec![ComputationGraph::Plaintext {}], PLAINTEXT, 0);
    assert_eq!(no_sink.pass_differential(DIFFERENTIAL), None);
}

#[test]
fn with_differential_changes_only_plaintext_leaves() {
    let graph: GraphImpl = build(
        vec![
            ComputationGraph::Plaintext {},
            ComputationGraph::Key0 {},
            ComputationGraph::Copy16 { src: 0 },
        ],
        PLAINTEXT,
        1,
    );
    let seeded: GraphImpl = graph.with_differential(DIFFERENTIAL);
    assert_eq!(seeded.len(), 3);
    assert_eq!(
        seeded.node(0),
        Some(ComputationNode::Plaintext { differential: DIFFERENTIAL, value: PLAINTEXT })
    );
    assert_eq!(seeded.node(1), graph.node(1));
    assert_eq!(seeded.node(2), graph.node(2));
    assert_eq!(
        graph.node(0),
        Some(ComputationNode::Plaintext { differential: 1, value: PLAINTEXT })
    );
}

#[test]
fn nodes_name_their_operands_in_order() {
    let f_node: ComputationNode = ComputationNode::F { subkey: 3, value: 4 };
    assert_eq!(f_node.first_operand(), Some(3));
    assert_eq!(f_node.second_operand(), Some(4));
    let swap: ComputationNode = ComputationNode::Swap { left: 5, right: 6 };
    assert_eq!(swap.first_operand(), Some(5));
    assert_eq!(swap.second_operand(), Some(6));
    let copy: ComputationNode = ComputationNode::Copy32 { src: 7 };
    assert_eq!(copy.first_operand(), Some(7));
    assert_eq!(copy.second_operand(), None);
    let leaf: ComputationNode = ComputationNode::Key3 { key: 9 };
    assert_eq!(leaf.first_operand(), None);
    assert_eq!(leaf.second_operand(), None);
}

#[test]
fn labels_name_the_kinds() {
    let graph: GraphImpl = build(
        vec![
            ComputationGraph::Plaintext {},
            ComputationGraph::Key0 {},
            ComputationGraph::Key1 {},
            ComputationGraph::Key2 {},
            ComputationGraph::Key3 {},
            ComputationGraph::Key4 {},
            ComputationGraph::Key5 {},
            ComputationGraph::Key6 {},
            ComputationGraph::Key7 {},
            ComputationGraph::Key8_11 {},
            ComputationGraph::Key12_15 {},
            ComputationGraph::Copy16 { src: 0 },
            ComputationGraph::Copy32 { src: 0 },
            ComputationGraph::Copy64 { src: 0 },
            ComputationGraph::Left { src: 0 },
            ComputationGraph::Right { src: 0 },
            ComputationGraph::F { subkey: 1, value: 0 },
            ComputationGraph::Xor32 { a: 0, b: 0 },
            ComputationGraph::Xor64 { a: 0, b: 0 },
            ComputationGraph::Swap { left: 0, right: 0 },
            ComputationGraph::Ciphertext { src: 0 },
        ],
        0,
        0,
    );
    let expected: Vec<(&str, u32)> = vec![
        ("plaintext", 64),
        ("key0", 16),
        ("key1", 16),
        ("key2", 16),
        ("key3", 16),
        ("key4", 16),
        ("key5", 16),
        ("key6", 16),
        ("key7", 16),
        ("key8-11", 64),
        ("key12-15", 64),
        ("copy16", 16),
        ("copy32", 32),
        ("copy64", 64),
        ("left", 32),
        ("right", 32),
        ("F", 32),
        ("xor32", 32),
        ("xor64", 64),
        ("swap", 64),
        ("ciphertext", 64),
    ];
    assert_eq!(graph.len(), expected.len());
    for (index, (label, bitsize)) in expected.iter().enumerate() {
        let node: ComputationNode = match graph.node(index) {
            Some(node) => node,
            None => panic!("the node is there"),
        };
        assert_eq!(node.label(), *label);
        assert_eq!(node.bitsize(), *bitsize);
    }
}

#[test]
fn hexstr_fills_up_to_the_width() {
    assert_eq!(hexstr(0x9b01cd21, 32), "0x9b01cd21");
    assert_eq!(hexstr(0x3a021860, 32), "0x3a021860");
    assert_eq!(hexstr(0x15f, 16), "0x015f");
    assert_eq!(hexstr(0, 64), "0x0000000000000000");
    assert_eq!(hexstr(0xabcdef, 64), "0x0000000000abcdef");
    assert_eq!(hexstr(u64::MAX, 64), "0xffffffffffffffff");
}

#[test]
fn hexstr_keeps_digits_beyond_the_width() {
    assert_eq!(hexstr(0x12345, 16), "0x12345");
    assert_eq!(hexstr(0, 0), "0x0");
    assert_eq!(hexstr(0xff, 0), "0xff");
    assert_eq!(hexstr(0xff, 3), "0xff");
    assert_eq!(hexstr(0xf, 7), "0xf");
    assert_eq!(hexstr(0xf, 8), "0x0f");
}

#[test]
fn hexstr_agrees_with_formatting() {
    let mut state: u64 = 0x1122334455667788;
    for round in 0..200u32 {
        state = next_random(state);
        let value: u64 = state >> (round % 64);
        let bitsize: u32 = (round * 7) % 80;
        let digits: String = format!("{:x}", value);
        let width: usize = (bitsize / 4) as usize;
        let expected: String = format!("0x{:0>width$}", digits, width = width);
        assert_eq!(hexstr(value, bitsize), expected);
    }
}

#[test]
fn from_kind_knows_every_kind_by_its_name() {
    let cases: Vec<(&str, Vec<usize>, ComputationGraph)> = vec![
        ("plaintext", vec![], ComputationGraph::Plaintext {}),
        ("key0", vec![], ComputationGraph::Key0 {}),
        ("key1", vec![], ComputationGraph::Key1 {}),
        ("key2", vec![], ComputationGraph::Key2 {}),
        ("key3", vec![], ComputationGraph::Key3 {}),
        ("key4", vec![], ComputationGraph::Key4 {}),
        ("key5", vec![], ComputationGraph::Key5 {}),
        ("key6", vec![], ComputationGraph::Key6 {}),
        ("key7", vec![], ComputationGraph::Key7 {}),
        ("key8_11", vec![], ComputationGraph::Key8_11 {}),
        ("key12_15", vec![], ComputationGraph::Key12_15 {}),
        ("copy16", vec![3], ComputationGraph::Copy16 { src: 3 }),
        ("copy32", vec![4], ComputationGraph::Copy32 { src: 4 }),
        ("copy64", vec![5], ComputationGraph::Copy64 { src: 5 }),
        ("left", vec![6], ComputationGraph::Left { src: 6 }),
        ("right", vec![7], ComputationGraph::Right { src: 7 }),
        ("F", vec![8, 9], ComputationGraph::F { subkey: 8, value: 9 }),
        ("xor32", vec![10, 11], ComputationGraph::Xor32 { a: 10, b: 11 }),
        ("xor64", vec![12, 13], ComputationGraph::Xor64 { a: 12, b: 13 }),
        ("swap", vec![14, 15], ComputationGraph::Swap { left: 14, right: 15 }),
        ("ciphertext", vec![16], ComputationGraph::Ciphertext { src: 16 }),
    ];
    for (kind, operands, expected) in cases {
        assert_eq!(ComputationGraph::from_kind(kind, &operands), Ok(expected));
    }
}

#[test]
fn from_kind_rejects_an_unknown_name() {
    let none: Vec<usize> = vec![];
    let one: Vec<usize> = vec![0];
    let two: Vec<usize> = vec![0, 1];
    for kind in ["", "Plaintext", "key8", "key8-11", "key12-15", "copy", "xor", "f", "plaintext "] {
        assert_eq!(ComputationGraph::from_kind(kind, &none), Err(GraphError::UnsupportedKind));
        assert_eq!(ComputationGraph::from_kind(kind, &one), Err(GraphError::UnsupportedKind));
        assert_eq!(ComputationGraph::from_kind(kind, &two), Err(GraphError::UnsupportedKind));
    }
}

#[test]
fn from_kind_rejects_a_wrong_number_of_operands() {
    let none: Vec<usize> = vec![];
    let one: Vec<usize> = vec![0];
    let two: Vec<usize> = vec![0, 1];
    let three: Vec<usize> = vec![0, 1, 2];
    assert_eq!(ComputationGraph::from_kind("plaintext", &one), Err(GraphError::UnsupportedKind));
    assert_eq!(ComputationGraph::from_kind("key0", &two), Err(GraphError::UnsupportedKind));
    assert_eq!(ComputationGraph::from_kind("left", &none), Err(GraphError::UnsupportedKind));
    assert_eq!(ComputationGraph::from_kind("left", &two), Err(GraphError::UnsupportedKind));
    assert_eq!(ComputationGraph::from_kind("F", &one), Err(GraphError::UnsupportedKind));
    assert_eq!(ComputationGraph::from_kind("swap", &three), Err(GraphError::UnsupportedKind));
    assert_eq!(ComputationGraph::from_kind("xor64", &none), Err(GraphError::UnsupportedKind));
}

#[test]
fn a_graph_is_built_from_kinds_and_operands() {
    let records: Vec<(&str, Vec<usize>)> = vec![
        ("plaintext", vec![]),
        ("key8_11", vec![]),
        ("xor64", vec![0, 1]),
        ("ciphertext", vec![2]),
    ];
    let mut graph_data: Vec<ComputationGraph> = vec![];
    for (kind, operands) in records {
        match ComputationGraph::from_kind(kind, &operands) {
            Ok(description) => graph_data.push(description),
            Err(_) => panic!("the kind is known"),
        }
    }
    let graph: GraphImpl = build(graph_data, PLAINTEXT, DIFFERENTIAL);
    let key: u64 = 0x0009000a000b000c;
    assert_eq!(graph.eval(3), Some((PLAINTEXT ^ key, PLAINTEXT ^ DIFFERENTIAL ^ key)));
}
