//! The nodes of a computation graph over the cipher.
//!
//! A graph is an ordered list of nodes in which every operand of a node is
//! the position of an earlier node. A node is described by a
//! `ComputationGraph` value, which names its kind and its operands, and is
//! evaluated as a `ComputationNode`, which also holds the value of a leaf.
//! Every node evaluates to a pair: the value on the primary input and the
//! value on the secondary input, which differs from the primary one by a
//! chosen differential at the plaintext.

use crate::feal::{f, pack16, pack32, round_fn, u16tou64};
use vstd::prelude::*;
use vstd::string::*;

verus! {

/// Why a graph cannot be built.
#[derive(Clone, Copy, Debug, PartialEq, Eq, Structural)]
pub enum GraphError {
    /// The node at `position` has the operand `operand`, which is not the
    /// position of an earlier node.
    MalformedGraph { position: usize, operand: usize },
    /// No kind of node has the given name with the given number of operands.
    UnsupportedKind,
}

/// The description of one node: its kind and the positions of its operands.
#[derive(Clone, Copy, Debug, PartialEq, Eq, Structural)]
pub enum ComputationGraph {
    /// The plaintext block, 64 bits.
    Plaintext {  },
    /// The subkey of the first round, 16 bits; `Key1` to `Key7` are those of
    /// the rounds that follow.
    Key0 {  },
    Key1 {  },
    Key2 {  },
    Key3 {  },
    Key4 {  },
    Key5 {  },
    Key6 {  },
    Key7 {  },
    /// The subkeys 8 to 11 as one word of 64 bits: the input whitening.
    Key8_11 {  },
    /// The subkeys 12 to 15 as one word of 64 bits: the output whitening.
    Key12_15 {  },
    /// The lowest 16 bits of the operand.
    Copy16 { src: usize },
    /// The lowest 32 bits of the operand.
    Copy32 { src: usize },
    /// The operand as it is.
    Copy64 { src: usize },
    /// The upper half of a 64-bit operand.
    Left { src: usize },
    /// The lower half of a 64-bit operand.
    Right { src: usize },
    /// The round function of the cipher on a subkey and a data word.
    F { subkey: usize, value: usize },
    /// The exclusive or of the operands, cut to 32 bits.
    Xor32 { a: usize, b: usize },
    /// The exclusive or of the operands.
    Xor64 { a: usize, b: usize },
    /// The word with the lowest 32 bits of `right` as its upper half and those
    /// of `left` as its lower half.
    Swap { left: usize, right: usize },
    /// The operand as it is, marked as the result.
    Ciphertext { src: usize },
}

/// One node as it is evaluated: a leaf with its value, or an operation with
/// the positions of its operands.
#[derive(Clone, Copy, Debug, PartialEq, Eq, Structural)]
#[allow(inconsistent_fields)]
pub enum ComputationNode {
    Plaintext { differential: u64, value: u64 },
    Key0 { key: u16 },
    Key1 { key: u16 },
    Key2 { key: u16 },
    Key3 { key: u16 },
    Key4 { key: u16 },
    Key5 { key: u16 },
    Key6 { key: u16 },
    Key7 { key: u16 },
    Key8_11 { key: u64 },
    Key12_15 { key: u64 },
    Copy16 { src: usize },
    Copy32 { src: usize },
    Copy64 { src: usize },
    Left { src: usize },
    Right { src: usize },
    F { subkey: usize, value: usize },
    Xor32 { a: usize, b: usize },
    Xor64 { a: usize, b: usize },
    Swap { left: usize, right: usize },
    Ciphertext { src: usize },
}

/// The lowest 16 bits of a word.
pub open spec fn low16(x: u64) -> u64 {
    x % 0x1_0000
}

/// The lowest 32 bits of a word.
pub open spec fn low32(x: u64) -> u64 {
    x % 0x1_0000_0000
}

/// The highest 32 bits of a word, moved to the lowest.
pub open spec fn high32(x: u64) -> u64 {
    x / 0x1_0000_0000
}

impl ComputationGraph {
    /// The positions of the node's operands, in the order of its fields.
    pub open spec fn operands(self) -> Seq<usize> {
        match self {
            ComputationGraph::Copy16 { src } => seq![src],
            ComputationGraph::Copy32 { src } => seq![src],
            ComputationGraph::Copy64 { src } => seq![src],
            ComputationGraph::Left { src } => seq![src],
            ComputationGraph::Right { src } => seq![src],
            ComputationGraph::F { subkey, value } => seq![subkey, value],
            ComputationGraph::Xor32 { a, b } => seq![a, b],
            ComputationGraph::Xor64 { a, b } => seq![a, b],
            ComputationGraph::Swap { left, right } => seq![left, right],
            ComputationGraph::Ciphertext { src } => seq![src],
            _ => seq![],
        }
    }

    /// Whether the node may stand at `position`: every operand is the
    /// position of an earlier node.
    pub open spec fn fits_at(self, position: int) -> bool {
        forall|j: int| 0 <= j < self.operands().len() ==> self.operands()[j] < position
    }

    /// The node that this description stands for, with the leaf values taken
    /// from sixteen subkeys, a plaintext and a differential.
    pub open spec fn node(self, subkeys: Seq<u16>, plaintext: u64, differential: u64)
        -> ComputationNode {
        match self {
            ComputationGraph::Plaintext {  } => ComputationNode::Plaintext {
                differential,
                value: plaintext,
            },
            ComputationGraph::Key0 {  } => ComputationNode::Key0 { key: subkeys[0] },
            ComputationGraph::Key1 {  } => ComputationNode::Key1 { key: subkeys[1] },
            ComputationGraph::Key2 {  } => ComputationNode::Key2 { key: subkeys[2] },
            ComputationGraph::Key3 {  } => ComputationNode::Key3 { key: subkeys[3] },
            ComputationGraph::Key4 {  } => ComputationNode::Key4 { key: subkeys[4] },
            ComputationGraph::Key5 {  } => ComputationNode::Key5 { key: subkeys[5] },
            ComputationGraph::Key6 {  } => ComputationNode::Key6 { key: subkeys[6] },
            ComputationGraph::Key7 {  } => ComputationNode::Key7 { key: subkeys[7] },
            ComputationGraph::Key8_11 {  } => ComputationNode::Key8_11 {
                key: pack16(subkeys[8], subkeys[9], subkeys[10], subkeys[11]),
            },
            ComputationGraph::Key12_15 {  } => ComputationNode::Key12_15 {
                key: pack16(subkeys[12], subkeys[13], subkeys[14], subkeys[15]),
            },
            ComputationGraph::Copy16 { src } => ComputationNode::Copy16 { src },
            ComputationGraph::Copy32 { src } => ComputationNode::Copy32 { src },
            ComputationGraph::Copy64 { src } => ComputationNode::Copy64 { src },
            ComputationGraph::Left { src } => ComputationNode::Left { src },
            ComputationGraph::Right { src } => ComputationNode::Right { src },
            ComputationGraph::F { subkey, value } => ComputationNode::F { subkey, value },
            ComputationGraph::Xor32 { a, b } => ComputationNode::Xor32 { a, b },
            ComputationGraph::Xor64 { a, b } => ComputationNode::Xor64 { a, b },
            ComputationGraph::Swap { left, right } => ComputationNode::Swap { left, right },
            ComputationGraph::Ciphertext { src } => ComputationNode::Ciphertext { src },
        }
    }
}

impl ComputationNode {
    /// The positions of the node's operands, in the order of its fields.
    pub open spec fn operands(self) -> Seq<usize> {
        match self {
            ComputationNode::Copy16 { src } => seq![src],
            ComputationNode::Copy32 { src } => seq![src],
            ComputationNode::Copy64 { src } => seq![src],
            ComputationNode::Left { src } => seq![src],
            ComputationNode::Right { src } => seq![src],
            ComputationNode::F { subkey, value } => seq![subkey, value],
            ComputationNode::Xor32 { a, b } => seq![a, b],
            ComputationNode::Xor64 { a, b } => seq![a, b],
            ComputationNode::Swap { left, right } => seq![left, right],
            ComputationNode::Ciphertext { src } => seq![src],
            _ => seq![],
        }
    }

    /// Whether the node may stand at `position`: every operand is the
    /// position of an earlier node.
    pub open spec fn fits_at(self, position: int) -> bool {
        forall|j: int| 0 <= j < self.operands().len() ==> self.operands()[j] < position
    }

    /// The node with its differential replaced, if it is a plaintext leaf;
    /// any other node as it is.
    pub open spec fn with_differential(self, differential: u64) -> ComputationNode {
        match self {
            ComputationNode::Plaintext { value, .. } => ComputationNode::Plaintext {
                differential,
                value,
            },
            _ => self,
        }
    }

    /// The node as the secondary input sees it: a plaintext leaf holds its
    /// value changed by its differential, and no differential; any other
    /// node is as it is.
    pub open spec fn on_secondary_input(self) -> ComputationNode {
        match self {
            ComputationNode::Plaintext { differential, value } => ComputationNode::Plaintext {
                differential: 0,
                value: value ^ differential,
            },
            _ => self,
        }
    }

    /// Whether the node is a leaf: it has a value of its own and no operand.
    pub open spec fn is_leaf(self) -> bool {
        self.operands().len() == 0
    }

    /// The number of bits that the node's values have.
    pub open spec fn width(self) -> nat {
        match self {
            ComputationNode::Plaintext { .. } => 64,
            ComputationNode::Key8_11 { .. } => 64,
            ComputationNode::Key12_15 { .. } => 64,
            ComputationNode::Copy16 { .. } => 16,
            ComputationNode::Copy32 { .. } => 32,
            ComputationNode::Copy64 { .. } => 64,
            ComputationNode::Left { .. } => 32,
            ComputationNode::Right { .. } => 32,
            ComputationNode::F { .. } => 32,
            ComputationNode::Xor32 { .. } => 32,
            ComputationNode::Xor64 { .. } => 64,
            ComputationNode::Swap { .. } => 64,
            ComputationNode::Ciphertext { .. } => 64,
            _ => 16,
        }
    }

    /// What an operation makes of one lane: `x` is the value of its first
    /// operand there and `y` that of its second. A leaf has no operand and
    /// makes 0.
    pub open spec fn lane(self, x: u64, y: u64) -> u64 {
        match self {
            ComputationNode::Copy16 { .. } => low16(x),
            ComputationNode::Copy32 { .. } => low32(x),
            ComputationNode::Copy64 { .. } => x,
            ComputationNode::Left { .. } => high32(x),
            ComputationNode::Right { .. } => low32(x),
            ComputationNode::F { .. } => round_fn(low16(x) as u16, low32(y) as u32) as u64,
            ComputationNode::Xor32 { .. } => low32(x ^ y),
            ComputationNode::Xor64 { .. } => x ^ y,
            ComputationNode::Swap { .. } => pack32(low32(y) as u32, low32(x) as u32),
            ComputationNode::Ciphertext { .. } => x,
            _ => 0,
        }
    }

    /// The pair that the node evaluates to, given the pairs of its first and
    /// second operand. A plaintext leaf gives its value and its value changed
    /// by the differential; a key leaf gives its key twice; an operation
    /// works on each lane by itself.
    pub open spec fn value(self, first: (u64, u64), second: (u64, u64)) -> (u64, u64) {
        match self {
            ComputationNode::Plaintext { differential, value } => (value, value ^ differential),
            ComputationNode::Key0 { key } => (key as u64, key as u64),
            ComputationNode::Key1 { key } => (key as u64, key as u64),
            ComputationNode::Key2 { key } => (key as u64, key as u64),
            ComputationNode::Key3 { key } => (key as u64, key as u64),
            ComputationNode::Key4 { key } => (key as u64, key as u64),
            ComputationNode::Key5 { key } => (key as u64, key as u64),
            ComputationNode::Key6 { key } => (key as u64, key as u64),
            ComputationNode::Key7 { key } => (key as u64, key as u64),
            ComputationNode::Key8_11 { key } => (key, key),
            ComputationNode::Key12_15 { key } => (key, key),
            _ => (self.lane(first.0, second.0), self.lane(first.1, second.1)),
        }
    }
}

/// Whether two texts are the same.
fn same_text(a: &str, b: &str) -> (r: bool)
    ensures
        r == (a@ == b@),
{
    String::from_str(a) == String::from_str(b)
}

/// The description of the node of the kind `kind` with the operands
/// `operands`, if there is such a kind with as many operands.
pub open spec fn described(kind: Seq<char>, operands: Seq<usize>) -> Option<ComputationGraph> {
    if operands.len() == 0 {
        if kind == "plaintext"@ {
            Some(ComputationGraph::Plaintext {  })
        } else if kind == "key0"@ {
            Some(ComputationGraph::Key0 {  })
        } else if kind == "key1"@ {
            Some(ComputationGraph::Key1 {  })
        } else if kind == "key2"@ {
            Some(ComputationGraph::Key2 {  })
        } else if kind == "key3"@ {
            Some(ComputationGraph::Key3 {  })
        } else if kind == "key4"@ {
            Some(ComputationGraph::Key4 {  })
        } else if kind == "key5"@ {
            Some(ComputationGraph::Key5 {  })
        } else if kind == "key6"@ {
            Some(ComputationGraph::Key6 {  })
        } else if kind == "key7"@ {
            Some(ComputationGraph::Key7 {  })
        } else if kind == "key8_11"@ {
            Some(ComputationGraph::Key8_11 {  })
        } else if kind == "key12_15"@ {
            Some(ComputationGraph::Key12_15 {  })
        } else {
            None
        }
    } else if operands.len() == 1 {
        if kind == "copy16"@ {
            Some(ComputationGraph::Copy16 { src: operands[0] })
        } else if kind == "copy32"@ {
            Some(ComputationGraph::Copy32 { src: operands[0] })
        } else if kind == "copy64"@ {
            Some(ComputationGraph::Copy64 { src: operands[0] })
        } else if kind == "left"@ {
            Some(ComputationGraph::Left { src: operands[0] })
        } else if kind == "right"@ {
            Some(ComputationGraph::Right { src: operands[0] })
        } else if kind == "ciphertext"@ {
            Some(ComputationGraph::Ciphertext { src: operands[0] })
        } else {
            None
        }
    } else if operands.len() == 2 {
        if kind == "F"@ {
            Some(ComputationGraph::F { subkey: operands[0], value: operands[1] })
        } else if kind == "xor32"@ {
            Some(ComputationGraph::Xor32 { a: operands[0], b: operands[1] })
        } else if kind == "xor64"@ {
            Some(ComputationGraph::Xor64 { a: operands[0], b: operands[1] })
        } else if kind == "swap"@ {
            Some(ComputationGraph::Swap { left: operands[0], right: operands[1] })
        } else {
            None
        }
    } else {
        None
    }
}

impl ComputationGraph {
    /// Describes the node of the kind named `kind` with the operands
    /// `operands`, which stand in the order of the kind's fields. Fails where
    /// no kind has that name with that number of operands.
    pub fn from_kind(kind: &str, operands: &Vec<usize>) -> (r: Result<ComputationGraph, GraphError>)
        ensures
            r == match described(kind@, operands@) {
                Some(description) => Ok::<ComputationGraph, GraphError>(description),
                None => Err(GraphError::UnsupportedKind),
            },
            r matches Ok(description) ==> description.operands() == operands@,
    {
        if operands.len() == 0 {
            if same_text(kind, "plaintext") {
                Ok(ComputationGraph::Plaintext {  })
            } else if same_text(kind, "key0") {
                Ok(ComputationGraph::Key0 {  })
            } else if same_text(kind, "key1") {
                Ok(ComputationGraph::Key1 {  })
            } else if same_text(kind, "key2") {
                Ok(ComputationGraph::Key2 {  })
            } else if same_text(kind, "key3") {
                Ok(ComputationGraph::Key3 {  })
            } else if same_text(kind, "key4") {
                Ok(ComputationGraph::Key4 {  })
            } else if same_text(kind, "key5") {
                Ok(ComputationGraph::Key5 {  })
            } else if same_text(kind, "key6") {
                Ok(ComputationGraph::Key6 {  })
            } else if same_text(kind, "key7") {
                Ok(ComputationGraph::Key7 {  })
            } else if same_text(kind, "key8_11") {
                Ok(ComputationGraph::Key8_11 {  })
            } else if same_text(kind, "key12_15") {
                Ok(ComputationGraph::Key12_15 {  })
            } else {
                Err(GraphError::UnsupportedKind)
            }
        } else if operands.len() == 1 {
            let src: usize = operands[0];
            let r = if same_text(kind, "copy16") {
                Ok(ComputationGraph::Copy16 { src })
            } else if same_text(kind, "copy32") {
                Ok(ComputationGraph::Copy32 { src })
            } else if same_text(kind, "copy64") {
                Ok(ComputationGraph::Copy64 { src })
            } else if same_text(kind, "left") {
                Ok(ComputationGraph::Left { src })
            } else if same_text(kind, "right") {
                Ok(ComputationGraph::Right { src })
            } else if same_text(kind, "ciphertext") {
                Ok(ComputationGraph::Ciphertext { src })
            } else {
                Err(GraphError::UnsupportedKind)
            };
            r
        } else if operands.len() == 2 {
            let first: usize = operands[0];
            let second: usize = operands[1];
            let r = if same_text(kind, "F") {
                Ok(ComputationGraph::F { subkey: first, value: second })
            } else if same_text(kind, "xor32") {
                Ok(ComputationGraph::Xor32 { a: first, b: second })
            } else if same_text(kind, "xor64") {
                Ok(ComputationGraph::Xor64 { a: first, b: second })
            } else if same_text(kind, "swap") {
                Ok(ComputationGraph::Swap { left: first, right: second })
            } else {
                Err(GraphError::UnsupportedKind)
            };
            r
        } else {
            Err(GraphError::UnsupportedKind)
        }
    }

    /// Builds the node that this description stands for, taking the values of
    /// the leaves from the subkeys, the plaintext and the differential.
    pub fn instantiate(&self, subkeys: &[u16; 16], plaintext: u64, differential: u64) -> (r:
        ComputationNode)
        ensures
            r == self.node(subkeys@, plaintext, differential),
    {
        match *self {
            ComputationGraph::Plaintext {  } => ComputationNode::Plaintext {
                differential,
                value: plaintext,
            },
            ComputationGraph::Key0 {  } => ComputationNode::Key0 { key: subkeys[0] },
            ComputationGraph::Key1 {  } => ComputationNode::Key1 { key: subkeys[1] },
            ComputationGraph::Key2 {  } => ComputationNode::Key2 { key: subkeys[2] },
            ComputationGraph::Key3 {  } => ComputationNode::Key3 { key: subkeys[3] },
            ComputationGraph::Key4 {  } => ComputationNode::Key4 { key: subkeys[4] },
            ComputationGraph::Key5 {  } => ComputationNode::Key5 { key: subkeys[5] },
            ComputationGraph::Key6 {  } => ComputationNode::Key6 { key: subkeys[6] },
            ComputationGraph::Key7 {  } => ComputationNode::Key7 { key: subkeys[7] },
            ComputationGraph::Key8_11 {  } => ComputationNode::Key8_11 {
                key: u16tou64(subkeys[8], subkeys[9], subkeys[10], subkeys[11]),
            },
            ComputationGraph::Key12_15 {  } => ComputationNode::Key12_15 {
                key: u16tou64(subkeys[12], subkeys[13], subkeys[14], subkeys[15]),
            },
            ComputationGraph::Copy16 { src } => ComputationNode::Copy16 { src },
            ComputationGraph::Copy32 { src } => ComputationNode::Copy32 { src },
            ComputationGraph::Copy64 { src } => ComputationNode::Copy64 { src },
            ComputationGraph::Left { src } => ComputationNode::Left { src },
            ComputationGraph::Right { src } => ComputationNode::Right { src },
            ComputationGraph::F { subkey, value } => ComputationNode::F { subkey, value },
            ComputationGraph::Xor32 { a, b } => ComputationNode::Xor32 { a, b },
            ComputationGraph::Xor64 { a, b } => ComputationNode::Xor64 { a, b },
            ComputationGraph::Swap { left, right } => ComputationNode::Swap { left, right },
            ComputationGraph::Ciphertext { src } => ComputationNode::Ciphertext { src },
        }
    }

    /// The first operand that does not stand before `position`, if the node
    /// has one.
    pub fn misplaced_operand(&self, position: usize) -> (r: Option<usize>)
        ensures
            r is None <==> self.fits_at(position as int),
            r matches Some(operand) ==> operand >= position && exists|j: int|
                0 <= j < self.operands().len() && self.operands()[j] == operand && forall|i: int|
                    0 <= i < j ==> self.operands()[i] < position,
    {
        match *self {
            ComputationGraph::Copy16 { src }
            | ComputationGraph::Copy32 { src }
            | ComputationGraph::Copy64 { src }
            | ComputationGraph::Left { src }
            | ComputationGraph::Right { src }
            | ComputationGraph::Ciphertext { src } => {
                if src < position {
                    None
                } else {
                    assert(self.operands()[0] == src);
                    Some(src)
                }
            },
            ComputationGraph::F { subkey: first, value: second }
            | ComputationGraph::Xor32 { a: first, b: second }
            | ComputationGraph::Xor64 { a: first, b: second }
            | ComputationGraph::Swap { left: first, right: second } => {
                if first >= position {
                    Some(first)
                } else if second >= position {
                    Some(second)
                } else {
                    None
                }
            },
            _ => None,
        }
    }
}

impl ComputationNode {
    /// The name of the node's kind, as it is shown.
    pub open spec fn label_text(self) -> Seq<char> {
        match self {
            ComputationNode::Plaintext { .. } => "plaintext"@,
            ComputationNode::Key0 { .. } => "key0"@,
            ComputationNode::Key1 { .. } => "key1"@,
            ComputationNode::Key2 { .. } => "key2"@,
            ComputationNode::Key3 { .. } => "key3"@,
            ComputationNode::Key4 { .. } => "key4"@,
            ComputationNode::Key5 { .. } => "key5"@,
            ComputationNode::Key6 { .. } => "key6"@,
            ComputationNode::Key7 { .. } => "key7"@,
            ComputationNode::Key8_11 { .. } => "key8-11"@,
            ComputationNode::Key12_15 { .. } => "key12-15"@,
            ComputationNode::Copy16 { .. } => "copy16"@,
            ComputationNode::Copy32 { .. } => "copy32"@,
            ComputationNode::Copy64 { .. } => "copy64"@,
            ComputationNode::Left { .. } => "left"@,
            ComputationNode::Right { .. } => "right"@,
            ComputationNode::F { .. } => "F"@,
            ComputationNode::Xor32 { .. } => "xor32"@,
            ComputationNode::Xor64 { .. } => "xor64"@,
            ComputationNode::Swap { .. } => "swap"@,
            ComputationNode::Ciphertext { .. } => "ciphertext"@,
        }
    }

    /// The name of the node's kind, as it is shown.
    pub fn label(&self) -> (r: &'static str)
        ensures
            r@ == self.label_text(),
    {
        match self {
            ComputationNode::Plaintext { .. } => "plaintext",
            ComputationNode::Key0 { .. } => "key0",
            ComputationNode::Key1 { .. } => "key1",
            ComputationNode::Key2 { .. } => "key2",
            ComputationNode::Key3 { .. } => "key3",
            ComputationNode::Key4 { .. } => "key4",
            ComputationNode::Key5 { .. } => "key5",
            ComputationNode::Key6 { .. } => "key6",
            ComputationNode::Key7 { .. } => "key7",
            ComputationNode::Key8_11 { .. } => "key8-11",
            ComputationNode::Key12_15 { .. } => "key12-15",
            ComputationNode::Copy16 { .. } => "copy16",
            ComputationNode::Copy32 { .. } => "copy32",
            ComputationNode::Copy64 { .. } => "copy64",
            ComputationNode::Left { .. } => "left",
            ComputationNode::Right { .. } => "right",
            ComputationNode::F { .. } => "F",
            ComputationNode::Xor32 { .. } => "xor32",
            ComputationNode::Xor64 { .. } => "xor64",
            ComputationNode::Swap { .. } => "swap",
            ComputationNode::Ciphertext { .. } => "ciphertext",
        }
    }

    /// The number of bits that the node's values have: 16, 32 or 64.
    pub fn bitsize(&self) -> (r: u32)
        ensures
            r == self.width(),
    {
        match self {
            ComputationNode::Plaintext { .. }
            | ComputationNode::Key8_11 { .. }
            | ComputationNode::Key12_15 { .. }
            | ComputationNode::Copy64 { .. }
            | ComputationNode::Xor64 { .. }
            | ComputationNode::Swap { .. }
            | ComputationNode::Ciphertext { .. } => 64,
            ComputationNode::Copy32 { .. }
            | ComputationNode::Left { .. }
            | ComputationNode::Right { .. }
            | ComputationNode::F { .. }
            | ComputationNode::Xor32 { .. } => 32,
            _ => 16,
        }
    }

    /// The position of the node's first operand, if it has one.
    pub fn first_operand(&self) -> (r: Option<usize>)
        ensures
            r is Some <==> self.operands().len() >= 1,
            r matches Some(operand) ==> operand == self.operands()[0],
    {
        match *self {
            ComputationNode::Copy16 { src }
            | ComputationNode::Copy32 { src }
            | ComputationNode::Copy64 { src }
            | ComputationNode::Left { src }
            | ComputationNode::Right { src }
            | ComputationNode::Ciphertext { src } => Some(src),
            ComputationNode::F { subkey: first, .. }
            | ComputationNode::Xor32 { a: first, .. }
            | ComputationNode::Xor64 { a: first, .. }
            | ComputationNode::Swap { left: first, .. } => Some(first),
            _ => None,
        }
    }

    /// The position of the node's second operand, if it has one.
    pub fn second_operand(&self) -> (r: Option<usize>)
        ensures
            r is Some <==> self.operands().len() >= 2,
            r matches Some(operand) ==> operand == self.operands()[1],
    {
        match *self {
            ComputationNode::F { value: second, .. }
            | ComputationNode::Xor32 { b: second, .. }
            | ComputationNode::Xor64 { b: second, .. }
            | ComputationNode::Swap { right: second, .. } => Some(second),
            _ => None,
        }
    }

    /// What an operation makes of one lane, from the values that its first
    /// and second operand have there.
    fn apply(&self, x: u64, y: u64) -> (r: u64)
        ensures
            r == self.lane(x, y),
    {
        match self {
            ComputationNode::Copy16 { .. } => {
                assert(x & 0x00ffff == x % 0x1_0000) by (bit_vector);
                x & 0x00ffff
            },
            ComputationNode::Copy32 { .. } | ComputationNode::Right { .. } => {
                assert(x & 0x00ffffffff == x % 0x1_0000_0000) by (bit_vector);
                x & 0x00ffffffff
            },
            ComputationNode::Copy64 { .. } | ComputationNode::Ciphertext { .. } => x,
            ComputationNode::Left { .. } => {
                assert((x >> 32) & 0x00ffffffff == x / 0x1_0000_0000) by (bit_vector);
                (x >> 32) & 0x00ffffffff
            },
            ComputationNode::F { .. } => {
                assert((x & 0x00ffff) as u16 == (x % 0x1_0000) as u16 && (y & 0x00ffffffff) as u32
                    == (y % 0x1_0000_0000) as u32) by (bit_vector);
                let subkey = (x & 0x00ffff) as u16;
                let value = (y & 0x00ffffffff) as u32;
                let output = f(subkey, value);
                output as u64
            },
            ComputationNode::Xor32 { .. } => {
                assert((x ^ y) & 0x00ffffffff == (x ^ y) % 0x1_0000_0000) by (bit_vector);
                (x ^ y) & 0x00ffffffff
            },
            ComputationNode::Xor64 { .. } => x ^ y,
            ComputationNode::Swap { .. } => {
                let left = x & 0x00ffffffff;
                let right = y & 0x00ffffffff;
                assert(((y & 0x00ffffffff) << 32) | (x & 0x00ffffffff) == ((y % 0x1_0000_0000) as u32)
                    * 0x1_0000_0000 + ((x % 0x1_0000_0000) as u32)) by (bit_vector);
                (right << 32) | left
            },
            _ => 0,
        }
    }

    /// Evaluates the node on the pairs that its first and second operand
    /// evaluate to. Where the node lacks an operand, the pair given for it is
    /// not read.
    pub fn eval(&self, first: (u64, u64), second: (u64, u64)) -> (r: (u64, u64))
        ensures
            r == self.value(first, second),
    {
        match *self {
            ComputationNode::Plaintext { differential, value } => (value, value ^ differential),
            ComputationNode::Key0 { key }
            | ComputationNode::Key1 { key }
            | ComputationNode::Key2 { key }
            | ComputationNode::Key3 { key }
            | ComputationNode::Key4 { key }
            | ComputationNode::Key5 { key }
            | ComputationNode::Key6 { key }
            | ComputationNode::Key7 { key } => (key as u64, key as u64),
            ComputationNode::Key8_11 { key } | ComputationNode::Key12_15 { key } => (key, key),
            _ => (self.apply(first.0, second.0), self.apply(first.1, second.1)),
        }
    }
}

} // verus!
