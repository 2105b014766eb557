//! The fields that a vertex of the output can hold, and the order in which a
//! caller wants them.

use crate::text::{chars_of, split_whitespace, texts, words};
use vstd::prelude::*;

verus! {

/// The three kinds of attribute that a mesh description lists.
#[derive(Clone, Copy, Debug, PartialEq, Eq, Structural)]
pub enum AttributeKind {
    Position,
    TexCoord,
    Normal,
}

/// One of the three components of a vector.
#[derive(Clone, Copy, Debug, PartialEq, Eq)]
pub enum Axis {
    X,
    Y,
    Z,
}

/// One scalar slot of an output vertex: a component of the corner's
/// position, normal or texture coordinate, or `Void`, a slot that is always
/// zero.
#[derive(Clone, Copy, Debug, PartialEq, Eq)]
pub enum BufferDataType {
    PosX,
    PosY,
    PosZ,
    NormX,
    NormY,
    NormZ,
    TexU,
    TexV,
    TexW,
    Void,
}

impl BufferDataType {
    /// The kind of attribute that the slot reads; none for `Void`.
    pub open spec fn kind(self) -> Option<AttributeKind> {
        match self {
            BufferDataType::PosX | BufferDataType::PosY | BufferDataType::PosZ => Some(
                AttributeKind::Position,
            ),
            BufferDataType::NormX | BufferDataType::NormY | BufferDataType::NormZ => Some(
                AttributeKind::Normal,
            ),
            BufferDataType::TexU | BufferDataType::TexV | BufferDataType::TexW => Some(
                AttributeKind::TexCoord,
            ),
            BufferDataType::Void => None,
        }
    }

    /// The component that the slot reads; `Void` reads none, and is given
    /// the first.
    pub open spec fn axis(self) -> Axis {
        match self {
            BufferDataType::PosX | BufferDataType::NormX | BufferDataType::TexU => Axis::X,
            BufferDataType::PosY | BufferDataType::NormY | BufferDataType::TexV => Axis::Y,
            BufferDataType::PosZ | BufferDataType::NormZ | BufferDataType::TexW => Axis::Z,
            BufferDataType::Void => Axis::X,
        }
    }

    /// The kind of attribute that the slot reads; none for `Void`.
    pub fn attribute(&self) -> (k: Option<AttributeKind>)
        ensures
            k == self.kind(),
    {
        match self {
            BufferDataType::PosX | BufferDataType::PosY | BufferDataType::PosZ => Some(
                AttributeKind::Position,
            ),
            BufferDataType::NormX | BufferDataType::NormY | BufferDataType::NormZ => Some(
                AttributeKind::Normal,
            ),
            BufferDataType::TexU | BufferDataType::TexV | BufferDataType::TexW => Some(
                AttributeKind::TexCoord,
            ),
            BufferDataType::Void => None,
        }
    }

    /// Reads the two-letter name of a slot. Any other word is `Void`.
    pub fn from_token(token: &Vec<char>) -> (slot: BufferDataType)
        ensures
            slot == named_slot(token@),
    {
        if token.len() != 2 {
            return BufferDataType::Void;
        }
        let group = token[0];
        let part = token[1];
        if group == 'v' {
            if part == 'x' {
                BufferDataType::PosX
            } else if part == 'y' {
                BufferDataType::PosY
            } else if part == 'z' {
                BufferDataType::PosZ
            } else {
                BufferDataType::Void
            }
        } else if group == 'n' {
            if part == 'x' {
                BufferDataType::NormX
            } else if part == 'y' {
                BufferDataType::NormY
            } else if part == 'z' {
                BufferDataType::NormZ
            } else {
                BufferDataType::Void
            }
        } else if group == 't' {
            if part == 'u' {
                BufferDataType::TexU
            } else if part == 'v' {
                BufferDataType::TexV
            } else if part == 'w' {
                BufferDataType::TexW
            } else {
                BufferDataType::Void
            }
        } else {
            BufferDataType::Void
        }
    }
}

/// Whether `word` is the two characters `a` and `b`.
pub open spec fn is_pair(word: Seq<char>, a: char, b: char) -> bool {
    word.len() == 2 && word[0] == a && word[1] == b
}

/// The slot that a word names: `vx vy vz` for the position, `nx ny nz` for
/// the normal, `tu tv tw` for the texture coordinate, and `Void` for every
/// other word.
pub open spec fn named_slot(word: Seq<char>) -> BufferDataType {
    if is_pair(word, 'v', 'x') {
        BufferDataType::PosX
    } else if is_pair(word, 'v', 'y') {
        BufferDataType::PosY
    } else if is_pair(word, 'v', 'z') {
        BufferDataType::PosZ
    } else if is_pair(word, 'n', 'x') {
        BufferDataType::NormX
    } else if is_pair(word, 'n', 'y') {
        BufferDataType::NormY
    } else if is_pair(word, 'n', 'z') {
        BufferDataType::NormZ
    } else if is_pair(word, 't', 'u') {
        BufferDataType::TexU
    } else if is_pair(word, 't', 'v') {
        BufferDataType::TexV
    } else if is_pair(word, 't', 'w') {
        BufferDataType::TexW
    } else {
        BufferDataType::Void
    }
}

/// The slots that a sequence of words names, one for one.
pub open spec fn named_slots(names: Seq<Seq<char>>) -> Seq<BufferDataType> {
    Seq::new(names.len(), |i: int| named_slot(names[i]))
}

/// Reads an output order written as words: one slot for each word of `text`,
/// in the order of the words.
pub fn parse_data_order(text: &str) -> (order: Vec<BufferDataType>)
    ensures
        order@ == named_slots(words(text@)),
{
    let chars = chars_of(text);
    let tokens = split_whitespace(&chars);
    let mut order: Vec<BufferDataType> = Vec::new();
    let mut i: usize = 0;
    while i < tokens.len()
        invariant
            i <= tokens.len(),
            texts(tokens@) == words(text@),
            order@ == named_slots(words(text@)).subrange(0, i as int),
        decreases tokens.len() - i,
    {
        let slot = BufferDataType::from_token(&tokens[i]);
        order.push(slot);
        i += 1;
    }
    order
}

/// Which kinds of attribute a conversion reads.
#[derive(Clone, Copy, Debug, PartialEq, Eq)]
pub struct ActiveKinds {
    pub position: bool,
    pub texcoord: bool,
    pub normal: bool,
}

impl ActiveKinds {
    /// Whether `kind` is active.
    pub open spec fn has(self, kind: AttributeKind) -> bool {
        match kind {
            AttributeKind::Position => self.position,
            AttributeKind::TexCoord => self.texcoord,
            AttributeKind::Normal => self.normal,
        }
    }

    /// The kinds that `order` makes active.
    pub fn from_order(order: &Vec<BufferDataType>) -> (active: ActiveKinds)
        ensures
            active == active_kinds(order@),
    {
        let mut active = ActiveKinds { position: false, texcoord: false, normal: false };
        let mut i: usize = 0;
        while i < order.len()
            invariant
                i <= order.len(),
                active == active_kinds(order@.subrange(0, i as int)),
            decreases order.len() - i,
        {
            let ghost seen = order@.subrange(0, i as int);
            let ghost next = order@.subrange(0, i + 1);
            proof {
                assert forall|kind: AttributeKind| #[trigger]
                    requests(next, kind) == (requests(seen, kind) || order@[i as int].kind()
                        == Some(kind)) by {
                    if requests(seen, kind) {
                        let j = choose|j: int| 0 <= j < seen.len() && seen[j].kind() == Some(kind);
                        assert(next[j].kind() == Some(kind));
                    }
                    if order@[i as int].kind() == Some(kind) {
                        assert(next[i as int].kind() == Some(kind));
                    }
                    if requests(next, kind) {
                        let j = choose|j: int| 0 <= j < next.len() && next[j].kind() == Some(kind);
                        if j < i {
                            assert(seen[j].kind() == Some(kind));
                        }
                    }
                }
            }
            match order[i].attribute() {
                Some(AttributeKind::Position) => {
                    active.position = true;
                },
                Some(AttributeKind::TexCoord) => {
                    active.texcoord = true;
                },
                Some(AttributeKind::Normal) => {
                    active.normal = true;
                },
                None => {},
            }
            i += 1;
        }
        assert(order@.subrange(0, order.len() as int) =~= order@);
        active
    }
}

/// Whether some slot of `order` reads an attribute of kind `kind`.
pub open spec fn requests(order: Seq<BufferDataType>, kind: AttributeKind) -> bool {
    exists|i: int| 0 <= i < order.len() && (#[trigger] order[i]).kind() == Some(kind)
}

/// The kinds that an output order makes active: a kind is active exactly
/// when some slot of the order reads it.
pub open spec fn active_kinds(order: Seq<BufferDataType>) -> ActiveKinds {
    ActiveKinds {
        position: requests(order, AttributeKind::Position),
        texcoord: requests(order, AttributeKind::TexCoord),
        normal: requests(order, AttributeKind::Normal),
    }
}

} // verus!
