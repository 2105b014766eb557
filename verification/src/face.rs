//! Faces: reading the three corners of a face line, finding the attributes
//! that their indices name, and laying them out in the order asked for.

use crate::error::LoadError;
use crate::math::{Vec3, ZERO};
use crate::order::{ActiveKinds, AttributeKind, BufferDataType};
use crate::pools::{picked, AttributePools, Pools};
use crate::text::{
    fields, parse_index, parsed_index, split_fields, split_whitespace, texts, words,
};
use vstd::prelude::*;

verus! {

/// The character between the indices of a corner.
pub const SEPARATOR: char = '/';

/// One corner of a face, as written: the indices of its position, texture
/// coordinate and normal, counted from one. An index is held for the active
/// kinds only.
#[derive(Clone, Copy, Debug, PartialEq, Eq)]
pub struct Corner {
    pub position: Option<usize>,
    pub texcoord: Option<usize>,
    pub normal: Option<usize>,
}

/// A triangle: three corners, in the order of the face line.
#[derive(Clone, Copy, Debug, PartialEq, Eq)]
pub struct Face {
    pub corners: [Corner; 3],
}

/// The index that stands at `place` among the parts of a corner. An inactive
/// kind has none, whatever is written. For an active kind the part must be
/// there and must be an index.
pub open spec fn index_in(
    parts: Seq<Seq<char>>,
    place: int,
    active: bool,
    kind: AttributeKind,
    line: usize,
) -> Result<Option<usize>, LoadError> {
    if !active {
        Ok(None)
    } else if place >= parts.len() {
        Err(LoadError::MissingIndex { line, kind })
    } else {
        match parsed_index(parts[place]) {
            Some(n) => Ok(Some(n)),
            None => Err(LoadError::MalformedIndex { line, kind }),
        }
    }
}

/// The corner that `text` writes: its parts between `/` are, by place, the
/// index of the position, of the texture coordinate and of the normal. The
/// place of a kind is the same whether or not the kinds before it are
/// active. Of several faults the first is reported, the position before the
/// texture coordinate before the normal.
pub open spec fn corner_of(text: Seq<char>, active: ActiveKinds, line: usize) -> Result<
    Corner,
    LoadError,
> {
    let parts = fields(text, SEPARATOR);
    match index_in(parts, 0, active.position, AttributeKind::Position, line) {
        Err(e) => Err(e),
        Ok(position) => match index_in(parts, 1, active.texcoord, AttributeKind::TexCoord, line) {
            Err(e) => Err(e),
            Ok(texcoord) => match index_in(parts, 2, active.normal, AttributeKind::Normal, line) {
                Err(e) => Err(e),
                Ok(normal) => Ok(Corner { position, texcoord, normal }),
            },
        },
    }
}

/// The face that the body of a face line writes: exactly three words, each
/// one a corner. Of several faulty corners the first is reported.
pub open spec fn face_of(body: Seq<char>, active: ActiveKinds, line: usize) -> Result<
    Face,
    LoadError,
> {
    let w = words(body);
    if w.len() != 3 {
        Err(LoadError::NotTriangle { line })
    } else {
        match corner_of(w[0], active, line) {
            Err(e) => Err(e),
            Ok(a) => match corner_of(w[1], active, line) {
                Err(e) => Err(e),
                Ok(b) => match corner_of(w[2], active, line) {
                    Err(e) => Err(e),
                    Ok(c) => Ok(Face { corners: [a, b, c] }),
                },
            },
        }
    }
}

/// Reads the index of one kind from the parts of a corner.
fn parse_part(
    parts: &Vec<Vec<char>>,
    place: usize,
    active: bool,
    kind: AttributeKind,
    line: usize,
) -> (r: Result<Option<usize>, LoadError>)
    ensures
        r == index_in(texts(parts@), place as int, active, kind, line),
{
    if !active {
        Ok(None)
    } else if place >= parts.len() {
        Err(LoadError::MissingIndex { line, kind })
    } else {
        match parse_index(&parts[place]) {
            Some(n) => Ok(Some(n)),
            None => Err(LoadError::MalformedIndex { line, kind }),
        }
    }
}

/// Reads one corner of a face.
pub fn parse_corner(text: &Vec<char>, active: &ActiveKinds, line: usize) -> (r: Result<
    Corner,
    LoadError,
>)
    ensures
        r == corner_of(text@, *active, line),
{
    let parts = split_fields(text, SEPARATOR);
    let position = match parse_part(&parts, 0, active.position, AttributeKind::Position, line) {
        Ok(index) => index,
        Err(e) => {
            return Err(e);
        },
    };
    let texcoord = match parse_part(&parts, 1, active.texcoord, AttributeKind::TexCoord, line) {
        Ok(index) => index,
        Err(e) => {
            return Err(e);
        },
    };
    let normal = match parse_part(&parts, 2, active.normal, AttributeKind::Normal, line) {
        Ok(index) => index,
        Err(e) => {
            return Err(e);
        },
    };
    Ok(Corner { position, texcoord, normal })
}

/// Reads the body of a face line.
pub fn parse_face(body: &Vec<char>, active: &ActiveKinds, line: usize) -> (r: Result<
    Face,
    LoadError,
>)
    ensures
        r == face_of(body@, *active, line),
{
    let tokens = split_whitespace(body);
    if tokens.len() != 3 {
        return Err(LoadError::NotTriangle { line });
    }
    let a = match parse_corner(&tokens[0], active, line) {
        Ok(corner) => corner,
        Err(e) => {
            return Err(e);
        },
    };
    let b = match parse_corner(&tokens[1], active, line) {
        Ok(corner) => corner,
        Err(e) => {
            return Err(e);
        },
    };
    let c = match parse_corner(&tokens[2], active, line) {
        Ok(corner) => corner,
        Err(e) => {
            return Err(e);
        },
    };
    Ok(Face { corners: [a, b, c] })
}

/// The attributes of one corner. A kind that is not active has the zero
/// vector.
#[derive(Debug, PartialEq, Eq)]
pub struct CornerData {
    pub position: Vec3,
    pub texcoord: Vec3,
    pub normal: Vec3,
}

/// The attributes that the indices of `corner` name in `pools`. Of several
/// indices out of range the first is reported, the position before the
/// texture coordinate before the normal.
pub open spec fn corner_data(corner: Corner, pools: Pools, line: usize) -> Result<
    CornerData,
    LoadError,
> {
    match picked(pools.positions, corner.position, AttributeKind::Position, line) {
        Err(e) => Err(e),
        Ok(position) => match picked(
            pools.texcoords,
            corner.texcoord,
            AttributeKind::TexCoord,
            line,
        ) {
            Err(e) => Err(e),
            Ok(texcoord) => match picked(
                pools.normals,
                corner.normal,
                AttributeKind::Normal,
                line,
            ) {
                Err(e) => Err(e),
                Ok(normal) => Ok(CornerData { position, texcoord, normal }),
            },
        },
    }
}

/// The scalar that a slot takes from a corner; zero for `Void`.
pub open spec fn slot_value(slot: BufferDataType, data: CornerData) -> u32 {
    match slot {
        BufferDataType::PosX => data.position.x,
        BufferDataType::PosY => data.position.y,
        BufferDataType::PosZ => data.position.z,
        BufferDataType::NormX => data.normal.x,
        BufferDataType::NormY => data.normal.y,
        BufferDataType::NormZ => data.normal.z,
        BufferDataType::TexU => data.texcoord.x,
        BufferDataType::TexV => data.texcoord.y,
        BufferDataType::TexW => data.texcoord.z,
        BufferDataType::Void => ZERO,
    }
}

/// The scalars of one corner: one for each slot of `order`, in its order.
pub open spec fn corner_words(order: Seq<BufferDataType>, data: CornerData) -> Seq<u32> {
    Seq::new(order.len(), |k: int| slot_value(order[k], data))
}

/// The scalars of a face: those of its three corners, one corner after the
/// other in the order of the face. A face with an index out of range has
/// none; the first such corner is reported.
pub open spec fn face_words(face: Face, order: Seq<BufferDataType>, pools: Pools, line: usize)
    -> Result<Seq<u32>, LoadError> {
    match corner_data(face.corners[0], pools, line) {
        Err(e) => Err(e),
        Ok(a) => match corner_data(face.corners[1], pools, line) {
            Err(e) => Err(e),
            Ok(b) => match corner_data(face.corners[2], pools, line) {
                Err(e) => Err(e),
                Ok(c) => Ok(
                    corner_words(order, a) + corner_words(order, b) + corner_words(order, c),
                ),
            },
        },
    }
}

/// The scalars that the body of a face line stands for.
pub open spec fn face_line_words(
    body: Seq<char>,
    active: ActiveKinds,
    order: Seq<BufferDataType>,
    pools: Pools,
    line: usize,
) -> Result<Seq<u32>, LoadError> {
    match face_of(body, active, line) {
        Err(e) => Err(e),
        Ok(face) => face_words(face, order, pools, line),
    }
}

/// Whether `r` is the outcome `expected`, scalar for scalar.
pub open spec fn is_words(r: Result<Vec<u32>, LoadError>, expected: Result<Seq<u32>, LoadError>)
    -> bool {
    match (r, expected) {
        (Ok(out), Ok(scalars)) => out@ =~= scalars,
        (Err(e), Err(refusal)) => e == refusal,
        _ => false,
    }
}

/// Finds the attributes of one corner.
pub fn resolve_corner(corner: &Corner, pools: &AttributePools, line: usize) -> (r: Result<
    CornerData,
    LoadError,
>)
    ensures
        r == corner_data(*corner, pools@, line),
{
    let position = match pools.pick(AttributeKind::Position, corner.position, line) {
        Ok(v) => v,
        Err(e) => {
            return Err(e);
        },
    };
    let texcoord = match pools.pick(AttributeKind::TexCoord, corner.texcoord, line) {
        Ok(v) => v,
        Err(e) => {
            return Err(e);
        },
    };
    let normal = match pools.pick(AttributeKind::Normal, corner.normal, line) {
        Ok(v) => v,
        Err(e) => {
            return Err(e);
        },
    };
    Ok(CornerData { position, texcoord, normal })
}

/// Reads the scalar of one slot.
pub fn select(slot: &BufferDataType, data: &CornerData) -> (scalar: u32)
    ensures
        scalar == slot_value(*slot, *data),
{
    match slot {
        BufferDataType::PosX => data.position.x,
        BufferDataType::PosY => data.position.y,
        BufferDataType::PosZ => data.position.z,
        BufferDataType::NormX => data.normal.x,
        BufferDataType::NormY => data.normal.y,
        BufferDataType::NormZ => data.normal.z,
        BufferDataType::TexU => data.texcoord.x,
        BufferDataType::TexV => data.texcoord.y,
        BufferDataType::TexW => data.texcoord.z,
        BufferDataType::Void => ZERO,
    }
}

/// Appends the scalars of one corner to `out`.
pub fn push_corner(out: &mut Vec<u32>, order: &Vec<BufferDataType>, data: &CornerData)
    ensures
        final(out)@ == old(out)@ + corner_words(order@, *data),
{
    let ghost before = out@;
    let mut k: usize = 0;
    while k < order.len()
        invariant
            k <= order.len(),
            out@ == before + corner_words(order@, *data).subrange(0, k as int),
        decreases order.len() - k,
    {
        out.push(select(&order[k], data));
        k += 1;
    }
    assert(corner_words(order@, *data).subrange(0, order.len() as int) =~= corner_words(
        order@,
        *data,
    ));
}

/// Lays out a face: finds the attributes of its three corners, then writes
/// their scalars in `order`, corner after corner.
pub fn expand_face(
    face: &Face,
    order: &Vec<BufferDataType>,
    pools: &AttributePools,
    line: usize,
) -> (r: Result<Vec<u32>, LoadError>)
    ensures
        is_words(r, face_words(*face, order@, pools@, line)),
{
    let a = match resolve_corner(&face.corners[0], pools, line) {
        Ok(data) => data,
        Err(e) => {
            return Err(e);
        },
    };
    let b = match resolve_corner(&face.corners[1], pools, line) {
        Ok(data) => data,
        Err(e) => {
            return Err(e);
        },
    };
    let c = match resolve_corner(&face.corners[2], pools, line) {
        Ok(data) => data,
        Err(e) => {
            return Err(e);
        },
    };
    let mut out: Vec<u32> = Vec::new();
    push_corner(&mut out, order, &a);
    push_corner(&mut out, order, &b);
    push_corner(&mut out, order, &c);
    Ok(out)
}

/// Reads the body of a face line and lays the face out.
pub fn load_face_line(
    body: &Vec<char>,
    active: &ActiveKinds,
    order: &Vec<BufferDataType>,
    pools: &AttributePools,
    line: usize,
) -> (r: Result<Vec<u32>, LoadError>)
    ensures
        is_words(r, face_line_words(body@, *active, order@, pools@, line)),
{
    match parse_face(body, active, line) {
        Ok(face) => expand_face(&face, order, pools, line),
        Err(e) => Err(e),
    }
}

/// How a face is laid out. Its buffer holds three times as many scalars as
/// the order has slots, and the scalar of slot `k` of corner `corner` stands
/// at place `corner * order.len() + k`.
pub proof fn lemma_face_layout(
    face: Face,
    order: Seq<BufferDataType>,
    pools: Pools,
    line: usize,
    corner: int,
    k: int,
)
    requires
        face_words(face, order, pools, line) is Ok,
        0 <= corner < 3,
        0 <= k < order.len(),
    ensures
        match (
            face_words(face, order, pools, line),
            corner_data(face.corners[corner], pools, line),
        ) {
            (Ok(out), Ok(data)) => {
                &&& out.len() == 3 * order.len()
                &&& out[corner * order.len() + k] == slot_value(order[k], data)
            },
            _ => false,
        },
{
    let n = order.len() as int;
    assert(0 * n == 0 && 1 * n == n && 2 * n == n + n && 3 * n == n + n + n) by (nonlinear_arith);
}

/// The buffer of a face holds three vertices of as many scalars as the order
/// has slots.
pub proof fn lemma_face_words_len(
    face: Face,
    order: Seq<BufferDataType>,
    pools: Pools,
    line: usize,
)
    ensures
        face_words(face, order, pools, line) matches Ok(out) ==> out.len() == 3 * order.len(),
{
}

/// A slot that reads a kind which is not active holds zero in every corner
/// of every face, and so does `Void`: nothing is refused on their account.
pub proof fn lemma_inactive_slot_is_zero(
    body: Seq<char>,
    active: ActiveKinds,
    order: Seq<BufferDataType>,
    pools: Pools,
    line: usize,
    corner: int,
    k: int,
)
    requires
        face_line_words(body, active, order, pools, line) is Ok,
        0 <= corner < 3,
        0 <= k < order.len(),
        match order[k].kind() {
            Some(kind) => !active.has(kind),
            None => true,
        },
    ensures
        face_line_words(body, active, order, pools, line) matches Ok(out) && out[corner
            * order.len() + k] == ZERO,
{
    let face = face_of(body, active, line).unwrap();
    lemma_face_layout(face, order, pools, line, corner, k);
    let w = words(body);
    assert(corner_of(w[corner], active, line) == Ok::<Corner, LoadError>(face.corners[corner]));
}

/// Where an index is counted from in a corner: the position comes first,
/// the texture coordinate second, the normal third.
pub open spec fn place_of(kind: AttributeKind) -> int {
    match kind {
        AttributeKind::Position => 0,
        AttributeKind::TexCoord => 1,
        AttributeKind::Normal => 2,
    }
}

/// Whether `token` names no attribute whatever the pool holds: it is no
/// index, or it is the index zero.
pub open spec fn names_nothing(token: Seq<char>) -> bool {
    parsed_index(token) is None || parsed_index(token) == Some(0usize)
}

/// Every refusal of a corner is for the line given and tells a kind of
/// attribute.
pub proof fn lemma_corner_refusal_tells_kind(text: Seq<char>, active: ActiveKinds, line: usize)
    ensures
        corner_of(text, active, line) matches Err(e) ==> e.at() == line && e.about() is Some,
{
}

/// Every refusal of an index is for the line given and tells a kind of
/// attribute.
pub proof fn lemma_data_refusal_tells_kind(corner: Corner, pools: Pools, line: usize)
    ensures
        corner_data(corner, pools, line) matches Err(e) ==> e.at() == line && e.about() is Some,
{
}

/// A corner is refused, when it is read or when its attributes are looked
/// up, if what stands at the place of an active kind is no index or is zero.
pub proof fn lemma_bad_corner_is_refused(
    text: Seq<char>,
    active: ActiveKinds,
    pools: Pools,
    line: usize,
    kind: AttributeKind,
)
    requires
        active.has(kind),
        place_of(kind) < fields(text, SEPARATOR).len(),
        names_nothing(fields(text, SEPARATOR)[place_of(kind)]),
    ensures
        match corner_of(text, active, line) {
            Ok(corner) => corner_data(corner, pools, line) is Err,
            Err(_) => true,
        },
{
    let parts = fields(text, SEPARATOR);
    match corner_of(text, active, line) {
        Ok(corner) => {
            match kind {
                AttributeKind::Position => {
                    assert(corner.position == Some(0usize));
                },
                AttributeKind::TexCoord => {
                    assert(corner.texcoord == Some(0usize));
                },
                AttributeKind::Normal => {
                    assert(corner.normal == Some(0usize));
                },
            }
        },
        Err(_) => {},
    }
}

/// A face line of three corners is refused when, in one of them, what stands
/// at the place of an active kind is no index or is zero. The refusal is for
/// that line and tells a kind of attribute; no value is put in its place.
pub proof fn lemma_bad_index_is_refused(
    body: Seq<char>,
    active: ActiveKinds,
    order: Seq<BufferDataType>,
    pools: Pools,
    line: usize,
    corner: int,
    kind: AttributeKind,
)
    requires
        words(body).len() == 3,
        0 <= corner < 3,
        active.has(kind),
        place_of(kind) < fields(words(body)[corner], SEPARATOR).len(),
        names_nothing(fields(words(body)[corner], SEPARATOR)[place_of(kind)]),
    ensures
        face_line_words(body, active, order, pools, line) matches Err(e) && e.at() == line
            && e.about() is Some,
{
    let w = words(body);
    lemma_corner_refusal_tells_kind(w[0], active, line);
    lemma_corner_refusal_tells_kind(w[1], active, line);
    lemma_corner_refusal_tells_kind(w[2], active, line);
    lemma_bad_corner_is_refused(w[corner], active, pools, line, kind);
    match face_of(body, active, line) {
        Ok(face) => {
            lemma_data_refusal_tells_kind(face.corners[0], pools, line);
            lemma_data_refusal_tells_kind(face.corners[1], pools, line);
            lemma_data_refusal_tells_kind(face.corners[2], pools, line);
            assert(corner_of(w[corner], active, line) == Ok::<Corner, LoadError>(
                face.corners[corner],
            ));
        },
        Err(_) => {},
    }
}

} // verus!
