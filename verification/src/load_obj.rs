//! A conversion from the lines of a mesh description to a vertex buffer.
//!
//! It runs in two steps with the caller's arithmetic between them.
//! `scan_attributes` finds the numbers of the attribute lines that the output
//! order needs, as text. The caller reads them into scalars, divides by the
//! weight where a position has one and brings normals and texture coordinates
//! to unit length. `ObjLoader::load` then takes these pools and lays out
//! every face of the description.

use crate::error::LoadError;
use crate::math::Vec3;
use crate::face::{face_line_words, face_of, is_words, lemma_face_words_len, load_face_line};
use crate::order::{active_kinds, ActiveKinds, AttributeKind, BufferDataType};
use crate::pools::{AttributePools, Pools};
use crate::scan::{
    body_of, classify_line, line_body, line_kind, load_normals, load_texs, load_verts,
    point_views, scanned_points, scanned_texs, tex_views, LineKind, PointText, PointTextView,
    TexText, TexTextView,
};
use crate::text::{chars_of, line_texts};
use vstd::prelude::*;

verus! {

/// The numbers of the attribute lines of a description, as text, one list
/// for each kind. The list of a kind that is not active is empty.
#[derive(Debug, PartialEq, Eq)]
pub struct AttributeText {
    pub verts: Vec<PointText>,
    pub normals: Vec<PointText>,
    pub texs: Vec<TexText>,
}

/// What the three lists of an `AttributeText` hold.
pub struct AttributeTextView {
    pub verts: Seq<PointTextView>,
    pub normals: Seq<PointTextView>,
    pub texs: Seq<TexTextView>,
}

impl View for AttributeText {
    type V = AttributeTextView;

    open spec fn view(&self) -> AttributeTextView {
        AttributeTextView {
            verts: point_views(self.verts@),
            normals: point_views(self.normals@),
            texs: tex_views(self.texs@),
        }
    }
}

/// The numbers of the position or normal lines of `lines`, where `active`;
/// none where not.
pub open spec fn points_if(active: bool, lines: Seq<Seq<char>>, kind: AttributeKind) -> Result<
    Seq<PointTextView>,
    LoadError,
> {
    if active {
        scanned_points(lines, kind, lines.len() as int)
    } else {
        Ok(Seq::empty())
    }
}

/// The numbers of the texture lines of `lines`, where `active`; none where
/// not.
pub open spec fn texs_if(active: bool, lines: Seq<Seq<char>>) -> Result<
    Seq<TexTextView>,
    LoadError,
> {
    if active {
        scanned_texs(lines, lines.len() as int)
    } else {
        Ok(Seq::empty())
    }
}

/// The numbers that a conversion of `lines` with the output order `order`
/// needs: those of every line of an active kind. Where lines of several
/// kinds hold too few numbers, a position line is reported before a normal
/// line, and a normal line before a texture line.
pub open spec fn attribute_text(lines: Seq<Seq<char>>, order: Seq<BufferDataType>) -> Result<
    AttributeTextView,
    LoadError,
> {
    let active = active_kinds(order);
    match points_if(active.position, lines, AttributeKind::Position) {
        Err(e) => Err(e),
        Ok(verts) => match points_if(active.normal, lines, AttributeKind::Normal) {
            Err(e) => Err(e),
            Ok(normals) => match texs_if(active.texcoord, lines) {
                Err(e) => Err(e),
                Ok(texs) => Ok(AttributeTextView { verts, normals, texs }),
            },
        },
    }
}

/// Whether `r` is the outcome `expected`, record for record.
pub open spec fn is_attribute_text(
    r: Result<AttributeText, LoadError>,
    expected: Result<AttributeTextView, LoadError>,
) -> bool {
    match (r, expected) {
        (Ok(found), Ok(records)) => {
            &&& found@.verts =~= records.verts
            &&& found@.normals =~= records.normals
            &&& found@.texs =~= records.texs
        },
        (Err(e), Err(refusal)) => e == refusal,
        _ => false,
    }
}

/// The first step of a conversion: one pass over `lines` for each kind that
/// `order` makes active, positions first, then normals, then texture
/// coordinates.
pub fn scan_attributes(lines: &Vec<String>, order: &Vec<BufferDataType>) -> (r: Result<
    AttributeText,
    LoadError,
>)
    ensures
        is_attribute_text(r, attribute_text(line_texts(lines@), order@)),
{
    let active = ActiveKinds::from_order(order);
    let verts = if active.position {
        match load_verts(lines) {
            Ok(found) => found,
            Err(e) => {
                return Err(e);
            },
        }
    } else {
        Vec::new()
    };
    let normals = if active.normal {
        match load_normals(lines) {
            Ok(found) => found,
            Err(e) => {
                return Err(e);
            },
        }
    } else {
        Vec::new()
    };
    let texs = if active.texcoord {
        match load_texs(lines) {
            Ok(found) => found,
            Err(e) => {
                return Err(e);
            },
        }
    } else {
        Vec::new()
    };
    Ok(AttributeText { verts, normals, texs })
}

/// How many of the first `upto` lines are face lines.
pub open spec fn face_lines(lines: Seq<Seq<char>>, upto: int) -> nat
    decreases upto,
{
    if upto <= 0 {
        0
    } else if line_kind(lines[upto - 1]) == LineKind::Face {
        face_lines(lines, upto - 1) + 1
    } else {
        face_lines(lines, upto - 1)
    }
}

/// The vertex buffer of the first `upto` lines: the scalars of each face
/// line, one face after the other in the order of the lines. Where a face
/// line is refused there is no buffer, and the first such line is reported.
pub open spec fn expanded(
    lines: Seq<Seq<char>>,
    upto: int,
    active: ActiveKinds,
    order: Seq<BufferDataType>,
    pools: Pools,
) -> Result<Seq<u32>, LoadError>
    decreases upto,
{
    if upto <= 0 {
        Ok(Seq::empty())
    } else {
        match expanded(lines, upto - 1, active, order, pools) {
            Err(e) => Err(e),
            Ok(out) => if line_kind(lines[upto - 1]) == LineKind::Face {
                match face_line_words(
                    line_body(lines[upto - 1]),
                    active,
                    order,
                    pools,
                    (upto - 1) as usize,
                ) {
                    Err(e) => Err(e),
                    Ok(scalars) => Ok(out + scalars),
                }
            } else {
                Ok(out)
            },
        }
    }
}

/// Once a face line is refused the conversion stays refused, for the same
/// line, however many lines follow.
pub proof fn lemma_refusal_stays(
    lines: Seq<Seq<char>>,
    upto: int,
    later: int,
    active: ActiveKinds,
    order: Seq<BufferDataType>,
    pools: Pools,
)
    requires
        upto <= later,
        expanded(lines, upto, active, order, pools) is Err,
    ensures
        expanded(lines, later, active, order, pools) == expanded(
            lines,
            upto,
            active,
            order,
            pools,
        ),
    decreases later - upto,
{
    if upto < later {
        lemma_refusal_stays(lines, upto, later - 1, active, order, pools);
    }
}

/// The pools that a conversion keeps: those it is given, but for the kinds
/// that are not active, whose pools are empty.
pub open spec fn kept_pools(active: ActiveKinds, given: Pools) -> Pools {
    Pools {
        positions: if active.position {
            given.positions
        } else {
            Seq::empty()
        },
        texcoords: if active.texcoord {
            given.texcoords
        } else {
            Seq::empty()
        },
        normals: if active.normal {
            given.normals
        } else {
            Seq::empty()
        },
    }
}

/// A converter. It keeps the output order and the pools of its last
/// conversion; each conversion replaces them.
pub struct ObjLoader {
    pools: AttributePools,
    active: ActiveKinds,
    load_data_order: Vec<BufferDataType>,
}

impl ObjLoader {
    /// The pools of the last conversion.
    pub closed spec fn pools(&self) -> Pools {
        self.pools@
    }

    /// The kinds that the last conversion read.
    pub closed spec fn active(&self) -> ActiveKinds {
        self.active
    }

    /// The output order of the last conversion.
    pub closed spec fn order(&self) -> Seq<BufferDataType> {
        self.load_data_order@
    }

    /// What holds of every converter: a kind is active exactly when the
    /// output order reads it, and the pool of a kind that is not active is
    /// empty.
    pub open spec fn wf(&self) -> bool {
        &&& self.active() == active_kinds(self.order())
        &&& self.pools() == kept_pools(self.active(), self.pools())
    }

    /// A converter that has converted nothing: no order, no active kind,
    /// empty pools.
    pub fn new() -> (loader: ObjLoader)
        ensures
            loader.wf(),
            loader.order() == Seq::<BufferDataType>::empty(),
            loader.pools() == Pools::empty(),
    {
        let loader = ObjLoader {
            pools: AttributePools::new(),
            active: ActiveKinds { position: false, texcoord: false, normal: false },
            load_data_order: Vec::new(),
        };
        assert(loader.pools() == kept_pools(loader.active(), loader.pools()));
        loader
    }

    /// The second step of a conversion. The converter takes `load_data_order`
    /// and, for the kinds that it makes active, the pools of `pools`; what it
    /// held before is gone. It then lays out every face line of `lines`, in
    /// the order of the lines. Either the whole buffer is returned or, where
    /// a face line is refused, the first such refusal and no scalar at all.
    pub fn load(
        &mut self,
        lines: &Vec<String>,
        load_data_order: Vec<BufferDataType>,
        pools: AttributePools,
    ) -> (r: Result<Vec<u32>, LoadError>)
        ensures
            final(self).wf(),
            final(self).order() == load_data_order@,
            final(self).active() == active_kinds(load_data_order@),
            final(self).pools() == kept_pools(active_kinds(load_data_order@), pools@),
            is_words(
                r,
                expanded(
                    line_texts(lines@),
                    lines.len() as int,
                    final(self).active(),
                    final(self).order(),
                    final(self).pools(),
                ),
            ),
            r matches Ok(out) ==> out.len() == 3 * load_data_order.len() * face_lines(
                line_texts(lines@),
                lines.len() as int,
            ),
    {
        let active = ActiveKinds::from_order(&load_data_order);
        let mut pools = pools;
        if !active.position {
            pools.positions = Vec::new();
        }
        if !active.texcoord {
            pools.texcoords = Vec::new();
        }
        if !active.normal {
            pools.normals = Vec::new();
        }
        self.load_data_order = load_data_order;
        self.active = active;
        self.pools = pools;
        assert(self.pools() == kept_pools(self.active(), self.pools()));

        expand_lines(lines, &self.active, &self.load_data_order, &self.pools)
    }

    /// The positions of the last conversion.
    pub fn positions(&self) -> (pool: &Vec<Vec3>)
        ensures
            pool@ == self.pools().positions,
    {
        &self.pools.positions
    }

    /// The texture coordinates of the last conversion.
    pub fn texcoords(&self) -> (pool: &Vec<Vec3>)
        ensures
            pool@ == self.pools().texcoords,
    {
        &self.pools.texcoords
    }

    /// The normals of the last conversion.
    pub fn normals(&self) -> (pool: &Vec<Vec3>)
        ensures
            pool@ == self.pools().normals,
    {
        &self.pools.normals
    }

    /// The kinds that the last conversion read.
    pub fn active_kinds(&self) -> (active: ActiveKinds)
        ensures
            active == self.active(),
    {
        self.active
    }

    /// The output order of the last conversion.
    pub fn data_order(&self) -> (order: &Vec<BufferDataType>)
        ensures
            order@ == self.order(),
    {
        &self.load_data_order
    }
}

/// Lays out every face line of `lines`, in the order of the lines.
pub fn expand_lines(
    lines: &Vec<String>,
    active: &ActiveKinds,
    order: &Vec<BufferDataType>,
    pools: &AttributePools,
) -> (r: Result<Vec<u32>, LoadError>)
    ensures
        is_words(r, expanded(line_texts(lines@), lines.len() as int, *active, order@, pools@)),
        r matches Ok(out) ==> out.len() == 3 * order.len() * face_lines(
            line_texts(lines@),
            lines.len() as int,
        ),
{
    let mut output_data: Vec<u32> = Vec::new();
    let mut i: usize = 0;
    while i < lines.len()
        invariant
            i <= lines.len(),
            is_words(
                Ok(output_data),
                expanded(line_texts(lines@), i as int, *active, order@, pools@),
            ),
        decreases lines.len() - i,
    {
        let chars = chars_of(lines[i].as_str());
        if classify_line(&chars) == LineKind::Face {
            let body = body_of(&chars);
            match load_face_line(&body, active, order, pools, i) {
                Ok(mut scalars) => {
                    output_data.append(&mut scalars);
                },
                Err(e) => {
                    proof {
                        lemma_refusal_stays(
                            line_texts(lines@),
                            i + 1,
                            lines.len() as int,
                            *active,
                            order@,
                            pools@,
                        );
                    }
                    return Err(e);
                },
            }
        }
        i += 1;
    }
    proof {
        lemma_expanded_len(line_texts(lines@), lines.len() as int, *active, order@, pools@);
    }
    Ok(output_data)
}

/// A buffer holds three vertices for each face line and, for each vertex, as
/// many scalars as the output order has slots.
pub proof fn lemma_expanded_len(
    lines: Seq<Seq<char>>,
    upto: int,
    active: ActiveKinds,
    order: Seq<BufferDataType>,
    pools: Pools,
)
    ensures
        expanded(lines, upto, active, order, pools) matches Ok(out) ==> out.len() == 3
            * order.len() * face_lines(lines, upto),
    decreases upto,
{
    let n = order.len();
    if upto <= 0 {
        assert(3 * n * 0 == 0) by (nonlinear_arith);
    } else {
        lemma_expanded_len(lines, upto - 1, active, order, pools);
        let before = face_lines(lines, upto - 1);
        let line = (upto - 1) as usize;
        let body = line_body(lines[upto - 1]);
        if line_kind(lines[upto - 1]) == LineKind::Face {
            if let Ok(face) = face_of(body, active, line) {
                lemma_face_words_len(face, order, pools, line);
            }
            assert(3 * n * (before + 1) == 3 * n * before + 3 * n) by (nonlinear_arith);
        }
    }
}

} // verus!
