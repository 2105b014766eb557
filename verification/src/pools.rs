//! The attributes of a mesh, one ordered pool for each kind.

use crate::error::LoadError;
use crate::math::Vec3;
use crate::order::AttributeKind;
use vstd::prelude::*;

verus! {

/// The positions, texture coordinates and normals of a mesh, each in the
/// order of its lines. Faces name an attribute by its place in its pool,
/// counted from one.
#[derive(Debug, PartialEq, Eq)]
pub struct AttributePools {
    pub positions: Vec<Vec3>,
    pub texcoords: Vec<Vec3>,
    pub normals: Vec<Vec3>,
}

/// What the three pools hold.
pub struct Pools {
    pub positions: Seq<Vec3>,
    pub texcoords: Seq<Vec3>,
    pub normals: Seq<Vec3>,
}

impl Pools {
    /// The pool of one kind.
    pub open spec fn of(self, kind: AttributeKind) -> Seq<Vec3> {
        match kind {
            AttributeKind::Position => self.positions,
            AttributeKind::TexCoord => self.texcoords,
            AttributeKind::Normal => self.normals,
        }
    }

    /// Three pools that hold nothing.
    pub open spec fn empty() -> Pools {
        Pools { positions: Seq::empty(), texcoords: Seq::empty(), normals: Seq::empty() }
    }
}

impl View for AttributePools {
    type V = Pools;

    open spec fn view(&self) -> Pools {
        Pools {
            positions: self.positions@,
            texcoords: self.texcoords@,
            normals: self.normals@,
        }
    }
}

/// The attribute that `index` names in `pool`. With no index, for an
/// inactive kind, it is the zero vector. An index names the attribute at its
/// place counted from one; zero, and any index past the end of the pool,
/// names nothing.
pub open spec fn picked(pool: Seq<Vec3>, index: Option<usize>, kind: AttributeKind, line: usize)
    -> Result<Vec3, LoadError> {
    match index {
        None => Ok(Vec3::origin()),
        Some(n) => if 1 <= n <= pool.len() {
            Ok(pool[n - 1])
        } else {
            Err(LoadError::IndexOutOfRange { line, kind })
        },
    }
}

impl AttributePools {
    /// Three pools that hold nothing.
    pub fn new() -> (pools: AttributePools)
        ensures
            pools@ == Pools::empty(),
    {
        AttributePools { positions: Vec::new(), texcoords: Vec::new(), normals: Vec::new() }
    }

    /// Finds the attribute of kind `kind` that `index` names.
    pub fn pick(&self, kind: AttributeKind, index: Option<usize>, line: usize) -> (r: Result<
        Vec3,
        LoadError,
    >)
        ensures
            r == picked(self@.of(kind), index, kind, line),
    {
        let pool = match kind {
            AttributeKind::Position => &self.positions,
            AttributeKind::TexCoord => &self.texcoords,
            AttributeKind::Normal => &self.normals,
        };
        match index {
            None => Ok(Vec3::zero()),
            Some(n) => {
                if 1 <= n && n <= pool.len() {
                    Ok(pool[n - 1].clone())
                } else {
                    Err(LoadError::IndexOutOfRange { line, kind })
                }
            },
        }
    }
}

} // verus!
