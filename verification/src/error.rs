//! Why a conversion stops.

use crate::order::AttributeKind;
use vstd::prelude::*;

verus! {

/// The reason for which a mesh description is refused. Each one ends the
/// conversion: nothing is skipped and no value is made up. `line` counts the
/// lines of the description from zero.
#[derive(Clone, Copy, Debug, PartialEq, Eq)]
pub enum LoadError {
    /// An attribute line holds fewer numbers than its kind needs.
    MissingComponent { line: usize, kind: AttributeKind },
    /// A face line does not hold exactly three corners.
    NotTriangle { line: usize },
    /// A corner has no index for an active kind.
    MissingIndex { line: usize, kind: AttributeKind },
    /// What stands where the index of an active kind should is no index.
    MalformedIndex { line: usize, kind: AttributeKind },
    /// The index of an active kind is zero or larger than the number of
    /// attributes of that kind.
    IndexOutOfRange { line: usize, kind: AttributeKind },
}

impl LoadError {
    /// The line at which the conversion stopped.
    pub open spec fn at(self) -> usize {
        match self {
            LoadError::MissingComponent { line, .. } => line,
            LoadError::NotTriangle { line } => line,
            LoadError::MissingIndex { line, .. } => line,
            LoadError::MalformedIndex { line, .. } => line,
            LoadError::IndexOutOfRange { line, .. } => line,
        }
    }

    /// The kind of attribute that was at fault, where one was.
    pub open spec fn about(self) -> Option<AttributeKind> {
        match self {
            LoadError::MissingComponent { kind, .. } => Some(kind),
            LoadError::NotTriangle { .. } => None,
            LoadError::MissingIndex { kind, .. } => Some(kind),
            LoadError::MalformedIndex { kind, .. } => Some(kind),
            LoadError::IndexOutOfRange { kind, .. } => Some(kind),
        }
    }

    /// The line at which the conversion stopped.
    pub fn line(&self) -> (line: usize)
        ensures
            line == self.at(),
    {
        match self {
            LoadError::MissingComponent { line, .. } => *line,
            LoadError::NotTriangle { line } => *line,
            LoadError::MissingIndex { line, .. } => *line,
            LoadError::MalformedIndex { line, .. } => *line,
            LoadError::IndexOutOfRange { line, .. } => *line,
        }
    }

    /// The kind of attribute that was at fault, where one was.
    pub fn kind(&self) -> (kind: Option<AttributeKind>)
        ensures
            kind == self.about(),
    {
        match self {
            LoadError::MissingComponent { kind, .. } => Some(*kind),
            LoadError::NotTriangle { .. } => None,
            LoadError::MissingIndex { kind, .. } => Some(*kind),
            LoadError::MalformedIndex { kind, .. } => Some(*kind),
            LoadError::IndexOutOfRange { kind, .. } => Some(*kind),
        }
    }
}

} // verus!
