//! Turns a line-oriented description of a triangle mesh (positions, normals,
//! texture coordinates and faces that index them) into one flat vertex buffer,
//! with the fields of every corner laid out in the order the caller asks for.
//!
//! Scalars are carried as the 32-bit patterns of single-precision numbers and
//! are never interpreted here: reading decimal text into such a pattern, and
//! the arithmetic on them, belong to the caller.

pub mod error;
pub mod face;
pub mod load_obj;
pub mod math;
pub mod order;
pub mod pools;
pub mod scan;
pub mod text;
