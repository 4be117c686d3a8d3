//! A dense linear-algebra kernel for 3-D transforms: square matrices of dimension 2, 3 and 4
//! with exact integer entries, their determinants, cofactors and exact inverses, the affine
//! transforms of space as 4×4 matrices, and their application to points and vectors.
pub mod algebra;
pub mod laplace;
pub mod laws;
pub mod matrix;
pub mod point;
pub mod transform;
