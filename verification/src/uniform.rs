//! The uniform block that carries the camera to the sky's vertex shader.

use crate::matrix::Matrix4;
use vstd::prelude::*;

verus! {

/// Size in bytes of the `VertexArgs` block in the std140 layout: two
/// matrices of four 16-byte columns each.
pub const VERTEX_ARGS_SIZE: usize = 128;

/// Alignment in bytes of the block and of every matrix column inside it.
pub const VERTEX_ARGS_ALIGN: usize = 16;

/// Projection and view matrix for one frame.
#[derive(Clone, Copy, Debug, PartialEq, Eq)]
pub struct VertexArgs {
    pub proj: Matrix4,
    pub view: Matrix4,
}

impl VertexArgs {
    /// The block as 32-bit words in the std140 layout: the sixteen entries of
    /// `proj` column by column, then the sixteen entries of `view`.
    pub open spec fn spec_std140(self) -> Seq<u32> {
        self.proj.m@ + self.view.m@
    }

    /// Both matrices are the identity.
    pub open spec fn is_identity(self) -> bool {
        self.proj.is_identity() && self.view.is_identity()
    }

    /// The block that leaves every position unchanged.
    pub open spec fn spec_identity() -> VertexArgs {
        VertexArgs { proj: Matrix4::spec_identity(), view: Matrix4::spec_identity() }
    }

    /// The block that leaves every position unchanged.
    #[verifier::when_used_as_spec(spec_identity)]
    pub fn identity() -> (r: VertexArgs)
        ensures
            r == VertexArgs::spec_identity(),
            r.is_identity(),
    {
        VertexArgs { proj: Matrix4::identity(), view: Matrix4::identity() }
    }

    /// Lays the block out for upload, one word per matrix entry.
    ///
    /// Entry (row, column) of `proj` lands at byte `16 * column + 4 * row`,
    /// and the same entry of `view` 64 bytes further on, so every column
    /// starts on a 16-byte boundary and the block fills `VERTEX_ARGS_SIZE`
    /// bytes exactly.
    pub fn std140(&self) -> (r: Vec<u32>)
        ensures
            r@ == self.spec_std140(),
            4 * r@.len() == VERTEX_ARGS_SIZE,
            forall|row: int, column: int|
                0 <= row < 4 && 0 <= column < 4 ==> {
                    &&& r@[4 * column + row] == #[trigger] self.proj.entry(row, column)
                    &&& r@[16 + 4 * column + row] == #[trigger] self.view.entry(row, column)
                },
    {
        let mut r: Vec<u32> = Vec::new();
        let mut i: usize = 0;
        while i < 16
            invariant
                i <= 16,
                r@ == self.proj.m@.take(i as int),
            decreases 16 - i,
        {
            r.push(self.proj.m[i]);
            i += 1;
        }
        let mut j: usize = 0;
        while j < 16
            invariant
                j <= 16,
                r@ == self.proj.m@ + self.view.m@.take(j as int),
            decreases 16 - j,
        {
            r.push(self.view.m[j]);
            j += 1;
        }
        r
    }
}

} // verus!
