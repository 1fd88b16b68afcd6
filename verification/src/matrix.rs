//! 4x4 matrices carried as raw single-precision bit patterns.
//!
//! The pass only moves matrix entries around; it never does arithmetic on
//! them. Entries are therefore held as the IEEE 754 binary32 bit pattern of
//! each value, which the host converts to and from its own number type.

use vstd::prelude::*;

verus! {

/// Bit pattern of the single-precision value one.
pub const ONE: u32 = 0x3F80_0000;

/// Bit pattern of the single-precision value zero.
pub const ZERO: u32 = 0;

/// A 4x4 matrix in column-major order: entry (row, column) is
/// `m[4 * column + row]`.
#[derive(Clone, Copy, Debug, PartialEq, Eq)]
pub struct Matrix4 {
    pub m: [u32; 16],
}

impl Matrix4 {
    /// Entry at `row`, `column`.
    pub open spec fn entry(self, row: int, column: int) -> u32 {
        self.m[4 * column + row]
    }

    /// True when the matrix is the identity: one on the diagonal, zero
    /// everywhere else.
    pub open spec fn is_identity(self) -> bool {
        forall|row: int, column: int|
            0 <= row < 4 && 0 <= column < 4 ==> #[trigger] self.entry(row, column) == (if row
                == column {
                ONE
            } else {
                ZERO
            })
    }

    /// The identity matrix.
    pub open spec fn spec_identity() -> Matrix4 {
        Matrix4 {
            m: [
                ONE,
                ZERO,
                ZERO,
                ZERO,
                ZERO,
                ONE,
                ZERO,
                ZERO,
                ZERO,
                ZERO,
                ONE,
                ZERO,
                ZERO,
                ZERO,
                ZERO,
                ONE,
            ],
        }
    }

    /// The identity matrix.
    #[verifier::when_used_as_spec(spec_identity)]
    pub fn identity() -> (r: Matrix4)
        ensures
            r == Matrix4::spec_identity(),
            r.is_identity(),
    {
        Matrix4 {
            m: [
                ONE,
                ZERO,
                ZERO,
                ZERO,
                ZERO,
                ONE,
                ZERO,
                ZERO,
                ZERO,
                ZERO,
                ONE,
                ZERO,
                ZERO,
                ZERO,
                ZERO,
                ONE,
            ],
        }
    }

    /// A matrix is the identity exactly when it equals `identity()`.
    pub proof fn lemma_identity_is_unique(self)
        ensures
            self.is_identity() <==> self == Matrix4::spec_identity(),
    {
        let id = Matrix4::spec_identity();
        if self.is_identity() {
            assert forall|i: int| 0 <= i < 16 implies self.m[i] == id.m[i] by {
                let column = i / 4;
                let row = i % 4;
                assert(self.entry(row, column) == self.m[i]);
            }
            assert(self.m =~= id.m);
        }
    }
}

} // verus!
