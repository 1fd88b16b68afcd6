//! Geometry that lives on the GPU.

use crate::vertex::Attribute;
use vstd::prelude::*;

verus! {

/// A GPU buffer, named by the host.
#[derive(Clone, Copy, Debug, PartialEq, Eq, Structural)]
pub struct BufferId(pub u64);

/// The run of vertices a draw covers: from `start` up to, not including,
/// `end`.
#[derive(Clone, Copy, Debug, PartialEq, Eq, Structural)]
pub struct Slice {
    pub start: u32,
    pub end: u32,
}

/// One vertex buffer of a mesh, with the attributes its vertices carry.
#[derive(Clone, Debug, PartialEq, Eq)]
pub struct VertexBuffer {
    pub attributes: Vec<Attribute>,
    pub raw: BufferId,
}

/// Geometry uploaded once and drawn many times.
#[derive(Clone, Debug, PartialEq, Eq)]
pub struct Mesh {
    pub slice: Slice,
    pub vbufs: Vec<VertexBuffer>,
}

/// Compares two attribute lists entry by entry.
pub fn same_attributes(a: &Vec<Attribute>, b: &Vec<Attribute>) -> (r: bool)
    ensures
        r == (a@ == b@),
{
    if a.len() != b.len() {
        return false;
    }
    let mut i: usize = 0;
    while i < a.len()
        invariant
            i <= a@.len(),
            a@.len() == b@.len(),
            a@.take(i as int) == b@.take(i as int),
        decreases a@.len() - i,
    {
        if !(a[i] == b[i]) {
            return false;
        }
        assert(a@.take(i + 1) == a@.take(i as int).push(a@[i as int]));
        assert(b@.take(i + 1) == b@.take(i as int).push(b@[i as int]));
        i += 1;
    }
    assert(a@.take(a@.len() as int) == a@);
    assert(b@.take(b@.len() as int) == b@);
    true
}

impl Mesh {
    /// A mesh of `vertex_count` vertices held in a single buffer.
    pub fn new(vertex_count: u32, attributes: Vec<Attribute>, raw: BufferId) -> (r: Mesh)
        ensures
            r.slice == (Slice { start: 0, end: vertex_count }),
            r.vbufs@.len() == 1,
            r.vbufs@[0].attributes@ == attributes@,
            r.vbufs@[0].raw == raw,
    {
        let mut vbufs: Vec<VertexBuffer> = Vec::new();
        vbufs.push(VertexBuffer { attributes, raw });
        Mesh { slice: Slice { start: 0, end: vertex_count }, vbufs }
    }

    /// True when buffer `i` of the mesh carries exactly `attributes`.
    pub open spec fn carries(&self, i: int, attributes: Seq<Attribute>) -> bool {
        0 <= i < self.vbufs@.len() && self.vbufs@[i].attributes@ == attributes
    }

    /// The first buffer of the mesh that carries exactly `attributes`, if
    /// there is one.
    pub open spec fn spec_buffer(&self, attributes: Seq<Attribute>) -> Option<BufferId> {
        if exists|i: int| self.carries(i, attributes) {
            let first = choose|i: int|
                self.carries(i, attributes) && forall|j: int|
                    0 <= j < i ==> !self.carries(j, attributes);
            Some(self.vbufs@[first].raw)
        } else {
            None
        }
    }

    /// The vertex buffer to bind for a pipeline that reads `attributes`.
    ///
    /// `None` means the mesh has no such buffer, and nothing can be drawn
    /// from it with that pipeline.
    pub fn buffer(&self, attributes: &Vec<Attribute>) -> (r: Option<BufferId>)
        ensures
            r == self.spec_buffer(attributes@),
            r matches Some(raw) ==> exists|i: int|
                {
                    &&& #[trigger] self.carries(i, attributes@)
                    &&& self.vbufs@[i].raw == raw
                    &&& forall|j: int| 0 <= j < i ==> !self.carries(j, attributes@)
                },
            r is None ==> forall|i: int| !self.carries(i, attributes@),
    {
        let mut i: usize = 0;
        while i < self.vbufs.len()
            invariant
                i <= self.vbufs@.len(),
                forall|j: int| 0 <= j < i ==> !self.carries(j, attributes@),
            decreases self.vbufs@.len() - i,
        {
            if same_attributes(&self.vbufs[i].attributes, attributes) {
                proof {
                    let k = i as int;
                    assert(self.carries(k, attributes@));
                    let first = choose|i: int|
                        self.carries(i, attributes@) && forall|j: int|
                            0 <= j < i ==> !self.carries(j, attributes@);
                    assert(first == k) by {
                        if first < k {
                            assert(!self.carries(first, attributes@));
                        }
                        if k < first {
                            assert(!self.carries(k, attributes@));
                        }
                    }
                }
                return Some(self.vbufs[i].raw);
            }
            i += 1;
        }
        None
    }

    /// The run of vertices that draws the whole mesh.
    pub fn slice(&self) -> (r: Slice)
        ensures
            r == self.slice,
    {
        self.slice
    }
}

} // verus!
