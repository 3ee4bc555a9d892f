use vstd::prelude::*;

use crate::error::PipelineError;

verus! {

/// Vertices per primitive group.
pub const TRIANGLE_CORNERS: usize = 3;

/// `indices` name vertices of a buffer of `vertex_count` vertices and fall
/// into whole triangles.
pub open spec fn is_triangle_list(vertex_count: nat, indices: Seq<u16>) -> bool {
    &&& indices.len() % 3 == 0
    &&& forall|i: int| 0 <= i < indices.len() ==> (#[trigger] indices[i] as nat) < vertex_count
}

/// The index data of a mesh: triangles over a vertex buffer.
pub struct TriangleList {
    pub vertex_count: usize,
    pub indices: Vec<u16>,
}

impl TriangleList {
    pub open spec fn wf(&self) -> bool {
        is_triangle_list(self.vertex_count as nat, self.indices@)
    }

    /// Checks index data against the vertex buffer it refers to.
    ///
    /// Fails with `ResourceCreationFailed` exactly when an index lies outside
    /// the buffer or the indices do not fall into whole triangles.
    pub fn new(vertex_count: usize, indices: Vec<u16>) -> (r: Result<TriangleList, PipelineError>)
        ensures
            is_triangle_list(vertex_count as nat, indices@) ==> r == Ok::<TriangleList, PipelineError>(
                TriangleList { vertex_count, indices },
            ),
            !is_triangle_list(vertex_count as nat, indices@) ==> r == Err::<TriangleList, PipelineError>(
                PipelineError::ResourceCreationFailed,
            ),
    {
        if indices.len() % TRIANGLE_CORNERS != 0 {
            return Err(PipelineError::ResourceCreationFailed);
        }
        let mut i: usize = 0;
        while i < indices.len()
            invariant
                i <= indices@.len(),
                forall|j: int| 0 <= j < i ==> (#[trigger] indices@[j] as nat) < vertex_count,
            decreases indices@.len() - i,
        {
            if indices[i] as usize >= vertex_count {
                return Err(PipelineError::ResourceCreationFailed);
            }
            i = i + 1;
        }
        Ok(TriangleList { vertex_count, indices })
    }

    /// The number of triangles.
    pub fn triangle_count(&self) -> (r: usize)
        ensures
            r == self.indices@.len() / 3,
    {
        self.indices.len() / TRIANGLE_CORNERS
    }
}

} // verus!
