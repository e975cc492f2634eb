//! Index buffers of triangle meshes.

use vstd::prelude::*;

verus! {

/// The corners of all faces in one row: face after face, corner after corner.
pub open spec fn flat_indices(faces: Seq<[u32; 3]>) -> Seq<u32> {
    Seq::new(3 * faces.len(), |k: int| faces[k / 3][k % 3])
}

/// Lays the corner indices of a mesh's faces out as one index buffer.
pub fn flatten_faces(faces: &Vec<[u32; 3]>) -> (buffer: Vec<u32>)
    ensures
        buffer@ == flat_indices(faces@),
{
    let mut buffer: Vec<u32> = Vec::new();
    let mut i: usize = 0;
    while i < faces.len()
        invariant
            i <= faces.len(),
            buffer@.len() == 3 * i,
            forall|k: int| 0 <= k < 3 * i ==> #[trigger] buffer@[k] == faces@[k / 3][k % 3],
        decreases faces.len() - i,
    {
        let face = faces[i];
        buffer.push(face[0]);
        buffer.push(face[1]);
        buffer.push(face[2]);
        i = i + 1;
    }
    assert(buffer@ =~= flat_indices(faces@));
    buffer
}

} // verus!
