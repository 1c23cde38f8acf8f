use vstd::prelude::*;

verus! {

/// Number of vertices of a building: four corners on each of its six faces.
pub const BUILDING_VERTEX_COUNT: u16 = 24;

/// Number of indices of a building: two triangles on each of its six faces.
pub const BUILDING_INDEX_COUNT: usize = 36;

/// Position, within a face's four corners, of the `j`-th index of the face's
/// two triangles (corners 0, 1, 2 then 2, 3, 0).
pub open spec fn quad_corner(j: int) -> int {
    if j == 0 {
        0
    } else if j == 1 {
        1
    } else if j == 2 {
        2
    } else if j == 3 {
        2
    } else if j == 4 {
        3
    } else {
        0
    }
}

/// The `k`-th index of a building whose vertices start at 0: face `k / 6`,
/// whose corners are the vertices `4 * face .. 4 * face + 4`.
pub open spec fn building_index(k: int) -> int {
    4 * (k / 6) + quad_corner(k % 6)
}

/// Returns the triangle indices of a building whose 24 vertices start at
/// vertex `start_idx`.
pub fn building_indices(start_idx: u16) -> (indices: Vec<u16>)
    requires
        start_idx + BUILDING_VERTEX_COUNT - 1 <= u16::MAX,
    ensures
        indices@.len() == BUILDING_INDEX_COUNT,
        forall|k: int|
            0 <= k < BUILDING_INDEX_COUNT ==> #[trigger] indices@[k] == start_idx + building_index(k),
{
    let quad: [u16; 6] = [0, 1, 2, 2, 3, 0];
    let mut indices: Vec<u16> = Vec::new();
    let mut face: u16 = 0;
    while face < 6
        invariant
            face <= 6,
            start_idx + 23 <= u16::MAX,
            quad@ == seq![0u16, 1, 2, 2, 3, 0],
            indices@.len() == 6 * face,
            forall|k: int| 0 <= k < 6 * face ==> #[trigger] indices@[k] == start_idx + building_index(k),
        decreases 6 - face,
    {
        let mut c: usize = 0;
        while c < 6
            invariant
                face < 6,
                c <= 6,
                start_idx + 23 <= u16::MAX,
                quad@ == seq![0u16, 1, 2, 2, 3, 0],
                indices@.len() == 6 * face + c,
                forall|k: int|
                    0 <= k < 6 * face + c ==> #[trigger] indices@[k] == start_idx + building_index(k),
            decreases 6 - c,
        {
            assert(quad[c as int] == quad_corner(c as int));
            indices.push(start_idx + 4 * face + quad[c]);
            proof {
                let k = 6 * face + c;
                assert(k / 6 == face as int && k % 6 == c as int) by (nonlinear_arith)
                    requires
                        k == 6 * face + c,
                        c < 6,
                ;
            }
            c = c + 1;
        }
        face = face + 1;
    }
    indices
}

/// Every index of a building names one of its own 24 vertices.
pub proof fn law_indices_within_building(k: int)
    requires
        0 <= k < BUILDING_INDEX_COUNT,
    ensures
        0 <= building_index(k) < BUILDING_VERTEX_COUNT,
{
}

/// Every one of the 24 vertices is used by some triangle.
pub proof fn law_every_vertex_used(v: int)
    requires
        0 <= v < BUILDING_VERTEX_COUNT,
    ensures
        exists|k: int| 0 <= k < BUILDING_INDEX_COUNT && #[trigger] building_index(k) == v,
{
    let face = v / 4;
    let corner = v % 4;
    let pos = if corner == 3 { 4 } else { corner };
    let k = 6 * face + pos;
    assert(k / 6 == face && k % 6 == pos) by (nonlinear_arith)
        requires
            k == 6 * face + pos,
            0 <= pos < 6,
    ;
    assert(building_index(k) == v);
}

/// Each face is drawn as two triangles that share the diagonal from its
/// third corner to its first, and use no vertex of another face.
pub proof fn law_faces_are_split_quads(face: int)
    requires
        0 <= face < 6,
    ensures
        building_index(6 * face) == 4 * face,
        building_index(6 * face + 1) == 4 * face + 1,
        building_index(6 * face + 2) == 4 * face + 2,
        building_index(6 * face + 3) == 4 * face + 2,
        building_index(6 * face + 4) == 4 * face + 3,
        building_index(6 * face + 5) == 4 * face,
{
    assert((6 * face + 0) / 6 == face);
    assert((6 * face + 1) / 6 == face);
    assert((6 * face + 2) / 6 == face);
    assert((6 * face + 3) / 6 == face);
    assert((6 * face + 4) / 6 == face);
    assert((6 * face + 5) / 6 == face);
}

} // verus!
