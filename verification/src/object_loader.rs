use crate::error::MeshError;
use crate::mesh::{Primitive, RawMesh, MAX_INDEX};
use vstd::prelude::*;

verus! {

/// Lays the positions of `data` out flat, in the order the mesh declares them.
pub fn get_vertex_positions<S: Copy>(data: &RawMesh<S>) -> (out: Vec<S>)
    ensures
        out@ == data.flat_positions(),
{
    let mut out: Vec<S> = Vec::new();
    let n: usize = data.vertices.len();
    let mut i: usize = 0;
    while i < n
        invariant
            n == data.vertices@.len(),
            i <= n,
            out@.len() == 3 * i,
            forall|k: int| 0 <= k < 3 * i ==> out@[k] == data.vertices@[k / 3].component(k % 3),
        decreases n - i,
    {
        let v = data.vertices[i];
        out.push(v.x);
        out.push(v.y);
        out.push(v.z);
        i += 1;
    }
    out
}

/// Lays the texture positions of `data` out flat, in the order the mesh
/// declares them.
pub fn get_texture_positions<S: Copy>(data: &RawMesh<S>) -> (out: Vec<S>)
    ensures
        out@ == data.flat_texcoords(),
{
    let mut out: Vec<S> = Vec::new();
    let n: usize = data.tex_vertices.len();
    let mut i: usize = 0;
    while i < n
        invariant
            n == data.tex_vertices@.len(),
            i <= n,
            out@.len() == 2 * i,
            forall|k: int|
                0 <= k < 2 * i ==> out@[k] == data.tex_vertices@[k / 2].component(k % 2),
        decreases n - i,
    {
        let t = data.tex_vertices[i];
        out.push(t.u);
        out.push(t.v);
        i += 1;
    }
    out
}

/// The position index of every corner, three to a triangle, each triangle
/// rewound so that its second corner comes first.
///
/// Fails with `MalformedMesh` on a mesh without faces, with a face that is no
/// triangle or with an index that names no vertex; otherwise with
/// `MeshTooLarge` if an index does not fit sixteen bits.
pub fn get_vertex_indices<S>(data: &RawMesh<S>) -> (r: Result<Vec<u16>, MeshError>)
    ensures
        match r {
            Ok(out) => {
                &&& !data.positions_malformed()
                &&& !data.positions_too_large()
                &&& out@ == data.position_indices()
                &&& out@.len() == 3 * data.faces@.len()
                &&& forall|k: int|
                    0 <= k < out@.len() ==> (#[trigger] out@[k]) as int == data.corner(
                        k,
                    ).position < data.vertices@.len()
            },
            Err(MeshError::MalformedMesh) => data.positions_malformed(),
            Err(MeshError::MeshTooLarge) => !data.positions_malformed()
                && data.positions_too_large(),
        },
{
    let n: usize = data.faces.len();
    if n == 0 {
        return Err(MeshError::MalformedMesh);
    }
    let count: usize = data.vertices.len();
    let mut out: Vec<u16> = Vec::new();
    let mut fits: bool = true;
    let mut f: usize = 0;
    while f < n
        invariant
            n == data.faces@.len(),
            count == data.vertices@.len(),
            f <= n,
            forall|j: int| 0 <= j < f ==> (#[trigger] data.faces@[j]).positions_within(count as int),
            fits <==> forall|j: int| 0 <= j < f ==> (#[trigger] data.faces@[j]).positions_fit(),
            fits ==> out@.len() == 3 * f,
            fits ==> forall|k: int|
                0 <= k < 3 * f ==> out@[k] as int == (#[trigger] data.corner(k)).position,
        decreases n - f,
    {
        match data.faces[f] {
            Primitive::Triangle(a, b, c) => {
                if a.position >= count || b.position >= count || c.position >= count {
                    assert(!data.faces@[f as int].positions_within(count as int));
                    return Err(MeshError::MalformedMesh);
                }
                if fits && a.position <= MAX_INDEX && b.position <= MAX_INDEX && c.position
                    <= MAX_INDEX {
                    out.push(b.position as u16);
                    out.push(c.position as u16);
                    out.push(a.position as u16);
                } else {
                    if fits {
                        assert(!data.faces@[f as int].positions_fit());
                    }
                    fits = false;
                }
            },
            _ => {
                assert(!data.faces@[f as int].positions_within(count as int));
                return Err(MeshError::MalformedMesh);
            },
        }
        f += 1;
    }
    if fits {
        assert forall|k: int| 0 <= k < out@.len() implies (#[trigger] out@[k]) as int
            == data.corner(k).position < data.vertices@.len() by {
            assert(data.faces@[k / 3].positions_within(count as int));
            assert(out@[k] as int == data.corner(k).position);
        }
        assert(out@ =~= data.position_indices());
        Ok(out)
    } else {
        Err(MeshError::MeshTooLarge)
    }
}

/// The texture index of every corner, three to a triangle, rewound as the
/// position indices are. A mesh without texture positions has none.
///
/// Fails with `MalformedMesh` on a mesh without faces, with a face that is no
/// triangle, with a corner that lacks a texture index although the mesh has
/// texture positions, or with an index that names no texture position;
/// otherwise with `MeshTooLarge` if an index does not fit sixteen bits.
pub fn get_texture_indices<S>(data: &RawMesh<S>) -> (r: Result<Vec<u16>, MeshError>)
    ensures
        match r {
            Ok(out) => {
                &&& !data.texcoords_malformed()
                &&& !data.texcoords_too_large()
                &&& out@ == data.texcoord_indices()
                &&& out@.len() == if data.textured() {
                    3 * data.faces@.len()
                } else {
                    0
                }
                &&& forall|k: int|
                    0 <= k < out@.len() ==> data.corner(k).texcoord == Some(
                        (#[trigger] out@[k]) as usize,
                    ) && (out@[k] as int) < data.tex_vertices@.len()
            },
            Err(MeshError::MalformedMesh) => data.texcoords_malformed(),
            Err(MeshError::MeshTooLarge) => !data.texcoords_malformed()
                && data.texcoords_too_large(),
        },
{
    let n: usize = data.faces.len();
    if n == 0 {
        return Err(MeshError::MalformedMesh);
    }
    let count: usize = data.tex_vertices.len();
    let textured: bool = count > 0;
    let mut out: Vec<u16> = Vec::new();
    let mut fits: bool = true;
    let mut f: usize = 0;
    while f < n
        invariant
            n == data.faces@.len(),
            count == data.tex_vertices@.len(),
            textured == data.textured(),
            f <= n,
            forall|j: int| 0 <= j < f ==> #[trigger] data.face_texcoords_ok(j),
            fits <==> forall|j: int| 0 <= j < f ==> (#[trigger] data.faces@[j]).texcoords_fit(),
            fits && textured ==> out@.len() == 3 * f,
            !textured ==> out@.len() == 0,
            fits && textured ==> forall|k: int|
                0 <= k < 3 * f ==> (#[trigger] data.corner(k)).texcoord == Some(
                    out@[k] as usize,
                ),
        decreases n - f,
    {
        match data.faces[f] {
            Primitive::Triangle(a, b, c) => {
                if textured {
                    match (a.texcoord, b.texcoord, c.texcoord) {
                        (Some(ta), Some(tb), Some(tc)) => {
                            if ta >= count || tb >= count || tc >= count {
                                assert(!data.face_texcoords_ok(f as int));
                                return Err(MeshError::MalformedMesh);
                            }
                            if fits && ta <= MAX_INDEX && tb <= MAX_INDEX && tc <= MAX_INDEX {
                                out.push(tb as u16);
                                out.push(tc as u16);
                                out.push(ta as u16);
                            } else {
                                if fits {
                                    assert(!data.faces@[f as int].texcoords_fit());
                                }
                                fits = false;
                            }
                        },
                        _ => {
                            assert(!data.face_texcoords_ok(f as int));
                            return Err(MeshError::MalformedMesh);
                        },
                    }
                } else {
                    if a.texcoord.is_some() || b.texcoord.is_some() || c.texcoord.is_some() {
                        assert(!data.face_texcoords_ok(f as int));
                        return Err(MeshError::MalformedMesh);
                    }
                    assert(data.faces@[f as int].texcoords_fit());
                }
            },
            _ => {
                assert(!data.face_texcoords_ok(f as int));
                return Err(MeshError::MalformedMesh);
            },
        }
        f += 1;
    }
    if fits {
        assert forall|k: int| 0 <= k < out@.len() implies data.corner(k).texcoord == Some(
            (#[trigger] out@[k]) as usize,
        ) && (out@[k] as int) < data.tex_vertices@.len() by {
            assert(data.face_texcoords_ok(k / 3));
            assert(data.corner(k).texcoord == Some(out@[k] as usize));
        }
        assert(out@ =~= data.texcoord_indices());
        Ok(out)
    } else {
        Err(MeshError::MeshTooLarge)
    }
}

/// Every index of `indices` names one of `count` items.
pub open spec fn indices_within(indices: Seq<u16>, count: int) -> bool {
    forall|i: int| 0 <= i < indices.len() ==> (#[trigger] indices[i] as int) < count
}

/// The v of texture position `t` in a flat array of texture positions.
pub open spec fn texcoord_v<S>(texcoords: Seq<S>, t: int) -> S {
    texcoords[2 * t + 1]
}

/// The arrays cannot be interleaved: the corners do not come in threes, the
/// two index arrays differ in length, or an index names nothing.
pub open spec fn merge_malformed<S>(
    positions: Seq<S>,
    position_indices: Seq<u16>,
    texcoords: Seq<S>,
    texcoord_indices: Seq<u16>,
) -> bool {
    ||| position_indices.len() % 3 != 0
    ||| texcoord_indices.len() != position_indices.len()
    ||| !indices_within(position_indices, positions.len() as int / 3)
    ||| !indices_within(texcoord_indices, texcoords.len() as int / 2)
}

/// Record `i` of `out` is corner `i`: the three scalars of its position, the
/// u of its texture position, and what `flip_v` made of the v.
pub open spec fn corner_emitted<S, F: Fn(S) -> S>(
    positions: Seq<S>,
    position_indices: Seq<u16>,
    texcoords: Seq<S>,
    texcoord_indices: Seq<u16>,
    flip_v: F,
    out: Seq<S>,
    i: int,
) -> bool {
    let p = 3 * (position_indices[i] as int);
    let t = 2 * (texcoord_indices[i] as int);
    &&& out[5 * i] == positions[p]
    &&& out[5 * i + 1] == positions[p + 1]
    &&& out[5 * i + 2] == positions[p + 2]
    &&& out[5 * i + 3] == texcoords[t]
    &&& call_ensures(flip_v, (texcoords[t + 1],), out[5 * i + 4])
}

/// `out` is the interleaved buffer of the arrays: one record of five scalars
/// for every corner, in the order of the index arrays.
pub open spec fn interleaved<S, F: Fn(S) -> S>(
    positions: Seq<S>,
    position_indices: Seq<u16>,
    texcoords: Seq<S>,
    texcoord_indices: Seq<u16>,
    flip_v: F,
    out: Seq<S>,
) -> bool {
    &&& out.len() == 5 * position_indices.len()
    &&& forall|i: int|
        0 <= i < position_indices.len() ==> #[trigger] corner_emitted(
            positions,
            position_indices,
            texcoords,
            texcoord_indices,
            flip_v,
            out,
            i,
        )
}

/// Builds the interleaved vertex buffer of a textured mesh: for every corner
/// the position that its position index names and the texture position that
/// its texture index names, the v of the latter passed through `flip_v`.
/// Corners are never shared: every corner becomes a vertex of its own.
///
/// Fails with `MeshTooLarge` if there are more corners than sixteen-bit
/// indices can number, otherwise with `MalformedMesh` if the corners do not
/// come in threes, the index arrays differ in length or an index names
/// nothing.
pub fn merge_vertex_and_texture_positions<S: Copy, F: Fn(S) -> S>(
    vertex_positions: &Vec<S>,
    vertex_indices: &Vec<u16>,
    texture_positions: &Vec<S>,
    texture_indices: &Vec<u16>,
    flip_v: &F,
) -> (r: Result<Vec<S>, MeshError>)
    requires
        forall|t: int|
            0 <= t < texture_positions@.len() / 2 ==> call_requires(
                *flip_v,
                (#[trigger] texcoord_v(texture_positions@, t),),
            ),
    ensures
        match r {
            Ok(out) => {
                &&& vertex_indices@.len() <= MAX_INDEX
                &&& !merge_malformed(
                    vertex_positions@,
                    vertex_indices@,
                    texture_positions@,
                    texture_indices@,
                )
                &&& interleaved(
                    vertex_positions@,
                    vertex_indices@,
                    texture_positions@,
                    texture_indices@,
                    *flip_v,
                    out@,
                )
            },
            Err(MeshError::MeshTooLarge) => vertex_indices@.len() > MAX_INDEX,
            Err(MeshError::MalformedMesh) => vertex_indices@.len() <= MAX_INDEX && merge_malformed(
                vertex_positions@,
                vertex_indices@,
                texture_positions@,
                texture_indices@,
            ),
        },
{
    let n: usize = vertex_indices.len();
    if n > MAX_INDEX {
        return Err(MeshError::MeshTooLarge);
    }
    if n % 3 != 0 || texture_indices.len() != n {
        return Err(MeshError::MalformedMesh);
    }
    let vertex_count: usize = vertex_positions.len() / 3;
    let texcoord_count: usize = texture_positions.len() / 2;
    let mut out: Vec<S> = Vec::new();
    let mut i: usize = 0;
    while i < n
        invariant
            n == vertex_indices@.len(),
            n == texture_indices@.len(),
            n <= MAX_INDEX,
            n % 3 == 0,
            vertex_count == vertex_positions@.len() / 3,
            texcoord_count == texture_positions@.len() / 2,
            i <= n,
            out@.len() == 5 * i,
            forall|t: int|
                0 <= t < texture_positions@.len() / 2 ==> call_requires(
                    *flip_v,
                    (#[trigger] texcoord_v(texture_positions@, t),),
                ),
            forall|j: int| 0 <= j < i ==> (#[trigger] vertex_indices@[j] as int) < vertex_count,
            forall|j: int| 0 <= j < i ==> (#[trigger] texture_indices@[j] as int) < texcoord_count,
            forall|j: int|
                0 <= j < i ==> #[trigger] corner_emitted(
                    vertex_positions@,
                    vertex_indices@,
                    texture_positions@,
                    texture_indices@,
                    *flip_v,
                    out@,
                    j,
                ),
        decreases n - i,
    {
        let vi: usize = vertex_indices[i] as usize;
        let ti: usize = texture_indices[i] as usize;
        if vi >= vertex_count || ti >= texcoord_count {
            proof {
                if vi >= vertex_count {
                    assert(vertex_indices@[i as int] as int >= vertex_positions@.len() as int / 3);
                } else {
                    assert(texture_indices@[i as int] as int >= texture_positions@.len() as int
                        / 2);
                }
            }
            return Err(MeshError::MalformedMesh);
        }
        let ghost before = out@;
        out.push(vertex_positions[vi * 3]);
        out.push(vertex_positions[vi * 3 + 1]);
        out.push(vertex_positions[vi * 3 + 2]);
        out.push(texture_positions[ti * 2]);
        assert(texcoord_v(texture_positions@, ti as int) == texture_positions@[ti * 2 + 1]);
        let v: S = flip_v(texture_positions[ti * 2 + 1]);
        out.push(v);
        proof {
            assert forall|j: int| 0 <= j < i implies #[trigger] corner_emitted(
                vertex_positions@,
                vertex_indices@,
                texture_positions@,
                texture_indices@,
                *flip_v,
                out@,
                j,
            ) by {
                assert(corner_emitted(
                    vertex_positions@,
                    vertex_indices@,
                    texture_positions@,
                    texture_indices@,
                    *flip_v,
                    before,
                    j,
                ));
            }
        }
        i += 1;
    }
    Ok(out)
}

/// The index buffer of a mesh whose every corner is a vertex of its own:
/// `count` indices, each its own place.
pub fn sequential_indices(count: u16) -> (out: Vec<u16>)
    ensures
        out@.len() == count,
        forall|i: int| 0 <= i < count ==> out@[i] == i,
{
    let mut out: Vec<u16> = Vec::new();
    let mut i: u16 = 0;
    while i < count
        invariant
            i <= count,
            out@.len() == i,
            forall|j: int| 0 <= j < i ==> out@[j] == j,
        decreases count - i,
    {
        out.push(i);
        i += 1;
    }
    out
}

} // verus!
