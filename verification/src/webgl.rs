use crate::error::MeshError;
use crate::mesh::{RawMesh, MAX_INDEX};
use crate::object_loader::{
    get_texture_indices, get_texture_positions, get_vertex_indices, get_vertex_positions,
    interleaved, merge_malformed, merge_vertex_and_texture_positions, sequential_indices,
    texcoord_v,
};
use vstd::prelude::*;

verus! {

/// Bytes that one scalar takes in a device buffer.
pub const SCALAR_BYTES: i32 = 4;

/// What a vertex attribute feeds to the shaders.
#[derive(Clone, Copy, Debug, PartialEq, Eq, Structural)]
pub enum Attribute {
    Position,
    TexCoord,
    Color,
}

/// How the device finds one attribute of every vertex in the buffer that is
/// bound when the attribute is declared.
#[derive(Clone, Copy, Debug, PartialEq, Eq, Structural)]
pub struct VertexAttribute {
    pub attribute: Attribute,
    /// Scalars that the attribute hands to the shader for one vertex.
    pub components: i32,
    /// Bytes from one vertex to the next; zero where the attribute's scalars
    /// follow each other without a gap.
    pub stride_bytes: i32,
    /// Bytes from the start of a vertex to the attribute.
    pub offset_bytes: i32,
}

impl VertexAttribute {
    /// Scalars from one vertex to the next.
    pub open spec fn scalars_per_vertex(self) -> int {
        if self.stride_bytes == 0 {
            self.components as int
        } else {
            self.stride_bytes as int / SCALAR_BYTES as int
        }
    }

    /// Where in the buffer the attribute of vertex `vertex` starts, counted
    /// in scalars.
    pub open spec fn first_scalar(self, vertex: int) -> int {
        self.scalars_per_vertex() * vertex + self.offset_bytes as int / SCALAR_BYTES as int
    }
}

/// The position attribute: three scalars at the start of every vertex, which
/// is five scalars long in the interleaved buffer of a textured mesh and
/// holds nothing else in the buffer of any other mesh.
pub open spec fn spec_position_attribute(textured: bool) -> VertexAttribute {
    VertexAttribute {
        attribute: Attribute::Position,
        components: 3,
        stride_bytes: if textured {
            20
        } else {
            0
        },
        offset_bytes: 0,
    }
}

/// The texture attribute of the interleaved buffer: two scalars behind the
/// three of the position.
pub open spec fn spec_texcoord_attribute() -> VertexAttribute {
    VertexAttribute { attribute: Attribute::TexCoord, components: 2, stride_bytes: 20, offset_bytes: 12 }
}

/// The colour attribute of an untextured mesh: four scalars, without a gap,
/// in a buffer of its own.
pub open spec fn spec_color_attribute() -> VertexAttribute {
    VertexAttribute { attribute: Attribute::Color, components: 4, stride_bytes: 0, offset_bytes: 0 }
}

/// How the device reads positions from the vertex buffer of a mesh.
pub fn position_attribute(textured: bool) -> (attribute: VertexAttribute)
    ensures
        attribute == spec_position_attribute(textured),
{
    VertexAttribute {
        attribute: Attribute::Position,
        components: 3,
        stride_bytes: if textured {
            5 * SCALAR_BYTES
        } else {
            0
        },
        offset_bytes: 0,
    }
}

/// How the device reads texture positions from the interleaved buffer.
pub fn texcoord_attribute() -> (attribute: VertexAttribute)
    ensures
        attribute == spec_texcoord_attribute(),
{
    VertexAttribute {
        attribute: Attribute::TexCoord,
        components: 2,
        stride_bytes: 5 * SCALAR_BYTES,
        offset_bytes: 3 * SCALAR_BYTES,
    }
}

/// How the device reads the placeholder colours of an untextured mesh.
pub fn color_attribute() -> (attribute: VertexAttribute)
    ensures
        attribute == spec_color_attribute(),
{
    VertexAttribute { attribute: Attribute::Color, components: 4, stride_bytes: 0, offset_bytes: 0 }
}

/// The two attributes of the interleaved buffer find exactly what the
/// interleaving put there: for every corner, the position attribute starts at
/// the three scalars of the corner's position and the texture attribute at
/// the two scalars of its texture position, and together they cover the
/// whole record.
pub proof fn lemma_attributes_match_interleaving<S, F: Fn(S) -> S>(
    positions: Seq<S>,
    position_indices: Seq<u16>,
    texcoords: Seq<S>,
    texcoord_indices: Seq<u16>,
    flip_v: F,
    out: Seq<S>,
    corner: int,
)
    requires
        interleaved(positions, position_indices, texcoords, texcoord_indices, flip_v, out),
        0 <= corner < position_indices.len(),
    ensures
        ({
            let position = spec_position_attribute(true);
            let texcoord = spec_texcoord_attribute();
            let p = 3 * (position_indices[corner] as int);
            let t = 2 * (texcoord_indices[corner] as int);
            &&& position.scalars_per_vertex() == 5 == texcoord.scalars_per_vertex()
            &&& position.components + texcoord.components == 5
            &&& texcoord.first_scalar(corner) == position.first_scalar(corner)
                + position.components
            &&& out[position.first_scalar(corner)] == positions[p]
            &&& out[position.first_scalar(corner) + 1] == positions[p + 1]
            &&& out[position.first_scalar(corner) + 2] == positions[p + 2]
            &&& out[texcoord.first_scalar(corner)] == texcoords[t]
            &&& call_ensures(flip_v, (texcoords[t + 1],), out[texcoord.first_scalar(corner) + 1])
        }),
{
    assert(crate::object_loader::corner_emitted(
        positions,
        position_indices,
        texcoords,
        texcoord_indices,
        flip_v,
        out,
        corner,
    ));
}

/// What the device gets for one mesh: the vertex buffer and the index buffer
/// that draws from it.
#[derive(Clone, Debug, PartialEq)]
pub struct MeshBuffers<S> {
    /// Whether the vertex buffer is interleaved with texture positions.
    pub textured: bool,
    pub vertex_data: Vec<S>,
    pub indices: Vec<u16>,
}

/// The attributes that go with the buffers of a mesh, in the order they are
/// declared. A textured mesh has its positions and its texture positions, both
/// read from the interleaved vertex buffer. Any other mesh has its positions,
/// read from the vertex buffer, and its placeholder colours, read from a
/// buffer of their own.
pub open spec fn spec_attributes(textured: bool) -> Seq<VertexAttribute> {
    if textured {
        seq![spec_position_attribute(true), spec_texcoord_attribute()]
    } else {
        seq![spec_position_attribute(false), spec_color_attribute()]
    }
}

impl<S> MeshBuffers<S> {
    /// How many placeholder shades go with the buffers: one for every
    /// triangle of an untextured mesh, none for a textured one.
    pub open spec fn spec_shade_count(self) -> int {
        if self.textured {
            0
        } else {
            self.indices@.len() as int / 3
        }
    }

    /// The attributes to declare for these buffers, in order.
    pub fn attributes(&self) -> (attributes: Vec<VertexAttribute>)
        ensures
            attributes@ == spec_attributes(self.textured),
    {
        let attributes = if self.textured {
            vec![position_attribute(true), texcoord_attribute()]
        } else {
            vec![position_attribute(false), color_attribute()]
        };
        assert(attributes@ =~= spec_attributes(self.textured));
        attributes
    }

    /// How many placeholder shades to draw for these buffers. The colours
    /// of the mesh are then `triangle_colors` of that many shades.
    pub fn shade_count(&self) -> (count: usize)
        ensures
            count == self.spec_shade_count(),
    {
        if self.textured {
            0
        } else {
            self.indices.len() / 3
        }
    }
}

/// How many vertices the device gets for the mesh: one for every corner of
/// a textured mesh, one for every position of any other.
pub open spec fn emitted_vertices<S>(mesh: RawMesh<S>) -> int {
    if mesh.textured() {
        3 * (mesh.faces@.len() as int)
    } else {
        mesh.vertices@.len() as int
    }
}

/// Why the mesh cannot be buffered, if it cannot. The position side is
/// looked at first, then the texture side, then the number of vertices.
pub open spec fn buffer_error<S>(mesh: RawMesh<S>) -> Option<MeshError> {
    if mesh.positions_malformed() {
        Some(MeshError::MalformedMesh)
    } else if mesh.positions_too_large() {
        Some(MeshError::MeshTooLarge)
    } else if mesh.texcoords_malformed() {
        Some(MeshError::MalformedMesh)
    } else if mesh.texcoords_too_large() {
        Some(MeshError::MeshTooLarge)
    } else if emitted_vertices(mesh) > MAX_INDEX {
        Some(MeshError::MeshTooLarge)
    } else {
        None
    }
}

/// `buffers` are the buffers of `mesh`. A textured mesh gets the interleaved
/// buffer of its corners and the indices 0, 1, 2 and so on, one for every
/// corner. Any other mesh gets its positions as they are and its position
/// indices as they are.
pub open spec fn buffers_of<S, F: Fn(S) -> S>(
    mesh: RawMesh<S>,
    flip_v: F,
    buffers: MeshBuffers<S>,
) -> bool {
    &&& buffers.textured == mesh.textured()
    &&& if mesh.textured() {
        &&& interleaved(
            mesh.flat_positions(),
            mesh.position_indices(),
            mesh.flat_texcoords(),
            mesh.texcoord_indices(),
            flip_v,
            buffers.vertex_data@,
        )
        &&& buffers.indices@ == Seq::new(3 * mesh.faces@.len(), |i: int| i as u16)
    } else {
        &&& buffers.vertex_data@ == mesh.flat_positions()
        &&& buffers.indices@ == mesh.position_indices()
    }
}

/// `flip_v` can be called on the v of every texture position of `mesh`.
pub open spec fn flip_accepts<S, F: Fn(S) -> S>(mesh: RawMesh<S>, flip_v: F) -> bool {
    forall|i: int|
        0 <= i < mesh.tex_vertices@.len() ==> call_requires(
            flip_v,
            ((#[trigger] mesh.tex_vertices@[i]).v,),
        )
}

/// Prepares the buffers of one mesh. A mesh with texture positions is
/// interleaved, every corner a vertex of its own; any other mesh keeps its
/// positions and its indices unchanged.
///
/// Fails, before anything is handed out, with the error that `buffer_error`
/// gives for the mesh.
pub fn buffer_obj<S: Copy, F: Fn(S) -> S>(obj: &RawMesh<S>, flip_v: &F) -> (r: Result<
    MeshBuffers<S>,
    MeshError,
>)
    requires
        flip_accepts(*obj, *flip_v),
    ensures
        match r {
            Ok(buffers) => buffer_error(*obj) is None && buffers_of(*obj, *flip_v, buffers),
            Err(e) => buffer_error(*obj) == Some(e),
        },
{
    let vertex_positions = get_vertex_positions(obj);
    let vertex_indices = match get_vertex_indices(obj) {
        Ok(indices) => indices,
        Err(e) => {
            return Err(e);
        },
    };
    let texture_positions = get_texture_positions(obj);
    let texture_indices = match get_texture_indices(obj) {
        Ok(indices) => indices,
        Err(e) => {
            return Err(e);
        },
    };
    if texture_positions.len() > 0 {
        proof {
            assert forall|t: int| 0 <= t < texture_positions@.len() / 2 implies call_requires(
                *flip_v,
                (#[trigger] texcoord_v(texture_positions@, t),),
            ) by {
                assert(texcoord_v(texture_positions@, t) == obj.tex_vertices@[t].v);
            }
            assert(!merge_malformed(
                vertex_positions@,
                vertex_indices@,
                texture_positions@,
                texture_indices@,
            ));
        }
        match merge_vertex_and_texture_positions(
            &vertex_positions,
            &vertex_indices,
            &texture_positions,
            &texture_indices,
            flip_v,
        ) {
            Ok(merged) => {
                let count: u16 = (merged.len() / 5) as u16;
                let indices = sequential_indices(count);
                assert(indices@ =~= Seq::new(3 * obj.faces@.len(), |i: int| i as u16));
                Ok(MeshBuffers { textured: true, vertex_data: merged, indices })
            },
            Err(e) => Err(e),
        }
    } else {
        if obj.vertices.len() > MAX_INDEX {
            return Err(MeshError::MeshTooLarge);
        }
        Ok(MeshBuffers { textured: false, vertex_data: vertex_positions, indices: vertex_indices })
    }
}

/// The placeholder colours of an untextured mesh: the shade of every
/// triangle three times, once for each of its corners. The shades are filler
/// to tell the triangles apart, not data of the mesh.
pub fn triangle_colors<S: Copy>(shades: &Vec<S>) -> (colors: Vec<S>)
    ensures
        colors@ == Seq::new(3 * shades@.len(), |k: int| shades@[k / 3]),
{
    let mut colors: Vec<S> = Vec::new();
    let n: usize = shades.len();
    let mut t: usize = 0;
    while t < n
        invariant
            n == shades@.len(),
            t <= n,
            colors@.len() == 3 * t,
            forall|k: int| 0 <= k < 3 * t ==> colors@[k] == shades@[k / 3],
        decreases n - t,
    {
        let shade: S = shades[t];
        colors.push(shade);
        colors.push(shade);
        colors.push(shade);
        t += 1;
    }
    colors
}

/// The meshes of a scene that get buffers, in their order: those that have
/// at least one position. A mesh without positions is debris of the mesh
/// source and is passed over.
pub open spec fn drawable<S>(objects: Seq<RawMesh<S>>) -> Seq<RawMesh<S>>
    decreases objects.len(),
{
    if objects.len() == 0 {
        Seq::empty()
    } else if objects.last().vertices@.len() != 0 {
        drawable(objects.drop_last()).push(objects.last())
    } else {
        drawable(objects.drop_last())
    }
}

/// The drawable meshes among the first `n` of a scene are the first drawable
/// meshes of the whole scene.
pub proof fn lemma_drawable_prefix<S>(objects: Seq<RawMesh<S>>, n: int)
    requires
        0 <= n <= objects.len(),
    ensures
        drawable(objects.take(n)).len() <= drawable(objects).len(),
        forall|k: int|
            0 <= k < drawable(objects.take(n)).len() ==> drawable(objects)[k] == drawable(
                objects.take(n),
            )[k],
    decreases objects.len() - n,
{
    if n == objects.len() {
        assert(objects.take(n) =~= objects);
    } else {
        lemma_drawable_prefix(objects, n + 1);
        assert(objects.take(n + 1).drop_last() =~= objects.take(n));
    }
}

/// Mesh `k` of `meshes` can be buffered, and entry `k` of `scene` holds its
/// buffers.
pub open spec fn buffered_at<S, F: Fn(S) -> S>(
    meshes: Seq<RawMesh<S>>,
    flip_v: F,
    scene: Seq<MeshBuffers<S>>,
    k: int,
) -> bool {
    buffer_error(meshes[k]) is None && buffers_of(meshes[k], flip_v, scene[k])
}

/// Mesh `k` is the first of `meshes` that cannot be buffered, and `error`
/// is why.
pub open spec fn first_failure<S>(meshes: Seq<RawMesh<S>>, k: int, error: MeshError) -> bool {
    &&& 0 <= k < meshes.len()
    &&& buffer_error(meshes[k]) == Some(error)
    &&& forall|j: int| 0 <= j < k ==> buffer_error(#[trigger] meshes[j]) is None
}

/// Prepares the buffers of every drawable mesh of a scene, in order. The
/// scene loads as a whole or not at all: the first mesh that cannot be
/// buffered ends the work with its error.
pub fn buffer_scene<S: Copy, F: Fn(S) -> S>(objects: &Vec<RawMesh<S>>, flip_v: &F) -> (r: Result<
    Vec<MeshBuffers<S>>,
    MeshError,
>)
    requires
        forall|o: int| 0 <= o < objects@.len() ==> flip_accepts(#[trigger] objects@[o], *flip_v),
    ensures
        match r {
            Ok(scene) => {
                &&& scene@.len() == drawable(objects@).len()
                &&& forall|k: int|
                    0 <= k < scene@.len() ==> #[trigger] buffered_at(
                        drawable(objects@),
                        *flip_v,
                        scene@,
                        k,
                    )
            },
            Err(e) => exists|k: int| #[trigger] first_failure(drawable(objects@), k, e),
        },
{
    let mut scene: Vec<MeshBuffers<S>> = Vec::new();
    let n: usize = objects.len();
    let mut i: usize = 0;
    while i < n
        invariant
            n == objects@.len(),
            i <= n,
            forall|o: int|
                0 <= o < objects@.len() ==> flip_accepts(#[trigger] objects@[o], *flip_v),
            scene@.len() == drawable(objects@.take(i as int)).len(),
            forall|k: int|
                0 <= k < scene@.len() ==> #[trigger] buffered_at(
                    drawable(objects@.take(i as int)),
                    *flip_v,
                    scene@,
                    k,
                ),
        decreases n - i,
    {
        let ghost before = drawable(objects@.take(i as int));
        let ghost after = drawable(objects@.take(i + 1));
        let ghost held = scene@;
        proof {
            assert(objects@.take(i + 1).drop_last() =~= objects@.take(i as int));
            assert(objects@.take(i + 1).last() == objects@[i as int]);
            assert(after == if objects@[i as int].vertices@.len() != 0 {
                before.push(objects@[i as int])
            } else {
                before
            });
        }
        if objects[i].vertices.len() != 0 {
            match buffer_obj(&objects[i], flip_v) {
                Ok(buffers) => {
                    scene.push(buffers);
                    proof {
                        assert forall|k: int| 0 <= k < scene@.len() implies #[trigger] buffered_at(
                            after,
                            *flip_v,
                            scene@,
                            k,
                        ) by {
                            if k < held.len() {
                                assert(buffered_at(before, *flip_v, held, k));
                            }
                        }
                    }
                },
                Err(e) => {
                    proof {
                        let k = held.len() as int;
                        let all = drawable(objects@);
                        lemma_drawable_prefix(objects@, i + 1);
                        assert(all[k] == after[k]);
                        assert forall|j: int| 0 <= j < k implies buffer_error(
                            #[trigger] all[j],
                        ) is None by {
                            assert(all[j] == after[j]);
                            assert(buffered_at(before, *flip_v, held, j));
                        }
                        assert(first_failure(all, k, e));
                    }
                    return Err(e);
                },
            }
        }
        i += 1;
    }
    assert(objects@.take(n as int) =~= objects@);
    Ok(scene)
}

/// For a mesh whose indices are sound and fit sixteen bits, the one thing
/// that makes it too large is the number of vertices it puts on the device:
/// 65535 are buffered, 65536 are not.
pub proof fn lemma_too_large_iff_over_ceiling<S>(mesh: RawMesh<S>)
    requires
        mesh.is_valid(),
        !mesh.positions_too_large(),
        !mesh.texcoords_too_large(),
    ensures
        buffer_error(mesh) == Some(MeshError::MeshTooLarge) <==> emitted_vertices(mesh)
            > 65535,
        buffer_error(mesh) is None <==> emitted_vertices(mesh) <= 65535,
{
}

/// A sound mesh without texture positions is too large exactly when it has
/// more than 65535 positions, and never malformed.
pub proof fn lemma_untextured_too_large_iff_over_ceiling<S>(mesh: RawMesh<S>)
    requires
        mesh.is_valid(),
        !mesh.textured(),
    ensures
        buffer_error(mesh) == Some(MeshError::MeshTooLarge) <==> mesh.vertices@.len() > 65535,
        buffer_error(mesh) is None <==> mesh.vertices@.len() <= 65535,
{
    if mesh.positions_too_large() {
        let f = choose|f: int|
            0 <= f < mesh.faces@.len() && !(#[trigger] mesh.faces@[f]).positions_fit();
        assert(mesh.faces@[f].positions_within(mesh.vertices@.len() as int));
    }
    if mesh.texcoords_too_large() {
        let f = choose|f: int|
            0 <= f < mesh.faces@.len() && !(#[trigger] mesh.faces@[f]).texcoords_fit();
        assert(mesh.face_texcoords_ok(f));
    }
}

/// The buffers of a mesh without texture positions are the mesh itself: the
/// positions in the order the mesh declares them, nothing added and nothing
/// changed, and the position indices of its corners as the index buffer.
pub proof fn lemma_untextured_buffers_pass_through<S, F: Fn(S) -> S>(
    mesh: RawMesh<S>,
    flip_v: F,
    buffers: MeshBuffers<S>,
)
    requires
        !mesh.textured(),
        buffers_of(mesh, flip_v, buffers),
    ensures
        !buffers.textured,
        buffers.vertex_data@ == mesh.flat_positions(),
        buffers.indices@ == mesh.position_indices(),
{
}

/// The buffers of a mesh belong together: the indices come in threes, and
/// every index names a vertex of the vertex buffer, which holds five scalars
/// for each vertex of a textured mesh and three for each vertex of any other.
pub proof fn lemma_indices_name_buffered_vertices<S, F: Fn(S) -> S>(
    mesh: RawMesh<S>,
    flip_v: F,
    buffers: MeshBuffers<S>,
)
    requires
        buffer_error(mesh) is None,
        buffers_of(mesh, flip_v, buffers),
    ensures
        buffers.indices@.len() == 3 * mesh.faces@.len(),
        buffers.vertex_data@.len() == emitted_vertices(mesh) * if buffers.textured {
            5int
        } else {
            3int
        },
        forall|i: int|
            0 <= i < buffers.indices@.len() ==> (#[trigger] buffers.indices@[i] as int)
                < emitted_vertices(mesh),
{
    if !mesh.textured() {
        crate::mesh::lemma_position_indices_in_range(mesh);
        assert forall|i: int| 0 <= i < buffers.indices@.len() implies (
        #[trigger] buffers.indices@[i] as int) < emitted_vertices(mesh) by {
            assert(buffers.indices@[i] == mesh.position_indices()[i]);
        }
    }
}

/// The buffers of a mesh fix what else the device is told: a textured mesh
/// declares its positions and its texture positions with the layout of the
/// interleaved buffer, and gets no shades; any other mesh declares its
/// positions and its colours, and gets one shade for every triangle.
pub proof fn lemma_buffers_fix_attributes_and_shades<S, F: Fn(S) -> S>(
    mesh: RawMesh<S>,
    flip_v: F,
    buffers: MeshBuffers<S>,
)
    requires
        buffers_of(mesh, flip_v, buffers),
    ensures
        spec_attributes(buffers.textured) == if mesh.textured() {
            seq![
                (VertexAttribute {
                    attribute: Attribute::Position,
                    components: 3,
                    stride_bytes: 20,
                    offset_bytes: 0,
                }),
                (VertexAttribute {
                    attribute: Attribute::TexCoord,
                    components: 2,
                    stride_bytes: 20,
                    offset_bytes: 12,
                }),
            ]
        } else {
            seq![
                (VertexAttribute {
                    attribute: Attribute::Position,
                    components: 3,
                    stride_bytes: 0,
                    offset_bytes: 0,
                }),
                (VertexAttribute {
                    attribute: Attribute::Color,
                    components: 4,
                    stride_bytes: 0,
                    offset_bytes: 0,
                }),
            ]
        },
        buffers.spec_shade_count() == if mesh.textured() {
            0
        } else {
            mesh.faces@.len() as int
        },
{
}

} // verus!
