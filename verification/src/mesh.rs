use vstd::prelude::*;

verus! {

/// The largest value an index of the index buffer can hold.
pub const MAX_INDEX: usize = 65535;

/// A position in space.
#[derive(Clone, Copy, Debug, PartialEq)]
pub struct Vertex<S> {
    pub x: S,
    pub y: S,
    pub z: S,
}

/// A position on the texture.
#[derive(Clone, Copy, Debug, PartialEq)]
pub struct TexVertex<S> {
    pub u: S,
    pub v: S,
}

/// One corner of a face: which position it uses and, on a textured mesh,
/// which texture position.
#[derive(Clone, Copy, Debug, PartialEq, Eq)]
pub struct Corner {
    pub position: usize,
    pub texcoord: Option<usize>,
}

/// A face as the mesh source declares it. Only triangles can be drawn.
#[derive(Clone, Copy, Debug, PartialEq, Eq)]
pub enum Primitive {
    Point(Corner),
    Line(Corner, Corner),
    Triangle(Corner, Corner, Corner),
}

/// A parsed mesh: positions, texture positions and faces that index both.
#[derive(Clone, Debug, PartialEq)]
pub struct RawMesh<S> {
    pub vertices: Vec<Vertex<S>>,
    pub tex_vertices: Vec<TexVertex<S>>,
    pub faces: Vec<Primitive>,
}

impl<S> Vertex<S> {
    /// Coordinate `k` of the vertex: 0 is x, 1 is y, anything else is z.
    pub open spec fn component(self, k: int) -> S {
        if k == 0 {
            self.x
        } else if k == 1 {
            self.y
        } else {
            self.z
        }
    }
}

impl<S> TexVertex<S> {
    /// Coordinate `k` of the texture position: 0 is u, anything else is v.
    pub open spec fn component(self, k: int) -> S {
        if k == 0 {
            self.u
        } else {
            self.v
        }
    }
}

impl Primitive {
    /// Corner `k` of a triangle in drawing order: the face's second corner
    /// comes first, then its third, then its first.
    pub open spec fn wound(self, k: int) -> Corner
        recommends
            self is Triangle,
    {
        match self {
            Primitive::Triangle(a, b, c) => if k == 0 {
                b
            } else if k == 1 {
                c
            } else {
                a
            },
            Primitive::Line(a, _) => a,
            Primitive::Point(a) => a,
        }
    }

    /// A triangle whose three position indices each name one of `count` vertices.
    pub open spec fn positions_within(self, count: int) -> bool {
        self matches Primitive::Triangle(a, b, c) && a.position < count && b.position < count
            && c.position < count
    }

    /// Every position index of the triangle fits a sixteen-bit index.
    pub open spec fn positions_fit(self) -> bool {
        self matches Primitive::Triangle(a, b, c) ==> a.position <= MAX_INDEX && b.position
            <= MAX_INDEX && c.position <= MAX_INDEX
    }

    /// A triangle whose three corners each name one of `count` texture positions.
    pub open spec fn texcoords_within(self, count: int) -> bool {
        &&& self matches Primitive::Triangle(a, b, c)
        &&& a.texcoord matches Some(ta)
        &&& b.texcoord matches Some(tb)
        &&& c.texcoord matches Some(tc)
        &&& ta < count && tb < count && tc < count
    }

    /// A triangle none of whose corners names a texture position.
    pub open spec fn texcoords_absent(self) -> bool {
        self matches Primitive::Triangle(a, b, c) && a.texcoord is None && b.texcoord is None
            && c.texcoord is None
    }

    /// Every texture index that the triangle carries fits a sixteen-bit index.
    pub open spec fn texcoords_fit(self) -> bool {
        self matches Primitive::Triangle(a, b, c) ==> Self::texcoord_fits(a)
            && Self::texcoord_fits(b) && Self::texcoord_fits(c)
    }

    /// The corner carries no texture index, or one that fits sixteen bits.
    pub open spec fn texcoord_fits(corner: Corner) -> bool {
        corner.texcoord matches Some(t) ==> t <= MAX_INDEX
    }
}

impl<S> RawMesh<S> {
    /// The positions as one flat sequence, three scalars for each vertex.
    pub open spec fn flat_positions(self) -> Seq<S> {
        Seq::new(3 * self.vertices@.len(), |k: int| self.vertices@[k / 3].component(k % 3))
    }

    /// The texture positions as one flat sequence, two scalars for each.
    pub open spec fn flat_texcoords(self) -> Seq<S> {
        Seq::new(
            2 * self.tex_vertices@.len(),
            |k: int| self.tex_vertices@[k / 2].component(k % 2),
        )
    }

    /// Corner `k` of the mesh in drawing order, three corners to a face.
    pub open spec fn corner(self, k: int) -> Corner {
        self.faces@[k / 3].wound(k % 3)
    }

    /// The mesh declares texture positions, so every corner must use one.
    pub open spec fn textured(self) -> bool {
        self.tex_vertices@.len() > 0
    }

    /// The position index of every corner, in drawing order, as the index
    /// buffer holds it.
    pub open spec fn position_indices(self) -> Seq<u16> {
        Seq::new(3 * self.faces@.len(), |k: int| self.corner(k).position as u16)
    }

    /// The texture index of every corner, in drawing order, as the index
    /// arrays hold it; empty on a mesh without texture positions.
    pub open spec fn texcoord_indices(self) -> Seq<u16> {
        if self.textured() {
            Seq::new(3 * self.faces@.len(), |k: int| self.corner(k).texcoord.unwrap() as u16)
        } else {
            Seq::empty()
        }
    }

    /// The mesh has no face, a face that is no triangle, or a position index
    /// that names no vertex.
    pub open spec fn positions_malformed(self) -> bool {
        ||| self.faces@.len() == 0
        ||| exists|f: int|
            0 <= f < self.faces@.len() && !(#[trigger] self.faces@[f]).positions_within(
                self.vertices@.len() as int,
            )
    }

    /// Some position index does not fit a sixteen-bit index.
    pub open spec fn positions_too_large(self) -> bool {
        exists|f: int| 0 <= f < self.faces@.len() && !(#[trigger] self.faces@[f]).positions_fit()
    }

    /// What face `f` must look like on the texture side: all three corners
    /// name a texture position on a textured mesh, none does on any other.
    pub open spec fn face_texcoords_ok(self, f: int) -> bool {
        if self.textured() {
            self.faces@[f].texcoords_within(self.tex_vertices@.len() as int)
        } else {
            self.faces@[f].texcoords_absent()
        }
    }

    /// The mesh has no face, a face that is no triangle, a corner without a
    /// texture index on a textured mesh, or a texture index that names no
    /// texture position.
    pub open spec fn texcoords_malformed(self) -> bool {
        ||| self.faces@.len() == 0
        ||| exists|f: int| 0 <= f < self.faces@.len() && !#[trigger] self.face_texcoords_ok(f)
    }

    /// Some texture index does not fit a sixteen-bit index.
    pub open spec fn texcoords_too_large(self) -> bool {
        exists|f: int| 0 <= f < self.faces@.len() && !(#[trigger] self.faces@[f]).texcoords_fit()
    }

    /// A mesh that can be drawn: it has faces, all of them triangles, every
    /// index names what it points at, and texture indices are there for all
    /// corners or for none.
    pub open spec fn is_valid(self) -> bool {
        !self.positions_malformed() && !self.texcoords_malformed()
    }
}

/// On a mesh whose position side is sound and fits sixteen bits, there are
/// three position indices for every face, each the index its corner carries,
/// and each names a position of the flat position array.
pub proof fn lemma_position_indices_in_range<S>(mesh: RawMesh<S>)
    requires
        !mesh.positions_malformed(),
        !mesh.positions_too_large(),
    ensures
        mesh.position_indices().len() == 3 * mesh.faces@.len(),
        forall|k: int|
            0 <= k < mesh.position_indices().len() ==> (#[trigger] mesh.position_indices()[k])
                as int == mesh.corner(k).position && (mesh.position_indices()[k] as int)
                < mesh.flat_positions().len() / 3,
{
    assert forall|k: int| 0 <= k < mesh.position_indices().len() implies (
    #[trigger] mesh.position_indices()[k]) as int == mesh.corner(k).position && (
    mesh.position_indices()[k] as int) < mesh.flat_positions().len() / 3 by {
        let face = mesh.faces@[k / 3];
        assert(face.positions_within(mesh.vertices@.len() as int));
        assert(face.positions_fit());
    }
}

} // verus!
