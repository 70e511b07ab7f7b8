use vstd::prelude::*;

verus! {

/// Why a mesh cannot be turned into device buffers.
#[derive(Clone, Copy, Debug, PartialEq, Eq, Structural)]
pub enum MeshError {
    /// The geometry is empty, a face is not a triangle, or an index has
    /// nothing to point at.
    MalformedMesh,
    /// The mesh needs more vertices than a sixteen-bit index can address.
    MeshTooLarge,
}

impl MeshError {
    /// The text shown for this error.
    pub open spec fn spec_message(self) -> Seq<char> {
        match self {
            MeshError::MalformedMesh => "malformed mesh"@,
            MeshError::MeshTooLarge => "mesh too large for 16-bit indices"@,
        }
    }

    /// The text shown for this error.
    pub fn message(&self) -> (text: &'static str)
        ensures
            text@ == self.spec_message(),
    {
        match self {
            MeshError::MalformedMesh => "malformed mesh",
            MeshError::MeshTooLarge => "mesh too large for 16-bit indices",
        }
    }
}

} // verus!
