//! The fixed quad geometry: four vertices and six indices forming two
//! triangles.
//!
//! Positions are stored in thousandths of a clip-space unit (so `-500` stands
//! for -0.5) and colors in thousandths of full intensity; the unverified shell
//! divides by the scale when it uploads the buffers. The data is immutable for
//! the process lifetime and uploaded once at renderer construction.
use vstd::prelude::*;

verus! {

/// One clip-space unit, in the fixed-point position scale.
pub const POSITION_SCALE: i32 = 1000;

/// A position in clip space, each coordinate in thousandths of a unit.
#[derive(Clone, Copy, Debug, PartialEq, Eq, Structural)]
pub struct Position {
    pub x: i32,
    pub y: i32,
    pub z: i32,
}

impl Position {
    /// Coordinates stay within the clip-space cube.
    pub open spec fn wf(self) -> bool {
        -POSITION_SCALE <= self.x <= POSITION_SCALE
            && -POSITION_SCALE <= self.y <= POSITION_SCALE
            && -POSITION_SCALE <= self.z <= POSITION_SCALE
    }
}

/// An RGB vertex color, each component in thousandths of full intensity.
#[derive(Clone, Copy, Debug, PartialEq, Eq, Structural)]
pub struct VertexColor {
    pub r: u32,
    pub g: u32,
    pub b: u32,
}

impl VertexColor {
    /// Every component lies within the representable intensity range.
    pub open spec fn wf(self) -> bool {
        self.r <= 1000 && self.g <= 1000 && self.b <= 1000
    }
}

/// One vertex of the quad: a 3-component position and a 3-component color.
#[derive(Clone, Copy, Debug, PartialEq, Eq, Structural)]
pub struct Vertex {
    pub position: Position,
    pub color: VertexColor,
}

impl Vertex {
    pub open spec fn wf(self) -> bool {
        self.position.wf() && self.color.wf()
    }
}

/// The four corners of the quad: top-left red, bottom-left green,
/// bottom-right blue, top-right yellow.
pub open spec fn spec_vertices() -> Seq<Vertex> {
    seq![
        Vertex {
            position: Position { x: -500i32, y: 500i32, z: 0i32 },
            color: VertexColor { r: 1000, g: 0, b: 0 },
        },
        Vertex {
            position: Position { x: -500i32, y: -500i32, z: 0i32 },
            color: VertexColor { r: 0, g: 1000, b: 0 },
        },
        Vertex {
            position: Position { x: 500i32, y: -500i32, z: 0i32 },
            color: VertexColor { r: 0, g: 0, b: 1000 },
        },
        Vertex {
            position: Position { x: 500i32, y: 500i32, z: 0i32 },
            color: VertexColor { r: 1000, g: 1000, b: 0 },
        },
    ]
}

/// The index list grouping the four vertices into two triangles.
pub open spec fn spec_indices() -> Seq<u16> {
    seq![0u16, 1u16, 2u16, 0u16, 2u16, 3u16]
}

/// Builds the vertex array that is uploaded into the vertex buffer.
pub fn vertices() -> (v: Vec<Vertex>)
    ensures
        v@ == spec_vertices(),
{
    let mut v: Vec<Vertex> = Vec::new();
    v.push(Vertex {
        position: Position { x: -500, y: 500, z: 0 },
        color: VertexColor { r: 1000, g: 0, b: 0 },
    });
    v.push(Vertex {
        position: Position { x: -500, y: -500, z: 0 },
        color: VertexColor { r: 0, g: 1000, b: 0 },
    });
    v.push(Vertex {
        position: Position { x: 500, y: -500, z: 0 },
        color: VertexColor { r: 0, g: 0, b: 1000 },
    });
    v.push(Vertex {
        position: Position { x: 500, y: 500, z: 0 },
        color: VertexColor { r: 1000, g: 1000, b: 0 },
    });
    proof {
        assert(v@ =~= spec_vertices());
    }
    v
}

/// Builds the index array that is uploaded into the index buffer.
pub fn indices() -> (v: Vec<u16>)
    ensures
        v@ == spec_indices(),
{
    let mut v: Vec<u16> = Vec::new();
    v.push(0);
    v.push(1);
    v.push(2);
    v.push(0);
    v.push(2);
    v.push(3);
    proof {
        assert(v@ =~= spec_indices());
    }
    v
}

/// Every index refers to a valid position within the vertex array: the index
/// buffer can never make the backend read past the four vertices.
pub proof fn lemma_indices_in_bounds()
    ensures
        forall|i: int|
            0 <= i < spec_indices().len() ==> (spec_indices()[i] as int) < spec_vertices().len(),
{
    assert forall|i: int| 0 <= i < spec_indices().len() implies (spec_indices()[i] as int)
        < spec_vertices().len() by {
        assert(spec_vertices().len() == 4);
        assert(spec_indices()[i] <= 3);
    }
}

/// Every vertex of the quad is well formed: positions inside clip space,
/// colors inside the intensity range.
pub proof fn lemma_vertices_wf()
    ensures
        forall|i: int| 0 <= i < spec_vertices().len() ==> spec_vertices()[i].wf(),
{
}

} // verus!
