//! The one asset this library builds: a flat quad of two triangles.

use vstd::prelude::*;
use crate::builder::{build_asset, buffer_bytes, describes, Asset};
use crate::extent::{bounds_of, greatest, least, Bounds, Point};
use crate::layout::LayoutError;
use crate::vertex::Vertex;

verus! {

/// The bit pattern of 0.0.
pub const ZERO: u32 = 0x0000_0000;

/// The bit pattern of 0.5.
pub const HALF: u32 = 0x3F00_0000;

/// The bit pattern of 1.0.
pub const ONE: u32 = 0x3F80_0000;

/// The bit pattern of -1.0.
pub const MINUS_ONE: u32 = 0xBF80_0000;

/// The four corners of the quad.
pub open spec fn quad_vertex_seq() -> Seq<Vertex> {
    seq![
        Vertex { x: MINUS_ONE, y: MINUS_ONE, z: ZERO, r: ONE, g: ZERO, b: ZERO, a: ONE, s: ONE, t: ZERO, u: ZERO },
        Vertex { x: ONE, y: MINUS_ONE, z: ZERO, r: HALF, g: HALF, b: ZERO, a: ONE, s: ZERO, t: ONE, u: ZERO },
        Vertex { x: MINUS_ONE, y: ONE, z: ZERO, r: HALF, g: HALF, b: ZERO, a: ONE, s: ZERO, t: ZERO, u: ONE },
        Vertex { x: ONE, y: ONE, z: ZERO, r: ZERO, g: ONE, b: ZERO, a: ONE, s: ONE, t: ZERO, u: ZERO },
    ]
}

/// The two triangles of the quad.
pub open spec fn quad_index_seq() -> Seq<u16> {
    seq![0u16, 1, 2, 2, 1, 3]
}

/// The four corners of the quad.
pub fn quad_vertices() -> (vertices: Vec<Vertex>)
    ensures
        vertices@ == quad_vertex_seq(),
{
    let mut vertices: Vec<Vertex> = Vec::new();
    vertices.push(
        Vertex { x: MINUS_ONE, y: MINUS_ONE, z: ZERO, r: ONE, g: ZERO, b: ZERO, a: ONE, s: ONE, t: ZERO, u: ZERO },
    );
    vertices.push(
        Vertex { x: ONE, y: MINUS_ONE, z: ZERO, r: HALF, g: HALF, b: ZERO, a: ONE, s: ZERO, t: ONE, u: ZERO },
    );
    vertices.push(
        Vertex { x: MINUS_ONE, y: ONE, z: ZERO, r: HALF, g: HALF, b: ZERO, a: ONE, s: ZERO, t: ZERO, u: ONE },
    );
    vertices.push(
        Vertex { x: ONE, y: ONE, z: ZERO, r: ZERO, g: ONE, b: ZERO, a: ONE, s: ONE, t: ZERO, u: ZERO },
    );
    assert(vertices@ =~= quad_vertex_seq());
    vertices
}

/// The two triangles of the quad.
pub fn quad_indices() -> (indices: Vec<u16>)
    ensures
        indices@ == quad_index_seq(),
{
    let mut indices: Vec<u16> = Vec::new();
    indices.push(0);
    indices.push(1);
    indices.push(2);
    indices.push(2);
    indices.push(1);
    indices.push(3);
    assert(indices@ =~= quad_index_seq());
    indices
}

/// The quad's positions span from (-1, -1, 0) to (1, 1, 0).
pub proof fn lemma_quad_bounds()
    ensures
        bounds_of(quad_vertex_seq()) == (Bounds {
            min: Point { x: MINUS_ONE, y: MINUS_ONE, z: ZERO },
            max: Point { x: ONE, y: ONE, z: ZERO },
        }),
{
    reveal_with_fuel(least, 5);
    reveal_with_fuel(greatest, 5);
}

/// Builds the quad: 160 bytes of vertices, 12 bytes of indices, and the
/// document that describes them.
pub fn build_quad() -> (r: Result<Asset, LayoutError>)
    ensures
        r matches Ok(asset) && {
            &&& asset.buffer@ == buffer_bytes(quad_vertex_seq(), quad_index_seq())
            &&& asset.buffer@.len() == 172
            &&& asset.index_start == 160
            &&& asset.document.wf()
            &&& describes(asset.document, quad_vertex_seq(), 6)
            &&& asset.document.accessors@[0].bounds == Some(
                Bounds {
                    min: Point { x: MINUS_ONE, y: MINUS_ONE, z: ZERO },
                    max: Point { x: ONE, y: ONE, z: ZERO },
                },
            )
        },
{
    let vertices = quad_vertices();
    let indices = quad_indices();
    proof {
        lemma_quad_bounds();
    }
    build_asset(&vertices, &indices)
}

} // verus!
