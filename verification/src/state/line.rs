//! The line-list overlay: the prerecorded bundle that draws a unit-cube
//! frame around the scene, driven by the camera uniform alone.
use vstd::prelude::*;

use crate::camera::ONE_BITS;
use crate::state::util::Vertex;

verus! {

/// Bit pattern of -1.0.
pub const NEG_ONE_BITS: u32 = 0xBF80_0000;

/// A vertex value, for stating the overlay geometry.
pub open spec fn vtx(x: u32, y: u32, z: u32) -> Vertex {
    Vertex { v: [x, y, z] }
}

/// The sixteen endpoints of the overlay's eight edges: the bottom square of
/// the unit cube, then the top square, each edge as a pair of endpoints.
pub open spec fn line_vertices_spec() -> Seq<Vertex> {
    seq![
        vtx(NEG_ONE_BITS, NEG_ONE_BITS, NEG_ONE_BITS), vtx(ONE_BITS, NEG_ONE_BITS, NEG_ONE_BITS),
        vtx(NEG_ONE_BITS, NEG_ONE_BITS, NEG_ONE_BITS), vtx(NEG_ONE_BITS, NEG_ONE_BITS, ONE_BITS),
        vtx(NEG_ONE_BITS, NEG_ONE_BITS, ONE_BITS), vtx(ONE_BITS, NEG_ONE_BITS, ONE_BITS),
        vtx(ONE_BITS, NEG_ONE_BITS, ONE_BITS), vtx(ONE_BITS, NEG_ONE_BITS, NEG_ONE_BITS),
        vtx(NEG_ONE_BITS, ONE_BITS, NEG_ONE_BITS), vtx(ONE_BITS, ONE_BITS, NEG_ONE_BITS),
        vtx(NEG_ONE_BITS, ONE_BITS, NEG_ONE_BITS), vtx(NEG_ONE_BITS, ONE_BITS, ONE_BITS),
        vtx(NEG_ONE_BITS, ONE_BITS, ONE_BITS), vtx(ONE_BITS, ONE_BITS, ONE_BITS),
        vtx(ONE_BITS, ONE_BITS, ONE_BITS), vtx(ONE_BITS, ONE_BITS, NEG_ONE_BITS),
    ]
}

/// The overlay's vertex stream, in draw order.
pub fn line_vertices() -> (r: Vec<Vertex>)
    ensures
        r@ == line_vertices_spec(),
        r@.len() == 16,
{
    let n = NEG_ONE_BITS;
    let p = ONE_BITS;
    let mut r: Vec<Vertex> = Vec::new();
    r.push(Vertex::new(n, n, n));
    r.push(Vertex::new(p, n, n));
    r.push(Vertex::new(n, n, n));
    r.push(Vertex::new(n, n, p));
    r.push(Vertex::new(n, n, p));
    r.push(Vertex::new(p, n, p));
    r.push(Vertex::new(p, n, p));
    r.push(Vertex::new(p, n, n));
    r.push(Vertex::new(n, p, n));
    r.push(Vertex::new(p, p, n));
    r.push(Vertex::new(n, p, n));
    r.push(Vertex::new(n, p, p));
    r.push(Vertex::new(n, p, p));
    r.push(Vertex::new(p, p, p));
    r.push(Vertex::new(p, p, p));
    r.push(Vertex::new(p, p, n));
    proof {
        assert(r@ =~= line_vertices_spec());
    }
    r
}

/// The prerecorded overlay bundle: it binds the camera uniform and draws
/// the sixteen line endpoints.
#[derive(Clone, Copy, Debug, PartialEq, Eq, Structural)]
pub struct RenderBundle {
    pub camera_uniform: u64,
    pub vertex_count: u32,
}

/// Record the overlay bundle once, against the camera uniform buffer with
/// the given identity tag.
pub fn draw_lines_command(camera_uniform: u64) -> (r: RenderBundle)
    ensures
        r == (RenderBundle { camera_uniform, vertex_count: 16 }),
{
    RenderBundle { camera_uniform, vertex_count: 16 }
}

} // verus!
