//! The static scene data: the unit-cube mesh that instances every particle.
//!
//! The cube is 24 vertices — four per face, each carrying its face's flat
//! normal — drawn as a quad list. Coordinates and normals are exact unit
//! integers; the renderer converts them to its own number format.

use vstd::prelude::*;

verus! {

/// One mesh vertex: a unit-cube corner and its face's flat normal.
#[derive(Clone, Copy, PartialEq, Eq, Structural)]
pub struct Vertex {
    /// Corner coordinate.
    pub x: i64,
    /// Corner coordinate.
    pub y: i64,
    /// Corner coordinate.
    pub z: i64,
    /// Face normal component.
    pub nx: i64,
    /// Face normal component.
    pub ny: i64,
    /// Face normal component.
    pub nz: i64,
}

/// A vertex literal.
pub open spec fn vert(x: int, y: int, z: int, nx: int, ny: int, nz: int) -> Vertex {
    Vertex {
        x: x as i64,
        y: y as i64,
        z: z as i64,
        nx: nx as i64,
        ny: ny as i64,
        nz: nz as i64,
    }
}

/// The 24-vertex unit cube, face by face: near, far, top, bottom,
/// right, left.
pub open spec fn cube_mesh() -> Seq<Vertex> {
    seq![
        vert(-1, -1, 1, 0, 0, 1),
        vert(1, -1, 1, 0, 0, 1),
        vert(1, 1, 1, 0, 0, 1),
        vert(-1, 1, 1, 0, 0, 1),
        vert(-1, -1, -1, 0, 0, -1),
        vert(-1, 1, -1, 0, 0, -1),
        vert(1, 1, -1, 0, 0, -1),
        vert(1, -1, -1, 0, 0, -1),
        vert(-1, 1, -1, 0, 1, 0),
        vert(-1, 1, 1, 0, 1, 0),
        vert(1, 1, 1, 0, 1, 0),
        vert(1, 1, -1, 0, 1, 0),
        vert(-1, -1, -1, 0, -1, 0),
        vert(1, -1, -1, 0, -1, 0),
        vert(1, -1, 1, 0, -1, 0),
        vert(-1, -1, 1, 0, -1, 0),
        vert(1, -1, -1, 1, 0, 0),
        vert(1, 1, -1, 1, 0, 0),
        vert(1, 1, 1, 1, 0, 0),
        vert(1, -1, 1, 1, 0, 0),
        vert(-1, -1, -1, -1, 0, 0),
        vert(-1, -1, 1, -1, 0, 0),
        vert(-1, 1, 1, -1, 0, 0),
        vert(-1, 1, -1, -1, 0, 0),
    ]
}

/// Builds the mesh vertex by vertex under a current normal, the way the
/// scene is assembled: set a face's normal, then emit its four corners.
pub struct MeshBuilder {
    /// The vertices emitted so far.
    pub verts: Vec<Vertex>,
    /// Current normal.
    pub nx: i64,
    /// Current normal.
    pub ny: i64,
    /// Current normal.
    pub nz: i64,
}

impl MeshBuilder {
    /// An empty builder; the current normal starts at zero.
    pub fn new() -> (b: MeshBuilder)
        ensures
            b.verts@ == Seq::<Vertex>::empty(),
            b.nx == 0 && b.ny == 0 && b.nz == 0,
    {
        let b = MeshBuilder { verts: Vec::new(), nx: 0, ny: 0, nz: 0 };
        b
    }

    /// Sets the normal every following vertex will carry.
    pub fn new_normal(&mut self, nx: i64, ny: i64, nz: i64)
        ensures
            final(self).verts@ == old(self).verts@,
            final(self).nx == nx && final(self).ny == ny && final(self).nz == nz,
    {
        self.nx = nx;
        self.ny = ny;
        self.nz = nz;
    }

    /// Emits one vertex under the current normal.
    pub fn new_vertex(&mut self, x: i64, y: i64, z: i64)
        ensures
            final(self).verts@ == old(self).verts@.push(
                Vertex { x, y, z, nx: old(self).nx, ny: old(self).ny, nz: old(self).nz },
            ),
            final(self).nx == old(self).nx && final(self).ny == old(self).ny && final(self).nz
                == old(self).nz,
    {
        let v = Vertex { x, y, z, nx: self.nx, ny: self.ny, nz: self.nz };
        self.verts.push(v);
    }
}

/// Assembles the scene's static geometry: the 24-vertex unit cube with
/// per-face flat normals, exactly as [`cube_mesh`] lists it.
#[allow(non_snake_case)]
pub fn initScene() -> (scene: Vec<Vertex>)
    ensures
        scene@ == cube_mesh(),
{
    let mut b = MeshBuilder::new();

    b.new_normal(0, 0, 1);
    b.new_vertex(-1, -1, 1);
    b.new_vertex(1, -1, 1);
    b.new_vertex(1, 1, 1);
    b.new_vertex(-1, 1, 1);

    b.new_normal(0, 0, -1);
    b.new_vertex(-1, -1, -1);
    b.new_vertex(-1, 1, -1);
    b.new_vertex(1, 1, -1);
    b.new_vertex(1, -1, -1);

    b.new_normal(0, 1, 0);
    b.new_vertex(-1, 1, -1);
    b.new_vertex(-1, 1, 1);
    b.new_vertex(1, 1, 1);
    b.new_vertex(1, 1, -1);

    b.new_normal(0, -1, 0);
    b.new_vertex(-1, -1, -1);
    b.new_vertex(1, -1, -1);
    b.new_vertex(1, -1, 1);
    b.new_vertex(-1, -1, 1);

    b.new_normal(1, 0, 0);
    b.new_vertex(1, -1, -1);
    b.new_vertex(1, 1, -1);
    b.new_vertex(1, 1, 1);
    b.new_vertex(1, -1, 1);

    b.new_normal(-1, 0, 0);
    b.new_vertex(-1, -1, -1);
    b.new_vertex(-1, -1, 1);
    b.new_vertex(-1, 1, 1);
    b.new_vertex(-1, 1, -1);

    proof {
        assert(b.verts@ =~= cube_mesh());
    }
    b.verts
}

} // verus!
