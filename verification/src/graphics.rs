//! Meshes of the shapes that the panel draws.
//!
//! A mesh is a sequence of vertices and a sequence of indices into it, three
//! to a triangle. Positions are held exactly, as fractions or as the sine and
//! cosine of a fraction of a full turn, so that everything said of a mesh here
//! is said of integers; turning a position into machine numbers is left to
//! whoever hands the mesh to the graphics card.

use vstd::prelude::*;

verus! {

/// One coordinate of a point of the local plane, held exactly.
#[derive(Clone, Copy, Debug, PartialEq, Eq, Structural)]
pub enum Coordinate {
    /// The fraction `num / den`.
    Ratio { num: i32, den: u32 },
    /// The sine of `step / of` of a full turn.
    Sine { step: u16, of: u16 },
    /// The cosine of `step / of` of a full turn.
    Cosine { step: u16, of: u16 },
}

impl Coordinate {
    /// A fraction has a denominator; an angle is a part of one turn.
    pub open spec fn well_formed(self) -> bool {
        match self {
            Coordinate::Ratio { num, den } => den > 0,
            Coordinate::Sine { step, of } => step < of,
            Coordinate::Cosine { step, of } => step < of,
        }
    }
}

/// A point of a shape, in the shape's own coordinates.
#[derive(Clone, Copy, Debug, PartialEq, Eq, Structural)]
pub struct Vertex {
    pub x: Coordinate,
    pub y: Coordinate,
}

impl Vertex {
    pub open spec fn well_formed(self) -> bool {
        self.x.well_formed() && self.y.well_formed()
    }
}

/// Why a mesh was not generated.
#[derive(Clone, Copy, Debug, PartialEq, Eq, Structural)]
pub enum MeshError {
    /// A disk needs at least three triangles.
    InvalidArgument,
}

/// The point `(x_num / den, y_num / den)`.
pub open spec fn fraction_point(x_num: int, y_num: int, den: int) -> Vertex {
    Vertex {
        x: Coordinate::Ratio { num: x_num as i32, den: den as u32 },
        y: Coordinate::Ratio { num: y_num as i32, den: den as u32 },
    }
}

/// The point of the unit circle that lies `step / of` of a full turn clockwise
/// from the up axis: `(sin, cos)` of that angle. At step 0 this is `(0, 1)`,
/// and is held as such.
pub open spec fn rim_point(step: int, of: u16) -> Vertex {
    if step == 0 {
        fraction_point(0, 1, 1)
    } else {
        Vertex {
            x: Coordinate::Sine { step: step as u16, of },
            y: Coordinate::Cosine { step: step as u16, of },
        }
    }
}

/// The three vertex indices of triangle `t` of `indices`.
pub open spec fn triangle(indices: Seq<u16>, t: int) -> (u16, u16, u16) {
    (indices[3 * t], indices[3 * t + 1], indices[3 * t + 2])
}

/// What every mesh owes its renderer: the vertices are well formed, the
/// indices come in threes, and each of them names a vertex.
pub open spec fn is_mesh(vertices: Seq<Vertex>, indices: Seq<u16>) -> bool {
    &&& forall|i: int| 0 <= i < vertices.len() ==> (#[trigger] vertices[i]).well_formed()
    &&& indices.len() % 3 == 0
    &&& forall|j: int| 0 <= j < indices.len() ==> (#[trigger] indices[j] as int) < vertices.len()
}

/// Vertex `i` of the disk of `n` triangles: the centre first, then the rim,
/// clockwise from the top.
pub open spec fn disk_vertex(n: u16, i: int) -> Vertex {
    if i == 0 {
        fraction_point(0, 0, 1)
    } else {
        rim_point(i - 1, n)
    }
}

/// The `n + 1` vertices of the disk of `n` triangles.
pub open spec fn disk_vertices(n: u16) -> Seq<Vertex> {
    Seq::new((n + 1) as nat, |i: int| disk_vertex(n, i))
}

/// Triangle `t` of the fan of `n` triangles: the centre, rim vertex `t` and the
/// rim vertex after it, which for the last triangle is the first one again.
pub open spec fn fan_triangle(n: u16, t: int) -> (u16, u16, u16) {
    (
        0u16,
        (t + 1) as u16,
        if t + 1 < n {
            (t + 2) as u16
        } else {
            1u16
        },
    )
}

/// Index `j` of the fan of `n` triangles.
pub open spec fn fan_index(n: u16, j: int) -> u16 {
    let corners = fan_triangle(n, j / 3);
    if j % 3 == 0 {
        corners.0
    } else if j % 3 == 1 {
        corners.1
    } else {
        corners.2
    }
}

/// The `3 * n` indices of the disk of `n` triangles.
pub open spec fn disk_indices(n: u16) -> Seq<u16> {
    Seq::new((3 * n) as nat, |j: int| fan_index(n, j))
}

/// The corners of the unit square centred at the origin, from the upper left
/// one on, counterclockwise.
pub open spec fn square_vertices() -> Seq<Vertex> {
    seq![
        fraction_point(-1, 1, 2),
        fraction_point(-1, -1, 2),
        fraction_point(1, -1, 2),
        fraction_point(1, 1, 2),
    ]
}

/// The two triangles of the square, which share the diagonal from corner 0 to
/// corner 2.
pub open spec fn square_indices() -> Seq<u16> {
    seq![0u16, 1u16, 2u16, 0u16, 3u16, 2u16]
}

/// The shape of a generated disk: its counts, the range of its indices, its
/// closing triangle, and that it is a mesh of distinct vertices.
pub proof fn disk_mesh_shape(n: u16)
    requires
        n > 2,
    ensures
        disk_vertices(n).len() == n + 1,
        disk_indices(n).len() == 3 * n,
        forall|j: int| 0 <= j < 3 * n ==> #[trigger] disk_indices(n)[j] <= n,
        forall|t: int| 0 <= t < n ==> #[trigger] triangle(disk_indices(n), t) == fan_triangle(n, t),
        triangle(disk_indices(n), n - 1) == (0u16, n, 1u16),
        is_mesh(disk_vertices(n), disk_indices(n)),
        forall|i: int, j: int|
            0 <= i < j <= n ==> #[trigger] disk_vertices(n)[i] != #[trigger] disk_vertices(n)[j],
{
    let vertices = disk_vertices(n);
    let indices = disk_indices(n);
    assert forall|t: int| 0 <= t < n implies #[trigger] triangle(indices, t) == fan_triangle(
        n,
        t,
    ) by {
        assert((3 * t) / 3 == t && (3 * t) % 3 == 0);
        assert((3 * t + 1) / 3 == t && (3 * t + 1) % 3 == 1);
        assert((3 * t + 2) / 3 == t && (3 * t + 2) % 3 == 2);
    }
    assert(triangle(indices, n - 1) == fan_triangle(n, n - 1));
    assert forall|j: int| 0 <= j < indices.len() implies (#[trigger] indices[j] as int)
        < vertices.len() by {
        assert(0 <= j / 3 < n);
    }
    assert forall|j: int| 0 <= j < 3 * n implies #[trigger] indices[j] <= n by {
        assert(0 <= j / 3 < n);
    }
}

/// Every triangle of a generated disk joins the centre to two neighbouring rim
/// vertices, in clockwise order; the last one joins the last rim vertex to
/// the first.
pub proof fn disk_triangles_fan_out(n: u16, t: int)
    requires
        n > 2,
        0 <= t < n,
    ensures
        disk_vertices(n)[triangle(disk_indices(n), t).0 as int] == fraction_point(0, 0, 1),
        disk_vertices(n)[triangle(disk_indices(n), t).1 as int] == rim_point(t, n),
        disk_vertices(n)[triangle(disk_indices(n), t).2 as int] == rim_point(
            if t + 1 < n {
                t + 1
            } else {
                0
            },
            n,
        ),
{
    disk_mesh_shape(n);
}

/// The shape of the square: a mesh whose indices stay within its four
/// vertices, which are distinct and are the four points whose coordinates are
/// each `1/2` or `-1/2`.
pub proof fn square_mesh_shape()
    ensures
        square_vertices().len() == 4,
        square_indices().len() == 6,
        is_mesh(square_vertices(), square_indices()),
        forall|j: int| 0 <= j < 6 ==> #[trigger] square_indices()[j] <= 3,
        triangle(square_indices(), 0) == (0u16, 1u16, 2u16),
        triangle(square_indices(), 1) == (0u16, 3u16, 2u16),
        forall|i: int, j: int|
            0 <= i < j < 4 ==> #[trigger] square_vertices()[i] != #[trigger] square_vertices()[j],
        forall|i: int|
            0 <= i < 4 ==> exists|sx: int, sy: int|
                (sx == 1 || sx == -1) && (sy == 1 || sy == -1) && #[trigger] square_vertices()[i]
                    == #[trigger] fraction_point(sx, sy, 2),
        forall|sx: int, sy: int|
            (sx == 1 || sx == -1) && (sy == 1 || sy == -1) ==> square_vertices().contains(
                #[trigger] fraction_point(sx, sy, 2),
            ),
{
    let vertices = square_vertices();
    assert(vertices[0] == fraction_point(-1, 1, 2));
    assert(vertices[1] == fraction_point(-1, -1, 2));
    assert(vertices[2] == fraction_point(1, -1, 2));
    assert(vertices[3] == fraction_point(1, 1, 2));
}

/// The square is a constant: whatever two calls of the generator return holds
/// the same vertices and the same indices.
pub proof fn square_mesh_is_constant(
    first: (Vec<Vertex>, Vec<u16>),
    second: (Vec<Vertex>, Vec<u16>),
)
    requires
        first.0@ == square_vertices() && first.1@ == square_indices(),
        second.0@ == square_vertices() && second.1@ == square_indices(),
    ensures
        first.0@ == second.0@,
        first.1@ == second.1@,
{
}

/// A disk depends on its number of triangles alone: whatever two calls of the
/// generator return for one number holds the same vertices and the same
/// indices.
pub proof fn disk_mesh_is_deterministic(
    n: u16,
    first: (Vec<Vertex>, Vec<u16>),
    second: (Vec<Vertex>, Vec<u16>),
)
    requires
        n > 2,
        first.0@ == disk_vertices(n) && first.1@ == disk_indices(n),
        second.0@ == disk_vertices(n) && second.1@ == disk_indices(n),
    ensures
        first.0@ == second.0@,
        first.1@ == second.1@,
{
}

/// Generates the regular polygon of `nr_of_triangles` corners that stands for
/// the unit disk, as a fan of that many triangles round the centre.
///
/// Vertex 0 is the centre, vertex 1 the top of the rim, and the others follow
/// clockwise at equal angles. Fewer than three triangles make no polygon and
/// are refused.
pub fn disk_mesh(nr_of_triangles: u16) -> (result: Result<(Vec<Vertex>, Vec<u16>), MeshError>)
    ensures
        result is Ok <==> nr_of_triangles > 2,
        result matches Err(e) ==> e == MeshError::InvalidArgument,
        result matches Ok(mesh) ==> mesh.0@ == disk_vertices(nr_of_triangles),
        result matches Ok(mesh) ==> mesh.1@ == disk_indices(nr_of_triangles),
        result matches Ok(mesh) ==> mesh.0@.len() == nr_of_triangles + 1,
        result matches Ok(mesh) ==> mesh.1@.len() == 3 * nr_of_triangles,
        result matches Ok(mesh) ==> forall|j: int|
            0 <= j < mesh.1@.len() ==> #[trigger] mesh.1@[j] <= nr_of_triangles,
        result matches Ok(mesh) ==> triangle(mesh.1@, nr_of_triangles - 1) == (
            0u16,
            nr_of_triangles,
            1u16,
        ),
        result matches Ok(mesh) ==> is_mesh(mesh.0@, mesh.1@),
{
    if nr_of_triangles <= 2 {
        return Err(MeshError::InvalidArgument);
    }
    let n: u16 = nr_of_triangles;
    let mut vertices: Vec<Vertex> = Vec::new();
    let mut indices: Vec<u16> = Vec::new();

    vertices.push(
        Vertex { x: Coordinate::Ratio { num: 0, den: 1 }, y: Coordinate::Ratio { num: 0, den: 1 } },
    );
    vertices.push(
        Vertex { x: Coordinate::Ratio { num: 0, den: 1 }, y: Coordinate::Ratio { num: 1, den: 1 } },
    );

    let mut i: u32 = 2;
    while i <= n as u32
        invariant
            n > 2,
            2 <= i <= n + 1,
            vertices@ =~= disk_vertices(n).take(i as int),
            indices@ =~= disk_indices(n).take(3 * (i - 2)),
        decreases n + 1 - i,
    {
        vertices.push(
            Vertex {
                x: Coordinate::Sine { step: (i - 1) as u16, of: n },
                y: Coordinate::Cosine { step: (i - 1) as u16, of: n },
            },
        );
        indices.push(0);
        indices.push((i - 1) as u16);
        indices.push(i as u16);
        i += 1;
    }

    indices.push(0);
    indices.push(n);
    indices.push(1);

    proof {
        disk_mesh_shape(n);
    }
    Ok((vertices, indices))
}

/// Generates the unit square centred at the origin, as two triangles.
pub fn square_mesh() -> (mesh: (Vec<Vertex>, Vec<u16>))
    ensures
        mesh.0@ == square_vertices(),
        mesh.1@ == square_indices(),
        forall|j: int| 0 <= j < mesh.1@.len() ==> #[trigger] mesh.1@[j] <= 3,
        is_mesh(mesh.0@, mesh.1@),
{
    let mut vertices: Vec<Vertex> = Vec::new();
    let mut indices: Vec<u16> = Vec::new();

    vertices.push(
        Vertex {
            x: Coordinate::Ratio { num: -1, den: 2 },
            y: Coordinate::Ratio { num: 1, den: 2 },
        },
    );
    vertices.push(
        Vertex {
            x: Coordinate::Ratio { num: -1, den: 2 },
            y: Coordinate::Ratio { num: -1, den: 2 },
        },
    );
    vertices.push(
        Vertex {
            x: Coordinate::Ratio { num: 1, den: 2 },
            y: Coordinate::Ratio { num: -1, den: 2 },
        },
    );
    vertices.push(
        Vertex {
            x: Coordinate::Ratio { num: 1, den: 2 },
            y: Coordinate::Ratio { num: 1, den: 2 },
        },
    );

    indices.push(0);
    indices.push(1);
    indices.push(2);

    indices.push(0);
    indices.push(3);
    indices.push(2);

    proof {
        square_mesh_shape();
    }
    (vertices, indices)
}

} // verus!
