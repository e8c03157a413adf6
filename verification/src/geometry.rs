//! Meshes, and the triangulation of a strip between two boundaries.
use vstd::prelude::*;
use crate::error::ChartMalformed;
use crate::fixed::halved;

verus! {

/// A point of the track plane: lateral position and depth, in millionths.
#[derive(Clone, Copy, Debug, Default, PartialEq, Eq, Structural)]
pub struct Point2 {
    pub x: i64,
    pub y: i64,
}

/// A point in space, in millionths.
#[derive(Clone, Copy, Debug, Default, PartialEq, Eq, Structural)]
pub struct Point3 {
    pub x: i64,
    pub y: i64,
    pub z: i64,
}

/// The point of the ground plane above which `v` lies.
pub open spec fn spec_to_xz(v: Point2) -> Point3 {
    Point3 { x: v.x, y: 0, z: v.y }
}

/// Places a point of the track plane on the ground plane.
pub fn to_xz(v: Point2) -> (r: Point3)
    ensures
        r == spec_to_xz(v),
{
    Point3 { x: v.x, y: 0, z: v.y }
}

/// The most points that one boundary of a strip can have: every vertex of
/// the strip needs a 16-bit index.
pub const MAX_SIDE_POINTS: usize = 32768;

/// Triangles over a list of vertices, three indices each.
#[derive(Clone, Debug)]
pub struct Mesh {
    pub vertices: Vec<Point3>,
    pub indices: Vec<u16>,
}

/// `v` moved by `by`.
pub open spec fn translated(v: Point3, by: Point3) -> Point3 {
    Point3 { x: (v.x + by.x) as i64, y: (v.y + by.y) as i64, z: (v.z + by.z) as i64 }
}

/// `v` moved by `by` can be represented.
pub open spec fn can_translate(v: Point3, by: Point3) -> bool {
    &&& i64::MIN <= v.x + by.x <= i64::MAX
    &&& i64::MIN <= v.y + by.y <= i64::MAX
    &&& i64::MIN <= v.z + by.z <= i64::MAX
}

impl Mesh {
    /// Every index names a vertex.
    pub open spec fn wf(&self) -> bool {
        forall|k: int| 0 <= k < self.indices@.len() ==> (#[trigger] self.indices@[k]) < self.vertices@.len()
    }

    pub fn from_indices(vertices: Vec<Point3>, indices: Vec<u16>) -> (r: Self)
        ensures
            r.vertices == vertices,
            r.indices == indices,
    {
        Self { vertices, indices }
    }

    /// A mesh with the same vertices and indices.
    pub fn duplicate(&self) -> (r: Self)
        ensures
            r.vertices@ == self.vertices@,
            r.indices@ == self.indices@,
    {
        let vertices = self.vertices.clone();
        let indices = self.indices.clone();
        Self { vertices, indices }
    }

    /// Moves every vertex by `translation`; the indices stay. `None` means
    /// that a moved vertex cannot be represented.
    pub fn transform(self, translation: &Point3) -> (r: Option<Self>)
        ensures
            r is Some <==> forall|k: int|
                0 <= k < self.vertices@.len() ==> can_translate(
                    #[trigger] self.vertices@[k],
                    *translation,
                ),
            r matches Some(m) ==> {
                &&& m.indices@ == self.indices@
                &&& m.vertices@.len() == self.vertices@.len()
                &&& forall|k: int|
                    0 <= k < m.vertices@.len() ==> #[trigger] m.vertices@[k] == translated(
                        self.vertices@[k],
                        *translation,
                    )
            },
    {
        let n = self.vertices.len();
        let mut vertices: Vec<Point3> = Vec::new();
        let mut i: usize = 0;
        while i < n
            invariant
                n == self.vertices@.len(),
                i <= n,
                vertices@.len() == i,
                forall|k: int|
                    0 <= k < i ==> can_translate(#[trigger] self.vertices@[k], *translation),
                forall|k: int|
                    0 <= k < i ==> #[trigger] vertices@[k] == translated(
                        self.vertices@[k],
                        *translation,
                    ),
            decreases n - i,
        {
            let v = self.vertices[i];
            match (
                v.x.checked_add(translation.x),
                v.y.checked_add(translation.y),
                v.z.checked_add(translation.z),
            ) {
                (Some(x), Some(y), Some(z)) => {
                    vertices.push(Point3 { x, y, z });
                },
                _ => {
                    return None;
                },
            }
            i += 1;
        }
        Some(Self { vertices, indices: self.indices })
    }
}

/// The number of vertex pairs of the strip between boundaries of `a_len` and
/// `b_len` points.
pub open spec fn strip_pairs(a_len: int, b_len: int) -> int {
    if a_len >= b_len {
        a_len
    } else {
        b_len
    }
}

/// Point `step` of a boundary, or its last point once the boundary has run
/// out.
pub open spec fn boundary_point(side: Seq<Point3>, step: int) -> Point3 {
    if step < side.len() {
        side[step]
    } else {
        side[side.len() - 1]
    }
}

/// Vertex `k` of the strip: the vertices alternate between the boundaries,
/// first `a`, then `b`.
pub open spec fn strip_vertex(a: Seq<Point3>, b: Seq<Point3>, k: int) -> Point3 {
    if k % 2 == 0 {
        boundary_point(a, k / 2)
    } else {
        boundary_point(b, k / 2)
    }
}

/// The vertices of the strip between the boundaries `a` and `b`.
pub open spec fn strip_vertices(a: Seq<Point3>, b: Seq<Point3>) -> Seq<Point3> {
    Seq::new((2 * strip_pairs(a.len() as int, b.len() as int)) as nat, |k: int| strip_vertex(a, b, k))
}

/// Index `k` of a strip: each two consecutive vertex pairs `i, i + 1` and
/// `i + 2, i + 3` make the triangles `(i, i + 1, i + 2)` and
/// `(i + 1, i + 2, i + 3)`.
pub open spec fn strip_index(k: int) -> int {
    let first = 2 * (k / 6);
    let corner = k % 6;
    if corner == 0 {
        first
    } else if corner == 1 || corner == 3 {
        first + 1
    } else if corner == 2 || corner == 4 {
        first + 2
    } else {
        first + 3
    }
}

/// The indices of a strip of `pairs` vertex pairs.
pub open spec fn strip_indices(pairs: int) -> Seq<u16> {
    Seq::new((6 * (pairs - 1)) as nat, |k: int| strip_index(k) as u16)
}

/// A flat surface as a triangle list.
#[derive(Clone, Debug)]
pub struct Plane {
    pub vertices: Vec<Point3>,
    pub indices: Vec<u16>,
}

impl Plane {
    /// The quad with the corners `v0` to `v3` on the ground plane.
    pub fn quad(v0: Point2, v1: Point2, v2: Point2, v3: Point2) -> (r: Self)
        ensures
            r.vertices@ == seq![spec_to_xz(v0), spec_to_xz(v1), spec_to_xz(v2), spec_to_xz(v3)],
            r.indices@ == seq![0u16, 1u16, 2u16, 1u16, 2u16, 3u16],
    {
        let mut vertices: Vec<Point3> = Vec::new();
        vertices.push(to_xz(v0));
        vertices.push(to_xz(v1));
        vertices.push(to_xz(v2));
        vertices.push(to_xz(v3));
        let mut indices: Vec<u16> = Vec::new();
        indices.push(0);
        indices.push(1);
        indices.push(2);
        indices.push(1);
        indices.push(2);
        indices.push(3);
        Self { vertices, indices }
    }

    /// Triangulates the strip between two boundaries. The vertices alternate
    /// between the sides, so that the parity of a vertex's index tells its
    /// side; a side that runs out repeats its last point.
    pub fn triangulate_from_two_sides(
        side_a_vertices: Vec<Point3>,
        side_b_vertices: Vec<Point3>,
    ) -> (r: Self)
        requires
            2 <= side_a_vertices@.len() <= MAX_SIDE_POINTS,
            2 <= side_b_vertices@.len() <= MAX_SIDE_POINTS,
        ensures
            r.vertices@ == strip_vertices(side_a_vertices@, side_b_vertices@),
            r.indices@ == strip_indices(
                strip_pairs(side_a_vertices@.len() as int, side_b_vertices@.len() as int),
            ),
    {
        let a_count = side_a_vertices.len();
        let b_count = side_b_vertices.len();
        let pairs = if a_count >= b_count {
            a_count
        } else {
            b_count
        };
        let ghost a = side_a_vertices@;
        let ghost b = side_b_vertices@;
        let mut vertices: Vec<Point3> = Vec::new();
        let mut step: usize = 0;
        while step < pairs
            invariant
                a == side_a_vertices@,
                b == side_b_vertices@,
                a_count == a.len(),
                b_count == b.len(),
                a_count >= 2,
                b_count >= 2,
                pairs == strip_pairs(a_count as int, b_count as int),
                pairs <= MAX_SIDE_POINTS,
                step <= pairs,
                vertices@.len() == 2 * step,
                forall|k: int| 0 <= k < 2 * step ==> #[trigger] vertices@[k] == strip_vertex(a, b, k),
            decreases pairs - step,
        {
            let va = if step < a_count {
                side_a_vertices[step]
            } else {
                side_a_vertices[a_count - 1]
            };
            let vb = if step < b_count {
                side_b_vertices[step]
            } else {
                side_b_vertices[b_count - 1]
            };
            vertices.push(va);
            vertices.push(vb);
            step += 1;
        }
        let mut indices: Vec<u16> = Vec::new();
        let mut quad: usize = 0;
        while quad + 1 < pairs
            invariant
                2 <= pairs <= MAX_SIDE_POINTS,
                quad + 1 <= pairs,
                indices@.len() == 6 * quad,
                forall|k: int| 0 <= k < 6 * quad ==> #[trigger] indices@[k] == strip_index(k) as u16,
            decreases pairs - quad,
        {
            let first: u16 = (2 * quad) as u16;
            indices.push(first);
            indices.push(first + 1);
            indices.push(first + 2);
            indices.push(first + 1);
            indices.push(first + 2);
            indices.push(first + 3);
            quad += 1;
        }
        Self { vertices, indices }
    }

    /// Triangulates the strip between two boundaries of a chart.
    pub fn checked_triangulate_from_two_sides(
        side_a_vertices: Vec<Point3>,
        side_b_vertices: Vec<Point3>,
    ) -> (r: Result<Self, ChartMalformed>)
        ensures
            side_a_vertices@.len() < 2 || side_b_vertices@.len() < 2 ==> r == Err::<
                Self,
                ChartMalformed,
            >(ChartMalformed::DegenerateStrip),
            side_a_vertices@.len() >= 2 && side_b_vertices@.len() >= 2 && (side_a_vertices@.len()
                > MAX_SIDE_POINTS || side_b_vertices@.len() > MAX_SIDE_POINTS) ==> r == Err::<
                Self,
                ChartMalformed,
            >(ChartMalformed::ValueOutOfRange),
            2 <= side_a_vertices@.len() <= MAX_SIDE_POINTS && 2 <= side_b_vertices@.len()
                <= MAX_SIDE_POINTS ==> r is Ok,
            r matches Ok(p) ==> {
                &&& p.vertices@ == strip_vertices(side_a_vertices@, side_b_vertices@)
                &&& p.indices@ == strip_indices(
                    strip_pairs(side_a_vertices@.len() as int, side_b_vertices@.len() as int),
                )
            },
    {
        if side_a_vertices.len() < 2 || side_b_vertices.len() < 2 {
            Err(ChartMalformed::DegenerateStrip)
        } else if side_a_vertices.len() > MAX_SIDE_POINTS || side_b_vertices.len()
            > MAX_SIDE_POINTS {
            Err(ChartMalformed::ValueOutOfRange)
        } else {
            Ok(Self::triangulate_from_two_sides(side_a_vertices, side_b_vertices))
        }
    }

    pub fn to_mesh(self) -> (r: Mesh)
        ensures
            r.vertices == self.vertices,
            r.indices == self.indices,
    {
        Mesh { vertices: self.vertices, indices: self.indices }
    }
}

/// The strip has two vertices for each point of the longer boundary and six
/// indices for each step between two of its points; every index names a
/// vertex of the strip.
pub proof fn lemma_strip_counts(a: Seq<Point3>, b: Seq<Point3>)
    requires
        2 <= a.len() <= MAX_SIDE_POINTS,
        2 <= b.len() <= MAX_SIDE_POINTS,
    ensures
        strip_vertices(a, b).len() == 2 * strip_pairs(a.len() as int, b.len() as int),
        strip_vertices(a, b).len() % 2 == 0,
        strip_vertices(a, b).len() >= 4,
        strip_indices(strip_pairs(a.len() as int, b.len() as int)).len() == 6 * (strip_pairs(
            a.len() as int,
            b.len() as int,
        ) - 1),
        forall|k: int|
            0 <= k < strip_indices(strip_pairs(a.len() as int, b.len() as int)).len()
                ==> (#[trigger] strip_indices(strip_pairs(a.len() as int, b.len() as int))[k])
                < strip_vertices(a, b).len(),
{
}

/// Two boundaries of the same length `L` give `2 L` vertices and
/// `6 (L - 1)` indices.
pub proof fn lemma_strip_parity(a: Seq<Point3>, b: Seq<Point3>)
    requires
        a.len() == b.len(),
        2 <= a.len() <= MAX_SIDE_POINTS,
    ensures
        strip_vertices(a, b).len() == 2 * a.len(),
        strip_indices(strip_pairs(a.len() as int, b.len() as int)).len() == 6 * (a.len() - 1),
        forall|k: int|
            0 <= k < a.len() ==> strip_vertices(a, b)[2 * k] == a[k] && strip_vertices(a, b)[2 * k
                + 1] == b[k],
{
}

/// Corner `k` of the cuboid with the edge lengths `x`, `y` and `z` about the
/// origin. The corners count through the lateral axis first, then the
/// vertical one, then the depth; each half length is rounded towards
/// negative infinity.
pub open spec fn cuboid_corner(x: int, y: int, z: int, k: int) -> Point3 {
    Point3 {
        x: (if k % 2 == 0 {
            -(x / 2)
        } else {
            x / 2
        }) as i64,
        y: (if (k / 2) % 2 == 0 {
            -(y / 2)
        } else {
            y / 2
        }) as i64,
        z: (if k / 4 == 0 {
            -(z / 2)
        } else {
            z / 2
        }) as i64,
    }
}

/// The triangles of a cuboid: front, back, left, right, top and bottom face,
/// two triangles each.
pub open spec fn cuboid_indices() -> Seq<u16> {
    seq![
        0u16, 1u16, 2u16, 1u16, 2u16, 3u16,
        4u16, 5u16, 6u16, 5u16, 6u16, 7u16,
        4u16, 0u16, 6u16, 0u16, 6u16, 2u16,
        1u16, 5u16, 3u16, 5u16, 3u16, 7u16,
        2u16, 3u16, 6u16, 3u16, 6u16, 7u16,
        0u16, 1u16, 4u16, 1u16, 4u16, 5u16,
    ]
}

/// A solid with flat faces, as a triangle list.
#[derive(Clone, Debug)]
pub struct Polyhedron {
    pub vertices: Vec<Point3>,
    pub indices: Vec<u16>,
}

impl Polyhedron {
    /// The cuboid with the edge lengths `x`, `y` and `z`, centred at the
    /// origin.
    pub fn cuboid(x: i64, y: i64, z: i64) -> (r: Self)
        ensures
            r.vertices@ == Seq::new(8, |k: int| cuboid_corner(x as int, y as int, z as int, k)),
            r.indices@ == cuboid_indices(),
    {
        let x_far = halved(x);
        let y_far = halved(y);
        let z_far = halved(z);
        let x_range: [i64; 2] = [-x_far, x_far];
        let y_range: [i64; 2] = [-y_far, y_far];
        let z_range: [i64; 2] = [-z_far, z_far];
        let mut vertices: Vec<Point3> = Vec::new();
        let mut k: usize = 0;
        while k < 8
            invariant
                k <= 8,
                vertices@.len() == k,
                x_range@ == seq![(-(x / 2)) as i64, (x / 2) as i64],
                y_range@ == seq![(-(y / 2)) as i64, (y / 2) as i64],
                z_range@ == seq![(-(z / 2)) as i64, (z / 2) as i64],
                forall|j: int|
                    0 <= j < k ==> #[trigger] vertices@[j] == cuboid_corner(
                        x as int,
                        y as int,
                        z as int,
                        j,
                    ),
            decreases 8 - k,
        {
            vertices.push(
                Point3 { x: x_range[k % 2], y: y_range[(k / 2) % 2], z: z_range[k / 4] },
            );
            k += 1;
        }
        let faces: [u16; 36] = [
            0, 1, 2, 1, 2, 3,
            4, 5, 6, 5, 6, 7,
            4, 0, 6, 0, 6, 2,
            1, 5, 3, 5, 3, 7,
            2, 3, 6, 3, 6, 7,
            0, 1, 4, 1, 4, 5,
        ];
        let mut indices: Vec<u16> = Vec::new();
        let mut i: usize = 0;
        while i < 36
            invariant
                i <= 36,
                indices@.len() == i,
                forall|j: int| 0 <= j < i ==> #[trigger] indices@[j] == faces@[j],
            decreases 36 - i,
        {
            indices.push(faces[i]);
            i += 1;
        }
        Self { vertices, indices }
    }

    pub fn to_mesh(self) -> (r: Mesh)
        ensures
            r.vertices == self.vertices,
            r.indices == self.indices,
    {
        Mesh { vertices: self.vertices, indices: self.indices }
    }
}

} // verus!
