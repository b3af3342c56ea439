//! Topology of a surface of revolution sampled on a regular grid.
//!
//! The grid has `steps_u + 1` columns and `steps_v + 1` rows of vertices, laid
//! out row by row. Each of the `steps_u * steps_v` cells is one quad whose four
//! corners index the shared vertex array; every attribute stream of the mesh
//! uses the same indices.
use vstd::prelude::*;

verus! {

/// Vertex counts below this value are indexed with 16-bit integers.
pub const NARROW_INDEX_LIMIT: u32 = 0xffff;

/// Element width of the index buffer.
#[derive(Clone, Copy, Debug, PartialEq, Eq, Structural)]
pub enum IndexFormat {
    /// 16-bit indices.
    Narrow,
    /// 32-bit indices.
    Wide,
}

pub open spec fn vertex_count_spec(steps_u: nat, steps_v: nat) -> nat {
    (steps_u + 1) * (steps_v + 1)
}

pub open spec fn index_count_spec(steps_u: nat, steps_v: nat) -> nat {
    steps_u * steps_v * 4
}

pub open spec fn index_format_spec(vertex_count: nat) -> IndexFormat {
    if vertex_count < NARROW_INDEX_LIMIT {
        IndexFormat::Narrow
    } else {
        IndexFormat::Wide
    }
}

/// A grid that has at least one cell along each axis and whose vertex and
/// index counts fit in 32 bits.
pub open spec fn valid_steps(steps_u: u32, steps_v: u32) -> bool {
    &&& steps_u >= 1
    &&& steps_v >= 1
    &&& vertex_count_spec(steps_u as nat, steps_v as nat) <= u32::MAX
    &&& index_count_spec(steps_u as nat, steps_v as nat) <= u32::MAX
}

/// Index of the vertex in column `i` and row `j`.
pub open spec fn vertex_at(steps_u: nat, i: nat, j: nat) -> nat {
    (steps_u + 1) * j + i
}

/// Corner `corner` (0 to 3) of cell number `cell`, cells numbered row by row.
/// The corners go round the cell: (i, j), (i + 1, j), (i + 1, j + 1), (i, j + 1).
pub open spec fn quad_corner(steps_u: nat, cell: nat, corner: nat) -> nat {
    let j = cell / steps_u;
    let i = cell % steps_u;
    let v = vertex_at(steps_u, i, j);
    if corner == 0 {
        v
    } else if corner == 1 {
        v + 1
    } else if corner == 2 {
        v + steps_u + 2
    } else {
        v + steps_u + 1
    }
}

proof fn lemma_div_mod_exact(x: nat, d: nat, q: nat, r: nat)
    requires
        d > 0,
        r < d,
        x == d * q + r,
    ensures
        x / d == q,
        x % d == r,
{
    vstd::arithmetic::mul::lemma_mul_is_commutative(d as int, q as int);
    vstd::arithmetic::div_mod::lemma_fundamental_div_mod_converse(x as int, d as int, q as int, r as int);
}

proof fn lemma_valid_steps_bounds(steps_u: u32, steps_v: u32)
    requires
        valid_steps(steps_u, steps_v),
    ensures
        steps_u < u32::MAX,
        steps_v < u32::MAX,
{
    assert(steps_u + 1 <= (steps_u + 1) * (steps_v + 1)) by (nonlinear_arith)
        requires
            steps_v >= 1,
    {
    }
    assert(steps_v + 1 <= (steps_u + 1) * (steps_v + 1)) by (nonlinear_arith)
        requires
            steps_u >= 1,
    {
    }
}

/// Every corner of every cell addresses a vertex of the grid.
pub proof fn lemma_quad_corner_in_range(steps_u: nat, steps_v: nat, cell: nat, corner: nat)
    requires
        steps_u >= 1,
        cell < steps_u * steps_v,
        corner < 4,
    ensures
        quad_corner(steps_u, cell, corner) < vertex_count_spec(steps_u, steps_v),
{
    let j = cell / steps_u;
    let i = cell % steps_u;
    vstd::arithmetic::div_mod::lemma_fundamental_div_mod(cell as int, steps_u as int);
    assert(i < steps_u);
    assert(j < steps_v) by (nonlinear_arith)
        requires
            cell == steps_u * j + i,
            cell < steps_u * steps_v,
            i >= 0,
    {
    }
    assert(vertex_at(steps_u, i, j) + steps_u + 2 < vertex_count_spec(steps_u, steps_v))
        by (nonlinear_arith)
        requires
            i < steps_u,
            j < steps_v,
            j + 1 <= steps_v,
    {
        assert((steps_u + 1) * j + i + steps_u + 2 <= (steps_u + 1) * (j + 1) + steps_u + 1);
        assert((steps_u + 1) * (j + 1) <= (steps_u + 1) * steps_v);
    }
}

/// Number of vertices of the grid: `(steps_u + 1) * (steps_v + 1)`.
pub fn vertex_count(steps_u: u32, steps_v: u32) -> (r: u32)
    requires
        valid_steps(steps_u, steps_v),
    ensures
        r == vertex_count_spec(steps_u as nat, steps_v as nat),
{
    proof {
        lemma_valid_steps_bounds(steps_u, steps_v);
    }
    (steps_u + 1) * (steps_v + 1)
}

/// Number of indices of the grid: four per cell.
pub fn index_count(steps_u: u32, steps_v: u32) -> (r: u32)
    requires
        valid_steps(steps_u, steps_v),
    ensures
        r == index_count_spec(steps_u as nat, steps_v as nat),
{
    steps_u * steps_v * 4
}

/// The narrowest index width used for a mesh of `vertex_count` vertices.
pub fn index_format(vertex_count: u32) -> (r: IndexFormat)
    ensures
        r == index_format_spec(vertex_count as nat),
{
    if vertex_count < NARROW_INDEX_LIMIT {
        IndexFormat::Narrow
    } else {
        IndexFormat::Wide
    }
}

/// Sizes of a grid mesh, derived from its resolution.
#[derive(Clone, Copy, Debug, PartialEq, Eq, Structural)]
pub struct MeshLayout {
    pub steps_u: u32,
    pub steps_v: u32,
    pub vertex_count: u32,
    pub index_count: u32,
    pub index_format: IndexFormat,
}

impl MeshLayout {
    /// Layout of the grid with `steps_u` by `steps_v` cells.
    pub fn new(steps_u: u32, steps_v: u32) -> (r: MeshLayout)
        requires
            valid_steps(steps_u, steps_v),
        ensures
            r.steps_u == steps_u,
            r.steps_v == steps_v,
            r.vertex_count == vertex_count_spec(steps_u as nat, steps_v as nat),
            r.index_count == index_count_spec(steps_u as nat, steps_v as nat),
            r.index_format == index_format_spec(r.vertex_count as nat),
    {
        let vertex_count = vertex_count(steps_u, steps_v);
        MeshLayout {
            steps_u,
            steps_v,
            vertex_count,
            index_count: index_count(steps_u, steps_v),
            index_format: index_format(vertex_count),
        }
    }
}

/// Column and row of a vertex in the grid.
#[derive(Clone, Copy, Debug, PartialEq, Eq, Structural)]
pub struct GridPoint {
    pub i: u32,
    pub j: u32,
}

/// The grid positions of all vertices, in vertex order (row by row).
pub fn vertex_grid(steps_u: u32, steps_v: u32) -> (r: Vec<GridPoint>)
    requires
        valid_steps(steps_u, steps_v),
    ensures
        r@.len() == vertex_count_spec(steps_u as nat, steps_v as nat),
        forall|k: int|
            0 <= k < r@.len() ==> {
                &&& r@[k].i == k % (steps_u + 1)
                &&& r@[k].j == k / (steps_u + 1)
            },
{
    proof {
        lemma_valid_steps_bounds(steps_u, steps_v);
    }
    let mut r: Vec<GridPoint> = Vec::new();
    let mut j: u32 = 0;
    while j <= steps_v
        invariant
            valid_steps(steps_u, steps_v),
            steps_u < u32::MAX,
            steps_v < u32::MAX,
            j <= steps_v + 1,
            r@.len() == (steps_u + 1) * j,
            forall|k: int|
                0 <= k < r@.len() ==> {
                    &&& r@[k].i == k % (steps_u + 1)
                    &&& r@[k].j == k / (steps_u + 1)
                },
        decreases steps_v + 1 - j,
    {
        let mut i: u32 = 0;
        while i <= steps_u
            invariant
                valid_steps(steps_u, steps_v),
                steps_u < u32::MAX,
                steps_v < u32::MAX,
                j <= steps_v,
                i <= steps_u + 1,
                r@.len() == (steps_u + 1) * j + i,
                forall|k: int|
                    0 <= k < r@.len() ==> {
                        &&& r@[k].i == k % (steps_u + 1)
                        &&& r@[k].j == k / (steps_u + 1)
                    },
            decreases steps_u + 1 - i,
        {
            proof {
                lemma_div_mod_exact(r@.len(), (steps_u + 1) as nat, j as nat, i as nat);
            }
            r.push(GridPoint { i, j });
            i = i + 1;
        }
        assert(r@.len() == (steps_u + 1) * (j + 1)) by (nonlinear_arith)
            requires
                r@.len() == (steps_u + 1) * j + steps_u + 1,
        {
        }
        j = j + 1;
    }
    r
}

/// The quad index buffer: four corners per cell, cells row by row, each
/// corner as given by `quad_corner`.
pub fn quad_indices(steps_u: u32, steps_v: u32) -> (r: Vec<u32>)
    requires
        valid_steps(steps_u, steps_v),
    ensures
        r@.len() == index_count_spec(steps_u as nat, steps_v as nat),
        forall|k: int|
            0 <= k < r@.len() ==> r@[k] == quad_corner(steps_u as nat, (k / 4) as nat, (k % 4) as nat),
        forall|k: int|
            0 <= k < r@.len() ==> r@[k] < vertex_count_spec(steps_u as nat, steps_v as nat),
{
    let mut r: Vec<u32> = Vec::new();
    let mut j: u32 = 0;
    while j < steps_v
        invariant
            valid_steps(steps_u, steps_v),
            j <= steps_v,
            r@.len() == 4 * (steps_u * j),
            forall|k: int|
                0 <= k < r@.len() ==> r@[k] == quad_corner(steps_u as nat, (k / 4) as nat, (k % 4) as nat),
        decreases steps_v - j,
    {
        let mut i: u32 = 0;
        while i < steps_u
            invariant
                valid_steps(steps_u, steps_v),
                j < steps_v,
                i <= steps_u,
                r@.len() == 4 * (steps_u * j + i),
                forall|k: int|
                    0 <= k < r@.len() ==> r@[k] == quad_corner(steps_u as nat, (k / 4) as nat, (k % 4) as nat),
            decreases steps_u - i,
        {
            let ghost cell: nat = (steps_u * j + i) as nat;
            proof {
                assert(cell < steps_u * steps_v) by (nonlinear_arith)
                    requires
                        cell == steps_u * j + i,
                        i < steps_u,
                        j < steps_v,
                {
                    assert(steps_u * j + i < steps_u * (j + 1));
                    assert(steps_u * (j + 1) <= steps_u * steps_v);
                }
                lemma_div_mod_exact(cell, steps_u as nat, j as nat, i as nat);
                lemma_quad_corner_in_range(steps_u as nat, steps_v as nat, cell, 2);
                assert((steps_u + 1) * j <= u32::MAX) by (nonlinear_arith)
                    requires
                        j < steps_v,
                        (steps_u + 1) * (steps_v + 1) <= u32::MAX,
                {
                    assert((steps_u + 1) * j <= (steps_u + 1) * (steps_v + 1));
                }
            }
            let v: u32 = (steps_u + 1) * j + i;
            let ghost base = r@.len();
            r.push(v);
            r.push(v + 1);
            r.push(v + steps_u + 2);
            r.push(v + steps_u + 1);
            proof {
                lemma_div_mod_exact(base, 4, cell, 0);
                lemma_div_mod_exact(base + 1, 4, cell, 1);
                lemma_div_mod_exact(base + 2, 4, cell, 2);
                lemma_div_mod_exact(base + 3, 4, cell, 3);
            }
            i = i + 1;
        }
        assert(4 * (steps_u * j + steps_u) == 4 * (steps_u * (j + 1))) by (nonlinear_arith);
        j = j + 1;
    }
    proof {
        assert forall|k: int| 0 <= k < r@.len() implies r@[k] < vertex_count_spec(steps_u as nat, steps_v as nat) by {
            vstd::arithmetic::div_mod::lemma_fundamental_div_mod(k, 4);
            lemma_quad_corner_in_range(steps_u as nat, steps_v as nat, (k / 4) as nat, (k % 4) as nat);
        }
    }
    r
}

} // verus!
