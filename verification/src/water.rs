//! Water-surface grid generation.
//!
//! A map's ground is a row-major grid of tiles; a water plane covers every
//! tile whose lowest point lies below the maximum water height.  Whether a
//! tile is submerged is decided outside (it compares terrain heights); this
//! module builds the quad grid over the submerged tiles: four corner
//! vertices and six triangle-list indices per kept tile, in tile order.

use vstd::prelude::*;

verus! {

/// One corner vertex of a water tile.  The device layer scales the tile
/// coordinate (plus one in each flagged direction) by the tile size to get
/// the world position.
#[derive(Clone, Copy, PartialEq, Eq, Structural, Debug)]
pub struct WaterGridVertex {
    /// Column of the tile the vertex belongs to.
    pub grid_u: u32,
    /// Row of the tile the vertex belongs to.
    pub grid_v: u32,
    /// Whether the vertex sits on the tile's east edge.
    pub east: bool,
    /// Whether the vertex sits on the tile's north edge.
    pub north: bool,
}

/// The largest tile count a map may carry: four vertices per tile must be
/// addressable by 32-bit indices.
pub const MAX_TILE_COUNT: usize = 0x3FFF_FFFF;

/// Number of true entries of `s`.
pub open spec fn count_true(s: Seq<bool>) -> int
    decreases s.len(),
{
    if s.len() == 0 {
        0
    } else {
        count_true(s.drop_last()) + if s.last() {
            1int
        } else {
            0int
        }
    }
}

/// There are never more true entries than entries.
pub proof fn lemma_count_true_bound(s: Seq<bool>)
    ensures
        0 <= count_true(s) <= s.len(),
    decreases s.len(),
{
    if s.len() > 0 {
        lemma_count_true_bound(s.drop_last());
    }
}

/// The four corner vertices of tile `i` of a grid `width` tiles wide:
/// south-west, south-east, north-west, north-east.
pub open spec fn tile_vertices(i: int, width: int) -> Seq<WaterGridVertex> {
    let u = (i % width) as u32;
    let v = (i / width) as u32;
    seq![
        WaterGridVertex { grid_u: u, grid_v: v, east: false, north: false },
        WaterGridVertex { grid_u: u, grid_v: v, east: true, north: false },
        WaterGridVertex { grid_u: u, grid_v: v, east: false, north: true },
        WaterGridVertex { grid_u: u, grid_v: v, east: true, north: true },
    ]
}

/// The six triangle-list indices of one tile quad whose first vertex sits
/// at `base`.
pub open spec fn tile_indices(base: int) -> Seq<u32> {
    seq![
        base as u32,
        (base + 1) as u32,
        (base + 2) as u32,
        (base + 1) as u32,
        (base + 3) as u32,
        (base + 2) as u32,
    ]
}

/// The vertices of the water grid over the submerged tiles, in tile order.
pub open spec fn grid_vertices(submerged: Seq<bool>, width: int) -> Seq<WaterGridVertex>
    decreases submerged.len(),
{
    if submerged.len() == 0 {
        Seq::empty()
    } else {
        let prefix = grid_vertices(submerged.drop_last(), width);
        if submerged.last() {
            prefix + tile_vertices(submerged.len() - 1, width)
        } else {
            prefix
        }
    }
}

/// The triangle-list indices of the water grid over the submerged tiles.
pub open spec fn grid_indices(submerged: Seq<bool>, width: int) -> Seq<u32>
    decreases submerged.len(),
{
    if submerged.len() == 0 {
        Seq::empty()
    } else {
        let prefix = grid_indices(submerged.drop_last(), width);
        if submerged.last() {
            prefix + tile_indices(4 * count_true(submerged.drop_last()))
        } else {
            prefix
        }
    }
}

/// The grid holds four vertices and six indices per submerged tile.
pub proof fn lemma_grid_counts(submerged: Seq<bool>, width: int)
    ensures
        grid_vertices(submerged, width).len() == 4 * count_true(submerged),
        grid_indices(submerged, width).len() == 6 * count_true(submerged),
    decreases submerged.len(),
{
    if submerged.len() > 0 {
        lemma_grid_counts(submerged.drop_last(), width);
        lemma_count_true_bound(submerged.drop_last());
    }
}

/// Every index of the water grid refers to one of its vertices.
pub proof fn lemma_grid_indices_in_range(submerged: Seq<bool>, width: int)
    requires
        submerged.len() <= MAX_TILE_COUNT,
    ensures
        forall|k: int|
            0 <= k < grid_indices(submerged, width).len() ==> #[trigger] grid_indices(
                submerged,
                width,
            )[k] < grid_vertices(submerged, width).len(),
    decreases submerged.len(),
{
    if submerged.len() > 0 {
        let prev = submerged.drop_last();
        lemma_grid_indices_in_range(prev, width);
        lemma_grid_counts(prev, width);
        lemma_grid_counts(submerged, width);
        lemma_count_true_bound(prev);
        assert forall|k: int| 0 <= k < grid_indices(submerged, width).len() implies #[trigger]
        grid_indices(submerged, width)[k] < grid_vertices(submerged, width).len() by {
            if k < grid_indices(prev, width).len() {
                assert(grid_indices(submerged, width)[k] == grid_indices(prev, width)[k]);
            }
        }
    }
}

/// Builds the water grid over the submerged tiles of a map `width` tiles
/// wide: four corner vertices and six indices per submerged tile, in tile
/// order, every index referring into the vertex array.
#[verifier::loop_isolation(false)]
pub fn generate_water_grid(submerged: &Vec<bool>, width: usize) -> (r: (
    Vec<WaterGridVertex>,
    Vec<u32>,
))
    requires
        width > 0,
        submerged@.len() <= MAX_TILE_COUNT,
    ensures
        r.0@ == grid_vertices(submerged@, width as int),
        r.1@ == grid_indices(submerged@, width as int),
{
    let mut vertices: Vec<WaterGridVertex> = Vec::new();
    let mut indices: Vec<u32> = Vec::new();

    let mut index: usize = 0;
    while index < submerged.len()
        invariant
            index <= submerged@.len(),
            vertices@ == grid_vertices(submerged@.take(index as int), width as int),
            indices@ == grid_indices(submerged@.take(index as int), width as int),
            vertices@.len() == 4 * count_true(submerged@.take(index as int)),
        decreases submerged@.len() - index,
    {
        let ghost pref = submerged@.take(index as int);
        let ghost prefx = submerged@.take(index as int + 1);
        proof {
            assert(prefx.drop_last() =~= pref);
            assert(prefx.last() == submerged@[index as int]);
            lemma_count_true_bound(pref);
            lemma_grid_counts(pref, width as int);
        }

        if submerged[index] {
            let grid_u = (index % width) as u32;
            let grid_v = (index / width) as u32;
            let base = vertices.len() as u32;

            vertices.push(WaterGridVertex { grid_u, grid_v, east: false, north: false });
            vertices.push(WaterGridVertex { grid_u, grid_v, east: true, north: false });
            vertices.push(WaterGridVertex { grid_u, grid_v, east: false, north: true });
            vertices.push(WaterGridVertex { grid_u, grid_v, east: true, north: true });

            indices.push(base);
            indices.push(base + 1);
            indices.push(base + 2);
            indices.push(base + 1);
            indices.push(base + 3);
            indices.push(base + 2);

            proof {
                assert(vertices@ =~= grid_vertices(prefx, width as int));
                assert(indices@ =~= grid_indices(prefx, width as int));
            }
        }

        index = index + 1;
    }

    proof {
        assert(submerged@.take(submerged@.len() as int) =~= submerged@);
    }

    (vertices, indices)
}

} // verus!
