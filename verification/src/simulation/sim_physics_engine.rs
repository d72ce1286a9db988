use vstd::prelude::*;
use super::{SimGrid, other_than};

verus! {

/// The lookup index of a cell: its column plus its row times the row count the table is laid
/// out with.
pub open spec fn spec_lookup_index(cell_row: int, cell_col: int, grid_row_count: int) -> int {
    cell_col + cell_row * grid_row_count
}

/// The index into the spatial lookup table of the cell at (`cell_row`, `cell_col`). The sum is
/// computed in `u16`, so it must not exceed `u16::MAX`.
pub fn get_lookup_index(cell_row: u16, cell_col: u16, grid_row_count: u16) -> (res: usize)
    requires
        spec_lookup_index(cell_row as int, cell_col as int, grid_row_count as int) <= u16::MAX,
    ensures
        res == spec_lookup_index(cell_row as int, cell_col as int, grid_row_count as int),
{
    proof {
        assert(0 <= cell_row * grid_row_count <= cell_col + cell_row * grid_row_count) by (nonlinear_arith);
    }
    let product: u16 = cell_row * grid_row_count;
    (cell_col + product) as usize
}

/// The row or column before `index`; below zero the subtraction wraps, which reads as a
/// position outside the grid.
pub open spec fn previous_index(index: int) -> int {
    if index == 0 { usize::MAX as int } else { index - 1 }
}

/// The collision values (0 or 1) of the cells next to (`cell_row`, `cell_col`), in the order
/// left, right, up, down.
pub open spec fn spec_cell_solids(grid: &SimGrid, cell_row: int, cell_col: int) -> Seq<u8> {
    seq![
        grid.spec_cell_type_value(cell_row, previous_index(cell_col)),
        grid.spec_cell_type_value(cell_row, cell_col + 1),
        grid.spec_cell_type_value(previous_index(cell_row), cell_col),
        grid.spec_cell_type_value(cell_row + 1, cell_col),
    ]
}

/// The cell solid modifiers (0 or 1) of the cells to the left, right, above and below a cell,
/// in that order.
pub fn calculate_cell_solids(grid: &SimGrid, cell_row: usize, cell_col: usize) -> (res: [u8; 4])
    requires
        grid.readable(cell_row as int, previous_index(cell_col as int)),
        grid.readable(cell_row as int, cell_col + 1),
        grid.readable(previous_index(cell_row as int), cell_col as int),
        grid.readable(cell_row + 1, cell_col as int),
        cell_row < usize::MAX,
        cell_col < usize::MAX,
    ensures
        res@ == spec_cell_solids(grid, cell_row as int, cell_col as int),
        forall|i: int| 0 <= i < 4 ==> #[trigger] res@[i] <= 1,
{
    let collision_left: u8 = grid.get_cell_type_value(cell_row, cell_col.wrapping_sub(1));
    let collision_right: u8 = grid.get_cell_type_value(cell_row, cell_col + 1);
    let collision_up: u8 = grid.get_cell_type_value(cell_row.wrapping_sub(1), cell_col);
    let collision_down: u8 = grid.get_cell_type_value(cell_row + 1, cell_col);
    let res = [collision_left, collision_right, collision_up, collision_down];
    assert(res@ =~= spec_cell_solids(grid, cell_row as int, cell_col as int));
    res
}

/// The lookup table after a particle recorded at `old_index` is filed under `lookup_index`:
/// unchanged if that bucket already holds it, else with the particle taken out of its old bucket
/// and put at the end of the new one.
pub open spec fn spec_relocated(lookup: Seq<Seq<u64>>, particle_id: u64, old_index: int, lookup_index: int) -> Seq<Seq<u64>> {
    if lookup[lookup_index].contains(particle_id) {
        lookup
    } else {
        let removed = lookup.update(old_index, lookup[old_index].filter(other_than(particle_id)));
        removed.update(lookup_index, removed[lookup_index].push(particle_id))
    }
}

/// The bucket a particle is recorded under after it is filed under `lookup_index`.
pub open spec fn spec_relocated_index(lookup: Seq<Seq<u64>>, particle_id: u64, old_index: int, lookup_index: int) -> int {
    if lookup[lookup_index].contains(particle_id) { old_index } else { lookup_index }
}

/// File a particle under the lookup bucket of the cell it now sits in (`lookup_index`). If that
/// bucket does not hold it yet, the particle leaves the bucket its `particle_lookup_index`
/// names, joins the new one, and its recorded index becomes `lookup_index`.
pub fn update_particle_lookup(
    particle_id: u64,
    particle_lookup_index: &mut usize,
    grid: &mut SimGrid,
    lookup_index: usize,
)
    requires
        lookup_index < old(grid).spatial_lookup@.len(),
        *old(particle_lookup_index) < old(grid).spatial_lookup@.len(),
    ensures
        final(grid).lookup() == spec_relocated(old(grid).lookup(), particle_id, *old(particle_lookup_index) as int, lookup_index as int),
        *final(particle_lookup_index) == spec_relocated_index(old(grid).lookup(), particle_id, *old(particle_lookup_index) as int, lookup_index as int),
        final(grid).dimensions == old(grid).dimensions,
        final(grid).cell_size == old(grid).cell_size,
        final(grid).cells() == old(grid).cells(),
        final(grid).lookup()[lookup_index as int].contains(particle_id),
        old(grid).lookup()[lookup_index as int].contains(particle_id) ==> {
            &&& final(grid).lookup() == old(grid).lookup()
            &&& *final(particle_lookup_index) == *old(particle_lookup_index)
        },
        !old(grid).lookup()[lookup_index as int].contains(particle_id) ==> *final(particle_lookup_index) == lookup_index,
{
    proof {
        lemma_relocation_files_particle(old(grid).lookup(), particle_id, *old(particle_lookup_index) as int, lookup_index as int);
    }
    let bucket = grid.get_particles_in_lookup(lookup_index);
    let mut found: bool = false;
    let mut i: usize = 0;
    while i < bucket.len()
        invariant
            i <= bucket@.len(),
            found <==> exists|k: int| 0 <= k < i && #[trigger] bucket@[k] == particle_id,
        decreases bucket@.len() - i,
    {
        if bucket[i] == particle_id {
            found = true;
        }
        i = i + 1;
    }
    if !found {
        grid.remove_particle_from_lookup(particle_id, *particle_lookup_index);
        assert(grid.spatial_lookup@.len() == grid.lookup().len());
        grid.add_particle_to_lookup(particle_id, lookup_index);
        *particle_lookup_index = lookup_index;
    }
}

/// A particle is placed at `index` when `index` names a bucket and that bucket is the only one
/// that holds the particle.
pub open spec fn placed_at(lookup: Seq<Seq<u64>>, particle_id: u64, index: int) -> bool {
    &&& 0 <= index < lookup.len()
    &&& forall|c: int| 0 <= c < lookup.len() ==> (#[trigger] lookup[c].contains(particle_id) <==> c == index)
}

/// Taking one id out of a bucket keeps exactly the other ids it held.
proof fn lemma_filter_other_than_contains(bucket: Seq<u64>, particle_id: u64, x: u64)
    ensures
        bucket.filter(other_than(particle_id)).contains(x) <==> (bucket.contains(x) && x != particle_id),
{
    let kept = bucket.filter(other_than(particle_id));
    if kept.contains(x) {
        bucket.lemma_filter_contains_rev(other_than(particle_id), x);
        let k: int = choose|k: int| 0 <= k < kept.len() && kept[k] == x;
        bucket.lemma_filter_pred(other_than(particle_id), k);
    }
    if bucket.contains(x) && x != particle_id {
        let k: int = choose|k: int| 0 <= k < bucket.len() && bucket[k] == x;
        bucket.lemma_filter_contains(other_than(particle_id), k);
    }
}

/// Re-filing a particle that sits in exactly one bucket, the one its index names, leaves it in
/// exactly one bucket: the bucket of the cell it was filed under, which its index then names.
pub proof fn lemma_relocation_keeps_particle_placed(
    lookup: Seq<Seq<u64>>,
    particle_id: u64,
    old_index: int,
    lookup_index: int,
)
    requires
        placed_at(lookup, particle_id, old_index),
        0 <= lookup_index < lookup.len(),
    ensures
        spec_relocated_index(lookup, particle_id, old_index, lookup_index) == lookup_index,
        placed_at(
            spec_relocated(lookup, particle_id, old_index, lookup_index),
            particle_id,
            spec_relocated_index(lookup, particle_id, old_index, lookup_index),
        ),
{
    let after = spec_relocated(lookup, particle_id, old_index, lookup_index);
    if !lookup[lookup_index].contains(particle_id) {
        let removed = lookup.update(old_index, lookup[old_index].filter(other_than(particle_id)));
        assert forall|c: int| 0 <= c < after.len() implies (#[trigger] after[c].contains(particle_id) <==> c == lookup_index) by {
            lemma_filter_other_than_contains(lookup[old_index], particle_id, particle_id);
            if c == lookup_index {
                assert(after[c] == removed[c].push(particle_id));
                assert(after[c][after[c].len() - 1] == particle_id);
            } else {
                assert(after[c] == removed[c]);
            }
        }
    }
}

/// Re-filing one particle leaves every other particle in the buckets it was in.
pub proof fn lemma_relocation_leaves_other_particles(
    lookup: Seq<Seq<u64>>,
    particle_id: u64,
    old_index: int,
    lookup_index: int,
    other_id: u64,
)
    requires
        other_id != particle_id,
        0 <= old_index < lookup.len(),
        0 <= lookup_index < lookup.len(),
    ensures
        spec_relocated(lookup, particle_id, old_index, lookup_index).len() == lookup.len(),
        forall|c: int| 0 <= c < lookup.len() ==>
            (#[trigger] spec_relocated(lookup, particle_id, old_index, lookup_index)[c].contains(other_id)
                <==> lookup[c].contains(other_id)),
{
    let after = spec_relocated(lookup, particle_id, old_index, lookup_index);
    if !lookup[lookup_index].contains(particle_id) {
        let removed = lookup.update(old_index, lookup[old_index].filter(other_than(particle_id)));
        assert forall|c: int| 0 <= c < lookup.len() implies (#[trigger] after[c].contains(other_id) <==> lookup[c].contains(other_id)) by {
            lemma_filter_other_than_contains(lookup[old_index], particle_id, other_id);
            if c == lookup_index {
                assert(after[c] == removed[c].push(particle_id));
                if removed[c].contains(other_id) {
                    let k: int = choose|k: int| 0 <= k < removed[c].len() && removed[c][k] == other_id;
                    assert(after[c][k] == other_id);
                }
                if after[c].contains(other_id) {
                    let k: int = choose|k: int| 0 <= k < after[c].len() && after[c][k] == other_id;
                    assert(removed[c][k] == other_id);
                }
            }
        }
    }
}

/// Within a table laid out with `grid_row_count` columns per row, two cells share a lookup index
/// only if they are the same cell.
pub proof fn lemma_lookup_index_distinct_cells(row1: int, col1: int, row2: int, col2: int, grid_row_count: int)
    requires
        0 <= row1,
        0 <= row2,
        0 <= col1 < grid_row_count,
        0 <= col2 < grid_row_count,
    ensures
        spec_lookup_index(row1, col1, grid_row_count) == spec_lookup_index(row2, col2, grid_row_count)
            <==> (row1 == row2 && col1 == col2),
{
    if row1 < row2 {
        assert(row1 * grid_row_count + grid_row_count <= row2 * grid_row_count) by (nonlinear_arith)
            requires row1 < row2, 0 < grid_row_count;
    } else if row2 < row1 {
        assert(row2 * grid_row_count + grid_row_count <= row1 * grid_row_count) by (nonlinear_arith)
            requires row2 < row1, 0 < grid_row_count;
    }
}

/// A cell of a grid with `rows` rows of `grid_row_count` columns has a lookup index below
/// `rows * grid_row_count`, the number of buckets of such a table.
pub proof fn lemma_lookup_index_in_range(cell_row: int, cell_col: int, grid_row_count: int, rows: int)
    requires
        0 <= cell_row < rows,
        0 <= cell_col < grid_row_count,
    ensures
        0 <= spec_lookup_index(cell_row, cell_col, grid_row_count) < rows * grid_row_count,
{
    assert(0 <= cell_row * grid_row_count) by (nonlinear_arith)
        requires 0 <= cell_row, 0 <= grid_row_count;
    assert(cell_row * grid_row_count + grid_row_count <= rows * grid_row_count) by (nonlinear_arith)
        requires cell_row < rows, 0 <= grid_row_count;
}

/// The collision pairs a particle takes part in within its bucket: the particle paired with
/// every id of the bucket other than its own, in bucket order.
pub open spec fn pairs_with(bucket: Seq<u64>, first: u64) -> Seq<(u64, u64)> {
    bucket.filter(other_than(first)).map_values(|second: u64| (first, second))
}

/// The collision pairs of the first `count` particles of a bucket, particle by particle.
pub open spec fn pairs_upto(bucket: Seq<u64>, count: int) -> Seq<(u64, u64)>
    decreases count,
{
    if count <= 0 {
        Seq::empty()
    } else {
        pairs_upto(bucket, count - 1) + pairs_with(bucket, bucket[count - 1])
    }
}

proof fn lemma_pairs_with_step(bucket: Seq<u64>, first: u64, j: int)
    requires
        0 <= j < bucket.len(),
    ensures
        pairs_with(bucket.take(j + 1), first) == if bucket[j] != first {
            pairs_with(bucket.take(j), first).push((first, bucket[j]))
        } else {
            pairs_with(bucket.take(j), first)
        },
{
    reveal_with_fuel(Seq::<_>::filter, 1);
    assert(bucket.take(j + 1).drop_last() =~= bucket.take(j));
    assert(bucket.take(j + 1).last() == bucket[j]);
    if bucket[j] != first {
        assert(pairs_with(bucket.take(j + 1), first) =~= pairs_with(bucket.take(j), first).push((first, bucket[j])));
    }
}

/// The ordered pairs of distinct particle ids of one lookup bucket that are pushed apart, in
/// the order the bucket is walked: for each particle, every other id of the bucket in turn.
pub fn collision_pairs_in_bucket(bucket: &Vec<u64>) -> (pairs: Vec<(u64, u64)>)
    ensures
        pairs@ == pairs_upto(bucket@, bucket@.len() as int),
{
    let mut pairs: Vec<(u64, u64)> = Vec::new();
    let n: usize = bucket.len();
    let mut i: usize = 0;
    while i < n
        invariant
            n == bucket@.len(),
            i <= n,
            pairs@ == pairs_upto(bucket@, i as int),
        decreases n - i,
    {
        let particle0_id = bucket[i];
        let ghost start = pairs@;
        let mut j: usize = 0;
        while j < n
            invariant
                n == bucket@.len(),
                i < n,
                j <= n,
                particle0_id == bucket@[i as int],
                start == pairs_upto(bucket@, i as int),
                pairs@ == start + pairs_with(bucket@.take(j as int), particle0_id),
            decreases n - j,
        {
            let particle1_id = bucket[j];
            proof {
                lemma_pairs_with_step(bucket@, particle0_id, j as int);
            }
            if particle0_id != particle1_id {
                pairs.push((particle0_id, particle1_id));
            }
            j = j + 1;
        }
        assert(bucket@.take(n as int) =~= bucket@);
        i = i + 1;
    }
    pairs
}

/// No particle is ever paired with itself, and both members of every pair come from the bucket.
pub proof fn lemma_collision_pairs_distinct(bucket: Seq<u64>, count: int)
    requires
        0 <= count <= bucket.len(),
    ensures
        forall|k: int| 0 <= k < pairs_upto(bucket, count).len() ==> {
            let pair = #[trigger] pairs_upto(bucket, count)[k];
            &&& pair.0 != pair.1
            &&& bucket.contains(pair.0)
            &&& bucket.contains(pair.1)
        },
    decreases count,
{
    if count > 0 {
        lemma_collision_pairs_distinct(bucket, count - 1);
        let first: u64 = bucket[count - 1];
        let prev = pairs_upto(bucket, count - 1);
        let row = pairs_with(bucket, first);
        let kept = bucket.filter(other_than(first));
        assert(pairs_upto(bucket, count) == prev + row);
        assert forall|k: int| 0 <= k < pairs_upto(bucket, count).len() implies {
            let pair = #[trigger] pairs_upto(bucket, count)[k];
            &&& pair.0 != pair.1
            &&& bucket.contains(pair.0)
            &&& bucket.contains(pair.1)
        } by {
            if k >= prev.len() {
                let m: int = k - prev.len();
                assert(pairs_upto(bucket, count)[k] == row[m]);
                assert(row[m] == (first, kept[m]));
                bucket.lemma_filter_pred(other_than(first), m);
                assert(kept.contains(kept[m]));
                bucket.lemma_filter_contains_rev(other_than(first), kept[m]);
                assert(bucket[count - 1] == first);
            } else {
                assert(pairs_upto(bucket, count)[k] == prev[k]);
            }
        }
    }
}

/// Filing a particle under a bucket always leaves that bucket holding it, whatever index the
/// particle had recorded; the table is left alone only when the bucket already held it, and
/// otherwise the particle's recorded index becomes that bucket.
pub proof fn lemma_relocation_files_particle(
    lookup: Seq<Seq<u64>>,
    particle_id: u64,
    old_index: int,
    lookup_index: int,
)
    requires
        0 <= old_index < lookup.len(),
        0 <= lookup_index < lookup.len(),
    ensures
        spec_relocated(lookup, particle_id, old_index, lookup_index).len() == lookup.len(),
        spec_relocated(lookup, particle_id, old_index, lookup_index)[lookup_index].contains(particle_id),
        lookup[lookup_index].contains(particle_id) ==> {
            &&& spec_relocated(lookup, particle_id, old_index, lookup_index) == lookup
            &&& spec_relocated_index(lookup, particle_id, old_index, lookup_index) == old_index
        },
        !lookup[lookup_index].contains(particle_id)
            ==> spec_relocated_index(lookup, particle_id, old_index, lookup_index) == lookup_index,
{
    let after = spec_relocated(lookup, particle_id, old_index, lookup_index);
    if !lookup[lookup_index].contains(particle_id) {
        let removed = lookup.update(old_index, lookup[old_index].filter(other_than(particle_id)));
        assert(after[lookup_index] == removed[lookup_index].push(particle_id));
        assert(after[lookup_index][after[lookup_index].len() - 1] == particle_id);
    }
}

} // verus!
