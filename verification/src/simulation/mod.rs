use vstd::prelude::*;
use crate::error::Error;

pub mod sim_physics_engine;

verus! {

/// What fills a grid cell.
#[derive(Debug, Clone, Copy, PartialEq, Eq, Structural)]
pub enum SimGridCellType {
    Solid,
    Fluid,
    Air,
}

/// The collision value of a cell type: 0 for a solid, 1 for anything a fluid may flow into.
pub open spec fn cell_type_value(t: SimGridCellType) -> u8 {
    match t {
        SimGridCellType::Solid => 0,
        SimGridCellType::Fluid => 1,
        SimGridCellType::Air => 1,
    }
}

/// The integer layout of the simulation grid: its size in cells, the side of a cell, the type
/// of every cell (rows of `dimensions.0`, columns of `dimensions.1`), and the spatial lookup
/// table that buckets particle ids by the cell they sit in.
#[derive(Debug)]
pub struct SimGrid {
    pub dimensions: (u16, u16),
    pub cell_size: u16,
    pub cell_type: Vec<Vec<SimGridCellType>>,
    pub spatial_lookup: Vec<Vec<u64>>,
}

impl SimGrid {
    /// The cell types as a sequence of rows.
    pub open spec fn cells(&self) -> Seq<Seq<SimGridCellType>> {
        Seq::new(self.cell_type@.len(), |i: int| self.cell_type@[i]@)
    }

    /// The lookup table as a sequence of buckets of particle ids.
    pub open spec fn lookup(&self) -> Seq<Seq<u64>> {
        Seq::new(self.spatial_lookup@.len(), |i: int| self.spatial_lookup@[i]@)
    }

    /// The cell-type table covers the grid: it has at least `dimensions.0` rows, each of at
    /// least `dimensions.1` cells, so every cell of the grid can be read and written.
    pub open spec fn wf(&self) -> bool {
        &&& self.cell_type@.len() >= self.dimensions.0
        &&& forall|i: int| 0 <= i < self.dimensions.0 ==> #[trigger] self.cell_type@[i]@.len() >= self.dimensions.1
    }

    /// Whether the cell at (row, col), if it is a cell of the grid, has an entry in the table.
    pub open spec fn readable(&self, row: int, col: int) -> bool {
        self.in_bounds(row, col) ==> row < self.cell_type@.len() && col < self.cell_type@[row]@.len()
    }

    /// Whether (row, col) names a cell of the grid.
    pub open spec fn in_bounds(&self, row: int, col: int) -> bool {
        0 <= row < self.dimensions.0 && 0 <= col < self.dimensions.1
    }

    /// The collision value of a cell, 0 for solid cells and for positions outside the grid.
    pub open spec fn spec_cell_type_value(&self, row: int, col: int) -> u8 {
        if self.in_bounds(row, col) {
            cell_type_value(self.cells()[row][col])
        } else {
            0
        }
    }

    /// Set the type of the cell at (`cell_x`, `cell_y`); refused when the cell lies outside the grid.
    pub fn set_grid_cell_type(&mut self, cell_x: usize, cell_y: usize, cell_type: SimGridCellType) -> (res: Result<(), Error>)
        requires
            old(self).readable(cell_x as int, cell_y as int),
        ensures
            old(self).wf() ==> final(self).wf(),
            final(self).dimensions == old(self).dimensions,
            final(self).cell_size == old(self).cell_size,
            final(self).lookup() == old(self).lookup(),
            cell_x >= old(self).dimensions.0 ==> res == Err::<(), Error>(Error::OutOfGridBounds("X-coord. is out of bounds!")),
            cell_x < old(self).dimensions.0 && cell_y >= old(self).dimensions.1
                ==> res == Err::<(), Error>(Error::OutOfGridBounds("Y-coord. is out of bounds!")),
            res is Err ==> final(self).cells() == old(self).cells(),
            old(self).in_bounds(cell_x as int, cell_y as int) ==> {
                &&& res is Ok
                &&& final(self).cells() == old(self).cells().update(
                    cell_x as int,
                    old(self).cells()[cell_x as int].update(cell_y as int, cell_type),
                )
            },
    {
        if cell_x >= self.dimensions.0 as usize {
            return Err(Error::OutOfGridBounds("X-coord. is out of bounds!"));
        }
        if cell_y >= self.dimensions.1 as usize {
            return Err(Error::OutOfGridBounds("Y-coord. is out of bounds!"));
        }
        let ghost before = self.cells();
        self.cell_type[cell_x][cell_y] = cell_type;
        assert(self.cells() =~= before.update(cell_x as int, before[cell_x as int].update(cell_y as int, cell_type)));
        Ok(())
    }

    /// Set the grid's size in cells. The cell-type table is left as it was: a grid shrunk
    /// within its table stays well formed, one grown past its table does not.
    pub fn set_grid_dimensions(&mut self, width: u16, height: u16) -> (res: Result<(), Error>)
        ensures
            res is Ok,
            final(self).dimensions == (width, height),
            old(self).wf() && width <= old(self).dimensions.0 && height <= old(self).dimensions.1 ==> final(self).wf(),
            final(self).cell_size == old(self).cell_size,
            final(self).cells() == old(self).cells(),
            final(self).lookup() == old(self).lookup(),
    {
        self.dimensions = (width, height);
        Ok(())
    }

    /// Set the side of a grid cell.
    pub fn set_grid_cell_size(&mut self, cell_size: u16) -> (res: Result<(), Error>)
        ensures
            res is Ok,
            final(self).cell_size == cell_size,
            final(self).dimensions == old(self).dimensions,
            final(self).cells() == old(self).cells(),
            final(self).lookup() == old(self).lookup(),
    {
        self.cell_size = cell_size;
        Ok(())
    }

    /// The collision value of a cell: 0 if it is solid or lies outside the grid, 1 if it holds
    /// fluid or air.
    pub fn get_cell_type_value(&self, cell_row: usize, cell_col: usize) -> (res: u8)
        requires
            self.readable(cell_row as int, cell_col as int),
        ensures
            res == self.spec_cell_type_value(cell_row as int, cell_col as int),
    {
        if cell_row >= self.dimensions.0 as usize || cell_col >= self.dimensions.1 as usize {
            return 0;
        }
        match self.cell_type[cell_row][cell_col] {
            SimGridCellType::Solid => 0,
            SimGridCellType::Fluid => 1,
            SimGridCellType::Air => 1,
        }
    }

    /// Put a particle id at the end of a lookup bucket.
    pub fn add_particle_to_lookup(&mut self, particle: u64, lookup_index: usize)
        requires
            lookup_index < old(self).spatial_lookup@.len(),
        ensures
            final(self).lookup() == old(self).lookup().update(
                lookup_index as int,
                old(self).lookup()[lookup_index as int].push(particle),
            ),
            final(self).dimensions == old(self).dimensions,
            final(self).cell_size == old(self).cell_size,
            final(self).cells() == old(self).cells(),
    {
        let ghost before = self.lookup();
        self.spatial_lookup[lookup_index].push(particle);
        assert(self.lookup() =~= before.update(lookup_index as int, before[lookup_index as int].push(particle)));
        assert(self.cells() =~= old(self).cells());
    }

    /// Take every occurrence of a particle id out of a lookup bucket, keeping the order of the rest.
    pub fn remove_particle_from_lookup(&mut self, particle: u64, lookup_index: usize)
        requires
            lookup_index < old(self).spatial_lookup@.len(),
        ensures
            final(self).lookup() == old(self).lookup().update(
                lookup_index as int,
                old(self).lookup()[lookup_index as int].filter(other_than(particle)),
            ),
            final(self).dimensions == old(self).dimensions,
            final(self).cell_size == old(self).cell_size,
            final(self).cells() == old(self).cells(),
    {
        let ghost before = self.lookup();
        let ghost bucket = before[lookup_index as int];
        let mut kept: Vec<u64> = Vec::new();
        let n: usize = self.spatial_lookup[lookup_index].len();
        let mut i: usize = 0;
        while i < n
            invariant
                lookup_index < self.spatial_lookup@.len(),
                self.lookup() == before,
                bucket == self.spatial_lookup@[lookup_index as int]@,
                n == bucket.len(),
                i <= n,
                kept@ == bucket.take(i as int).filter(other_than(particle)),
            decreases n - i,
        {
            let e: u64 = self.spatial_lookup[lookup_index][i];
            proof {
                reveal_with_fuel(Seq::<_>::filter, 1);
                assert(bucket.take(i + 1).drop_last() =~= bucket.take(i as int));
            }
            if e != particle {
                kept.push(e);
            }
            i = i + 1;
        }
        assert(bucket.take(n as int) =~= bucket);
        self.spatial_lookup[lookup_index] = kept;
        assert(self.lookup() =~= before.update(lookup_index as int, bucket.filter(other_than(particle))));
        assert(self.cells() =~= old(self).cells());
    }

    /// Erase the spatial lookup table: one empty bucket per cell of the grid. Done after a
    /// scene is loaded, so that no bucket names a particle of the previous scene.
    pub fn reset_spatial_lookup(&mut self)
        ensures
            final(self).lookup() == Seq::new(
                (old(self).dimensions.0 as nat) * (old(self).dimensions.1 as nat),
                |i: int| Seq::<u64>::empty(),
            ),
            final(self).dimensions == old(self).dimensions,
            final(self).cell_size == old(self).cell_size,
            final(self).cells() == old(self).cells(),
    {
        let rows: usize = self.dimensions.0 as usize;
        let cols: usize = self.dimensions.1 as usize;
        assert(rows * cols <= 0xffff * 0xffff) by (nonlinear_arith)
            requires rows <= 0xffff, cols <= 0xffff;
        let count: usize = rows * cols;
        let mut spatial_lookup: Vec<Vec<u64>> = Vec::new();
        let mut k: usize = 0;
        while k < count
            invariant
                k <= count,
                spatial_lookup@.len() == k,
                forall|i: int| 0 <= i < k ==> #[trigger] spatial_lookup@[i]@ == Seq::<u64>::empty(),
            decreases count - k,
        {
            spatial_lookup.push(Vec::new());
            k = k + 1;
        }
        self.spatial_lookup = spatial_lookup;
        assert(self.lookup() =~= Seq::new(count as nat, |i: int| Seq::<u64>::empty()));
        assert(self.cells() =~= old(self).cells());
    }

    /// A copy of the particle ids in a lookup bucket.
    pub fn get_particles_in_lookup(&self, lookup_index: usize) -> (res: Vec<u64>)
        requires
            lookup_index < self.spatial_lookup@.len(),
        ensures
            res@ == self.lookup()[lookup_index as int],
    {
        let res = self.spatial_lookup[lookup_index].clone();
        assert(res@ =~= self.spatial_lookup@[lookup_index as int]@);
        res
    }
}

/// The predicate that keeps every id but `id`.
pub open spec fn other_than(id: u64) -> spec_fn(u64) -> bool {
    |e: u64| e != id
}

impl Default for SimGrid {
    /// A 25 by 25 grid of air cells of side 10, with one empty lookup bucket per cell.
    fn default() -> (grid: SimGrid)
        ensures
            grid.wf(),
            grid.dimensions == (25u16, 25u16),
            grid.cell_size == 10,
            grid.cells() == Seq::new(25, |i: int| Seq::new(25, |j: int| SimGridCellType::Air)),
            grid.lookup() == Seq::new(625, |i: int| Seq::<u64>::empty()),
    {
        let mut cell_type: Vec<Vec<SimGridCellType>> = Vec::new();
        let mut r: usize = 0;
        while r < 25
            invariant
                r <= 25,
                cell_type@.len() == r,
                forall|i: int| 0 <= i < r ==> #[trigger] cell_type@[i]@ == Seq::new(25, |j: int| SimGridCellType::Air),
            decreases 25 - r,
        {
            let mut row: Vec<SimGridCellType> = Vec::new();
            let mut c: usize = 0;
            while c < 25
                invariant
                    c <= 25,
                    row@ == Seq::new(c as nat, |j: int| SimGridCellType::Air),
                decreases 25 - c,
            {
                row.push(SimGridCellType::Air);
                c = c + 1;
                assert(row@ =~= Seq::new(c as nat, |j: int| SimGridCellType::Air));
            }
            cell_type.push(row);
            r = r + 1;
        }
        let mut spatial_lookup: Vec<Vec<u64>> = Vec::new();
        let mut k: usize = 0;
        while k < 625
            invariant
                k <= 625,
                spatial_lookup@.len() == k,
                forall|i: int| 0 <= i < k ==> #[trigger] spatial_lookup@[i]@ == Seq::<u64>::empty(),
            decreases 625 - k,
        {
            spatial_lookup.push(Vec::new());
            k = k + 1;
        }
        let grid = SimGrid { dimensions: (25, 25), cell_size: 10, cell_type, spatial_lookup };
        assert(grid.cells() =~= Seq::new(25, |i: int| Seq::new(25, |j: int| SimGridCellType::Air)));
        assert(grid.lookup() =~= Seq::new(625, |i: int| Seq::<u64>::empty()));
        grid
    }
}

/// The integer settings of the simulation: how many solver iterations run per frame
/// (0 while the simulation is paused).
#[derive(Debug, Clone, Copy, PartialEq, Eq, Structural)]
pub struct SimConstraints {
    pub iterations_per_frame: u8,
}

/// The number of iterations per frame that resuming the simulation restores.
pub const DEFAULT_ITERATIONS_PER_FRAME: u8 = 5;

/// The iteration count after a pause toggle: a running simulation (any nonzero count) stops,
/// a stopped one resumes at the default count.
pub open spec fn toggled_iterations(iterations: u8) -> u8 {
    if iterations != 0 { 0 } else { DEFAULT_ITERATIONS_PER_FRAME }
}

impl Default for SimConstraints {
    /// Five solver iterations per frame.
    fn default() -> (c: SimConstraints)
        ensures
            c.iterations_per_frame == DEFAULT_ITERATIONS_PER_FRAME,
    {
        SimConstraints { iterations_per_frame: DEFAULT_ITERATIONS_PER_FRAME }
    }
}

impl SimConstraints {
    /// Pause a running simulation by setting its iterations to zero, or resume a paused one at
    /// the default iteration count.
    pub fn toggle_simulation_pause(sim: &mut SimConstraints)
        ensures
            final(sim).iterations_per_frame == toggled_iterations(old(sim).iterations_per_frame),
    {
        if sim.iterations_per_frame != 0 {
            sim.iterations_per_frame = 0;
        } else {
            sim.iterations_per_frame = DEFAULT_ITERATIONS_PER_FRAME;
        }
    }

    /// Set the number of solver iterations per frame.
    pub fn change_timestep(sim: &mut SimConstraints, new_timestep: u8)
        ensures
            final(sim).iterations_per_frame == new_timestep,
    {
        sim.iterations_per_frame = new_timestep;
    }
}

/// Reading a cell's collision value after setting its type gives the value of the new type;
/// every other position reads as before.
pub proof fn lemma_cell_type_value_after_set(
    before: SimGrid,
    after: SimGrid,
    cell_x: int,
    cell_y: int,
    cell_type: SimGridCellType,
    row: int,
    col: int,
)
    requires
        before.wf(),
        before.in_bounds(cell_x, cell_y),
        after.dimensions == before.dimensions,
        after.cells() == before.cells().update(cell_x, before.cells()[cell_x].update(cell_y, cell_type)),
    ensures
        after.spec_cell_type_value(row, col) == if row == cell_x && col == cell_y {
            cell_type_value(cell_type)
        } else {
            before.spec_cell_type_value(row, col)
        },
{
    if after.in_bounds(row, col) {
        assert(after.cell_type@.len() == after.cells().len());
        assert(after.cells()[row] == after.cell_type@[row]@);
        assert(before.cells()[row] == before.cell_type@[row]@);
    }
}

/// Toggling the pause of a running simulation stops it, of a stopped one starts it; toggling
/// twice leaves a stopped simulation stopped and a running one running at the default count.
pub proof fn lemma_toggle_pause_twice(iterations: u8)
    ensures
        toggled_iterations(iterations) == 0 <==> iterations != 0,
        toggled_iterations(toggled_iterations(iterations)) == if iterations == 0 { 0 } else { DEFAULT_ITERATIONS_PER_FRAME },
{
}

/// A well-formed grid has an entry for every one of its cells.
pub proof fn lemma_wf_readable(grid: SimGrid, row: int, col: int)
    requires
        grid.wf(),
    ensures
        grid.readable(row, col),
{
}

/// Filtering out an id that a bucket does not hold leaves the bucket as it is.
proof fn lemma_filter_other_than_absent(bucket: Seq<u64>, particle_id: u64)
    requires
        !bucket.contains(particle_id),
    ensures
        bucket.filter(other_than(particle_id)) == bucket,
    decreases bucket.len(),
{
    reveal_with_fuel(Seq::<_>::filter, 1);
    if bucket.len() > 0 {
        let rest = bucket.drop_last();
        if rest.contains(particle_id) {
            let k: int = choose|k: int| 0 <= k < rest.len() && rest[k] == particle_id;
            assert(bucket[k] == particle_id);
        }
        lemma_filter_other_than_absent(rest, particle_id);
        assert(bucket[bucket.len() - 1] != particle_id);
        assert(rest.push(bucket.last()) =~= bucket);
    } else {
        assert(bucket.filter(other_than(particle_id)) =~= bucket);
    }
}

/// Taking a particle back out of the bucket it was just filed in restores the lookup table,
/// when the bucket did not hold it before.
pub proof fn lemma_remove_undoes_add(lookup: Seq<Seq<u64>>, particle_id: u64, lookup_index: int)
    requires
        0 <= lookup_index < lookup.len(),
        !lookup[lookup_index].contains(particle_id),
    ensures
        ({
            let added = lookup.update(lookup_index, lookup[lookup_index].push(particle_id));
            added.update(lookup_index, added[lookup_index].filter(other_than(particle_id)))
        }) == lookup,
{
    let bucket = lookup[lookup_index];
    let pushed = bucket.push(particle_id);
    reveal_with_fuel(Seq::<_>::filter, 1);
    assert(pushed.drop_last() =~= bucket);
    lemma_filter_other_than_absent(bucket, particle_id);
    assert(pushed.filter(other_than(particle_id)) == bucket);
    let added = lookup.update(lookup_index, pushed);
    assert(added.update(lookup_index, added[lookup_index].filter(other_than(particle_id))) =~= lookup);
}

/// Setting a cell back to the type it had undoes setting it.
pub proof fn lemma_set_cell_type_undone(cells: Seq<Seq<SimGridCellType>>, cell_x: int, cell_y: int, cell_type: SimGridCellType)
    requires
        0 <= cell_x < cells.len(),
        0 <= cell_y < cells[cell_x].len(),
    ensures
        ({
            let set = cells.update(cell_x, cells[cell_x].update(cell_y, cell_type));
            set.update(cell_x, set[cell_x].update(cell_y, cells[cell_x][cell_y]))
        }) == cells,
{
    let set = cells.update(cell_x, cells[cell_x].update(cell_y, cell_type));
    assert(set[cell_x].update(cell_y, cells[cell_x][cell_y]) =~= cells[cell_x]);
    assert(set.update(cell_x, set[cell_x].update(cell_y, cells[cell_x][cell_y])) =~= cells);
}

} // verus!
