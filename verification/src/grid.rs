//! A dense table of samples with a fixed count of rows and of columns,
//! stored row after row. The signal chain keeps its per-pulse magnitudes and
//! its range-Doppler map in such tables: one row for each range bin.

use vstd::prelude::*;

verus! {

/// Whether `rows` has `n_rows` rows of `n_cols` entries each.
pub open spec fn rectangular<T>(rows: Seq<Seq<T>>, n_rows: nat, n_cols: nat) -> bool {
    &&& rows.len() == n_rows
    &&& forall|r: int| 0 <= r < rows.len() ==> (#[trigger] rows[r]).len() == n_cols
}

/// The rows of a vector of vectors, each as a sequence.
pub open spec fn rows_of<T>(rows: Vec<Vec<T>>) -> Seq<Seq<T>> {
    Seq::new(rows@.len(), |r: int| rows@[r]@)
}

/// The place of row `r`, column `c` in a table of `n_cols` columns that is
/// stored row after row.
pub open spec fn cell_offset(r: int, c: int, n_cols: int) -> int {
    r * n_cols + c
}

/// Every cell of a table has its own place in the storage, and the places
/// fill the storage without a gap beyond its end.
pub proof fn lemma_cell_offset_in_bounds(r: int, c: int, n_rows: int, n_cols: int)
    by (nonlinear_arith)
    requires
        0 <= r < n_rows,
        0 <= c < n_cols,
    ensures
        0 <= r * n_cols <= cell_offset(r, c, n_cols) < n_rows * n_cols,
        cell_offset(r, c, n_cols) / n_cols == r,
        cell_offset(r, c, n_cols) % n_cols == c,
{
    assert(r * n_cols + c < (r + 1) * n_cols);
    assert((r + 1) * n_cols <= n_rows * n_cols);
    assert((r * n_cols + c) / n_cols == r && (r * n_cols + c) % n_cols == c) by {
        vstd::arithmetic::div_mod::lemma_fundamental_div_mod_converse(
            r * n_cols + c,
            n_cols,
            r,
            c,
        );
    }
}

/// Two cells that share a place in the storage are one cell.
pub proof fn lemma_cell_offset_is_injective(r: int, c: int, r2: int, c2: int, n_cols: int)
    requires
        0 <= r,
        0 <= r2,
        0 <= c < n_cols,
        0 <= c2 < n_cols,
        cell_offset(r, c, n_cols) == cell_offset(r2, c2, n_cols),
    ensures
        r == r2,
        c == c2,
{
    lemma_cell_offset_in_bounds(r, c, r + 1, n_cols);
    lemma_cell_offset_in_bounds(r2, c2, r2 + 1, n_cols);
}

/// A table of `n_rows` rows and `n_cols` columns.
pub struct Grid<T> {
    n_rows: usize,
    n_cols: usize,
    cells: Vec<T>,
}

impl<T> View for Grid<T> {
    type V = Seq<Seq<T>>;

    /// The rows of the table, each with its entries in the order of the
    /// columns.
    closed spec fn view(&self) -> Seq<Seq<T>> {
        Seq::new(
            self.n_rows as nat,
            |r: int|
                Seq::new(
                    self.n_cols as nat,
                    |c: int| self.cells@[cell_offset(r, c, self.n_cols as int)],
                ),
        )
    }
}

impl<T> Grid<T> {
    #[verifier::type_invariant]
    spec fn storage_matches_shape(self) -> bool {
        self.cells@.len() == self.n_rows * self.n_cols
    }

    /// Count of columns. The view alone does not tell it where the table
    /// has no row.
    pub closed spec fn width(&self) -> nat {
        self.n_cols as nat
    }

    /// Count of rows.
    pub open spec fn height(&self) -> nat {
        self@.len()
    }

    /// The rows of a table all have its width.
    pub proof fn lemma_rectangular(&self)
        ensures
            rectangular(self@, self.height(), self.width()),
    {
    }

    /// Count of rows.
    pub fn n_rows(&self) -> (n: usize)
        ensures
            n == self.height(),
    {
        self.n_rows
    }

    /// Count of columns.
    pub fn n_cols(&self) -> (n: usize)
        ensures
            n == self.width(),
    {
        self.n_cols
    }

    /// The entry in row `r`, column `c`.
    pub fn get(&self, r: usize, c: usize) -> (entry: &T)
        requires
            r < self.height(),
            c < self.width(),
        ensures
            *entry == self@[r as int][c as int],
    {
        proof {
            use_type_invariant(self);
            lemma_cell_offset_in_bounds(r as int, c as int, self.n_rows as int, self.n_cols as int);
            assert(self.cells@.len() == self.cells.len());
        }
        &self.cells[r * self.n_cols + c]
    }

    /// Puts `value` in row `r`, column `c`, and leaves every other entry as
    /// it is.
    pub fn set(&mut self, r: usize, c: usize, value: T)
        requires
            r < old(self).height(),
            c < old(self).width(),
        ensures
            final(self).width() == old(self).width(),
            final(self)@ == old(self)@.update(r as int, old(self)@[r as int].update(c as int, value)),
    {
        proof {
            use_type_invariant(&*self);
            lemma_cell_offset_in_bounds(r as int, c as int, self.n_rows as int, self.n_cols as int);
            assert(self.cells@.len() == self.cells.len());
        }
        let at: usize = r * self.n_cols + c;
        // The storage is taken out of the table for the write: a table is
        // whole at every moment, so its storage is not written in place.
        let mut taken = Grid { n_rows: 0, n_cols: 0, cells: Vec::new() };
        core::mem::swap(self, &mut taken);
        let Grid { n_rows, n_cols, mut cells } = taken;
        cells.set(at, value);
        *self = Grid { n_rows, n_cols, cells };
        proof {
            let n_cols: int = self.n_cols as int;
            let after = self@;
            let wanted = old(self)@.update(r as int, old(self)@[r as int].update(c as int, value));
            assert(after.len() == wanted.len());
            assert forall|r2: int| 0 <= r2 < after.len() implies after[r2] =~= wanted[r2] by {
                assert forall|c2: int| 0 <= c2 < n_cols implies after[r2][c2] == wanted[r2][c2] by {
                    lemma_cell_offset_in_bounds(r2, c2, self.n_rows as int, n_cols);
                    if cell_offset(r2, c2, n_cols) == at {
                        lemma_cell_offset_is_injective(r2, c2, r as int, c as int, n_cols);
                    }
                }
            }
            assert(after =~= wanted);
        }
    }
}

impl<T: Copy> Grid<T> {
    /// A table of `n_rows` rows and `n_cols` columns with `value` in every
    /// place, or `None` where the count of its places is beyond what a
    /// vector can index.
    pub fn filled(n_rows: usize, n_cols: usize, value: T) -> (grid: Option<Grid<T>>)
        ensures
            grid is Some <==> n_rows * n_cols <= usize::MAX,
            grid matches Some(g) ==> {
                &&& g.width() == n_cols
                &&& g@ == Seq::new(n_rows as nat, |r: int| Seq::new(n_cols as nat, |c: int| value))
            },
    {
        let count: usize = match n_rows.checked_mul(n_cols) {
            Some(count) => count,
            None => {
                return None;
            },
        };
        let mut cells: Vec<T> = Vec::new();
        while cells.len() < count
            invariant
                cells@.len() <= count,
                forall|i: int| 0 <= i < cells@.len() ==> cells@[i] == value,
            decreases count - cells@.len(),
        {
            cells.push(value);
        }
        let grid = Grid { n_rows, n_cols, cells };
        proof {
            let wanted = Seq::new(n_rows as nat, |r: int| Seq::new(n_cols as nat, |c: int| value));
            assert(grid@.len() == wanted.len());
            assert forall|r: int| 0 <= r < grid@.len() implies grid@[r] =~= wanted[r] by {
                assert forall|c: int| 0 <= c < n_cols implies grid@[r][c] == wanted[r][c] by {
                    lemma_cell_offset_in_bounds(r, c, n_rows as int, n_cols as int);
                }
            }
            assert(grid@ =~= wanted);
        }
        Some(grid)
    }

    /// The entries of row `r` in the order of the columns.
    pub fn row(&self, r: usize) -> (entries: Vec<T>)
        requires
            r < self.height(),
        ensures
            entries@ == self@[r as int],
    {
        let mut entries: Vec<T> = Vec::new();
        let mut c: usize = 0;
        while c < self.n_cols
            invariant
                r < self.height(),
                c <= self.n_cols,
                entries@.len() == c,
                forall|k: int| 0 <= k < c ==> entries@[k] == self@[r as int][k],
            decreases self.n_cols - c,
        {
            entries.push(*self.get(r, c));
            c += 1;
        }
        assert(entries@ =~= self@[r as int]);
        entries
    }

    /// All rows of the table, first row first.
    pub fn to_rows(&self) -> (rows: Vec<Vec<T>>)
        ensures
            rows_of(rows) == self@,
            rectangular(rows_of(rows), self.height(), self.width()),
    {
        let mut rows: Vec<Vec<T>> = Vec::new();
        let mut r: usize = 0;
        while r < self.n_rows
            invariant
                r <= self.n_rows,
                rows@.len() == r,
                forall|k: int| 0 <= k < r ==> (#[trigger] rows@[k])@ == self@[k],
            decreases self.n_rows - r,
        {
            rows.push(self.row(r));
            r += 1;
        }
        assert(rows_of(rows) =~= self@);
        rows
    }
}

} // verus!
