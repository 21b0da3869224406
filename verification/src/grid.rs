//! The stepping core: a toroidal grid of cell ages, the per-cell transition,
//! and the double-buffered buffer pair that advances one generation at a
//! time by reading the current buffer and writing the other, then swapping
//! roles.
//!
//! A cell value is an age: 0 is dead, any positive value is alive and counts
//! the consecutive generations the cell has survived.  The grid wraps at the
//! edges, so every cell has exactly 8 neighbors.

use vstd::prelude::*;
use vstd::arithmetic::mul::{
    lemma_mul_inequality, lemma_mul_is_distributive_add_other_way, lemma_mul_nonnegative,
};
use vstd::arithmetic::div_mod::lemma_fundamental_div_mod_converse;
use crate::rules::{Rule, mask_bit};
use crate::seeding::{generate, generated_cells};

verus! {

/// Toroidal wrap of a coordinate that is at most one step outside
/// `0 .. m`: one step past an edge lands on the opposite edge.
pub open spec fn wrap(i: int, m: int) -> int
    recommends
        -m <= i < 2 * m,
{
    if i < 0 {
        i + m
    } else if i >= m {
        i - m
    } else {
        i
    }
}

/// 1 if the cell at column `x`, row `y` of a row-major grid of width `w`
/// is alive, else 0.
pub open spec fn live_at(cells: Seq<u32>, w: int, x: int, y: int) -> int {
    if cells[y * w + x] > 0 {
        1int
    } else {
        0int
    }
}

/// The number of live cells among the 8 toroidally wrapped neighbors of
/// the cell at column `x`, row `y`.
pub open spec fn live_neighbors(cells: Seq<u32>, w: int, h: int, x: int, y: int) -> int {
    live_at(cells, w, wrap(x - 1, w), wrap(y - 1, h)) + live_at(cells, w, wrap(x, w), wrap(y - 1, h))
        + live_at(cells, w, wrap(x + 1, w), wrap(y - 1, h)) + live_at(
        cells,
        w,
        wrap(x - 1, w),
        wrap(y, h),
    ) + live_at(cells, w, wrap(x + 1, w), wrap(y, h)) + live_at(
        cells,
        w,
        wrap(x - 1, w),
        wrap(y + 1, h),
    ) + live_at(cells, w, wrap(x, w), wrap(y + 1, h)) + live_at(
        cells,
        w,
        wrap(x + 1, w),
        wrap(y + 1, h),
    )
}

/// A surviving cell's next age: one more than its current age, held at
/// the largest representable age rather than wrapping.
pub open spec fn age_up(age: u32) -> u32 {
    if age == u32::MAX {
        u32::MAX
    } else {
        (age + 1) as u32
    }
}

/// The next value of one cell: a live cell survives (aging by one) exactly
/// when the survival mask holds its live-neighbor count, a dead cell is
/// born at age 1 exactly when the birth mask holds it; otherwise it is dead.
pub open spec fn transition(rule: Rule, cur: u32, n: int) -> u32
    recommends
        0 <= n <= 8,
{
    if cur > 0 {
        if 0 <= n <= 8 && mask_bit(rule.survives, n as u16) {
            age_up(cur)
        } else {
            0u32
        }
    } else {
        if 0 <= n <= 8 && mask_bit(rule.born, n as u16) {
            1u32
        } else {
            0u32
        }
    }
}

/// One full generation: every cell of the row-major grid stepped by the
/// transition on its own live-neighbor count in the old grid.
pub open spec fn next_grid(cells: Seq<u32>, w: int, h: int, rule: Rule) -> Seq<u32> {
    Seq::new(
        (w * h) as nat,
        |i: int| transition(rule, cells[i], live_neighbors(cells, w, h, i % w, i / w)),
    )
}

/// A row-major index built from in-range coordinates lies in the grid.
proof fn lemma_index_in_grid(w: int, h: int, x: int, y: int)
    requires
        w > 0,
        h > 0,
        0 <= x < w,
        0 <= y < h,
    ensures
        0 <= y * w + x < w * h,
        (y * w + x) % w == x,
        (y * w + x) / w == y,
{
    lemma_mul_nonnegative(y, w);
    lemma_mul_inequality(y + 1, h, w);
    lemma_mul_is_distributive_add_other_way(w, y, 1);
    assert(h * w == w * h) by (nonlinear_arith);
    lemma_fundamental_div_mod_converse(y * w + x, w, y, x);
}

/// 1 if the cell at the given coordinates is alive, else 0.
fn live_cell(cells: &Vec<u32>, w: u32, x: u32, y: u32) -> (b: u8)
    requires
        w > 0,
        x < w,
        (y as int) * (w as int) + (x as int) < cells@.len(),
        cells@.len() <= usize::MAX,
    ensures
        b == live_at(cells@, w as int, x as int, y as int),
        b <= 1,
{
    proof {
        lemma_mul_nonnegative(y as int, w as int);
    }
    let idx: usize = (y as usize) * (w as usize) + (x as usize);
    if cells[idx] > 0 {
        1
    } else {
        0
    }
}

/// Count the live cells among the 8 toroidally wrapped neighbors of the
/// cell at column `x`, row `y`.
pub fn count_live_neighbors(cells: &Vec<u32>, w: u32, h: u32, x: u32, y: u32) -> (n: u8)
    requires
        w > 0,
        h > 0,
        x < w,
        y < h,
        cells@.len() == (w as int) * (h as int),
        (w as int) * (h as int) <= usize::MAX,
    ensures
        n == live_neighbors(cells@, w as int, h as int, x as int, y as int),
        n <= 8,
{
    let xm = if x == 0 { w - 1 } else { x - 1 };
    let xp = if x + 1 == w { 0 } else { x + 1 };
    let ym = if y == 0 { h - 1 } else { y - 1 };
    let yp = if y + 1 == h { 0 } else { y + 1 };
    proof {
        assert(xm == wrap(x - 1, w as int));
        assert(xp == wrap(x + 1, w as int));
        assert(ym == wrap(y - 1, h as int));
        assert(yp == wrap(y + 1, h as int));
        lemma_index_in_grid(w as int, h as int, xm as int, ym as int);
        lemma_index_in_grid(w as int, h as int, x as int, ym as int);
        lemma_index_in_grid(w as int, h as int, xp as int, ym as int);
        lemma_index_in_grid(w as int, h as int, xm as int, y as int);
        lemma_index_in_grid(w as int, h as int, xp as int, y as int);
        lemma_index_in_grid(w as int, h as int, xm as int, yp as int);
        lemma_index_in_grid(w as int, h as int, x as int, yp as int);
        lemma_index_in_grid(w as int, h as int, xp as int, yp as int);
    }
    let mut n: u8 = live_cell(cells, w, xm, ym);
    n = n + live_cell(cells, w, x, ym);
    n = n + live_cell(cells, w, xp, ym);
    n = n + live_cell(cells, w, xm, y);
    n = n + live_cell(cells, w, xp, y);
    n = n + live_cell(cells, w, xm, yp);
    n = n + live_cell(cells, w, x, yp);
    n = n + live_cell(cells, w, xp, yp);
    n
}

/// Step one cell: apply the rule's survival or birth mask to the cell's
/// current age and its live-neighbor count.
pub fn step_cell(rule: &Rule, cur: u32, neighbors: u8) -> (next: u32)
    requires
        neighbors <= 8,
    ensures
        next == transition(*rule, cur, neighbors as int),
{
    let mask = if cur > 0 { rule.survives } else { rule.born };
    let set = mask & (1u16 << (neighbors as u16)) != 0;
    if set {
        if cur > 0 {
            if cur == u32::MAX {
                u32::MAX
            } else {
                cur + 1
            }
        } else {
            1
        }
    } else {
        0
    }
}

/// Compute one full generation of a row-major toroidal grid.  This is the
/// sequential form of the transition that the data-parallel dispatch must
/// match cell for cell.
pub fn next_generation(cells: &Vec<u32>, w: u32, h: u32, rule: &Rule) -> (out: Vec<u32>)
    requires
        w > 0,
        h > 0,
        cells@.len() == (w as int) * (h as int),
        (w as int) * (h as int) <= usize::MAX,
    ensures
        out@ == next_grid(cells@, w as int, h as int, *rule),
{
    let mut out: Vec<u32> = Vec::new();
    let mut y: u32 = 0;
    while y < h
        invariant
            y <= h,
            w > 0,
            h > 0,
            cells@.len() == (w as int) * (h as int),
            (w as int) * (h as int) <= usize::MAX,
            out@.len() == (y as int) * (w as int),
            forall|j: int|
                0 <= j < out@.len() ==> out@[j] == transition(
                    *rule,
                    cells@[j],
                    live_neighbors(cells@, w as int, h as int, j % (w as int), j / (w as int)),
                ),
        decreases h - y,
    {
        let mut x: u32 = 0;
        proof {
            lemma_mul_inequality(y as int + 1, h as int, w as int);
            lemma_mul_is_distributive_add_other_way(w as int, y as int, 1);
            assert((h as int) * (w as int) == (w as int) * (h as int)) by (nonlinear_arith);
        }
        while x < w
            invariant
                x <= w,
                y < h,
                w > 0,
                h > 0,
                cells@.len() == (w as int) * (h as int),
                (w as int) * (h as int) <= usize::MAX,
                (y as int + 1) * (w as int) <= (w as int) * (h as int),
                (y as int + 1) * (w as int) == (y as int) * (w as int) + (w as int),
                out@.len() == (y as int) * (w as int) + (x as int),
                forall|j: int|
                    0 <= j < out@.len() ==> out@[j] == transition(
                        *rule,
                        cells@[j],
                        live_neighbors(cells@, w as int, h as int, j % (w as int), j / (w as int)),
                    ),
            decreases w - x,
        {
            proof {
                lemma_index_in_grid(w as int, h as int, x as int, y as int);
            }
            let count = count_live_neighbors(cells, w, h, x, y);
            let cur = cells[(y as usize) * (w as usize) + (x as usize)];
            let next = step_cell(rule, cur, count);
            out.push(next);
            x = x + 1;
        }
        y = y + 1;
    }
    proof {
        assert((h as int) * (w as int) == (w as int) * (h as int)) by (nonlinear_arith);
        assert(out@ =~= next_grid(cells@, w as int, h as int, *rule));
    }
    out
}

/// The grid after `k` whole generations.
pub open spec fn stepped(cells: Seq<u32>, w: int, h: int, rule: Rule, k: nat) -> Seq<u32>
    decreases k,
{
    if k == 0 {
        cells
    } else {
        next_grid(stepped(cells, w, h, rule, (k - 1) as nat), w, h, rule)
    }
}

/// A freshly allocated scratch buffer: `n` dead cells.
pub open spec fn zero_cells(n: nat) -> Seq<u32> {
    Seq::new(n, |i: int| 0u32)
}

/// A grid dimension the dispatch tiling accepts: positive and a multiple
/// of the 8-cell tile edge.
pub open spec fn size_ok(w: int, h: int) -> bool {
    w > 0 && h > 0 && w % 8 == 0 && h % 8 == 0
}

/// The one failure a buffer pair can report: dimensions that do not fit
/// the 8 by 8 dispatch tiling.
#[derive(Clone, Copy, Debug, PartialEq, Eq, Structural)]
pub enum SetupError {
    AlignmentViolation,
}

/// Two equally sized grid buffers and the flag saying which of them is
/// current (authoritative); the other is scratch for the in-flight
/// generation.  `generation` counts completed steps since creation.
pub struct GridBufferPair {
    pub buf_a: Vec<u32>,
    pub buf_b: Vec<u32>,
    pub a_is_current: bool,
    pub width: u32,
    pub height: u32,
    pub generation: Ghost<nat>,
}

impl GridBufferPair {
    /// Well-formed pair: tile-aligned dimensions, both buffers sized to
    /// the grid, and the current role determined by the step parity.
    pub open spec fn wf(&self) -> bool {
        &&& size_ok(self.width as int, self.height as int)
        &&& (self.width as int) * (self.height as int) <= usize::MAX
        &&& self.buf_a@.len() == (self.width as int) * (self.height as int)
        &&& self.buf_b@.len() == (self.width as int) * (self.height as int)
        &&& (self.a_is_current <==> self.generation@ % 2 == 0)
    }

    /// The authoritative cells.
    pub open spec fn current(&self) -> Seq<u32> {
        if self.a_is_current {
            self.buf_a@
        } else {
            self.buf_b@
        }
    }

    /// The scratch cells the next generation will be written into.
    pub open spec fn scratch(&self) -> Seq<u32> {
        if self.a_is_current {
            self.buf_b@
        } else {
            self.buf_a@
        }
    }

    /// Create a pair for a `width` by `height` grid: buffer A holds the
    /// seeded initial cells and is current, buffer B is scratch.
    /// Dimensions that do not fit the 8 by 8 dispatch tiling are rejected
    /// here, before any stepping, and nothing is allocated for them.
    pub fn new(width: u32, height: u32, seed: u32, density: u8) -> (r: Result<
        GridBufferPair,
        SetupError,
    >)
        requires
            (width as int) * (height as int) <= usize::MAX,
        ensures
            r matches Ok(g) ==> {
                &&& size_ok(width as int, height as int)
                &&& g.wf()
                &&& g.width == width
                &&& g.height == height
                &&& g.a_is_current
                &&& g.generation@ == 0
                &&& g.current() == generated_cells(seed, density, (width * height) as nat)
                &&& g.scratch() == zero_cells((width * height) as nat)
            },
            r matches Err(e) ==> !size_ok(width as int, height as int) && e
                == SetupError::AlignmentViolation,
            r matches Ok(g) <==> size_ok(width as int, height as int),
    {
        if width == 0 || height == 0 || width % 8 != 0 || height % 8 != 0 {
            return Err(SetupError::AlignmentViolation);
        }
        let n: usize = (width as usize) * (height as usize);
        let buf_a = generate(width, height, seed, density);
        let mut buf_b: Vec<u32> = Vec::new();
        while buf_b.len() < n
            invariant
                buf_b@.len() <= n,
                forall|j: int| 0 <= j < buf_b@.len() ==> buf_b@[j] == 0u32,
            decreases n - buf_b@.len(),
        {
            buf_b.push(0);
        }
        proof {
            assert(buf_b@ =~= zero_cells((width * height) as nat));
        }
        Ok(
            GridBufferPair {
                buf_a,
                buf_b,
                a_is_current: true,
                width,
                height,
                generation: Ghost(0nat),
            },
        )
    }

    /// Advance one generation: read the current buffer, write the full
    /// next generation into the scratch buffer, and swap the roles.  The
    /// previous generation stays intact in the buffer that just became
    /// scratch.
    pub fn step(&mut self, rule: &Rule)
        requires
            old(self).wf(),
        ensures
            final(self).wf(),
            final(self).width == old(self).width,
            final(self).height == old(self).height,
            final(self).a_is_current == !old(self).a_is_current,
            final(self).generation@ == old(self).generation@ + 1,
            final(self).current() == next_grid(
                old(self).current(),
                old(self).width as int,
                old(self).height as int,
                *rule,
            ),
            final(self).scratch() == old(self).current(),
    {
        let w = self.width;
        let h = self.height;
        let next = if self.a_is_current {
            next_generation(&self.buf_a, w, h, rule)
        } else {
            next_generation(&self.buf_b, w, h, rule)
        };
        if self.a_is_current {
            self.buf_b = next;
        } else {
            self.buf_a = next;
        }
        self.a_is_current = !self.a_is_current;
        self.generation = Ghost(self.generation@ + 1);
    }

    /// Read-only access to the authoritative buffer, for the
    /// presentation layer.
    pub fn current_cells(&self) -> (c: &Vec<u32>)
        ensures
            c@ == self.current(),
    {
        if self.a_is_current {
            &self.buf_a
        } else {
            &self.buf_b
        }
    }

    /// The dispatch grid for one generation: the cell grid partitioned
    /// into 8 by 8 tiles, one workgroup per tile.  Because well-formed
    /// dimensions are multiples of 8, the rounded-up tile counts cover
    /// the grid exactly.
    pub fn workgroup_counts(&self) -> (c: (u32, u32))
        requires
            self.wf(),
        ensures
            c.0 == self.width / 8,
            c.1 == self.height / 8,
            c.0 * 8 == self.width,
            c.1 * 8 == self.height,
    {
        proof {
            vstd::arithmetic::div_mod::lemma_fundamental_div_mod(self.width as int, 8);
            vstd::arithmetic::div_mod::lemma_fundamental_div_mod(self.height as int, 8);
        }
        let cx = self.width / 8;
        let cy = self.height / 8;
        (cx, cy)
    }
}

/// Alternation of the two roles: buffer A is the current buffer exactly
/// after an even number of steps.  A fresh pair starts with A current at
/// step count zero, and every `step` call both flips the role and
/// increments the count, so the equivalence is an invariant of every
/// well-formed pair.
pub proof fn lemma_alternation(g: GridBufferPair)
    requires
        g.wf(),
    ensures
        g.a_is_current <==> g.generation@ % 2 == 0,
{
}

} // verus!
