//! Deterministic seeded initialization of a grid.
//!
//! One uniform 32-bit word is drawn per cell from a ChaCha20 stream seeded
//! by the 32-bit grid seed; the cell starts alive (age 1) exactly when that
//! word, read as a fraction of the full 32-bit range, is below the requested
//! density percentage.  The stream is a pure function of the seed, so the
//! same seed, density and dimensions always produce bit-identical cells.

use vstd::prelude::*;

verus! {

#[verifier::external_type_specification]
#[verifier::external_body]
pub struct ExChaCha20Rng(rand_chacha::ChaCha20Rng);

/// The word at position `pos` of the ChaCha20 stream seeded by `seed`.
/// The stream is deterministic and platform-independent, so this is a
/// function of `seed` and `pos` alone.
pub uninterp spec fn chacha_word(seed: u32, pos: nat) -> u32;

/// A ChaCha20 word stream together with its seed and how many words
/// have been drawn from it, so that each draw can be pinned to a
/// position of the stream.
pub(crate) struct SeedStream {
    pub rng: rand_chacha::ChaCha20Rng,
    pub seed: Ghost<u32>,
    pub pos: Ghost<nat>,
}

impl SeedStream {
    /// Relies on rand_chacha's `ChaCha20Rng::seed_from_u64`: seeding is
    /// deterministic in the given seed, independent of platform or process.
    #[verifier::external_body]
    pub(crate) fn new(seed: u32) -> (r: SeedStream)
        ensures
            r.seed@ == seed,
            r.pos@ == 0,
    {
        SeedStream {
            rng: rand::SeedableRng::seed_from_u64(seed as u64),
            seed: Ghost(seed),
            pos: Ghost(0nat),
        }
    }

    /// Relies on rand_chacha's `ChaCha20Rng::next_u32`: the next word of
    /// the stream, a function of the seed and the position alone.
    #[verifier::external_body]
    pub(crate) fn next_word(&mut self) -> (r: u32)
        ensures
            final(self).seed@ == old(self).seed@,
            final(self).pos@ == old(self).pos@ + 1,
            r == chacha_word(old(self).seed@, old(self).pos@),
    {
        rand::RngCore::next_u32(&mut self.rng)
    }
}

/// Relies on rand's `random`: a fresh seed drawn from the thread-local
/// generator.  Nothing is promised of the value.
#[verifier::external_body]
pub(crate) fn random_seed() -> u32 {
    rand::random::<u32>()
}

/// Whether the cell at draw position `pos` starts alive: the drawn word,
/// as a fraction of the full 32-bit range, lies below `density` percent.
pub open spec fn cell_alive(seed: u32, density: u8, pos: nat) -> bool {
    (chacha_word(seed, pos) as int) * 100 < (density as int) * 0x1_0000_0000
}

/// The freshly generated cells for a grid of `n` cells: age 1 where the
/// cell starts alive, age 0 where it starts dead, in draw order.
pub open spec fn generated_cells(seed: u32, density: u8, n: nat) -> Seq<u32> {
    Seq::new(n, |i: int| if cell_alive(seed, density, i as nat) { 1u32 } else { 0u32 })
}

/// Generate the initial cells of a `width` by `height` grid from a seed
/// and a density percentage, one uniform draw per cell in row-major order.
pub fn generate(width: u32, height: u32, seed: u32, density: u8) -> (cells: Vec<u32>)
    requires
        width * height <= usize::MAX,
    ensures
        cells@ == generated_cells(seed, density, (width * height) as nat),
{
    let n: usize = (width as usize) * (height as usize);
    let mut stream = SeedStream::new(seed);
    let mut cells: Vec<u32> = Vec::new();
    while cells.len() < n
        invariant
            n == width * height,
            stream.seed@ == seed,
            stream.pos@ == cells@.len(),
            cells@.len() <= n,
            forall|j: int| 0 <= j < cells@.len()
                ==> cells@[j] == (if cell_alive(seed, density, j as nat) { 1u32 } else { 0u32 }),
        decreases n - cells@.len(),
    {
        let word = stream.next_word();
        let alive = (word as u64) * 100 < (density as u64) * 0x1_0000_0000;
        cells.push(if alive { 1 } else { 0 });
    }
    proof {
        assert(cells@ =~= generated_cells(seed, density, (width * height) as nat));
    }
    cells
}

/// Determinism of generation: the generated cells are a function of the
/// seed, the density and the cell count alone, so two grids generated
/// from the same parameters are bit-identical.
pub proof fn lemma_generate_deterministic(a: Seq<u32>, b: Seq<u32>, seed: u32, density: u8, n: nat)
    requires
        a == generated_cells(seed, density, n),
        b == generated_cells(seed, density, n),
    ensures
        a == b,
{
}

} // verus!
