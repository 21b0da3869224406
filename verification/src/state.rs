//! The orchestrating simulation state: the current rule, grid size, seed,
//! density, pacing rate and pause flag, mutated only through validating
//! setters.  Any change to the rule, size, seed or density rebuilds the
//! grid buffer pair wholesale from the current parameters, and every
//! transition produces a display notification for the presentation layer.

use vstd::prelude::*;
use vstd::pervasive::unreached;
use crate::rules::{Rule, catalog, rule_at, num_rules, display_name, lemma_catalog_wf};
use crate::grid::{GridBufferPair, size_ok, stepped};
use crate::seeding::{generated_cells, random_seed};
use crate::pacing::{PacingController, advance_count, advance_rem, period_ns};

verus! {

/// A grid edge length the configuration accepts.
pub open spec fn eligible_size(s: int) -> bool {
    s == 64 || s == 128 || s == 256 || s == 512 || s == 1024 || s == 2048
}

/// Whether a requested grid edge length is one of the accepted sizes.
pub fn is_eligible_size(s: u32) -> (b: bool)
    ensures
        b == eligible_size(s as int),
{
    s == 64 || s == 128 || s == 256 || s == 512 || s == 1024 || s == 2048
}

/// A typed command from the UI-facing surface, queued by the shell and
/// applied by the orchestration loop — explicit message passing instead
/// of reaching into ambient state.
#[derive(Debug, Clone, Copy)]
pub enum CustomWinitEvent {
    RuleChange(u32),
    SizeChange(u32),
    SetDensity(u8),
    SetGenerationsPerSecond(u8),
    Reset,
    TogglePause,
}

/// The display-relevant snapshot pushed to the presentation layer after
/// every state transition.  The frame count is only reported while
/// paused; a running simulation reports 0.
pub struct Notification {
    pub rule_idx: u32,
    pub rule_name: String,
    pub cells_width: u32,
    pub cells_height: u32,
    pub seed: u32,
    pub density: u8,
    pub paused: bool,
    pub generations_per_second: u8,
    pub frame: u64,
}

/// The simulation state: configuration, pause flag, frame counter,
/// pacing accumulator and the grid buffer pair they govern.
pub struct State {
    pub rule_idx: u32,
    pub cells_width: u32,
    pub cells_height: u32,
    pub seed: u32,
    pub initial_density: u8,
    pub generations_per_second: u8,
    pub paused: bool,
    pub frame_count: u64,
    pub grid: GridBufferPair,
    pub pacing: PacingController,
}

/// The product of two accepted grid edge lengths is positive, fits the
/// address space, and the dimensions fit the dispatch tiling.
proof fn lemma_eligible_product(w: int, h: int)
    requires
        eligible_size(w),
        eligible_size(h),
    ensures
        0 < w * h <= 0x400000,
        size_ok(w, h),
{
    vstd::arithmetic::mul::lemma_mul_upper_bound(w, 2048, h, 2048);
    vstd::arithmetic::mul::lemma_mul_strictly_positive(w, h);
}

impl State {
    /// Every configuration field is in its validated range.
    pub open spec fn config_wf(&self) -> bool {
        &&& (self.rule_idx as int) < catalog().len()
        &&& eligible_size(self.cells_width as int)
        &&& eligible_size(self.cells_height as int)
        &&& 1 <= self.initial_density <= 99
        &&& 1 <= self.generations_per_second <= 100
    }

    /// Well-formed state: every configuration field is in its validated
    /// range and the grid pair matches the configured dimensions.
    pub open spec fn wf(&self) -> bool {
        &&& self.config_wf()
        &&& self.grid.wf()
        &&& self.grid.width == self.cells_width
        &&& self.grid.height == self.cells_height
    }

    /// The currently selected rule.
    pub open spec fn rule(&self) -> Rule {
        catalog()[self.rule_idx as int]
    }

    /// The grid pair as a rebuild leaves it: buffer A current at step
    /// count zero, holding the cells generated from the current seed,
    /// density and dimensions.
    pub open spec fn grid_fresh(&self) -> bool {
        &&& self.grid.a_is_current
        &&& self.grid.generation@ == 0
        &&& self.grid.current() == generated_cells(
            self.seed,
            self.initial_density,
            (self.cells_width * self.cells_height) as nat,
        )
    }

    /// Whether `n` is the notification for this state, reporting `frame`
    /// as the frame count when paused.
    pub open spec fn notifies_with(&self, frame: u64, n: Notification) -> bool {
        &&& n.rule_idx == self.rule_idx
        &&& n.rule_name@ == display_name(self.rule())
        &&& n.cells_width == self.cells_width
        &&& n.cells_height == self.cells_height
        &&& n.seed == self.seed
        &&& n.density == self.initial_density
        &&& n.paused == self.paused
        &&& n.generations_per_second == self.generations_per_second
        &&& n.frame == (if self.paused {
            frame
        } else {
            0u64
        })
    }

    /// Whether `n` is the notification for this state as it stands.
    pub open spec fn notifies(&self, n: Notification) -> bool {
        self.notifies_with(self.frame_count, n)
    }

    /// The configuration fields that a grid rebuild never touches.
    pub open spec fn same_config_except_grid(&self, other: &State) -> bool {
        &&& self.rule_idx == other.rule_idx
        &&& self.cells_width == other.cells_width
        &&& self.cells_height == other.cells_height
        &&& self.seed == other.seed
        &&& self.initial_density == other.initial_density
        &&& self.generations_per_second == other.generations_per_second
        &&& self.paused == other.paused
        &&& self.pacing == other.pacing
    }

    /// Create a simulation state from the startup configuration.  Every
    /// parameter is validated: an absent or invalid value silently falls
    /// back to its default rather than being rejected.  The grid is
    /// generated from the resulting seed, density and dimensions.
    pub fn new(
        rule_idx: Option<u32>,
        grid_size: Option<u32>,
        seed: Option<u32>,
        initial_density: Option<u8>,
        paused: bool,
        generations_per_second: Option<u8>,
    ) -> (s: State)
        ensures
            s.wf(),
            s.grid_fresh(),
            s.rule_idx == (match rule_idx {
                Option::Some(i) => if (i as int) < catalog().len() {
                    i
                } else {
                    0u32
                },
                Option::None => 0u32,
            }),
            s.cells_width == (match grid_size {
                Option::Some(v) => if eligible_size(v as int) {
                    v
                } else {
                    512u32
                },
                Option::None => 512u32,
            }),
            s.cells_height == s.cells_width,
            s.seed == (match seed {
                Option::Some(v) => v,
                Option::None => 0u32,
            }),
            s.initial_density == (match initial_density {
                Option::Some(v) => if 1 <= v <= 99 {
                    v
                } else {
                    12u8
                },
                Option::None => 12u8,
            }),
            s.generations_per_second == (match generations_per_second {
                Option::Some(v) => if 1 <= v <= 100 {
                    v
                } else {
                    8u8
                },
                Option::None => 8u8,
            }),
            s.paused == paused,
            s.frame_count == 0,
            s.pacing.accumulated_ns == 0,
    {
        let cells_width: u32 = match grid_size {
            Option::Some(v) => if is_eligible_size(v) {
                v
            } else {
                512
            },
            Option::None => 512,
        };
        let cells_height: u32 = cells_width;
        let rule_idx: u32 = match rule_idx {
            Option::Some(i) => if i < num_rules() {
                i
            } else {
                0
            },
            Option::None => 0,
        };
        let seed: u32 = match seed {
            Option::Some(v) => v,
            Option::None => 0,
        };
        let initial_density: u8 = match initial_density {
            Option::Some(v) => if v >= 1 && v <= 99 {
                v
            } else {
                12
            },
            Option::None => 12,
        };
        let generations_per_second: u8 = match generations_per_second {
            Option::Some(v) => if v >= 1 && v <= 100 {
                v
            } else {
                8
            },
            Option::None => 8,
        };
        proof {
            lemma_eligible_product(cells_width as int, cells_height as int);
        }
        let grid = match GridBufferPair::new(cells_width, cells_height, seed, initial_density) {
            Result::Ok(g) => g,
            Result::Err(_) => unreached(),
        };
        State {
            rule_idx,
            cells_width,
            cells_height,
            seed,
            initial_density,
            generations_per_second,
            paused,
            frame_count: 0,
            grid,
            pacing: PacingController::new(),
        }
    }

    /// The notification for the state as it stands.
    pub fn inform_ui_about_state(&self) -> (n: Notification)
        requires
            self.config_wf(),
        ensures
            self.notifies(n),
    {
        let r = rule_at(self.rule_idx);
        let name = r.name();
        Notification {
            rule_idx: self.rule_idx,
            rule_name: name,
            cells_width: self.cells_width,
            cells_height: self.cells_height,
            seed: self.seed,
            density: self.initial_density,
            paused: self.paused,
            generations_per_second: self.generations_per_second,
            frame: if self.paused {
                self.frame_count
            } else {
                0
            },
        }
    }

    /// React to a parameter change: produce the notification (still
    /// reporting the old frame count), then reset the frame counter and
    /// rebuild the grid pair wholesale from the current parameters.
    pub fn on_state_change(&mut self) -> (n: Notification)
        requires
            old(self).config_wf(),
        ensures
            final(self).wf(),
            final(self).same_config_except_grid(old(self)),
            final(self).frame_count == 0,
            final(self).grid_fresh(),
            old(self).notifies(n),
    {
        let n = self.inform_ui_about_state();
        self.frame_count = 0;
        proof {
            lemma_eligible_product(self.cells_width as int, self.cells_height as int);
        }
        let grid = match GridBufferPair::new(
            self.cells_width,
            self.cells_height,
            self.seed,
            self.initial_density,
        ) {
            Result::Ok(g) => g,
            Result::Err(_) => unreached(),
        };
        self.grid = grid;
        n
    }

    /// Set the initial density.  A value outside 1 to 99 is rejected as a
    /// no-op; an accepted value (even the current one) fires exactly one
    /// notification and rebuilds the grid.
    pub fn set_initial_density(&mut self, new_density: u8) -> (n: Option<Notification>)
        requires
            old(self).wf(),
        ensures
            final(self).wf(),
            !(1 <= new_density <= 99) ==> *final(self) == *old(self) && n is None,
            1 <= new_density <= 99 ==> {
                &&& final(self).initial_density == new_density
                &&& final(self).rule_idx == old(self).rule_idx
                &&& final(self).cells_width == old(self).cells_width
                &&& final(self).cells_height == old(self).cells_height
                &&& final(self).seed == old(self).seed
                &&& final(self).generations_per_second == old(self).generations_per_second
                &&& final(self).paused == old(self).paused
                &&& final(self).pacing == old(self).pacing
                &&& final(self).frame_count == 0
                &&& final(self).grid_fresh()
                &&& (n matches Some(m) && final(self).notifies_with(old(self).frame_count, m))
            },
    {
        if new_density >= 1 && new_density <= 99 {
            self.initial_density = new_density;
            Some(self.on_state_change())
        } else {
            None
        }
    }

    /// Select a rule by catalog index; an out-of-range index falls back
    /// to the first rule.  The initial density is re-seeded from the new
    /// rule's preferred density, and the grid is rebuilt.
    pub fn set_rule_idx(&mut self, new_rule_idx: u32) -> (n: Notification)
        requires
            old(self).wf(),
        ensures
            final(self).wf(),
            final(self).rule_idx == (if (new_rule_idx as int) < catalog().len() {
                new_rule_idx
            } else {
                0u32
            }),
            final(self).initial_density == final(self).rule().initial_density,
            final(self).cells_width == old(self).cells_width,
            final(self).cells_height == old(self).cells_height,
            final(self).seed == old(self).seed,
            final(self).generations_per_second == old(self).generations_per_second,
            final(self).paused == old(self).paused,
            final(self).pacing == old(self).pacing,
            final(self).frame_count == 0,
            final(self).grid_fresh(),
            final(self).notifies_with(old(self).frame_count, n),
    {
        let idx = if new_rule_idx < num_rules() {
            new_rule_idx
        } else {
            0
        };
        self.rule_idx = idx;
        let r = rule_at(idx);
        self.initial_density = r.initial_density;
        proof {
            lemma_catalog_wf();
        }
        self.on_state_change()
    }

    /// Cycle to the neighboring rule in catalog order, wrapping around:
    /// forward from the last index to 0, backward from 0 to the last.
    pub fn change_rule(&mut self, next: bool) -> (n: Notification)
        requires
            old(self).wf(),
        ensures
            final(self).wf(),
            next ==> final(self).rule_idx == (old(self).rule_idx + 1) as int % (
            catalog().len() as int),
            !next && old(self).rule_idx == 0 ==> final(self).rule_idx == catalog().len() - 1,
            !next && old(self).rule_idx != 0 ==> final(self).rule_idx == old(self).rule_idx - 1,
            final(self).initial_density == final(self).rule().initial_density,
            final(self).cells_width == old(self).cells_width,
            final(self).cells_height == old(self).cells_height,
            final(self).seed == old(self).seed,
            final(self).generations_per_second == old(self).generations_per_second,
            final(self).paused == old(self).paused,
            final(self).pacing == old(self).pacing,
            final(self).frame_count == 0,
            final(self).grid_fresh(),
            final(self).notifies_with(old(self).frame_count, n),
    {
        let len = num_rules();
        let new_rule_idx = if next {
            (self.rule_idx + 1) % len
        } else if self.rule_idx == 0 {
            len - 1
        } else {
            self.rule_idx - 1
        };
        self.set_rule_idx(new_rule_idx)
    }

    /// Rebuild from a given seed, keeping rule, size and density.
    pub fn reset_to_seed(&mut self, new_seed: u32) -> (n: Notification)
        requires
            old(self).wf(),
        ensures
            final(self).wf(),
            final(self).seed == new_seed,
            final(self).rule_idx == old(self).rule_idx,
            final(self).cells_width == old(self).cells_width,
            final(self).cells_height == old(self).cells_height,
            final(self).initial_density == old(self).initial_density,
            final(self).generations_per_second == old(self).generations_per_second,
            final(self).paused == old(self).paused,
            final(self).pacing == old(self).pacing,
            final(self).frame_count == 0,
            final(self).grid_fresh(),
            final(self).notifies_with(old(self).frame_count, n),
    {
        self.seed = new_seed;
        self.on_state_change()
    }

    /// Restart from a freshly drawn random seed, keeping rule, size and
    /// density.  Whatever seed is drawn, the rebuilt grid is exactly the
    /// one generated from it.
    pub fn reset(&mut self) -> (n: Notification)
        requires
            old(self).wf(),
        ensures
            final(self).wf(),
            final(self).rule_idx == old(self).rule_idx,
            final(self).cells_width == old(self).cells_width,
            final(self).cells_height == old(self).cells_height,
            final(self).initial_density == old(self).initial_density,
            final(self).generations_per_second == old(self).generations_per_second,
            final(self).paused == old(self).paused,
            final(self).pacing == old(self).pacing,
            final(self).frame_count == 0,
            final(self).grid_fresh(),
            final(self).notifies_with(old(self).frame_count, n),
    {
        let new_seed = random_seed();
        self.reset_to_seed(new_seed)
    }

    /// Flip between paused and running.  The grid, frame counter and
    /// accumulator are untouched; one notification fires.
    pub fn toggle_pause(&mut self) -> (n: Notification)
        requires
            old(self).wf(),
        ensures
            final(self).wf(),
            final(self).paused == !old(self).paused,
            final(self).rule_idx == old(self).rule_idx,
            final(self).cells_width == old(self).cells_width,
            final(self).cells_height == old(self).cells_height,
            final(self).seed == old(self).seed,
            final(self).initial_density == old(self).initial_density,
            final(self).generations_per_second == old(self).generations_per_second,
            final(self).frame_count == old(self).frame_count,
            final(self).pacing == old(self).pacing,
            final(self).grid == old(self).grid,
            final(self).notifies(n),
    {
        self.paused = !self.paused;
        self.inform_ui_about_state()
    }

    /// Set the pacing target in generations per second.  A value outside
    /// 1 to 100 is rejected as a no-op; an accepted value fires one
    /// notification and touches nothing else — no rebuild.
    pub fn set_generations_per_second(&mut self, new_value: u8) -> (n: Option<Notification>)
        requires
            old(self).wf(),
        ensures
            final(self).wf(),
            !(1 <= new_value <= 100) ==> *final(self) == *old(self) && n is None,
            1 <= new_value <= 100 ==> {
                &&& final(self).generations_per_second == new_value
                &&& final(self).rule_idx == old(self).rule_idx
                &&& final(self).cells_width == old(self).cells_width
                &&& final(self).cells_height == old(self).cells_height
                &&& final(self).seed == old(self).seed
                &&& final(self).initial_density == old(self).initial_density
                &&& final(self).paused == old(self).paused
                &&& final(self).frame_count == old(self).frame_count
                &&& final(self).pacing == old(self).pacing
                &&& final(self).grid == old(self).grid
                &&& (n matches Some(m) && final(self).notifies(m))
            },
    {
        if new_value >= 1 && new_value <= 100 {
            self.generations_per_second = new_value;
            Some(self.inform_ui_about_state())
        } else {
            None
        }
    }

    /// Rebuild with new dimensions, keeping rule, seed and density; the
    /// frame counter resets.  A dimension that is not an accepted size
    /// falls back to the default edge length.
    pub fn reset_with_cells_width(&mut self, new_cells_width: u32, new_cells_height: u32) -> (n:
        Notification)
        requires
            old(self).wf(),
        ensures
            final(self).wf(),
            final(self).cells_width == (if eligible_size(new_cells_width as int) {
                new_cells_width
            } else {
                512u32
            }),
            final(self).cells_height == (if eligible_size(new_cells_height as int) {
                new_cells_height
            } else {
                512u32
            }),
            final(self).rule_idx == old(self).rule_idx,
            final(self).seed == old(self).seed,
            final(self).initial_density == old(self).initial_density,
            final(self).generations_per_second == old(self).generations_per_second,
            final(self).paused == old(self).paused,
            final(self).pacing == old(self).pacing,
            final(self).frame_count == 0,
            final(self).grid_fresh(),
            final(self).notifies_with(old(self).frame_count, n),
    {
        self.cells_width = if is_eligible_size(new_cells_width) {
            new_cells_width
        } else {
            512
        };
        self.cells_height = if is_eligible_size(new_cells_height) {
            new_cells_height
        } else {
            512
        };
        self.on_state_change()
    }

    /// Apply one queued UI command by dispatching to the matching
    /// transition.  Commands that validate their value are no-ops
    /// (returning no notification) outside the accepted range.
    pub fn apply_event(&mut self, event: &CustomWinitEvent) -> (n: Option<Notification>)
        requires
            old(self).wf(),
        ensures
            final(self).wf(),
            match *event {
                CustomWinitEvent::RuleChange(i) => {
                    &&& final(self).rule_idx == (if (i as int) < catalog().len() {
                        i
                    } else {
                        0u32
                    })
                    &&& final(self).initial_density == final(self).rule().initial_density
                    &&& final(self).seed == old(self).seed
                    &&& final(self).cells_width == old(self).cells_width
                    &&& final(self).cells_height == old(self).cells_height
                    &&& final(self).paused == old(self).paused
                    &&& final(self).frame_count == 0
                    &&& final(self).grid_fresh()
                    &&& n is Some
                },
                CustomWinitEvent::SizeChange(s) => {
                    &&& final(self).cells_width == (if eligible_size(s as int) {
                        s
                    } else {
                        512u32
                    })
                    &&& final(self).cells_height == final(self).cells_width
                    &&& final(self).rule_idx == old(self).rule_idx
                    &&& final(self).seed == old(self).seed
                    &&& final(self).initial_density == old(self).initial_density
                    &&& final(self).paused == old(self).paused
                    &&& final(self).frame_count == 0
                    &&& final(self).grid_fresh()
                    &&& n is Some
                },
                CustomWinitEvent::SetDensity(d) => {
                    &&& (1 <= d <= 99 ==> final(self).initial_density == d
                        && final(self).frame_count == 0 && final(self).grid_fresh() && n is Some)
                    &&& (!(1 <= d <= 99) ==> *final(self) == *old(self) && n is None)
                },
                CustomWinitEvent::SetGenerationsPerSecond(g) => {
                    &&& (1 <= g <= 100 ==> final(self).generations_per_second == g
                        && final(self).grid == old(self).grid
                        && final(self).frame_count == old(self).frame_count && n is Some)
                    &&& (!(1 <= g <= 100) ==> *final(self) == *old(self) && n is None)
                },
                CustomWinitEvent::Reset => {
                    &&& final(self).rule_idx == old(self).rule_idx
                    &&& final(self).cells_width == old(self).cells_width
                    &&& final(self).cells_height == old(self).cells_height
                    &&& final(self).initial_density == old(self).initial_density
                    &&& final(self).paused == old(self).paused
                    &&& final(self).frame_count == 0
                    &&& final(self).grid_fresh()
                    &&& n is Some
                },
                CustomWinitEvent::TogglePause => {
                    &&& final(self).paused == !old(self).paused
                    &&& final(self).grid == old(self).grid
                    &&& final(self).frame_count == old(self).frame_count
                    &&& n is Some
                },
            },
    {
        match event {
            CustomWinitEvent::RuleChange(i) => Some(self.set_rule_idx(*i)),
            CustomWinitEvent::SizeChange(s) => Some(self.reset_with_cells_width(*s, *s)),
            CustomWinitEvent::SetDensity(d) => self.set_initial_density(*d),
            CustomWinitEvent::SetGenerationsPerSecond(g) => self.set_generations_per_second(*g),
            CustomWinitEvent::Reset => Some(self.reset()),
            CustomWinitEvent::TogglePause => Some(self.toggle_pause()),
        }
    }

    /// One frame of the running simulation: feed the elapsed wall-clock
    /// time to the pacing controller and advance the grid by exactly the
    /// number of generations it emits.  While paused nothing changes.
    pub fn advance(&mut self, elapsed_ns: u64) -> (n: u64)
        requires
            old(self).wf(),
        ensures
            final(self).wf(),
            old(self).paused ==> n == 0 && *final(self) == *old(self),
            !old(self).paused ==> {
                let total = old(self).pacing.accumulated_ns.saturating_add(elapsed_ns);
                let p = period_ns(old(self).generations_per_second);
                &&& n == advance_count(total as int, p)
                &&& final(self).pacing.accumulated_ns == advance_rem(total as int, p)
                &&& final(self).rule_idx == old(self).rule_idx
                &&& final(self).cells_width == old(self).cells_width
                &&& final(self).cells_height == old(self).cells_height
                &&& final(self).seed == old(self).seed
                &&& final(self).initial_density == old(self).initial_density
                &&& final(self).generations_per_second == old(self).generations_per_second
                &&& final(self).paused == old(self).paused
                &&& final(self).frame_count == old(self).frame_count.saturating_add(n)
                &&& final(self).grid.generation@ == old(self).grid.generation@ + n
                &&& final(self).grid.current() == stepped(
                    old(self).grid.current(),
                    old(self).cells_width as int,
                    old(self).cells_height as int,
                    old(self).rule(),
                    n as nat,
                )
            },
    {
        let was_paused = self.paused;
        let n = self.pacing.tick(elapsed_ns, self.generations_per_second, self.paused);
        if was_paused {
            return n;
        }
        let ghost pacing_after = self.pacing;
        let rule = rule_at(self.rule_idx);
        let mut k: u64 = 0;
        while k < n
            invariant
                k <= n,
                old(self).wf(),
                rule == old(self).rule(),
                self.rule_idx == old(self).rule_idx,
                self.cells_width == old(self).cells_width,
                self.cells_height == old(self).cells_height,
                self.seed == old(self).seed,
                self.initial_density == old(self).initial_density,
                self.generations_per_second == old(self).generations_per_second,
                self.paused == old(self).paused,
                self.frame_count == old(self).frame_count,
                self.pacing == pacing_after,
                self.grid.wf(),
                self.grid.width == old(self).grid.width,
                self.grid.height == old(self).grid.height,
                self.grid.generation@ == old(self).grid.generation@ + k,
                self.grid.current() == stepped(
                    old(self).grid.current(),
                    old(self).cells_width as int,
                    old(self).cells_height as int,
                    old(self).rule(),
                    k as nat,
                ),
            decreases n - k,
        {
            self.grid.step(&rule);
            k = k + 1;
        }
        self.frame_count = self.frame_count.saturating_add(n);
        n
    }
}

/// No rebuild drift: two states rebuilt from the same seed, density and
/// dimensions hold bit-identical grids, whether or not anything actually
/// changed in between.  In particular, setting a field to its current
/// value rebuilds the very same grid.
pub proof fn lemma_rebuild_no_drift(s1: State, s2: State)
    requires
        s1.wf(),
        s2.wf(),
        s1.seed == s2.seed,
        s1.initial_density == s2.initial_density,
        s1.cells_width == s2.cells_width,
        s1.cells_height == s2.cells_height,
        s1.grid_fresh(),
        s2.grid_fresh(),
    ensures
        s1.grid.current() == s2.grid.current(),
{
}

} // verus!
