use vstd::prelude::*;

use crate::agent::clockwise;
use crate::agent::counter_clockwise;
use crate::agent::lemma_moved_in_bounds;
use crate::agent::Ant;
use crate::agent::Direction;
use crate::cell::flip;
use crate::cell::Cell;

verus! {

/// The fixed number of columns of a newly constructed universe.
pub const GRID_WIDTH: u32 = 17;

/// The fixed number of rows of a newly constructed universe.
pub const GRID_HEIGHT: u32 = 17;

/// One history entry: the cell colors and the agent as they stood at the
/// start of a step, stored as independent copies of the live state.
pub struct Snapshot {
    pub cells: Vec<Cell>,
    pub ant: Ant,
}

impl View for Snapshot {
    type V = (Seq<Cell>, Ant);

    open spec fn view(&self) -> (Seq<Cell>, Ant) {
        (self.cells@, self.ant)
    }
}

/// The mathematical state of a universe: dimensions, cell colors in row-major
/// order, the agent, and the stack of snapshots taken before each step.
#[verifier::ext_equal]
pub struct UniverseState {
    pub width: u32,
    pub height: u32,
    pub cells: Seq<Cell>,
    pub ant: Ant,
    pub history: Seq<(Seq<Cell>, Ant)>,
}

impl UniverseState {
    /// A history entry fits this universe: a full grid of cells and an agent
    /// on the grid.
    pub open spec fn entry_ok(self, entry: (Seq<Cell>, Ant)) -> bool {
        &&& entry.0.len() == self.width * self.height
        &&& entry.1.in_bounds(self.width, self.height)
    }

    /// Well-formedness: positive dimensions whose product fits the cell
    /// index arithmetic, exactly width * height cells, an agent on the grid,
    /// and a history of snapshots that each fit the grid.
    pub open spec fn wf(self) -> bool {
        &&& 1 <= self.width
        &&& 1 <= self.height
        &&& self.width * self.height <= u32::MAX
        &&& self.cells.len() == self.width * self.height
        &&& self.ant.in_bounds(self.width, self.height)
        &&& forall|i: int|
            0 <= i < self.history.len() ==> self.entry_ok(#[trigger] self.history[i])
    }

    /// The row-major index of the cell the agent stands on.
    pub open spec fn ant_index(self) -> int {
        self.ant.row * self.width + self.ant.col
    }

    /// One forward step: push a snapshot of the current cells and agent,
    /// flip the cell under the agent, turn the agent by the cell's new color
    /// (clockwise on White, counter-clockwise on Black), then move it one
    /// cell forward, clamped at the edges.
    pub open spec fn ticked_once(self) -> UniverseState {
        let new_color = flip(self.cells[self.ant_index()]);
        let turned = Ant {
            row: self.ant.row,
            col: self.ant.col,
            direction: if new_color == Cell::White {
                clockwise(self.ant.direction)
            } else {
                counter_clockwise(self.ant.direction)
            },
        };
        UniverseState {
            width: self.width,
            height: self.height,
            cells: self.cells.update(self.ant_index(), new_color),
            ant: turned.moved(self.width, self.height),
            history: self.history.push((self.cells, self.ant)),
        }
    }

    /// One rewind: with an empty history the state is unchanged; otherwise
    /// the most recent snapshot is popped and replaces the live cells and
    /// agent.
    pub open spec fn rewound_once(self) -> UniverseState {
        if self.history.len() == 0 {
            self
        } else {
            UniverseState {
                width: self.width,
                height: self.height,
                cells: self.history.last().0,
                ant: self.history.last().1,
                history: self.history.drop_last(),
            }
        }
    }

    /// The state after n forward steps.
    pub open spec fn ticked(self, n: nat) -> UniverseState
        decreases n,
    {
        if n == 0 {
            self
        } else {
            self.ticked((n - 1) as nat).ticked_once()
        }
    }

    /// The state after n rewinds.
    pub open spec fn rewound(self, n: nat) -> UniverseState
        decreases n,
    {
        if n == 0 {
            self
        } else {
            self.rewound_once().rewound((n - 1) as nat)
        }
    }

    /// The state a fresh universe starts in: the fixed dimensions, every
    /// cell White, the agent at the center facing Up, no history.
    pub open spec fn initial() -> UniverseState {
        UniverseState {
            width: GRID_WIDTH,
            height: GRID_HEIGHT,
            cells: Seq::new((GRID_WIDTH * GRID_HEIGHT) as nat, |i: int| Cell::White),
            ant: Ant {
                row: (GRID_HEIGHT / 2) as u32,
                col: (GRID_WIDTH / 2) as u32,
                direction: Direction::Up,
            },
            history: Seq::empty(),
        }
    }

    /// The agent's cell index lies inside the cell sequence.
    pub proof fn lemma_ant_index_in_range(self)
        requires
            self.wf(),
        ensures
            0 <= self.ant_index() < self.cells.len(),
    {
        assert(self.ant.row * self.width + self.ant.col < self.width * self.height)
            by (nonlinear_arith)
            requires
                self.ant.row < self.height,
                self.ant.col < self.width,
        ;
    }

    /// A forward step preserves well-formedness.
    pub proof fn lemma_ticked_once_wf(self)
        requires
            self.wf(),
        ensures
            self.ticked_once().wf(),
    {
        self.lemma_ant_index_in_range();
        lemma_moved_in_bounds(
            Ant {
                row: self.ant.row,
                col: self.ant.col,
                direction: if flip(self.cells[self.ant_index()]) == Cell::White {
                    clockwise(self.ant.direction)
                } else {
                    counter_clockwise(self.ant.direction)
                },
            },
            self.width,
            self.height,
        );
    }

    /// A rewind preserves well-formedness.
    pub proof fn lemma_rewound_once_wf(self)
        requires
            self.wf(),
        ensures
            self.rewound_once().wf(),
    {
    }

    /// Any number of forward steps preserves well-formedness.
    pub proof fn lemma_ticked_wf(self, n: nat)
        requires
            self.wf(),
        ensures
            self.ticked(n).wf(),
        decreases n,
    {
        if n > 0 {
            self.lemma_ticked_wf((n - 1) as nat);
            self.ticked((n - 1) as nat).lemma_ticked_once_wf();
        }
    }

    /// A rewind exactly undoes a forward step: the snapshot the step pushed
    /// is what the rewind restores.
    pub proof fn lemma_rewind_undoes_tick(self)
        requires
            self.wf(),
        ensures
            self.ticked_once().rewound_once() == self,
    {
        assert(self.ticked_once().history.drop_last() =~= self.history);
        assert(self.ticked_once().rewound_once() =~= self);
    }

    /// Rewinding as often as the universe was stepped restores the state
    /// exactly: n forward steps followed by n rewinds are the identity.
    pub proof fn lemma_rewinds_undo_ticks(self, n: nat)
        requires
            self.wf(),
        ensures
            self.ticked(n).rewound(n) == self,
        decreases n,
    {
        if n > 0 {
            let prev = self.ticked((n - 1) as nat);
            self.lemma_ticked_wf((n - 1) as nat);
            prev.lemma_rewind_undoes_tick();
            assert(self.ticked(n).rewound(n) == prev.ticked_once().rewound_once().rewound(
                (n - 1) as nat,
            ));
            self.lemma_rewinds_undo_ticks((n - 1) as nat);
        }
    }

    /// Rewinding a state with no history changes nothing, however often it
    /// is repeated.
    pub proof fn lemma_rewind_past_start(self, n: nat)
        requires
            self.history.len() == 0,
        ensures
            self.rewound(n) == self,
        decreases n,
    {
        if n > 0 {
            self.lemma_rewind_past_start((n - 1) as nat);
        }
    }

    /// The agent of a well-formed state stands on the grid.
    pub proof fn lemma_ant_in_bounds(self)
        requires
            self.wf(),
        ensures
            0 <= self.ant.row < self.height,
            0 <= self.ant.col < self.width,
    {
    }

    /// A well-formed state holds exactly width * height cells, each White
    /// or Black.
    pub proof fn lemma_cell_cardinality(self)
        requires
            self.wf(),
        ensures
            self.cells.len() == self.width * self.height,
            forall|i: int|
                0 <= i < self.cells.len() ==> self.cells[i] == Cell::White || #[trigger] self.cells[i]
                    == Cell::Black,
    {
    }

    /// The initial state is well-formed.
    pub proof fn lemma_initial_wf()
        ensures
            UniverseState::initial().wf(),
    {
    }
}

/// The simulation: a grid of cells, the ant that walks it, and the history
/// stack that lets steps be rewound.
pub struct Universe {
    pub width: u32,
    pub height: u32,
    pub cells: Vec<Cell>,
    pub ant: Ant,
    pub history: Vec<Snapshot>,
}

impl View for Universe {
    type V = UniverseState;

    open spec fn view(&self) -> UniverseState {
        UniverseState {
            width: self.width,
            height: self.height,
            cells: self.cells@,
            ant: self.ant,
            history: Seq::new(self.history@.len(), |i: int| self.history@[i]@),
        }
    }
}

impl Universe {
    /// The row-major index of the cell at the given position.
    fn get_index(&self, row: u32, col: u32) -> (idx: usize)
        requires
            row < self.height,
            col < self.width,
            self.width * self.height <= u32::MAX,
            self.cells@.len() == self.width * self.height,
        ensures
            idx == row * self.width + col,
            idx < self.cells@.len(),
    {
        proof {
            assert(row * self.width + col < self.width * self.height) by (nonlinear_arith)
                requires
                    row < self.height,
                    col < self.width,
            ;
        }
        (row * self.width + col) as usize
    }

    /// A fresh universe: the fixed dimensions, every cell White, the agent
    /// at the center facing Up, and an empty history.
    pub fn new() -> (u: Universe)
        ensures
            u@ == UniverseState::initial(),
            u@.wf(),
    {
        let n: u32 = GRID_WIDTH * GRID_HEIGHT;
        let mut cells: Vec<Cell> = Vec::new();
        let mut i: u32 = 0;
        while i < n
            invariant
                i <= n,
                cells@.len() == i,
                forall|j: int| 0 <= j < i ==> cells@[j] == Cell::White,
            decreases n - i,
        {
            cells.push(Cell::White);
            i = i + 1;
        }
        let u = Universe {
            width: GRID_WIDTH,
            height: GRID_HEIGHT,
            cells,
            ant: Ant::new(GRID_HEIGHT / 2, GRID_WIDTH / 2),
            history: Vec::new(),
        };
        proof {
            UniverseState::lemma_initial_wf();
            assert(u@.cells =~= UniverseState::initial().cells);
            assert(u@.history =~= UniverseState::initial().history);
            assert(u@ =~= UniverseState::initial());
        }
        u
    }

    /// Advance the simulation one step: snapshot the current state onto the
    /// history, flip the cell under the ant, turn the ant by the new color,
    /// and move it forward with the edge clamp.
    pub fn tick(&mut self)
        requires
            old(self)@.wf(),
        ensures
            final(self)@ == old(self)@.ticked_once(),
            final(self)@.wf(),
    {
        proof {
            old(self)@.lemma_ant_index_in_range();
            old(self)@.lemma_ticked_once_wf();
        }
        let snapshot_cells = self.cells.clone();
        proof {
            assert(snapshot_cells@ =~= self.cells@);
        }
        let snapshot = Snapshot { cells: snapshot_cells, ant: self.ant };
        self.history.push(snapshot);
        let row = self.ant.row;
        let col = self.ant.col;
        let idx = self.get_index(row, col);
        let new_color = match self.cells[idx] {
            Cell::White => Cell::Black,
            Cell::Black => Cell::White,
        };
        self.cells.set(idx, new_color);
        match new_color {
            Cell::White => self.ant.turn_clockwise(),
            Cell::Black => self.ant.turn_counter_clockwise(),
        }
        let width = self.width;
        let height = self.height;
        self.ant.move_forward(width, height);
        proof {
            assert(self@.history =~= old(self)@.ticked_once().history);
            assert(self@ =~= old(self)@.ticked_once());
        }
    }

    /// Rewind the most recent step, restoring the cells and the agent from
    /// the last snapshot. With an empty history this is a no-op.
    pub fn step_backward(&mut self)
        requires
            old(self)@.wf(),
        ensures
            final(self)@ == old(self)@.rewound_once(),
            final(self)@.wf(),
    {
        proof {
            old(self)@.lemma_rewound_once_wf();
        }
        match self.history.pop() {
            None => {
                proof {
                    assert(self@ =~= old(self)@.rewound_once());
                }
            },
            Some(snapshot) => {
                self.cells = snapshot.cells;
                self.ant = snapshot.ant;
                proof {
                    assert(self@.history =~= old(self)@.rewound_once().history);
                    assert(self@ =~= old(self)@.rewound_once());
                }
            },
        }
    }

    /// The number of columns.
    pub fn width(&self) -> (w: u32)
        ensures
            w == self@.width,
    {
        self.width
    }

    /// The number of rows.
    pub fn height(&self) -> (h: u32)
        ensures
            h == self@.height,
    {
        self.height
    }

    /// A read-only view of the cell colors in row-major order.
    pub fn cells(&self) -> (cells: &Vec<Cell>)
        ensures
            cells@ == self@.cells,
    {
        &self.cells
    }

    /// The ant's current row.
    pub fn ant_row(&self) -> (r: u32)
        ensures
            r == self@.ant.row,
    {
        self.ant.row
    }

    /// The ant's current column.
    pub fn ant_col(&self) -> (c: u32)
        ensures
            c == self@.ant.col,
    {
        self.ant.col
    }
}

} // verus!
