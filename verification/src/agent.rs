use vstd::prelude::*;

verus! {

/// The four directions the ant can face, in the cyclic order used for turning.
#[derive(Clone, Copy, PartialEq, Eq, Structural, Debug)]
pub enum Direction {
    Up,
    Down,
    Left,
    Right,
}

/// One clockwise turn along the cycle Up -> Right -> Down -> Left -> Up.
pub open spec fn clockwise(d: Direction) -> Direction {
    match d {
        Direction::Up => Direction::Right,
        Direction::Right => Direction::Down,
        Direction::Down => Direction::Left,
        Direction::Left => Direction::Up,
    }
}

/// One counter-clockwise turn along the cycle Up -> Left -> Down -> Right -> Up.
pub open spec fn counter_clockwise(d: Direction) -> Direction {
    match d {
        Direction::Up => Direction::Left,
        Direction::Left => Direction::Down,
        Direction::Down => Direction::Right,
        Direction::Right => Direction::Up,
    }
}

/// A clockwise turn and a counter-clockwise turn undo each other, whichever
/// comes first.
pub proof fn lemma_turn_inverse(d: Direction)
    ensures
        counter_clockwise(clockwise(d)) == d,
        clockwise(counter_clockwise(d)) == d,
{
}

/// The mobile agent: a position on the grid and a facing direction.
#[derive(Clone, Copy, PartialEq, Eq, Structural, Debug)]
pub struct Ant {
    pub row: u32,
    pub col: u32,
    pub direction: Direction,
}

impl Ant {
    /// The ant's position lies on a grid with the given dimensions.
    pub open spec fn in_bounds(self, width: u32, height: u32) -> bool {
        self.row < height && self.col < width
    }

    /// Where one forward move lands on a grid with the given dimensions:
    /// one cell along the facing direction, or in place when that move
    /// would leave the grid.
    pub open spec fn moved(self, width: u32, height: u32) -> Ant {
        match self.direction {
            Direction::Up => if self.row > 0 {
                Ant { row: (self.row - 1) as u32, col: self.col, direction: self.direction }
            } else {
                self
            },
            Direction::Down => if self.row < height - 1 {
                Ant { row: (self.row + 1) as u32, col: self.col, direction: self.direction }
            } else {
                self
            },
            Direction::Left => if self.col > 0 {
                Ant { row: self.row, col: (self.col - 1) as u32, direction: self.direction }
            } else {
                self
            },
            Direction::Right => if self.col < width - 1 {
                Ant { row: self.row, col: (self.col + 1) as u32, direction: self.direction }
            } else {
                self
            },
        }
    }

    /// A new ant at the given position, facing Up.
    pub fn new(row: u32, col: u32) -> (a: Ant)
        ensures
            a.row == row,
            a.col == col,
            a.direction == Direction::Up,
    {
        Ant { row, col, direction: Direction::Up }
    }

    /// Rotate the facing direction one step clockwise; the position is untouched.
    pub fn turn_clockwise(&mut self)
        ensures
            final(self).row == old(self).row,
            final(self).col == old(self).col,
            final(self).direction == clockwise(old(self).direction),
    {
        self.direction = match self.direction {
            Direction::Up => Direction::Right,
            Direction::Right => Direction::Down,
            Direction::Down => Direction::Left,
            Direction::Left => Direction::Up,
        };
    }

    /// Rotate the facing direction one step counter-clockwise; the position is
    /// untouched.
    pub fn turn_counter_clockwise(&mut self)
        ensures
            final(self).row == old(self).row,
            final(self).col == old(self).col,
            final(self).direction == counter_clockwise(old(self).direction),
    {
        self.direction = match self.direction {
            Direction::Up => Direction::Left,
            Direction::Left => Direction::Down,
            Direction::Down => Direction::Right,
            Direction::Right => Direction::Up,
        };
    }

    /// Advance one cell in the facing direction, clamped at the grid edges:
    /// a move that would leave the grid leaves the position unchanged.
    pub fn move_forward(&mut self, width: u32, height: u32)
        requires
            1 <= width,
            1 <= height,
        ensures
            *final(self) == old(self).moved(width, height),
    {
        match self.direction {
            Direction::Up => {
                if self.row > 0 {
                    self.row = self.row - 1;
                }
            },
            Direction::Down => {
                if self.row < height - 1 {
                    self.row = self.row + 1;
                }
            },
            Direction::Left => {
                if self.col > 0 {
                    self.col = self.col - 1;
                }
            },
            Direction::Right => {
                if self.col < width - 1 {
                    self.col = self.col + 1;
                }
            },
        }
    }
}

/// A clamped move from a position on the grid stays on the grid.
pub proof fn lemma_moved_in_bounds(a: Ant, width: u32, height: u32)
    requires
        1 <= width,
        1 <= height,
        a.in_bounds(width, height),
    ensures
        a.moved(width, height).in_bounds(width, height),
{
}

/// Edge clamp: an ant on a boundary cell facing outward does not move.
pub proof fn lemma_edge_clamp(a: Ant, width: u32, height: u32)
    requires
        1 <= width,
        1 <= height,
    ensures
        a.direction == Direction::Up && a.row == 0 ==> a.moved(width, height) == a,
        a.direction == Direction::Down && a.row == height - 1 ==> a.moved(width, height) == a,
        a.direction == Direction::Left && a.col == 0 ==> a.moved(width, height) == a,
        a.direction == Direction::Right && a.col == width - 1 ==> a.moved(width, height) == a,
{
}

} // verus!
