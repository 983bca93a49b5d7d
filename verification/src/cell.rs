use vstd::prelude::*;

verus! {

/// The color of one grid cell. Cells carry no identity beyond their color.
#[derive(Clone, Copy, PartialEq, Eq, Structural, Debug)]
pub enum Cell {
    White,
    Black,
}

/// The color a cell takes when the ant steps on it: White and Black exchange.
pub open spec fn flip(c: Cell) -> Cell {
    match c {
        Cell::White => Cell::Black,
        Cell::Black => Cell::White,
    }
}

} // verus!
