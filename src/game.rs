//! Argument and result handling of the entry points that the minesweeper
//! Android app calls: which cell a call acts on, and what it answers. The
//! board itself lives outside this crate.

use vstd::prelude::*;

verus! {

/// `JNI_TRUE`.
pub const JNI_TRUE: u8 = 1;

/// `JNI_FALSE`.
pub const JNI_FALSE: u8 = 0;

/// A board cell, by column and row.
#[derive(Debug, Clone, Copy, PartialEq, Eq, Structural)]
pub struct Cell {
    pub x: usize,
    pub y: usize,
}

/// The cell at `(x, y)`, or `None` when a coordinate is negative.
pub open spec fn cell_at(x: i32, y: i32) -> Option<Cell> {
    if x < 0 || y < 0 {
        None
    } else {
        Some(Cell { x: x as usize, y: y as usize })
    }
}

fn checked_cell(x: i32, y: i32) -> (r: Option<Cell>)
    ensures
        r == cell_at(x, y),
{
    if x < 0 || y < 0 {
        None
    } else {
        Some(Cell { x: x as usize, y: y as usize })
    }
}

/// The cell whose flag is switched; `None` (negative coordinates) leaves
/// the board alone.
#[allow(non_snake_case)]
pub fn switchFlag(x: i32, y: i32) -> (r: Option<Cell>)
    ensures
        r == cell_at(x, y),
{
    checked_cell(x, y)
}

/// The cell to reveal; `None` (negative coordinates) leaves the board alone
/// and the call answers 0.
#[allow(non_snake_case)]
pub fn revealCell(x: i32, y: i32) -> (r: Option<Cell>)
    ensures
        r == cell_at(x, y),
{
    checked_cell(x, y)
}

/// The cell whose neighbours are revealed; `None` (negative coordinates)
/// leaves the board alone and the call answers 0.
#[allow(non_snake_case)]
pub fn revealAround(x: i32, y: i32) -> (r: Option<Cell>)
    ensures
        r == cell_at(x, y),
{
    checked_cell(x, y)
}

/// The cell whose flagged neighbours are counted; `None` (negative
/// coordinates) makes the call answer 0.
#[allow(non_snake_case)]
pub fn countFlaggedAround(x: i32, y: i32) -> (r: Option<Cell>)
    ensures
        r == cell_at(x, y),
{
    checked_cell(x, y)
}

/// The first cell of a new game, as the board's byte coordinates (each
/// taken modulo 256), or `None` (a negative coordinate) for a game that
/// starts without one.
#[allow(non_snake_case)]
pub fn newGame(x: i32, y: i32) -> (r: Option<(u8, u8)>)
    ensures
        r == (if x < 0 || y < 0 {
            None
        } else {
            Some(((x % 256) as u8, (y % 256) as u8))
        }),
{
    if x < 0 || y < 0 {
        None
    } else {
        Some(((x % 256) as u8, (y % 256) as u8))
    }
}

/// The JNI boolean that answers whether every safe cell is revealed.
#[allow(non_snake_case)]
pub fn isAllReveal(all_revealed: bool) -> (r: u8)
    ensures
        r == (if all_revealed {
            JNI_TRUE
        } else {
            JNI_FALSE
        }),
{
    if all_revealed {
        JNI_TRUE
    } else {
        JNI_FALSE
    }
}

/// The number of flagged cells as a JNI int: the low 32 bits of the
/// board's count, as a plain cast gives them.
#[allow(non_snake_case)]
pub fn countFlagged(count: usize) -> (r: i32)
    ensures
        r == count as i32,
{
    #[verifier::truncate]
    (count as i32)
}

/// Whether an export keeps the cells' state, from the JNI boolean
/// argument: only `JNI_TRUE` does.
pub fn fetch(hold_stat: u8) -> (r: bool)
    ensures
        r == (hold_stat == JNI_TRUE),
{
    hold_stat == JNI_TRUE
}

} // verus!
