//! A two-dimensional position whose moves saturate at both ends.

use vstd::prelude::*;

verus! {

/// A position on a grid of rows (`y`) and columns (`x`).
#[derive(Debug, Clone, Copy, PartialEq, Eq, Structural)]
pub struct Cursor {
    pub y: u16,
    pub x: u16,
}

/// `value - amount`, held at zero.
pub open spec fn step_back(value: u16, amount: u16) -> u16 {
    if value >= amount {
        (value - amount) as u16
    } else {
        0
    }
}

/// `value + amount`, held at `max`. A value already past `max` comes back to it.
pub open spec fn step_forward(value: u16, amount: u16, max: u16) -> u16 {
    if value + amount <= max {
        (value + amount) as u16
    } else {
        max
    }
}

/// `n`, held at the largest value that a coordinate can take.
pub open spec fn clamped(n: nat) -> u16 {
    if n >= u16::MAX {
        u16::MAX
    } else {
        n as u16
    }
}

/// `n` as a coordinate.
pub fn clamp(n: usize) -> (value: u16)
    ensures
        value == clamped(n as nat),
{
    if n >= 65535 {
        u16::MAX
    } else {
        n as u16
    }
}

/// The last row of `count` rows, as far as a cursor can reach; zero where
/// there is no row.
pub open spec fn last_row(count: nat) -> u16 {
    if count == 0 {
        0
    } else if count - 1 >= u16::MAX {
        u16::MAX
    } else {
        (count - 1) as u16
    }
}

/// The last row of `count` rows.
pub fn last_row_of(count: usize) -> (row: u16)
    ensures
        row == last_row(count as nat),
{
    if count == 0 {
        0
    } else if count - 1 >= 65535 {
        u16::MAX
    } else {
        (count - 1) as u16
    }
}

/// Moves in four directions. Every method does nothing unless the implementor
/// says otherwise.
pub trait CursorMovement: Sized {
    fn move_up(&mut self, _amount: u16)
        default_ensures
            *final(self) == *old(self),
    {
    }

    fn move_down(&mut self, _amount: u16, _max: u16)
        default_ensures
            *final(self) == *old(self),
    {
    }

    fn move_left(&mut self, _amount: u16)
        default_ensures
            *final(self) == *old(self),
    {
    }

    fn move_right(&mut self, _amount: u16, _max: u16)
        default_ensures
            *final(self) == *old(self),
    {
    }
}

impl Cursor {
    pub fn new(x: u16, y: u16) -> (cursor: Self)
        ensures
            cursor.x == x,
            cursor.y == y,
    {
        Self { y, x }
    }
}

impl Default for Cursor {
    fn default() -> (cursor: Self)
        ensures
            cursor.x == 0,
            cursor.y == 0,
    {
        Self { y: 0, x: 0 }
    }
}

impl CursorMovement for Cursor {
    /// Towards row zero, never past it.
    fn move_up(&mut self, amount: u16)
        ensures
            *final(self) == old(self).moved(Move::Up(amount)),
    {
        self.y = self.y.saturating_sub(amount);
    }

    /// Away from row zero, never past `max`.
    fn move_down(&mut self, amount: u16, max: u16)
        ensures
            *final(self) == old(self).moved(Move::Down(amount, max)),
            final(self).y <= max,
    {
        let target: u16 = self.y.saturating_add(amount);
        self.y = if target < max { target } else { max };
    }

    /// Towards column zero, never past it.
    fn move_left(&mut self, amount: u16)
        ensures
            *final(self) == old(self).moved(Move::Left(amount)),
    {
        self.x = self.x.saturating_sub(amount);
    }

    /// Away from column zero, never past `max`.
    fn move_right(&mut self, amount: u16, max: u16)
        ensures
            *final(self) == old(self).moved(Move::Right(amount, max)),
            final(self).x <= max,
    {
        let target: u16 = self.x.saturating_add(amount);
        self.x = if target < max { target } else { max };
    }
}

/// One move of a cursor: up or left by an amount, down or right by an amount
/// and up to a bound.
pub enum Move {
    Up(u16),
    Down(u16, u16),
    Left(u16),
    Right(u16, u16),
}

impl Cursor {
    /// The cursor after one move.
    pub open spec fn moved(self, step: Move) -> Cursor {
        match step {
            Move::Up(amount) => Cursor { y: step_back(self.y, amount), x: self.x },
            Move::Down(amount, max) => Cursor { y: step_forward(self.y, amount, max), x: self.x },
            Move::Left(amount) => Cursor { y: self.y, x: step_back(self.x, amount) },
            Move::Right(amount, max) => Cursor { y: self.y, x: step_forward(self.x, amount, max) },
        }
    }

    /// The cursor after `steps`, one after the other.
    pub open spec fn moved_all(self, steps: Seq<Move>) -> Cursor
        decreases steps.len(),
    {
        if steps.len() == 0 {
            self
        } else {
            self.moved_all(steps.drop_last()).moved(steps.last())
        }
    }

    /// A move down or right ends at or before the bound that it was given,
    /// wherever it started.
    pub proof fn move_ends_in_bounds(self, amount: u16, max: u16)
        ensures
            self.moved(Move::Down(amount, max)).y <= max,
            self.moved(Move::Right(amount, max)).x <= max,
    {
    }

    /// A cursor that starts within `rows` and `cols` stays there through any
    /// moves whose own bounds are within them.
    pub proof fn moves_stay_in_bounds(self, steps: Seq<Move>, rows: u16, cols: u16)
        requires
            self.y <= rows,
            self.x <= cols,
            forall|i: int|
                0 <= i < steps.len() ==> match #[trigger] steps[i] {
                    Move::Down(_, max) => max <= rows,
                    Move::Right(_, max) => max <= cols,
                    _ => true,
                },
        ensures
            self.moved_all(steps).y <= rows,
            self.moved_all(steps).x <= cols,
        decreases steps.len(),
    {
        if steps.len() > 0 {
            let front = steps.drop_last();
            assert forall|i: int| 0 <= i < front.len() implies match #[trigger] front[i] {
                Move::Down(_, max) => max <= rows,
                Move::Right(_, max) => max <= cols,
                _ => true,
            } by {
                assert(front[i] == steps[i]);
            }
            self.moves_stay_in_bounds(front, rows, cols);
            assert(steps.last() == steps[steps.len() - 1]);
        }
    }
}

} // verus!
