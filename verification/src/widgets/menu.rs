//! Selection state of a vertical menu.

use vstd::prelude::*;

verus! {

/// Which entry of a menu is selected, counted from zero.
#[derive(Debug, Clone, Copy, Default, PartialEq, Eq, Structural)]
pub struct MenuState {
    pub current_option: usize,
}

/// The entry after `current` in a menu whose last entry is `max`, wrapping to
/// the first entry past the end.
pub open spec fn next_index(current: int, max: int) -> int {
    (current + 1) % (max + 1)
}

/// The entry before `current` in a menu whose last entry is `max`, wrapping
/// to the last entry before the start.
pub open spec fn previous_index(current: int, max: int) -> int {
    if current == 0 {
        max
    } else {
        current - 1
    }
}

impl MenuState {
    /// Moves the selection one entry down, back to the top after entry `max`.
    pub fn next_option(&mut self, max: usize)
        ensures
            final(self).current_option == next_index(old(self).current_option as int, max as int),
    {
        let wide: u128 = (self.current_option as u128 + 1) % (max as u128 + 1);
        self.current_option = wide as usize;
    }

    /// Moves the selection one entry up, to entry `max` from the top.
    pub fn previous_option(&mut self, max: usize)
        ensures
            final(self).current_option == previous_index(
                old(self).current_option as int,
                max as int,
            ),
    {
        if self.current_option == 0 {
            self.current_option = max;
        } else {
            self.current_option -= 1;
        }
    }
}

/// Stepping down and then up returns to the entry one started from, for every
/// selection inside the menu.
pub proof fn lemma_previous_undoes_next(current: int, max: int)
    requires
        0 <= current <= max,
    ensures
        previous_index(next_index(current, max), max) == current,
        next_index(previous_index(current, max), max) == current,
        0 <= next_index(current, max) <= max,
        0 <= previous_index(current, max) <= max,
{
    if current == max {
        assert((max + 1) % (max + 1) == 0) by (nonlinear_arith)
            requires
                max >= 0,
        ;
    } else {
        assert((current + 1) % (max + 1) == current + 1) by (nonlinear_arith)
            requires
                0 <= current < max,
        ;
    }
    if current == 0 {
        assert((max + 1) % (max + 1) == 0) by (nonlinear_arith)
            requires
                max >= 0,
        ;
    } else {
        assert(current % (max + 1) == current) by (nonlinear_arith)
            requires
                0 < current <= max,
        ;
    }
}

} // verus!
