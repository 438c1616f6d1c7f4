//! Shared bounded-index navigation used by every list-style menu.
//!
//! A menu holds an active index inside `[0, length - 1]`.  Moving the
//! cursor adds a step to the index and clamps the sum to the bounds:
//! stepping past either end is a no-op, never an error and never a wrap.

use vstd::prelude::*;

verus! {

/// The clamped index reached from index `i` by one step of size `step` in a
/// menu of `len` items: `clamp(i + step, 0, len - 1)`.
pub open spec fn nav_step(i: int, step: int, len: int) -> int {
    if i + step < 0 {
        0
    } else if i + step > len - 1 {
        len - 1
    } else {
        i + step
    }
}

/// The index reached from `i` by applying a whole sequence of steps in order.
pub open spec fn nav_steps(i: int, steps: Seq<int>, len: int) -> int
    decreases steps.len(),
{
    if steps.len() == 0 {
        i
    } else {
        nav_steps(nav_step(i, steps[0], len), steps.drop_first(), len)
    }
}

/// One navigation step keeps the index inside the menu: it is never
/// negative and never reaches the length.
pub proof fn lemma_nav_step_in_bounds(i: int, step: int, len: int)
    requires
        1 <= len,
        0 <= i < len,
    ensures
        0 <= nav_step(i, step, len) < len,
{
}

/// Any sequence of navigation steps, whatever their sizes and directions,
/// keeps the index inside the menu.
pub proof fn lemma_nav_steps_in_bounds(i: int, steps: Seq<int>, len: int)
    requires
        1 <= len,
        0 <= i < len,
    ensures
        0 <= nav_steps(i, steps, len) < len,
    decreases steps.len(),
{
    if steps.len() > 0 {
        lemma_nav_step_in_bounds(i, steps[0], len);
        lemma_nav_steps_in_bounds(nav_step(i, steps[0], len), steps.drop_first(), len);
    }
}

/// Repeated single decrements saturate at index 0: after `n` decrements
/// from index `i` the index is `i - n`, floored at 0.
pub proof fn lemma_decrements_saturate(i: int, n: nat, len: int)
    requires
        1 <= len,
        0 <= i < len,
    ensures
        nav_steps(i, Seq::new(n, |k: int| -1int), len) == if i - n >= 0 {
            i - n
        } else {
            0
        },
    decreases n,
{
    let steps = Seq::new(n, |k: int| -1int);
    if n > 0 {
        assert(steps.drop_first() =~= Seq::new((n - 1) as nat, |k: int| -1int));
        lemma_nav_step_in_bounds(i, -1, len);
        lemma_decrements_saturate(nav_step(i, -1, len), (n - 1) as nat, len);
    }
}

/// Repeated single increments saturate at the last index: after `n`
/// increments from index `i` the index is `i + n`, capped at `len - 1`.
pub proof fn lemma_increments_saturate(i: int, n: nat, len: int)
    requires
        1 <= len,
        0 <= i < len,
    ensures
        nav_steps(i, Seq::new(n, |k: int| 1int), len) == if i + n <= len - 1 {
            i + n
        } else {
            len - 1
        },
    decreases n,
{
    let steps = Seq::new(n, |k: int| 1int);
    if n > 0 {
        assert(steps.drop_first() =~= Seq::new((n - 1) as nat, |k: int| 1int));
        lemma_nav_step_in_bounds(i, 1, len);
        lemma_increments_saturate(nav_step(i, 1, len), (n - 1) as nat, len);
    }
}

/// The bounded-menu capability shared by every list-style screen.
///
/// An implementor exposes its menu length and active index; the provided
/// `increment_menu_index` gives every menu in the system the same
/// saturating boundary behavior.
pub trait MenuNavigation: Sized {
    /// The number of entries of the menu, as the contracts see it.
    spec fn menu_len(&self) -> int;

    /// The active index, as the contracts see it.
    spec fn menu_index(&self) -> int;

    /// The implementor with its active index replaced and all other state
    /// kept; `set_menu_index` promises exactly this value.
    spec fn with_index(&self, index: i8) -> Self;

    fn get_menu_length(&self) -> (l: usize)
        ensures
            l as int == self.menu_len(),
    ;

    fn get_menu_index(&self) -> (i: i8)
        ensures
            i as int == self.menu_index(),
    ;

    fn set_menu_index(&mut self, index: i8)
        requires
            0 <= index as int,
            (index as int) < old(self).menu_len(),
        ensures
            *final(self) == old(self).with_index(index),
            final(self).menu_index() == index as int,
            final(self).menu_len() == old(self).menu_len(),
    ;

    /// Move the active index by `increment`, clamped to the menu bounds.
    fn increment_menu_index(&mut self, increment: i8)
        requires
            1 <= old(self).menu_len() <= 127,
            0 <= old(self).menu_index() < old(self).menu_len(),
        ensures
            *final(self) == old(self).with_index(
                nav_step(old(self).menu_index(), increment as int, old(self).menu_len()) as i8,
            ),
            final(self).menu_index() == nav_step(
                old(self).menu_index(),
                increment as int,
                old(self).menu_len(),
            ),
            final(self).menu_len() == old(self).menu_len(),
    {
        let len = self.get_menu_length();
        let current = self.get_menu_index();
        let sum: i32 = current as i32 + increment as i32;
        let max_index: i32 = len as i32 - 1;
        let next: i32 = if sum < 0 {
            0
        } else if sum > max_index {
            max_index
        } else {
            sum
        };
        self.set_menu_index(next as i8);
    }
}

} // verus!
