use vstd::prelude::*;

verus! {

/// The index one step further down a list of `len` items, kept on the last item.
pub open spec fn next_index_spec(current: int, len: int) -> int {
    if len == 0 {
        0
    } else if current + 1 < len - 1 {
        current + 1
    } else {
        len - 1
    }
}

/// `current` moved by `amount` (saturating at the ends of `usize`), kept within a list
/// of `len` items.
pub open spec fn move_index_spec(current: int, len: int, amount: int) -> int {
    if len == 0 {
        0
    } else {
        let moved = if current + amount < 0 {
            0
        } else if current + amount > usize::MAX {
            usize::MAX as int
        } else {
            current + amount
        };
        if moved < len - 1 {
            moved
        } else {
            len - 1
        }
    }
}

/// Moves a selection one item down, stopping at the last item; an empty list selects 0.
pub fn next_index(current: usize, len: usize) -> (r: usize)
    requires
        len == 0 || current < usize::MAX,
    ensures
        r == next_index_spec(current as int, len as int),
        len > 0 ==> r < len,
        len == 0 ==> r == 0,
{
    if len == 0 {
        0
    } else {
        let next = current + 1;
        if next < len - 1 {
            next
        } else {
            len - 1
        }
    }
}

/// Moves a selection by a signed amount, saturating at zero, and keeps it on the list.
pub fn move_index(current: usize, len: usize, amount: isize) -> (r: usize)
    ensures
        r == move_index_spec(current as int, len as int, amount as int),
        len > 0 ==> r < len,
        len == 0 ==> r == 0,
{
    if len == 0 {
        return 0;
    }
    let moved: usize = if amount >= 0 {
        let step = amount as usize;
        if current > usize::MAX - step {
            usize::MAX
        } else {
            current + step
        }
    } else {
        let step: usize = ((-(amount + 1)) as usize) + 1;
        if current < step {
            0
        } else {
            current - step
        }
    };
    if moved < len - 1 {
        moved
    } else {
        len - 1
    }
}

} // verus!
