//! Moving a cursor through a list.

use vstd::prelude::*;

use crate::graphics;
use crate::input::Direction;

verus! {

/// Where a move by `amount` entries takes a cursor in a list of `len` entries. A move past the
/// end goes on at the start. A move past the start goes on at the end; one that would go past the
/// start twice stops at the first entry.
pub open spec fn moved(cursor: int, len: int, amount: int, direction: Direction) -> int {
    match direction {
        Direction::Forward => graphics::min_int(cursor + amount, usize::MAX as int) % len,
        Direction::Backward => graphics::max_int(
            graphics::min_int(cursor + len, usize::MAX as int) - amount,
            0,
        ) % len,
    }
}

/// Moves a cursor in a list that has entries.
pub fn move_cursor(cursor: usize, len: usize, amount: usize, direction: Direction) -> (to: usize)
    requires
        len > 0,
    ensures
        to == moved(cursor as int, len as int, amount as int, direction),
        to < len,
{
    match direction {
        Direction::Forward => cursor.saturating_add(amount) % len,
        Direction::Backward => cursor.saturating_add(len).saturating_sub(amount) % len,
    }
}

/// A move ends on an entry of the list.
pub proof fn law_move_stays_in_list(cursor: int, len: int, amount: int, direction: Direction)
    requires
        len > 0,
    ensures
        0 <= moved(cursor, len, amount, direction) < len,
{
}

proof fn lemma_mod_plus_multiple(r: int, q: int, len: int)
    requires
        0 <= r < len,
    ensures
        (r + q * len) % len == r,
{
    vstd::arithmetic::div_mod::lemma_mod_multiples_vanish(q, r, len);
    vstd::arithmetic::div_mod::lemma_small_mod(r as nat, len as nat);
    assert(len * q + r == r + q * len) by (nonlinear_arith);
}

/// A step forward goes to the next entry, and from the last entry to the first; a step backward
/// goes to the previous entry, and from the first entry to the last.
pub proof fn law_steps_go_round(cursor: int, len: int)
    requires
        0 <= cursor < len,
        2 * len <= usize::MAX,
    ensures
        moved(cursor, len, 1, Direction::Forward) == (if cursor + 1 == len {
            0
        } else {
            cursor + 1
        }),
        moved(cursor, len, 1, Direction::Backward) == (if cursor == 0 {
            len - 1
        } else {
            cursor - 1
        }),
{
    if cursor + 1 == len {
        lemma_mod_plus_multiple(0, 1, len);
    } else {
        lemma_mod_plus_multiple(cursor + 1, 0, len);
    }
    if cursor == 0 {
        lemma_mod_plus_multiple(len - 1, 0, len);
    } else {
        lemma_mod_plus_multiple(cursor - 1, 1, len);
    }
}

/// Moving backward undoes moving forward by the same amount, unless the way back goes past the
/// start of the list twice; even so for a cursor that was on the first entry.
pub proof fn law_backward_undoes_forward(cursor: int, len: int, amount: int)
    requires
        0 <= cursor < len,
        0 <= amount,
        cursor + amount <= usize::MAX,
        moved(cursor, len, amount, Direction::Forward) + len <= usize::MAX,
        amount <= moved(cursor, len, amount, Direction::Forward) + len || cursor == 0,
    ensures
        moved(
            moved(cursor, len, amount, Direction::Forward),
            len,
            amount,
            Direction::Backward,
        ) == cursor,
{
    let there = moved(cursor, len, amount, Direction::Forward);
    let q = (cursor + amount) / len;
    vstd::arithmetic::div_mod::lemma_fundamental_div_mod(cursor + amount, len);
    assert(there + len - amount == cursor + (1 - q) * len) by (nonlinear_arith)
        requires
            cursor + amount == len * q + there,
    ;
    if amount <= there + len {
        lemma_mod_plus_multiple(cursor, 1 - q, len);
    } else {
        lemma_mod_plus_multiple(0, 0, len);
    }
}

/// Moving forward undoes moving backward by the same amount, unless the way back goes past the
/// start of the list twice; even so if the way forward from the first entry ends where it began.
pub proof fn law_forward_undoes_backward(cursor: int, len: int, amount: int)
    requires
        0 <= cursor < len,
        0 <= amount,
        cursor + len <= usize::MAX,
        moved(cursor, len, amount, Direction::Backward) + amount <= usize::MAX,
        amount <= cursor + len || amount % len == cursor,
    ensures
        moved(
            moved(cursor, len, amount, Direction::Backward),
            len,
            amount,
            Direction::Forward,
        ) == cursor,
{
    let there = moved(cursor, len, amount, Direction::Backward);
    if amount <= cursor + len {
        let q = (cursor + len - amount) / len;
        vstd::arithmetic::div_mod::lemma_fundamental_div_mod(cursor + len - amount, len);
        assert(there + amount == cursor + (1 - q) * len) by (nonlinear_arith)
            requires
                cursor + len - amount == len * q + there,
        ;
        lemma_mod_plus_multiple(cursor, 1 - q, len);
    } else {
        lemma_mod_plus_multiple(0, 0, len);
    }
}

/// A move by a page that is no longer than the list goes down, or up, by exactly that many
/// entries; after the last page comes the first, and before the first page the last, on the entry
/// that lies as many entries further when the list is read as a ring.
pub proof fn law_pages_go_round(cursor: int, len: int, height: int)
    requires
        0 <= cursor < len,
        0 <= height <= len,
        2 * len <= usize::MAX,
    ensures
        moved(cursor, len, height, Direction::Forward) == (if cursor + height < len {
            cursor + height
        } else {
            cursor + height - len
        }),
        moved(cursor, len, height, Direction::Backward) == (if cursor >= height {
            cursor - height
        } else {
            cursor - height + len
        }),
{
    if cursor + height < len {
        lemma_mod_plus_multiple(cursor + height, 0, len);
    } else {
        lemma_mod_plus_multiple(cursor + height - len, 1, len);
    }
    if cursor >= height {
        lemma_mod_plus_multiple(cursor - height, 1, len);
    } else {
        lemma_mod_plus_multiple(cursor - height + len, 0, len);
    }
}

/// A move ends on the entry that lies `amount` entries further, reading the list as a ring: where
/// it ends and where it would end without wrapping differ by a multiple of the list's length. A
/// move backward by more than the way to the start and once round ends on the first entry.
pub proof fn law_moves_go_round(cursor: int, len: int, amount: int)
    requires
        0 <= cursor,
        0 <= amount,
        0 < len,
        cursor + amount <= usize::MAX,
        cursor + len <= usize::MAX,
    ensures
        0 <= moved(cursor, len, amount, Direction::Forward) < len,
        0 <= moved(cursor, len, amount, Direction::Backward) < len,
        (cursor + amount - moved(cursor, len, amount, Direction::Forward)) % len == 0,
        amount <= cursor + len ==> (cursor - amount - moved(
            cursor,
            len,
            amount,
            Direction::Backward,
        )) % len == 0,
        amount > cursor + len ==> moved(cursor, len, amount, Direction::Backward) == 0,
{
    lemma_rest_of_remainder(cursor + amount, len);
    if amount <= cursor + len {
        let r = (cursor + len - amount) % len;
        lemma_rest_of_remainder(cursor + len - amount, len);
        vstd::arithmetic::div_mod::lemma_mod_sub_multiples_vanish(cursor + len - amount - r, len);
        assert(cursor + len - amount - r - len == cursor - amount - r);
    } else {
        lemma_mod_plus_multiple(0, 0, len);
    }
}

proof fn lemma_rest_of_remainder(n: int, len: int)
    requires
        0 < len,
    ensures
        0 <= n % len < len,
        (n - n % len) % len == 0,
{
    vstd::arithmetic::div_mod::lemma_fundamental_div_mod(n, len);
    vstd::arithmetic::div_mod::lemma_mod_multiples_basic(n / len, len);
    assert(n - n % len == (n / len) * len) by (nonlinear_arith)
        requires
            n == len * (n / len) + n % len,
    ;
}

/// A sum that is too large for a machine word stops at the largest one.
pub proof fn law_too_large_moves_stop(cursor: int, len: int, amount: int)
    requires
        0 < len,
        cursor + amount > usize::MAX,
    ensures
        moved(cursor, len, amount, Direction::Forward) == usize::MAX as int % len,
{
}

} // verus!
