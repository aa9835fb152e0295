use vstd::prelude::*;

verus! {

/// The value of a `u32` read back as an `i32` (two's complement reinterpretation).
pub open spec fn as_signed(u: u32) -> int {
    if u <= 0x7fff_ffff {
        u as int
    } else {
        u as int - 0x1_0000_0000
    }
}

/// What `add_or_zero` yields: the signed sum, clamped below at zero.
pub open spec fn spec_add_or_zero(u: u32, i: i32) -> int {
    if as_signed(u) + i < 0 {
        0
    } else {
        as_signed(u) + i
    }
}

/// Adds a signed offset to an unsigned quantity and clamps the result at zero.
/// The quantity is read as an `i32`; the sum must fit in an `i32`.
pub fn add_or_zero(u: u32, i: i32) -> (r: u32)
    requires
        i32::MIN <= as_signed(u) + i <= i32::MAX,
    ensures
        r == spec_add_or_zero(u, i),
{
    let w: i64 = if u <= 0x7fff_ffff {
        u as i64
    } else {
        u as i64 - 0x1_0000_0000i64
    };
    let s: i64 = w + i as i64;
    if s < 0 {
        0
    } else {
        s as u32
    }
}

pub open spec fn abs(v: int) -> int {
    if v < 0 {
        -v
    } else {
        v
    }
}

/// The square one step away from the enemy, along the axis where the two are
/// farthest apart (the horizontal axis on a tie).
pub open spec fn spec_dummy_flee(my_x: int, my_y: int, enemy_x: int, enemy_y: int) -> (int, int) {
    if abs(my_y - enemy_y) > abs(my_x - enemy_x) {
        if my_y > enemy_y {
            (my_x, my_y + 1)
        } else {
            (my_x, my_y - 1)
        }
    } else {
        if my_x > enemy_x {
            (my_x + 1, my_y)
        } else {
            (my_x - 1, my_y)
        }
    }
}

/// The inputs on which `dummy_flee` computes without overflow: the distances
/// on both axes, and their absolute values, fit an `i32`, and so does the
/// square reached (only the coordinate it steps along changes).
pub open spec fn flee_in_range(my_x: i32, my_y: i32, enemy_x: i32, enemy_y: i32) -> bool {
    &&& i32::MIN < my_x - enemy_x <= i32::MAX
    &&& i32::MIN < my_y - enemy_y <= i32::MAX
    &&& i32::MIN <= spec_dummy_flee(my_x as int, my_y as int, enemy_x as int, enemy_y as int).0 <= i32::MAX
    &&& i32::MIN <= spec_dummy_flee(my_x as int, my_y as int, enemy_x as int, enemy_y as int).1 <= i32::MAX
}

/// One step that takes a creature away from an enemy.
pub fn dummy_flee(my_pos_x: i32, my_pos_y: i32, enemy_pos_x: i32, enemy_pos_y: i32) -> (r: (
    i32,
    i32,
))
    requires
        flee_in_range(my_pos_x, my_pos_y, enemy_pos_x, enemy_pos_y),
    ensures
        (r.0 as int, r.1 as int) == spec_dummy_flee(
            my_pos_x as int,
            my_pos_y as int,
            enemy_pos_x as int,
            enemy_pos_y as int,
        ),
{
    let y_dist: i32 = my_pos_y - enemy_pos_y;
    let x_dist: i32 = my_pos_x - enemy_pos_x;
    let ay: i32 = if y_dist < 0 { -y_dist } else { y_dist };
    let ax: i32 = if x_dist < 0 { -x_dist } else { x_dist };
    if ay > ax {
        if my_pos_y > enemy_pos_y {
            (my_pos_x, my_pos_y + 1)
        } else {
            (my_pos_x, my_pos_y - 1)
        }
    } else {
        if my_pos_x > enemy_pos_x {
            (my_pos_x + 1, my_pos_y)
        } else {
            (my_pos_x - 1, my_pos_y)
        }
    }
}

/// Fleeing moves exactly one square, and never brings the creature closer to
/// the enemy on either axis; on the axis it moves along, it gets one square farther.
pub proof fn lemma_flee_moves_away(my_x: int, my_y: int, enemy_x: int, enemy_y: int)
    ensures
        ({
            let (nx, ny) = spec_dummy_flee(my_x, my_y, enemy_x, enemy_y);
            &&& abs(nx - my_x) + abs(ny - my_y) == 1
            &&& abs(nx - enemy_x) >= abs(my_x - enemy_x)
            &&& abs(ny - enemy_y) >= abs(my_y - enemy_y)
            &&& abs(nx - enemy_x) + abs(ny - enemy_y) == abs(my_x - enemy_x) + abs(my_y
                - enemy_y) + 1
        }),
{
}

/// The source of fresh identifiers: it hands out its current value and then
/// moves on by one (wrapping at the top of `usize`).
pub struct IdCounter {
    next: usize,
}

impl View for IdCounter {
    type V = nat;

    closed spec fn view(&self) -> nat {
        self.next as nat
    }
}

/// The counter value after one identifier has been handed out.
pub open spec fn next_id(v: nat) -> nat {
    if v >= usize::MAX {
        0
    } else {
        v + 1
    }
}

impl IdCounter {
    /// A counter whose first identifier is 1.
    pub fn new() -> (c: IdCounter)
        ensures
            c@ == 1,
    {
        IdCounter { next: 1 }
    }

    /// The identifier the next call of `_unique_id` hands out.
    pub fn peek(&self) -> (r: usize)
        ensures
            r == self@,
    {
        self.next
    }

    pub proof fn lemma_bounded(&self)
        ensures
            self@ <= usize::MAX,
    {
    }
}

/// Hands out a fresh identifier: the counter's value, after which the counter
/// moves on by one.
pub fn _unique_id(counter: &mut IdCounter) -> (id: usize)
    ensures
        id == old(counter)@,
        final(counter)@ == next_id(old(counter)@),
{
    let id = counter.next;
    counter.next = if counter.next == usize::MAX {
        0
    } else {
        counter.next + 1
    };
    id
}

/// The identifier handed out by the `k`-th call on a counter that starts at `start`.
pub open spec fn id_after(start: nat, k: nat) -> nat
    decreases k,
{
    if k == 0 {
        start
    } else {
        next_id(id_after(start, (k - 1) as nat))
    }
}

/// Successive identifiers are distinct: as long as the counter does not wrap,
/// the `i`-th and the `j`-th identifier handed out differ.
pub proof fn lemma_ids_unique(start: nat, i: nat, j: nat)
    requires
        i < j,
        start + j <= usize::MAX,
    ensures
        id_after(start, i) != id_after(start, j),
{
    lemma_id_after_value(start, i);
    lemma_id_after_value(start, j);
}

/// Identifiers grow: from a counter that starts at 1 or above, and as long as
/// it does not wrap, every identifier is at least 1 and each one handed out is
/// greater than those handed out before it (so none is handed out twice, and 0
/// never is).
pub proof fn lemma_ids_grow(start: nat, i: nat, j: nat)
    requires
        1 <= start,
        i < j,
        start + j <= usize::MAX,
    ensures
        1 <= id_after(start, i),
        id_after(start, i) < id_after(start, j),
{
    lemma_id_after_value(start, i);
    lemma_id_after_value(start, j);
}

proof fn lemma_id_after_value(start: nat, k: nat)
    requires
        start + k <= usize::MAX,
    ensures
        id_after(start, k) == start + k,
    decreases k,
{
    if k > 0 {
        lemma_id_after_value(start, (k - 1) as nat);
    }
}

} // verus!
