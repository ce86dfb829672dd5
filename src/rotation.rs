use vstd::prelude::*;
use crate::geometry::{is_reverse, Direction};

verus! {

/// Number of ticks after a turn during which the next turn is held back.
pub const ROTATION_LOCK: i64 = 15;

/// The steering state of the agent: its direction, the ticks left before it
/// may turn again, and a turn held back until then (`Idle` when none).
pub struct Rotation {
    pub direction: Direction,
    pub cooldown: int,
    pub deferred: Direction,
}

/// A request to turn to `d`. The exact reverse is ignored; otherwise the turn
/// happens at once when the cooldown is over, else it is held back in place
/// of any turn held before.
pub open spec fn request_rotation(r: Rotation, d: Direction) -> Rotation {
    if is_reverse(r.direction, d) {
        r
    } else if r.cooldown <= 0 {
        Rotation { direction: d, cooldown: ROTATION_LOCK as int, ..r }
    } else {
        Rotation { deferred: d, ..r }
    }
}

/// Once the cooldown is over, a held-back turn takes effect unless it reverses
/// the current direction, and the held slot is emptied either way.
pub open spec fn promote_deferred(r: Rotation) -> Rotation {
    if r.deferred != Direction::Idle && r.cooldown <= 0 {
        if !is_reverse(r.direction, r.deferred) {
            Rotation { direction: r.deferred, cooldown: ROTATION_LOCK as int, deferred: Direction::Idle }
        } else {
            Rotation { deferred: Direction::Idle, ..r }
        }
    } else {
        r
    }
}

/// What one moving tick does to the steering state: the cooldown goes down by
/// one, then a held-back turn may take effect.
pub open spec fn tick_rotation(r: Rotation) -> Rotation {
    promote_deferred(Rotation { cooldown: r.cooldown - 1, ..r })
}

/// One input to the steering state: a request to turn, or a moving tick.
#[derive(Clone, Copy, Debug, PartialEq, Eq, Structural)]
pub enum SteeringEvent {
    Request(Direction),
    Tick,
}

pub open spec fn apply_event(r: Rotation, e: SteeringEvent) -> Rotation {
    match e {
        SteeringEvent::Request(d) => request_rotation(r, d),
        SteeringEvent::Tick => tick_rotation(r),
    }
}

/// The steering state after the first `k` events, starting from `r`.
pub open spec fn state_after(r: Rotation, events: Seq<SteeringEvent>, k: int) -> Rotation
    decreases k,
{
    if k <= 0 {
        r
    } else {
        apply_event(state_after(r, events, k - 1), events[k - 1])
    }
}

/// Whether event `k` changes the direction.
pub open spec fn turns_at(r: Rotation, events: Seq<SteeringEvent>, k: int) -> bool {
    0 <= k < events.len() && state_after(r, events, k + 1).direction != state_after(
        r,
        events,
        k,
    ).direction
}

/// The number of ticks among events `a` up to, not including, `b`.
pub open spec fn ticks_in(events: Seq<SteeringEvent>, a: int, b: int) -> int
    decreases b - a,
{
    if b <= a {
        0
    } else {
        ticks_in(events, a, b - 1) + if events[b - 1] is Tick {
            1int
        } else {
            0int
        }
    }
}

/// A request for the exact reverse of the current direction leaves the whole
/// steering state, the held-back turn included, as it was.
pub proof fn lemma_reverse_request_ignored(r: Rotation, d: Direction)
    requires
        is_reverse(r.direction, d),
    ensures
        request_rotation(r, d) == r,
{
}

proof fn lemma_ticks_split(events: Seq<SteeringEvent>, a: int, m: int, b: int)
    requires
        a <= m <= b,
    ensures
        ticks_in(events, a, b) == ticks_in(events, a, m) + ticks_in(events, m, b),
        ticks_in(events, m, b) >= 0,
    decreases b - m,
{
    if m < b {
        lemma_ticks_split(events, a, m, b - 1);
    }
}

proof fn lemma_turn_sets_lock(r: Rotation, events: Seq<SteeringEvent>, k: int)
    requires
        turns_at(r, events, k),
    ensures
        state_after(r, events, k + 1).cooldown == ROTATION_LOCK,
{
}

/// Between a turn at `a` and the next events up to `k`, none of which turns,
/// the cooldown has gone down by at most the number of ticks.
proof fn lemma_cooldown_after_turn(r: Rotation, events: Seq<SteeringEvent>, a: int, k: int)
    requires
        turns_at(r, events, a),
        a < k <= events.len(),
        forall|m: int| a < m < k ==> !turns_at(r, events, m),
    ensures
        state_after(r, events, k).cooldown >= ROTATION_LOCK - ticks_in(events, a + 1, k),
    decreases k - a,
{
    if k == a + 1 {
        lemma_turn_sets_lock(r, events, a);
    } else {
        lemma_cooldown_after_turn(r, events, a, k - 1);
        assert(!turns_at(r, events, k - 1));
    }
}

/// Bounded rotation rate: between any two turns, the second one included, at
/// least `ROTATION_LOCK` moving ticks take place, whatever requests come in
/// between.
pub proof fn lemma_turns_are_spaced(r: Rotation, events: Seq<SteeringEvent>, a: int, b: int)
    requires
        a < b,
        turns_at(r, events, a),
        turns_at(r, events, b),
    ensures
        ticks_in(events, a + 1, b + 1) >= ROTATION_LOCK,
    decreases b - a,
{
    if exists|m: int| a < m < b && turns_at(r, events, m) {
        let m = choose|m: int| a < m < b && turns_at(r, events, m);
        lemma_turns_are_spaced(r, events, m, b);
        lemma_ticks_split(events, a + 1, m + 1, b + 1);
        lemma_ticks_split(events, a + 1, a + 1, m + 1);
    } else {
        lemma_cooldown_after_turn(r, events, a, b);
        assert(ticks_in(events, a + 1, b + 1) == ticks_in(events, a + 1, b) + if events[b] is Tick {
            1int
        } else {
            0int
        });
    }
}

} // verus!
