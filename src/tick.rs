use vstd::prelude::*;

verus! {

/// Width of the tick counter's range, `2^32`.
pub const TICK_MODULUS: u64 = 0x1_0000_0000;

/// Half of the counter range: a forward distance below this is "newer".
pub const TICK_HALF: u32 = 0x8000_0000;

/// A producer-side logical clock value. Compared with wraparound.
#[derive(Clone, Copy, Debug, PartialEq, Eq, Structural)]
pub struct RepliconTick {
    pub value: u32,
}

/// Forward distance from `b` to `a`, modulo the counter width.
pub open spec fn tick_distance(a: u32, b: u32) -> int {
    (a as int - b as int) % (TICK_MODULUS as int)
}

/// `a` is newer than `b` when the wrapped difference, read as signed, is positive.
pub open spec fn newer_than(a: RepliconTick, b: RepliconTick) -> bool {
    0 < tick_distance(a.value, b.value) < TICK_HALF as int
}

/// Last-write-wins policy: a mutation stamped `incoming` is applied when nothing
/// was applied before, or when it is newer than the last applied tick.
pub open spec fn admits(last: Option<RepliconTick>, incoming: RepliconTick) -> bool {
    match last {
        None => true,
        Some(t) => newer_than(incoming, t),
    }
}

impl RepliconTick {
    pub fn new(value: u32) -> (r: Self)
        ensures
            r.value == value,
    {
        RepliconTick { value }
    }

    pub fn get(self) -> (r: u32)
        ensures
            r == self.value,
    {
        self.value
    }

    /// The next tick, wrapping to zero after the largest value.
    pub fn increment(self) -> (r: Self)
        ensures
            r.value as int == (self.value as int + 1) % (TICK_MODULUS as int),
    {
        if self.value == u32::MAX {
            RepliconTick { value: 0 }
        } else {
            RepliconTick { value: self.value + 1 }
        }
    }

    /// Wraparound-aware "is newer than".
    pub fn is_newer_than(self, other: RepliconTick) -> (r: bool)
        ensures
            r == newer_than(self, other),
    {
        let d: u32 = if self.value >= other.value {
            self.value - other.value
        } else {
            ((self.value as u64 + TICK_MODULUS) - other.value as u64) as u32
        };
        proof {
            assert(d as int == tick_distance(self.value, other.value));
        }
        d != 0 && d < TICK_HALF
    }
}

/// The comparison that a last-write-wins applier makes before mutating.
pub fn should_apply(last: Option<RepliconTick>, incoming: RepliconTick) -> (r: bool)
    ensures
        r == admits(last, incoming),
{
    match last {
        None => true,
        Some(t) => incoming.is_newer_than(t),
    }
}

/// A tick is never newer than itself, and of two distinct ticks at most one is
/// newer than the other.
pub proof fn lemma_newer_is_asymmetric(a: RepliconTick, b: RepliconTick)
    ensures
        !newer_than(a, a),
        !(newer_than(a, b) && newer_than(b, a)),
{
}

/// Stale mutations are rejected and fresh ones admitted: with `t` applied last,
/// a tick that is not newer than `t` is refused, and the next tick is admitted.
pub proof fn lemma_stale_rejected(last: RepliconTick, incoming: RepliconTick)
    ensures
        !newer_than(incoming, last) ==> !admits(Some(last), incoming),
        admits(Some(last), RepliconTick { value: ((last.value as int + 1) % (TICK_MODULUS as int)) as u32 }),
        admits(None, incoming),
{
}

} // verus!
