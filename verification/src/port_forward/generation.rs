//! Allocation of tunnel stream ids for one forward generation.
use vstd::prelude::*;

verus! {

/// Abstract state of a [`StreamIdAllocator`].
pub struct AllocatorView {
    pub next: u32,
    pub step: u32,
    pub exhausted: bool,
}

/// Hands out stream ids `next, next + step, ...` and stops, instead of
/// wrapping, once the id after the next one would not fit in a `u32`.
#[derive(Debug, Clone)]
pub struct StreamIdAllocator {
    next: u32,
    step: u32,
    exhausted: bool,
}

/// The state after one allocation and the id it hands out.
pub open spec fn allocate_step(s: AllocatorView) -> (AllocatorView, Option<u32>) {
    if s.exhausted {
        (s, None)
    } else if s.next + s.step + s.step <= u32::MAX {
        (AllocatorView { next: (s.next + s.step) as u32, ..s }, Some(s.next))
    } else {
        (AllocatorView { exhausted: true, ..s }, Some(s.next))
    }
}

impl View for StreamIdAllocator {
    type V = AllocatorView;

    closed spec fn view(&self) -> AllocatorView {
        AllocatorView { next: self.next, step: self.step, exhausted: self.exhausted }
    }
}

impl StreamIdAllocator {
    /// An allocator of the odd ids `1, 3, 5, ...`.
    pub fn new_odd() -> (res: Self)
        ensures
            res@ == (AllocatorView { next: 1, step: 2, exhausted: false }),
    {
        StreamIdAllocator { next: 1, step: 2, exhausted: false }
    }

    /// An allocator that starts at `start` and advances by two.
    pub fn new_odd_from(start: u32) -> (res: Self)
        ensures
            res@ == (AllocatorView { next: start, step: 2, exhausted: false }),
    {
        StreamIdAllocator { next: start, step: 2, exhausted: false }
    }

    /// Hands out the next id, or `None` once the generation is exhausted.
    pub fn next(&mut self) -> (res: Option<u32>)
        ensures
            (final(self)@, res) == allocate_step(old(self)@),
    {
        if self.exhausted {
            return None;
        }
        let value = self.next;
        match self.next.checked_add(self.step) {
            Some(next) => {
                match next.checked_add(self.step) {
                    Some(_) => {
                        self.next = next;
                    },
                    None => {
                        self.exhausted = true;
                    },
                }
            },
            None => {
                self.exhausted = true;
            },
        }
        Some(value)
    }

    /// Whether the ids of this generation ran out.
    pub fn needs_generation_rotation(&self) -> (res: bool)
        ensures
            res == self@.exhausted,
    {
        self.exhausted
    }

    /// Moves the allocator to `next` and clears exhaustion.
    pub fn set_next_for_test(&mut self, next: u32)
        ensures
            final(self)@ == (AllocatorView { next: next, exhausted: false, ..old(self)@ }),
    {
        self.next = next;
        self.exhausted = false;
    }
}

/// Once exhausted, an allocator hands out nothing and stays exhausted.
pub proof fn lemma_exhaustion_is_permanent(s: AllocatorView)
    requires
        s.exhausted,
    ensures
        allocate_step(s).1 is None,
        allocate_step(s).0 == s,
{
}

/// Two ids handed out one after the other are increasing by the step: ids
/// never wrap around and never repeat within a generation.
pub proof fn lemma_ids_strictly_increase(s: AllocatorView)
    requires
        s.step > 0,
        allocate_step(s).1 is Some,
        allocate_step(allocate_step(s).0).1 is Some,
    ensures
        allocate_step(allocate_step(s).0).1->0 == allocate_step(s).1->0 + s.step,
        allocate_step(s).1->0 < allocate_step(allocate_step(s).0).1->0,
{
}

/// An allocator that starts at an odd id with step two only hands out odd ids.
pub proof fn lemma_odd_ids_stay_odd(s: AllocatorView)
    requires
        s.step == 2,
        s.next % 2 == 1,
    ensures
        allocate_step(s).0.next % 2 == 1,
        allocate_step(s).0.step == 2,
        allocate_step(s).1 is Some ==> allocate_step(s).1->0 % 2 == 1,
{
}

/// Every id handed out leaves room for one more step: the id that follows a
/// handed-out id is either handed out next or the generation is exhausted.
pub proof fn lemma_no_wrap(s: AllocatorView)
    requires
        !s.exhausted,
    ensures
        allocate_step(s).1 == Some(s.next),
        !allocate_step(s).0.exhausted ==> allocate_step(s).0.next + s.step <= u32::MAX,
        allocate_step(s).0.exhausted ==> s.next + s.step + s.step > u32::MAX,
{
}

/// The state after `k` allocations from `s`.
pub open spec fn allocations(s: AllocatorView, k: nat) -> AllocatorView
    decreases k,
{
    if k == 0 {
        s
    } else {
        allocate_step(allocations(s, (k - 1) as nat)).0
    }
}

/// The state of a fresh odd allocator.
pub open spec fn odd_start() -> AllocatorView {
    AllocatorView { next: 1, step: 2, exhausted: false }
}

/// The largest odd id an odd allocator hands out: the one after it would
/// leave no room for another step.
pub open spec fn last_odd_id() -> int {
    u32::MAX - 2
}

/// The state of an odd allocator after `k` allocations: it has handed out
/// `1, 3, ..., 2k - 1` and waits at `2k + 1`, until it has handed out the
/// last id that leaves room for one more step and stays exhausted there.
pub proof fn lemma_odd_allocations(k: nat)
    ensures
        allocations(odd_start(), k) == if 1 + 2 * k <= last_odd_id() {
            AllocatorView { next: (1 + 2 * k) as u32, step: 2, exhausted: false }
        } else {
            AllocatorView { next: last_odd_id() as u32, step: 2, exhausted: true }
        },
    decreases k,
{
    if k > 0 {
        lemma_odd_allocations((k - 1) as nat);
    }
}

/// An odd allocator's `k + 1`-th allocation hands out `2k + 1` while that
/// id is at most `u32::MAX - 2`, and nothing afterwards, at which point it
/// asks for a new generation. So the ids it hands out are odd, strictly
/// increasing and never repeat, and once it hands out nothing it never
/// hands out anything again.
pub proof fn lemma_odd_allocator_ids(k: nat)
    ensures
        allocate_step(allocations(odd_start(), k)).1 == if 1 + 2 * k <= last_odd_id() {
            Some((1 + 2 * k) as u32)
        } else {
            None::<u32>
        },
        1 + 2 * k > last_odd_id() ==> allocations(odd_start(), k + 1).exhausted,
        allocate_step(allocations(odd_start(), k)).1 is None ==> allocations(odd_start(), k + 1) == allocations(odd_start(), k),
{
    lemma_odd_allocations(k);
    lemma_odd_allocations(k + 1);
}

/// Once an odd allocator's allocation hands out nothing, every later one
/// hands out nothing too and the allocator asks for a new generation.
/// (`StreamIdAllocator::new_odd` starts at `odd_start()` and each call of
/// `next` takes one `allocate_step`, so after `k` calls the allocator's view
/// is `allocations(odd_start(), k)`.)
pub proof fn lemma_odd_allocator_none_forever(k: nat, m: nat)
    requires
        allocate_step(allocations(odd_start(), k)).1 is None,
        k <= m,
    ensures
        allocate_step(allocations(odd_start(), m)).1 is None,
        allocations(odd_start(), m).exhausted,
{
    lemma_odd_allocator_ids(k);
    lemma_odd_allocator_ids(m);
    lemma_odd_allocations(m);
}

/// Of two allocations of an odd allocator, the later one hands out a larger
/// odd id, if it hands out one at all.
pub proof fn lemma_odd_allocator_ids_increase(j: nat, k: nat)
    requires
        j < k,
        allocate_step(allocations(odd_start(), k)).1 is Some,
    ensures
        allocate_step(allocations(odd_start(), j)).1 is Some,
        allocate_step(allocations(odd_start(), j)).1->0 < allocate_step(allocations(odd_start(), k)).1->0,
        allocate_step(allocations(odd_start(), j)).1->0 % 2 == 1,
        allocate_step(allocations(odd_start(), k)).1->0 % 2 == 1,
{
    lemma_odd_allocator_ids(j);
    lemma_odd_allocator_ids(k);
}

} // verus!
