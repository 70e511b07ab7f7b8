use vstd::prelude::*;

verus! {

/// How many frame times the window holds before it publishes their mean.
pub const WINDOW_SLOTS: usize = 10;

/// The sum of the frame times in `slots`.
pub open spec fn total(slots: Seq<u64>) -> int
    decreases slots.len(),
{
    if slots.len() == 0 {
        0
    } else {
        total(slots.drop_last()) + slots.last()
    }
}

/// The arithmetic mean of the frame times in `slots`, rounded down to a whole
/// clock unit.
pub open spec fn mean(slots: Seq<u64>) -> int {
    total(slots) / (slots.len() as int)
}

/// What a frame-time window holds: its ten slots, and the slot that the next
/// frame time goes to.
pub ghost struct WindowState {
    pub slots: Seq<u64>,
    pub cursor: int,
}

impl WindowState {
    /// Ten slots and a cursor that points at one of them.
    pub open spec fn wf(self) -> bool {
        self.slots.len() == WINDOW_SLOTS && 0 <= self.cursor < WINDOW_SLOTS
    }

    /// The window before any frame: every slot holds zero and the first slot
    /// is written next.
    pub open spec fn fresh() -> WindowState {
        WindowState { slots: Seq::new(WINDOW_SLOTS as nat, |i: int| 0u64), cursor: 0 }
    }

    /// The window after `delta` went into the slot under the cursor and the
    /// cursor moved on, back to the first slot after the last.
    pub open spec fn record(self, delta: u64) -> WindowState {
        WindowState {
            slots: self.slots.update(self.cursor, delta),
            cursor: (self.cursor + 1) % (WINDOW_SLOTS as int),
        }
    }

    /// Whether recording one more frame time fills the last slot, which is
    /// when the window publishes.
    pub open spec fn publishes(self) -> bool {
        self.cursor == WINDOW_SLOTS - 1
    }

    /// What recording `delta` publishes: the mean of the ten slots when
    /// `delta` fills the last one, nothing otherwise.
    pub open spec fn published(self, delta: u64) -> Option<u64> {
        if self.publishes() {
            Some(mean(self.record(delta).slots) as u64)
        } else {
            None
        }
    }

    /// The window after all of `deltas` were recorded, first to last.
    pub open spec fn record_all(self, deltas: Seq<u64>) -> WindowState
        decreases deltas.len(),
    {
        if deltas.len() == 0 {
            self
        } else {
            self.record_all(deltas.drop_last()).record(deltas.last())
        }
    }

    /// How often the window publishes while all of `deltas` are recorded.
    pub open spec fn publish_count(self, deltas: Seq<u64>) -> nat
        decreases deltas.len(),
    {
        if deltas.len() == 0 {
            0
        } else {
            let earlier = self.publish_count(deltas.drop_last());
            if self.record_all(deltas.drop_last()).publishes() {
                earlier + 1
            } else {
                earlier
            }
        }
    }
}

/// The sum of some frame times is at most that many times the largest value
/// a frame time can have.
pub proof fn lemma_total_bounds(slots: Seq<u64>)
    ensures
        0 <= total(slots) <= slots.len() * u64::MAX,
    decreases slots.len(),
{
    if slots.len() > 0 {
        lemma_total_bounds(slots.drop_last());
        assert((slots.len() - 1) * u64::MAX + u64::MAX == slots.len() * u64::MAX)
            by (nonlinear_arith);
    }
}

/// The mean of frame times that are all `delta` is `delta`.
pub proof fn lemma_mean_of_equal_times(slots: Seq<u64>, delta: u64)
    requires
        slots.len() > 0,
        forall|i: int| 0 <= i < slots.len() ==> slots[i] == delta,
    ensures
        mean(slots) == delta,
{
    lemma_total_of_equal_times(slots, delta);
    assert((slots.len() * delta) / (slots.len() as int) == delta) by (nonlinear_arith)
        requires
            slots.len() > 0,
    ;
}

proof fn lemma_total_of_equal_times(slots: Seq<u64>, delta: u64)
    requires
        forall|i: int| 0 <= i < slots.len() ==> slots[i] == delta,
    ensures
        total(slots) == slots.len() * delta,
    decreases slots.len(),
{
    if slots.len() > 0 {
        lemma_total_of_equal_times(slots.drop_last(), delta);
        assert((slots.len() - 1) * delta + delta == slots.len() * delta) by (nonlinear_arith);
    }
}

/// Recording keeps a window well formed, and after `deltas.len()` frame
/// times the cursor has moved on by that many slots, round the ring.
pub proof fn lemma_cursor_after(state: WindowState, deltas: Seq<u64>)
    requires
        state.wf(),
    ensures
        state.record_all(deltas).wf(),
        state.record_all(deltas).cursor == (state.cursor + deltas.len()) % (WINDOW_SLOTS as int),
    decreases deltas.len(),
{
    if deltas.len() > 0 {
        lemma_cursor_after(state, deltas.drop_last());
    }
}

/// The window publishes once for every tenth frame time: a window whose
/// cursor stands at `state.cursor` has published
/// `(state.cursor + n) / 10` times after `n` frame times. A fresh window has
/// published once after ten and twice after twenty-five.
pub proof fn lemma_publishes_every_tenth(state: WindowState, deltas: Seq<u64>)
    requires
        state.wf(),
    ensures
        state.publish_count(deltas) == (state.cursor + deltas.len()) / (WINDOW_SLOTS as int),
    decreases deltas.len(),
{
    if deltas.len() > 0 {
        lemma_publishes_every_tenth(state, deltas.drop_last());
        lemma_cursor_after(state, deltas.drop_last());
    }
}

/// While a window whose cursor stands at the first slot is being filled, the
/// frame times lie in the slots in the order they came.
pub proof fn lemma_slots_fill_in_order(state: WindowState, deltas: Seq<u64>)
    requires
        state.wf(),
        state.cursor == 0,
        deltas.len() <= WINDOW_SLOTS,
    ensures
        state.record_all(deltas).wf(),
        state.record_all(deltas).cursor == deltas.len() % (WINDOW_SLOTS as nat),
        forall|i: int| 0 <= i < deltas.len() ==> state.record_all(deltas).slots[i] == deltas[i],
    decreases deltas.len(),
{
    if deltas.len() > 0 {
        let earlier = deltas.drop_last();
        lemma_slots_fill_in_order(state, earlier);
        let before = state.record_all(earlier);
        assert(before.cursor == earlier.len());
        assert forall|i: int| 0 <= i < deltas.len() implies state.record_all(deltas).slots[i]
            == deltas[i] by {
            if i < earlier.len() {
                assert(before.slots[i] == earlier[i]);
            }
        }
    }
}

/// Ten frame times of `delta`, recorded from the first slot on, publish
/// once, with the tenth, and what they publish is `delta`.
pub proof fn lemma_ten_equal_times_publish_that_time(state: WindowState, delta: u64)
    requires
        state.wf(),
        state.cursor == 0,
    ensures
        state.publish_count(Seq::new(10, |i: int| delta)) == 1,
        state.record_all(Seq::new(9, |i: int| delta)).published(delta) == Some(delta),
{
    let nine = Seq::new(9, |i: int| delta);
    let ten = Seq::new(10, |i: int| delta);
    lemma_publishes_every_tenth(state, ten);
    lemma_slots_fill_in_order(state, nine);
    let filled = state.record_all(nine);
    let full = filled.record(delta);
    assert forall|i: int| 0 <= i < full.slots.len() implies full.slots[i] == delta by {
        if i < 9 {
            assert(filled.slots[i] == nine[i]);
        }
    }
    lemma_mean_of_equal_times(full.slots, delta);
}

/// A ring of the last ten frame times. Every tenth frame time fills the last
/// slot, and the window then publishes the mean of all ten.
pub struct FpsWindow {
    slots: [u64; 10],
    cursor: usize,
}

impl View for FpsWindow {
    type V = WindowState;

    closed spec fn view(&self) -> WindowState {
        WindowState { slots: self.slots@, cursor: self.cursor as int }
    }
}

impl FpsWindow {
    #[verifier::type_invariant]
    spec fn cursor_in_ring(&self) -> bool {
        self.cursor < WINDOW_SLOTS
    }

    /// A window before any frame.
    pub fn new() -> (window: Self)
        ensures
            window@ == WindowState::fresh(),
    {
        let window = FpsWindow { slots: [0u64; 10], cursor: 0 };
        assert(window@.slots =~= WindowState::fresh().slots);
        window
    }

    /// The slot that the next frame time goes to.
    pub fn cursor(&self) -> (cursor: usize)
        ensures
            cursor == self@.cursor,
            self@.wf(),
    {
        proof {
            use_type_invariant(self);
        }
        self.cursor
    }

    /// The frame time in slot `slot`.
    pub fn slot(&self, slot: usize) -> (delta: Option<u64>)
        ensures
            delta == if slot < WINDOW_SLOTS {
                Some(self@.slots[slot as int])
            } else {
                None
            },
    {
        if slot < WINDOW_SLOTS {
            Some(self.slots[slot])
        } else {
            None
        }
    }

    /// The mean of the ten slots as they are, rounded down.
    pub fn mean(&self) -> (mean: u64)
        ensures
            mean == self::mean(self@.slots),
    {
        let mut sum: u128 = 0;
        let mut i: usize = 0;
        while i < WINDOW_SLOTS
            invariant
                i <= WINDOW_SLOTS,
                sum == total(self.slots@.take(i as int)),
            decreases WINDOW_SLOTS - i,
        {
            proof {
                let next = self.slots@.take(i + 1);
                assert(next.drop_last() =~= self.slots@.take(i as int));
                assert(next.last() == self.slots@[i as int]);
                lemma_total_bounds(next);
                assert(next.len() * u64::MAX <= 10 * u64::MAX) by (nonlinear_arith)
                    requires
                        next.len() <= 10,
                ;
            }
            sum = sum + self.slots[i] as u128;
            i += 1;
        }
        proof {
            assert(self.slots@.take(WINDOW_SLOTS as int) =~= self.slots@);
            lemma_total_bounds(self.slots@);
        }
        (sum / 10) as u64
    }

    /// Records the time of one frame in the slot under the cursor and moves
    /// the cursor on. When that filled the last slot, returns the mean of
    /// the ten slots for publishing; otherwise returns nothing.
    pub fn record(&mut self, delta: u64) -> (published: Option<u64>)
        ensures
            old(self)@.wf(),
            final(self)@.wf(),
            final(self)@ == old(self)@.record(delta),
            published == old(self)@.published(delta),
    {
        proof {
            use_type_invariant(&*self);
        }
        let at: usize = self.cursor;
        self.slots[at] = delta;
        self.cursor = (at + 1) % WINDOW_SLOTS;
        if at == WINDOW_SLOTS - 1 {
            Some(self.mean())
        } else {
            None
        }
    }
}

} // verus!
