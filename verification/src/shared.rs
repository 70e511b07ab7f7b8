use crate::controller::{Axis, ControllerValues};
use vstd::prelude::*;
use vstd::rwlock::RwLock;

verus! {

/// The input record that the pointer observer and the toggles write and the
/// render loop reads. A lock guards the record: every operation takes the
/// lock, reads or writes the whole record, and gives the lock back, so a
/// reader never sees half of one write and half of another.
///
/// The state can carry an invariant over the record. Every write must keep
/// it, and every snapshot then satisfies it: whatever a writer establishes
/// about the fields of one record, a reader finds in the record it gets.
#[verifier::reject_recursive_types(S)]
pub struct SharedInputState<S> {
    lock: RwLock<ControllerValues<S>, spec_fn(ControllerValues<S>) -> bool>,
}

impl<S: Copy> SharedInputState<S> {
    /// Whether `values` may be stored in this state.
    pub closed spec fn inv(&self, values: ControllerValues<S>) -> bool {
        self.lock.inv(values)
    }

    /// A state that accepts every record. No rotation is switched on and the
    /// pointer rests at `origin`.
    pub fn new(origin: [S; 2]) -> (shared: Self)
        ensures
            forall|values: ControllerValues<S>| shared.inv(values),
    {
        let ghost any = |values: ControllerValues<S>| true;
        SharedInputState { lock: RwLock::new(ControllerValues::new(origin), Ghost(any)) }
    }

    /// A state that starts as `initial` and accepts exactly the records that
    /// satisfy `accepts`.
    pub fn with_invariant(
        initial: ControllerValues<S>,
        Ghost(accepts): Ghost<spec_fn(ControllerValues<S>) -> bool>,
    ) -> (shared: Self)
        requires
            accepts(initial),
        ensures
            forall|values: ControllerValues<S>| shared.inv(values) == accepts(values),
    {
        SharedInputState { lock: RwLock::new(initial, Ghost(accepts)) }
    }

    /// Switches the rotation about `axis` on or off, in one step: the record
    /// that was stored is replaced by the same record with that one flag
    /// changed. Returns the record as it was stored.
    pub fn set_rotation(&self, axis: Axis, enabled: bool) -> (stored: ControllerValues<S>)
        requires
            forall|values: ControllerValues<S>|
                self.inv(values) ==> self.inv(#[trigger] values.with_rotation(axis, enabled)),
        ensures
            self.inv(stored),
            stored.rotates(axis) == enabled,
            exists|before: ControllerValues<S>|
                self.inv(before) && stored == #[trigger] before.with_rotation(axis, enabled),
    {
        let (mut values, handle) = self.lock.acquire_write();
        let ghost before = values;
        values.set_rotation(axis, enabled);
        assert(values == before.with_rotation(axis, enabled));
        handle.release_write(values);
        values
    }

    /// Moves the pointer to `(x, y)`, in one step: both coordinates are
    /// stored together, and the rotation flags stay as they were stored.
    /// Returns the record as it was stored.
    pub fn set_pointer_position(&self, x: S, y: S) -> (stored: ControllerValues<S>)
        requires
            forall|values: ControllerValues<S>, position: [S; 2]|
                self.inv(values) && position@ == seq![x, y] ==> self.inv(
                    #[trigger] values.with_pointer(position),
                ),
        ensures
            self.inv(stored),
            stored.mouse_position@ == seq![x, y],
            exists|before: ControllerValues<S>|
                self.inv(before) && stored == #[trigger] before.with_pointer(
                    stored.mouse_position,
                ),
    {
        let (mut values, handle) = self.lock.acquire_write();
        let ghost before = values;
        values.set_pointer_position(x, y);
        assert(values == before.with_pointer(values.mouse_position));
        handle.release_write(values);
        values
    }

    /// A copy of the whole record as one writer left it. The copy satisfies
    /// the invariant of the state: its fields belong together.
    pub fn snapshot(&self) -> (values: ControllerValues<S>)
        ensures
            self.inv(values),
    {
        let handle = self.lock.acquire_read();
        let values: ControllerValues<S> = *handle.borrow();
        handle.release_read();
        values
    }
}

} // verus!
