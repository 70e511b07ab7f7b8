use vstd::prelude::*;

verus! {

/// An axis the camera can turn about.
#[derive(Clone, Copy, Debug, PartialEq, Eq, Structural)]
pub enum Axis {
    X,
    Y,
    Z,
}

/// How far the camera turns about an enabled axis on every tick, in degrees.
/// The step is the same on every tick, however long the tick took.
pub const ROTATION_STEP_DEGREES: u32 = 1;

/// The live input: which rotations are switched on, and where the pointer is.
#[derive(Clone, Copy, Debug, PartialEq)]
pub struct ControllerValues<S> {
    pub rotate_x: bool,
    pub rotate_y: bool,
    pub rotate_z: bool,
    pub mouse_position: [S; 2],
}

impl<S: Copy> ControllerValues<S> {
    /// Whether the rotation about `axis` is switched on.
    pub open spec fn rotates(self, axis: Axis) -> bool {
        match axis {
            Axis::X => self.rotate_x,
            Axis::Y => self.rotate_y,
            Axis::Z => self.rotate_z,
        }
    }

    /// Whether any rotation is switched on. A tick turns the camera, and
    /// owes one diagnostic print of it, exactly when this holds.
    pub open spec fn any_rotation(self) -> bool {
        self.rotate_x || self.rotate_y || self.rotate_z
    }

    /// The record with the rotation about `axis` switched to `enabled`.
    pub open spec fn with_rotation(self, axis: Axis, enabled: bool) -> Self {
        match axis {
            Axis::X => ControllerValues { rotate_x: enabled, ..self },
            Axis::Y => ControllerValues { rotate_y: enabled, ..self },
            Axis::Z => ControllerValues { rotate_z: enabled, ..self },
        }
    }

    /// The record with the pointer at `position`.
    pub open spec fn with_pointer(self, position: [S; 2]) -> Self {
        ControllerValues { mouse_position: position, ..self }
    }

    /// No rotation is switched on and the pointer rests at `origin`.
    pub fn new(origin: [S; 2]) -> (values: Self)
        ensures
            !values.rotate_x,
            !values.rotate_y,
            !values.rotate_z,
            values.mouse_position == origin,
    {
        ControllerValues { rotate_x: false, rotate_y: false, rotate_z: false, mouse_position: origin }
    }

    /// Whether the rotation about `axis` is switched on.
    pub fn rotation(&self, axis: Axis) -> (enabled: bool)
        ensures
            enabled == self.rotates(axis),
    {
        match axis {
            Axis::X => self.rotate_x,
            Axis::Y => self.rotate_y,
            Axis::Z => self.rotate_z,
        }
    }

    /// Whether any rotation is switched on, which is when a tick turns the
    /// camera and its diagnostic print is due.
    pub fn rotating(&self) -> (any: bool)
        ensures
            any == self.any_rotation(),
    {
        self.rotate_x || self.rotate_y || self.rotate_z
    }

    /// Switches the rotation about `axis` on or off and leaves the rest alone.
    pub fn set_rotation(&mut self, axis: Axis, enabled: bool)
        ensures
            *final(self) == old(self).with_rotation(axis, enabled),
    {
        match axis {
            Axis::X => {
                self.rotate_x = enabled;
            },
            Axis::Y => {
                self.rotate_y = enabled;
            },
            Axis::Z => {
                self.rotate_z = enabled;
            },
        }
    }

    /// Moves the pointer to `(x, y)` and leaves the rotations alone.
    pub fn set_pointer_position(&mut self, x: S, y: S)
        ensures
            final(self).mouse_position@ == seq![x, y],
            final(self).rotate_x == old(self).rotate_x,
            final(self).rotate_y == old(self).rotate_y,
            final(self).rotate_z == old(self).rotate_z,
    {
        self.mouse_position = [x, y];
    }
}

/// What one axis does to the camera on a tick: the matrix is handed to
/// `rotate` with the axis and the step if the axis is switched on, and stays
/// as it is if not.
pub open spec fn turned<M, F: Fn(M, Axis, u32) -> M>(
    rotate: F,
    enabled: bool,
    axis: Axis,
    before: M,
    after: M,
) -> bool {
    if enabled {
        call_ensures(rotate, (before, axis, ROTATION_STEP_DEGREES), after)
    } else {
        after == before
    }
}

/// `after` is the camera one tick after `before`: turned about x, then about
/// y, then about z, each only if it is switched on.
pub open spec fn advanced<M, F: Fn(M, Axis, u32) -> M>(
    rotate: F,
    x: bool,
    y: bool,
    z: bool,
    before: M,
    after: M,
) -> bool {
    exists|after_x: M, after_y: M|
        {
            &&& turned(rotate, x, Axis::X, before, after_x)
            &&& #[trigger] turned(rotate, y, Axis::Y, after_x, after_y)
            &&& turned(rotate, z, Axis::Z, after_y, after)
        }
}

/// Advances the camera by one tick: for each axis that is switched on, in the
/// order x, y, z, `rotate` turns the matrix about that axis by
/// `ROTATION_STEP_DEGREES`. With no axis switched on the matrix comes back as
/// it went in, and `rotate` is not called.
pub fn update_camera_position<S: Copy, M: Copy, F: Fn(M, Axis, u32) -> M>(
    camera_matrix: &M,
    controller_values: &ControllerValues<S>,
    rotate: &F,
) -> (out: M)
    requires
        forall|m: M, axis: Axis| call_requires(*rotate, (m, axis, ROTATION_STEP_DEGREES)),
    ensures
        advanced(
            *rotate,
            controller_values.rotate_x,
            controller_values.rotate_y,
            controller_values.rotate_z,
            *camera_matrix,
            out,
        ),
{
    let mut out: M = *camera_matrix;
    if controller_values.rotate_x {
        out = rotate(out, Axis::X, ROTATION_STEP_DEGREES);
    }
    let ghost after_x = out;
    if controller_values.rotate_y {
        out = rotate(out, Axis::Y, ROTATION_STEP_DEGREES);
    }
    let ghost after_y = out;
    if controller_values.rotate_z {
        out = rotate(out, Axis::Z, ROTATION_STEP_DEGREES);
    }
    assert(turned(*rotate, controller_values.rotate_y, Axis::Y, after_x, after_y));
    out
}

/// With no rotation switched on, a tick leaves the camera exactly as it was.
pub proof fn lemma_idle_camera_unchanged<M, F: Fn(M, Axis, u32) -> M>(rotate: F, before: M, after: M)
    requires
        advanced(rotate, false, false, false, before, after),
    ensures
        after == before,
{
}

/// With exactly one rotation switched on, a tick is one call of `rotate`
/// about that axis, by the step, on the camera as it was.
pub proof fn lemma_single_axis_turn<M, F: Fn(M, Axis, u32) -> M>(
    rotate: F,
    axis: Axis,
    before: M,
    after: M,
)
    requires
        advanced(rotate, axis == Axis::X, axis == Axis::Y, axis == Axis::Z, before, after),
    ensures
        call_ensures(rotate, (before, axis, ROTATION_STEP_DEGREES), after),
{
}

/// With all three rotations switched on, a tick turns the camera about x
/// first, the result about y, and that result about z.
pub proof fn lemma_all_axes_turn_in_order<M, F: Fn(M, Axis, u32) -> M>(
    rotate: F,
    before: M,
    after: M,
)
    requires
        advanced(rotate, true, true, true, before, after),
    ensures
        exists|after_x: M, after_y: M|
            {
                &&& call_ensures(rotate, (before, Axis::X, ROTATION_STEP_DEGREES), after_x)
                &&& #[trigger] call_ensures(
                    rotate,
                    (after_x, Axis::Y, ROTATION_STEP_DEGREES),
                    after_y,
                )
                &&& call_ensures(rotate, (after_y, Axis::Z, ROTATION_STEP_DEGREES), after)
            },
{
    let (after_x, after_y) = choose|after_x: M, after_y: M|
        {
            &&& turned(rotate, true, Axis::X, before, after_x)
            &&& #[trigger] turned(rotate, true, Axis::Y, after_x, after_y)
            &&& turned(rotate, true, Axis::Z, after_y, after)
        };
    assert(call_ensures(rotate, (after_x, Axis::Y, ROTATION_STEP_DEGREES), after_y));
}

/// `rotate` gives one result for one input: two calls on the same matrix,
/// axis and step agree.
pub open spec fn single_valued<M, F: Fn(M, Axis, u32) -> M>(rotate: F) -> bool {
    forall|m: M, axis: Axis, first: M, second: M|
        #![trigger call_ensures(rotate, (m, axis, ROTATION_STEP_DEGREES), first), call_ensures(rotate, (m, axis, ROTATION_STEP_DEGREES), second)]
        call_ensures(rotate, (m, axis, ROTATION_STEP_DEGREES), first) && call_ensures(
            rotate,
            (m, axis, ROTATION_STEP_DEGREES),
            second,
        ) ==> first == second
}

/// Where `rotate` gives one result for one input, a tick with any set of
/// rotations switched on is the same as three ticks one after another, the
/// first with only the x rotation of that set, the second with only its y
/// rotation, the third with only its z rotation, each on the result of the
/// one before.
pub proof fn lemma_tick_is_single_axis_ticks_in_order<M, F: Fn(M, Axis, u32) -> M>(
    rotate: F,
    x: bool,
    y: bool,
    z: bool,
    before: M,
    after: M,
    after_x: M,
    after_y: M,
    after_z: M,
)
    requires
        single_valued(rotate),
        advanced(rotate, x, y, z, before, after),
        advanced(rotate, x, false, false, before, after_x),
        advanced(rotate, false, y, false, after_x, after_y),
        advanced(rotate, false, false, z, after_y, after_z),
    ensures
        after == after_z,
{
    let (mid_x, mid_y) = choose|mid_x: M, mid_y: M|
        {
            &&& turned(rotate, x, Axis::X, before, mid_x)
            &&& #[trigger] turned(rotate, y, Axis::Y, mid_x, mid_y)
            &&& turned(rotate, z, Axis::Z, mid_y, after)
        };
    assert(turned(rotate, x, Axis::X, before, after_x));
    assert(mid_x == after_x);
    assert(turned(rotate, y, Axis::Y, after_x, after_y));
    assert(mid_y == after_y);
    assert(turned(rotate, z, Axis::Z, after_y, after_z));
}

} // verus!
