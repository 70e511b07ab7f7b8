use crate::controller::{advanced, update_camera_position, Axis, ControllerValues, ROTATION_STEP_DEGREES};
use crate::fps::{FpsWindow, WindowState};
use crate::shared::SharedInputState;
use vstd::prelude::*;

verus! {

/// Where the render loop stands. Nothing in this crate stops a running loop:
/// it ends when the host no longer calls it.
#[derive(Clone, Copy, Debug, PartialEq, Eq, Structural)]
pub enum SchedulerState {
    /// No tick has been asked for yet.
    Uninitialized,
    /// Every tick asks the host for one more.
    Running,
}

/// What one tick hands out, in the order it is to be used: the frame time to
/// publish, if this tick closed a window; whether the tick turned the camera,
/// which is when its diagnostic print is due; the three uniforms; and the
/// number of indices to draw.
#[derive(Clone, Copy, Debug, PartialEq)]
pub struct Frame<S, M> {
    pub fps: Option<u64>,
    pub camera_turned: bool,
    pub camera: M,
    pub pointer: [S; 2],
    pub elapsed: u64,
    pub index_count: usize,
}

/// What a scheduler holds.
pub ghost struct SchedulerModel<M> {
    pub running: bool,
    pub camera: M,
    pub window: WindowState,
    /// The clock reading that frame times are measured from.
    pub base: u64,
    /// The time shown to the shaders, in clock units.
    pub elapsed: u64,
    pub index_count: usize,
}

/// `later - earlier`, or zero where the clock went backwards.
pub open spec fn clock_difference(later: u64, earlier: u64) -> u64 {
    if later >= earlier {
        (later - earlier) as u64
    } else {
        0
    }
}

/// `elapsed + delta`, held at the largest value where it would not fit.
pub open spec fn clock_sum(elapsed: u64, delta: u64) -> u64 {
    if elapsed + delta <= u64::MAX {
        (elapsed + delta) as u64
    } else {
        u64::MAX
    }
}

impl<M> SchedulerModel<M> {
    /// The clock reading that frame times are measured from after a tick at
    /// `now`: `now` itself where the tick closes a window, the old reading
    /// otherwise.
    pub open spec fn base_after(self, now: u64) -> u64 {
        if self.window.publishes() {
            now
        } else {
            self.base
        }
    }

    /// One tick at clock reading `now` with the input `input` leads from
    /// `self` to `after` and hands out `frame`.
    ///
    /// A scheduler that is not running does nothing. A running one records
    /// the time since the base reading in the window, moves the base reading
    /// to `now` where that closed the window, advances the camera by the
    /// rotations that `input` switches on, adds the time since the base
    /// reading, as it is now, to the elapsed time, and hands out what it
    /// arrived at, with the word whether `input` switched any rotation on.
    pub open spec fn ticked<S: Copy, F: Fn(M, Axis, u32) -> M>(
        self,
        now: u64,
        input: ControllerValues<S>,
        rotate: F,
        after: SchedulerModel<M>,
        frame: Option<Frame<S, M>>,
    ) -> bool {
        if !self.running {
            after == self && frame is None
        } else {
            let delta = clock_difference(now, self.base);
            &&& after.running
            &&& after.window == self.window.record(delta)
            &&& after.base == self.base_after(now)
            &&& advanced(
                rotate,
                input.rotate_x,
                input.rotate_y,
                input.rotate_z,
                self.camera,
                after.camera,
            )
            &&& after.elapsed == clock_sum(self.elapsed, clock_difference(now, after.base))
            &&& after.index_count == self.index_count
            &&& frame == Some(
                Frame {
                    fps: self.window.published(delta),
                    camera_turned: input.any_rotation(),
                    camera: after.camera,
                    pointer: input.mouse_position,
                    elapsed: after.elapsed,
                    index_count: self.index_count,
                },
            )
        }
    }
}

/// The state of the render loop: the camera, the frame clock and the
/// frame-time window. The loop owns it alone.
pub struct FrameScheduler<M> {
    state: SchedulerState,
    camera: M,
    window: FpsWindow,
    base: u64,
    elapsed: u64,
    index_count: usize,
}

impl<M: Copy> View for FrameScheduler<M> {
    type V = SchedulerModel<M>;

    closed spec fn view(&self) -> SchedulerModel<M> {
        SchedulerModel {
            running: self.state == SchedulerState::Running,
            camera: self.camera,
            window: self.window@,
            base: self.base,
            elapsed: self.elapsed,
            index_count: self.index_count,
        }
    }
}

impl<M: Copy> FrameScheduler<M> {
    /// A scheduler that has not started: the camera at `camera`, the shaders'
    /// time at `elapsed`, an empty window, and `index_count` indices to draw
    /// on every tick.
    pub fn new(camera: M, elapsed: u64, index_count: usize) -> (scheduler: Self)
        ensures
            scheduler@ == (SchedulerModel {
                running: false,
                camera,
                window: WindowState::fresh(),
                base: 0,
                elapsed,
                index_count,
            }),
    {
        FrameScheduler {
            state: SchedulerState::Uninitialized,
            camera,
            window: FpsWindow::new(),
            base: 0,
            elapsed,
            index_count,
        }
    }

    /// Where the loop stands.
    pub fn state(&self) -> (state: SchedulerState)
        ensures
            state == if self@.running {
                SchedulerState::Running
            } else {
                SchedulerState::Uninitialized
            },
    {
        self.state
    }

    /// The camera as the last tick left it.
    pub fn camera(&self) -> (camera: M)
        ensures
            camera == self@.camera,
    {
        self.camera
    }

    /// The time shown to the shaders, in clock units.
    pub fn elapsed(&self) -> (elapsed: u64)
        ensures
            elapsed == self@.elapsed,
    {
        self.elapsed
    }

    /// Starts the loop at clock reading `now`, from which the first frame
    /// times are measured. A loop that runs already is left as it is.
    pub fn start(&mut self, now: u64)
        ensures
            final(self)@ == if old(self)@.running {
                old(self)@
            } else {
                SchedulerModel { running: true, base: now, ..old(self)@ }
            },
    {
        match self.state {
            SchedulerState::Uninitialized => {
                self.base = now;
                self.state = SchedulerState::Running;
            },
            SchedulerState::Running => {},
        }
    }

    /// One tick of the loop at clock reading `now`, with `input` as the
    /// snapshot of the input taken for this tick. Returns the frame to put
    /// on the device, after which the caller asks the host for the next
    /// tick; returns nothing, and changes nothing, if the loop has not been
    /// started.
    pub fn step<S: Copy, F: Fn(M, Axis, u32) -> M>(
        &mut self,
        now: u64,
        input: &ControllerValues<S>,
        rotate: &F,
    ) -> (frame: Option<Frame<S, M>>)
        requires
            forall|m: M, axis: Axis| call_requires(*rotate, (m, axis, ROTATION_STEP_DEGREES)),
        ensures
            old(self)@.ticked(now, *input, *rotate, final(self)@, frame),
    {
        match self.state {
            SchedulerState::Uninitialized => None,
            SchedulerState::Running => {
                let delta: u64 = now.saturating_sub(self.base);
                let fps: Option<u64> = self.window.record(delta);
                if fps.is_some() {
                    self.base = now;
                }
                self.camera = update_camera_position(&self.camera, input, rotate);
                self.elapsed = self.elapsed.saturating_add(now.saturating_sub(self.base));
                Some(
                    Frame {
                        fps,
                        camera_turned: input.rotating(),
                        camera: self.camera,
                        pointer: input.mouse_position,
                        elapsed: self.elapsed,
                        index_count: self.index_count,
                    },
                )
            },
        }
    }

    /// One tick of the loop at clock reading `now`. The input is read from
    /// `shared` once, as the tick begins, and the whole tick works on that
    /// one snapshot.
    pub fn tick<S: Copy, F: Fn(M, Axis, u32) -> M>(
        &mut self,
        now: u64,
        shared: &SharedInputState<S>,
        rotate: &F,
    ) -> (frame: Option<Frame<S, M>>)
        requires
            forall|m: M, axis: Axis| call_requires(*rotate, (m, axis, ROTATION_STEP_DEGREES)),
        ensures
            exists|input: ControllerValues<S>|
                shared.inv(input) && #[trigger] old(self)@.ticked(
                    now,
                    input,
                    *rotate,
                    final(self)@,
                    frame,
                ),
    {
        let input: ControllerValues<S> = shared.snapshot();
        self.step(now, &input, rotate)
    }
}

} // verus!
