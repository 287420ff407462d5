// The engine: settings, frame pacing, and what the frame loop does on each
// window event. The loop itself, with its window and its graphics context,
// is run by the application.

use crate::camera::Camera;
use crate::clock::nanos_since;
use crate::drawable::{DrawCall, RasterState};
use crate::input::{Event, Key, KEY_F11};
use crate::scalar::ONE;
use crate::scene::{Ambient, FramePlan, Scene};
use crate::vector::Mat4;
use std::time::Instant;
use vstd::prelude::*;

verus! {

pub const NANOS_PER_SECOND: u32 = 1_000_000_000;

/// The cooldown of the fullscreen key: three tenths of a second.
pub const FULLSCREEN_COOLDOWN: u64 = 300_000_000;

/// The inner size of a window in physical pixels.
#[derive(Clone, Copy, Debug, PartialEq, Eq, Structural)]
pub struct WindowSize {
    pub width: u32,
    pub height: u32,
}

impl WindowSize {
    pub fn new(width: u32, height: u32) -> (size: WindowSize)
        ensures
            size == (WindowSize { width, height }),
    {
        WindowSize { width, height }
    }
}

pub struct Settings {
    pub title: String,
    pub window_size: WindowSize,
    pub min_window_size: WindowSize,
    /// The target frame rate in frames per second.
    pub max_fps: u32,
}

impl Settings {
    pub fn new(title: &str, window_size: WindowSize, min_window_size: WindowSize, max_fps: u32) -> (settings:
        Settings)
        ensures
            settings.title@ == title@,
            settings.window_size == window_size,
            settings.min_window_size == min_window_size,
            settings.max_fps == max_fps,
    {
        Settings { title: title.to_owned(), window_size, min_window_size, max_fps }
    }
}

impl Default for Settings {
    /// A window of 700 by 500 pixels, at least 350 by 250, titled "DEngine",
    /// drawn 120 times a second.
    fn default() -> (settings: Settings)
        ensures
            settings.title@ == "DEngine"@,
            settings.window_size == (WindowSize { width: 700, height: 500 }),
            settings.min_window_size == (WindowSize { width: 350, height: 250 }),
            settings.max_fps == 120,
    {
        Settings::new("DEngine", WindowSize::new(700, 500), WindowSize::new(350, 250), 120)
    }
}

/// The length of one frame in nanoseconds at `max_fps` frames per second.
pub open spec fn spec_frame_period(max_fps: u32) -> int
    recommends
        max_fps > 0,
{
    NANOS_PER_SECOND as int / max_fps as int
}

/// How long to wait after an iteration that took `elapsed_nanos`: what is
/// left of the frame period, and nothing where the iteration took longer.
pub open spec fn spec_frame_wait(max_fps: u32, elapsed_nanos: u128) -> int
    recommends
        max_fps > 0,
{
    if elapsed_nanos <= spec_frame_period(max_fps) {
        spec_frame_period(max_fps) - elapsed_nanos
    } else {
        0
    }
}

/// The frames per second that a frame time of `delta` nanoseconds amounts
/// to, and 0 for a frame time of 0.
pub open spec fn spec_fps(delta: u32) -> int {
    if delta > 0 {
        NANOS_PER_SECOND as int / delta as int
    } else {
        0
    }
}

/// The wait is never negative and never longer than a frame period. An
/// iteration that ends within the period is followed by a wait that ends
/// exactly one period after the iteration began; a later one by no wait.
pub proof fn lemma_frame_wait_fills_the_period(max_fps: u32, elapsed_nanos: u128)
    requires
        max_fps > 0,
    ensures
        0 <= spec_frame_wait(max_fps, elapsed_nanos) <= spec_frame_period(max_fps),
        spec_frame_period(max_fps) <= NANOS_PER_SECOND,
        elapsed_nanos <= spec_frame_period(max_fps) ==> elapsed_nanos + spec_frame_wait(
            max_fps,
            elapsed_nanos,
        ) == spec_frame_period(max_fps),
        elapsed_nanos > spec_frame_period(max_fps) ==> spec_frame_wait(max_fps, elapsed_nanos)
            == 0,
{
    assert(0 <= NANOS_PER_SECOND as int / max_fps as int <= NANOS_PER_SECOND as int)
        by (nonlinear_arith)
        requires
            max_fps > 0,
    ;
}

pub fn frame_wait(max_fps: u32, elapsed_nanos: u128) -> (wait: u32)
    requires
        max_fps > 0,
    ensures
        wait == spec_frame_wait(max_fps, elapsed_nanos),
{
    let period: u32 = NANOS_PER_SECOND / max_fps;
    if elapsed_nanos <= period as u128 {
        period - (elapsed_nanos as u32)
    } else {
        0
    }
}

/// What the frame loop does in answer to one window event.
#[derive(Clone, Copy, Debug, PartialEq, Eq, Structural)]
pub struct Step {
    /// `Some(true)`: enter fullscreen; `Some(false)`: leave it; `None`: keep
    /// the window as it is.
    pub fullscreen: Option<bool>,
    /// Draw a frame.
    pub render: bool,
    /// Leave the loop.
    pub exit: bool,
    /// Ask the window for another redraw and sleep until the next frame is
    /// due.
    pub request_redraw: bool,
}

/// The step for `event`. `exiting` says that an earlier event asked the loop
/// to stop, `key_accepted` that the event counts as a press of the
/// fullscreen key, `is_fullscreen` what the window is now. A loop that is
/// exiting does nothing more; otherwise an accepted key press flips
/// fullscreen, a redraw request draws a frame, and a close request stops the
/// loop in place of asking for the next frame.
pub open spec fn spec_step(exiting: bool, event: Event, key_accepted: bool, is_fullscreen: bool) -> Step {
    if exiting {
        Step { fullscreen: None, render: false, exit: true, request_redraw: false }
    } else {
        Step {
            fullscreen: if key_accepted {
                Some(!is_fullscreen)
            } else {
                None
            },
            render: event == Event::RedrawRequested,
            exit: event == Event::CloseRequested,
            request_redraw: event != Event::CloseRequested,
        }
    }
}

pub fn plan_step(exiting: bool, event: &Event, key_accepted: bool, is_fullscreen: bool) -> (step:
    Step)
    ensures
        step == spec_step(exiting, *event, key_accepted, is_fullscreen),
{
    if exiting {
        return Step { fullscreen: None, render: false, exit: true, request_redraw: false };
    }
    let fullscreen = if key_accepted {
        Some(!is_fullscreen)
    } else {
        None
    };
    let (render, exit) = match event {
        Event::RedrawRequested => (true, false),
        Event::CloseRequested => (false, true),
        _ => (false, false),
    };
    Step { fullscreen, render, exit, request_redraw: !exit }
}

/// Once the loop is exiting, no event makes it draw or ask for a frame
/// again, and every step says to leave.
pub proof fn lemma_exit_is_final(event: Event, key_accepted: bool, is_fullscreen: bool)
    ensures
        !spec_step(true, event, key_accepted, is_fullscreen).render,
        !spec_step(true, event, key_accepted, is_fullscreen).request_redraw,
        spec_step(true, event, key_accepted, is_fullscreen).exit,
        spec_step(true, event, key_accepted, is_fullscreen).fullscreen is None,
{
}

/// What an engine holds.
pub struct EngineView {
    pub camera: Camera,
    /// The scene that the engine draws, if it has one.
    pub world: Option<Scene>,
    pub settings: Settings,
    /// The key that flips fullscreen.
    pub fullscreen_key: Key,
    /// A close request was seen.
    pub exiting: bool,
}

pub struct Engine {
    camera: Camera,
    world: Option<Scene>,
    settings: Settings,
    fullscreen_key: Key,
    exiting: bool,
}

impl View for Engine {
    type V = EngineView;

    closed spec fn view(&self) -> EngineView {
        EngineView {
            camera: self.camera,
            world: self.world,
            settings: self.settings,
            fullscreen_key: self.fullscreen_key,
            exiting: self.exiting,
        }
    }
}

impl Engine {
    /// The scene of the engine, where it has one, is well formed.
    pub open spec fn wf(&self) -> bool {
        self@.world matches Some(world) ==> world.wf()
    }

    /// An engine with the default camera and settings and no scene, whose
    /// fullscreen key is F11.
    pub fn new() -> (engine: Engine)
        ensures
            engine.wf(),
            engine@.camera@ == Camera::spec_default(),
            engine@.camera.wf(),
            engine@.world is None,
            engine@.settings.title@ == "DEngine"@,
            engine@.settings.window_size == (WindowSize { width: 700, height: 500 }),
            engine@.settings.min_window_size == (WindowSize { width: 350, height: 250 }),
            engine@.settings.max_fps == 120,
            !engine@.exiting,
            engine@.fullscreen_key.spec_key_code() == KEY_F11,
            engine@.fullscreen_key.spec_cooldown() == FULLSCREEN_COOLDOWN,
    {
        Engine {
            camera: Camera::new(),
            world: None,
            settings: Settings::default(),
            fullscreen_key: Key::new(FULLSCREEN_COOLDOWN, KEY_F11),
            exiting: false,
        }
    }

    pub fn get_camera(&self) -> (camera: &Camera)
        ensures
            *camera == self@.camera,
    {
        &self.camera
    }

    pub fn set_camera(&mut self, camera: Camera)
        ensures
            final(self)@ == (EngineView { camera, ..old(self)@ }),
    {
        self.camera = camera;
    }

    pub fn get_settings(&self) -> (settings: &Settings)
        ensures
            *settings == self@.settings,
    {
        &self.settings
    }

    pub fn set_settings(&mut self, settings: Settings)
        ensures
            final(self)@ == (EngineView { settings, ..old(self)@ }),
    {
        self.settings = settings;
    }

    pub fn set_world(&mut self, world: Option<Scene>)
        ensures
            final(self)@ == (EngineView { world, ..old(self)@ }),
    {
        self.world = world;
    }

    pub fn get_world(&self) -> (world: &Option<Scene>)
        ensures
            *world == self@.world,
    {
        &self.world
    }

    /// Hands the scene out and leaves the engine without one.
    pub fn take_world(&mut self) -> (world: Option<Scene>)
        ensures
            world == old(self)@.world,
            final(self)@ == (EngineView { world: None, ..old(self)@ }),
    {
        self.world.take()
    }

    pub fn is_exiting(&self) -> (exiting: bool)
        ensures
            exiting == self@.exiting,
    {
        self.exiting
    }

    /// Reads the clock and says how many nanoseconds the loop waits before
    /// the next frame, for an iteration that began at `start_time`: what is
    /// left of the frame period, never more than the period and never less
    /// than nothing.
    pub fn get_delta_time(&self, start_time: Instant) -> (wait: u32)
        requires
            self@.settings.max_fps > 0,
        ensures
            wait <= spec_frame_period(self@.settings.max_fps),
    {
        frame_wait(self.settings.max_fps, nanos_since(start_time))
    }

    pub fn get_fps(&self, delta: u32) -> (fps: u32)
        ensures
            fps == spec_fps(delta),
    {
        if delta > 0 {
            NANOS_PER_SECOND / delta
        } else {
            0
        }
    }

    /// Decides what the frame loop does in answer to `event`, where
    /// `is_fullscreen` says what the window is now. Whether a press of the
    /// fullscreen key counts depends on the clock; all else in the step is
    /// fixed by the event and by whether a close request was seen before.
    /// A close request is remembered from here on.
    pub fn on_event(&mut self, event: &Event, is_fullscreen: bool) -> (step: Step)
        ensures
            step == spec_step(old(self)@.exiting, *event, step.fullscreen is Some, is_fullscreen),
            step.fullscreen is Some ==> event.spec_is_press_of(
                old(self)@.fullscreen_key.spec_key_code(),
            ),
            final(self)@.exiting == (old(self)@.exiting || *event == Event::CloseRequested),
            final(self)@.world == old(self)@.world,
            final(self)@.camera == old(self)@.camera,
            final(self)@.settings == old(self)@.settings,
            final(self)@.fullscreen_key.spec_key_code() == old(
                self,
            )@.fullscreen_key.spec_key_code(),
            final(self)@.fullscreen_key.spec_cooldown() == old(
                self,
            )@.fullscreen_key.spec_cooldown(),
    {
        if self.exiting {
            return plan_step(true, event, false, is_fullscreen);
        }
        let key_accepted = self.fullscreen_key.is_pressed(event);
        let step = plan_step(false, event, key_accepted, is_fullscreen);
        if step.exit {
            self.exiting = true;
        }
        step
    }

    /// The plan of one frame: the frame of the scene under the given camera
    /// matrices, or, with no scene, a frame cleared to black with nothing
    /// drawn on it.
    pub fn render_frame(&self, view: Mat4, perspective: Mat4, state: RasterState) -> (plan:
        FramePlan)
        ensures
            match self@.world {
                Some(world) => {
                    &&& plan.clear_color == world@.ambient
                    &&& plan.clear_depth == Some(ONE)
                    &&& plan.draws@ == world@.draws(view, perspective, state)
                },
                None => {
                    &&& plan.clear_color == Ambient::spec_black()
                    &&& plan.clear_depth is None
                    &&& plan.draws@ == Seq::<DrawCall>::empty()
                },
            },
    {
        match &self.world {
            Some(world) => world.render(view, perspective, state),
            None => FramePlan { clear_color: Ambient::black(), clear_depth: None, draws: Vec::new() },
        }
    }
}

} // verus!
