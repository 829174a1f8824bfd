//! Configuration, run state, and the frame-loop decisions.
//!
//! The frame loop itself performs outside work each iteration (drawing,
//! sleeping, catching a failing callback), so the runtime that drives it
//! lives outside the library; everything the loop decides is here, verified:
//! the frame budget a [`Config`] denotes, the per-frame bookkeeping of
//! [`State::frame_tick`] (elapsed time, step counter, residual sleep), the
//! lifecycle [`Phase`] machine, and [`frames_run`], the number of callback
//! invocations a run performs for a given series of stop requests.

use vstd::prelude::*;

use crate::keyboard::Keyboard;
use crate::terminal::Window;

verus! {

/// The runtime configuration: the maximum framerate, 30 by default.
pub struct Config {
    pub fps: u32,
}

impl Config {
    /// The default configuration: at most 30 frames per second.
    pub fn new() -> (r: Config)
        ensures
            r.fps == 30,
    {
        Config { fps: 30 }
    }

    /// Consumes the configuration and returns one capped at the given
    /// framerate.
    pub fn fps(self, fps: u32) -> (r: Config)
        ensures
            r.fps == fps,
    {
        Config { fps }
    }

    /// The frame budget this configuration denotes, in nanoseconds. A zero
    /// framerate is excluded: it denotes no budget at all, and the runtime
    /// must not ask for one.
    pub fn frame_budget_nanos(&self) -> (r: u64)
        requires
            self.fps >= 1,
        ensures
            r == 1_000_000_000u64 / self.fps as u64,
    {
        1_000_000_000u64 / (self.fps as u64)
    }
}

impl Default for Config {
    /// The default configuration: at most 30 frames per second.
    fn default() -> (r: Config)
        ensures
            r.fps == 30,
    {
        Config { fps: 30 }
    }
}

/// The shared stop flag: a cancellation token every worker holds a handle
/// to, read and written only through atomic load and store. Its value is
/// shared mutable state across threads, so nothing can be promised of what
/// a load returns.
pub struct CancellationToken {
    flag: std::sync::Arc<core::sync::atomic::AtomicBool>,
}

impl CancellationToken {
    /// A fresh token holding the given value.
    pub fn new(initial: bool) -> CancellationToken {
        CancellationToken {
            flag: std::sync::Arc::new(core::sync::atomic::AtomicBool::new(initial)),
        }
    }

    /// Atomically stores a value into the shared flag.
    pub fn store(&self, value: bool) {
        (&*self.flag).store(value, core::sync::atomic::Ordering::SeqCst);
    }

    /// Atomically loads the shared flag.
    pub fn load(&self) -> bool {
        (&*self.flag).load(core::sync::atomic::Ordering::SeqCst)
    }
}

/// The run state the user callback sees each frame: the stop flag, the
/// keyboard engine's consumer end, the last frame's elapsed time, and the
/// step counter.
pub struct State {
    running: CancellationToken,
    keyboard: Keyboard,
    dt_nanos: u64,
    step: usize,
}

impl State {
    /// The keyboard handle.
    pub closed spec fn spec_keyboard(self) -> Keyboard {
        self.keyboard
    }

    /// The last frame's elapsed time, in nanoseconds.
    pub closed spec fn spec_dt_nanos(self) -> u64 {
        self.dt_nanos
    }

    /// The number of completed frames.
    pub closed spec fn spec_step(self) -> usize {
        self.step
    }

    /// The state invariant: the keyboard's down-key map is well-formed.
    pub open spec fn wf(self) -> bool {
        self.spec_keyboard().wf()
    }

    /// A fresh run state around the given keyboard: not yet running, no
    /// frame completed.
    pub fn new(keyboard: Keyboard) -> (r: State)
        requires
            keyboard.wf(),
        ensures
            r.wf(),
            r.spec_keyboard() == keyboard,
            r.spec_dt_nanos() == 0,
            r.spec_step() == 0,
    {
        State { running: CancellationToken::new(false), keyboard, dt_nanos: 0, step: 0 }
    }

    /// Raises the shared running flag. The flag is cross-thread state, so
    /// nothing is promised of later loads.
    pub fn run(&self) {
        self.running.store(true);
    }

    /// Clears the shared running flag, asking the loop to stop.
    pub fn stop(&self) {
        self.running.store(false);
    }

    /// Reads the shared running flag.
    pub fn is_running(&self) -> bool {
        self.running.load()
    }

    /// The keyboard, for reading input.
    pub fn keyboard(&self) -> (r: &Keyboard)
        ensures
            *r == self.spec_keyboard(),
    {
        &self.keyboard
    }

    /// The keyboard, for the per-frame drain.
    pub fn keyboard_mut(&mut self) -> (r: &mut Keyboard)
        ensures
            *r == old(self).spec_keyboard(),
            final(self).spec_keyboard() == *final(r),
            final(self).spec_dt_nanos() == old(self).spec_dt_nanos(),
            final(self).spec_step() == old(self).spec_step(),
    {
        &mut self.keyboard
    }

    /// The last frame's elapsed time, in nanoseconds.
    pub fn dt(&self) -> (r: u64)
        ensures
            r == self.spec_dt_nanos(),
    {
        self.dt_nanos
    }

    /// The number of completed frames.
    pub fn step(&self) -> (r: usize)
        ensures
            r == self.spec_step(),
    {
        self.step
    }

    /// The per-frame bookkeeping, once the callback and the draw are done:
    /// records the frame's elapsed time, counts the frame (the counter
    /// holds at its maximum rather than wrapping), and returns the residual
    /// budget to sleep — zero when the frame overran it.
    pub fn frame_tick(&mut self, elapsed_nanos: u64, budget_nanos: u64) -> (sleep_nanos: u64)
        requires
            old(self).wf(),
        ensures
            final(self).wf(),
            final(self).spec_keyboard() == old(self).spec_keyboard(),
            final(self).spec_dt_nanos() == elapsed_nanos,
            final(self).spec_step() == (if old(self).spec_step() < usize::MAX {
                old(self).spec_step() + 1
            } else {
                old(self).spec_step() as int
            }),
            sleep_nanos == (if budget_nanos > elapsed_nanos {
                budget_nanos - elapsed_nanos
            } else {
                0
            }),
    {
        self.dt_nanos = elapsed_nanos;
        if self.step < usize::MAX {
            self.step = self.step + 1;
        }
        if budget_nanos > elapsed_nanos {
            budget_nanos - elapsed_nanos
        } else {
            0
        }
    }
}

/// The runtime lifecycle: set up, loop while the stop flag stays clear,
/// tear down, done.
#[derive(Debug, Clone, Copy, PartialEq, Eq, Structural)]
pub enum Phase {
    Starting,
    Running,
    Stopping,
    Closed,
}

/// One lifecycle transition: setup success enters `Running`; a `Running`
/// frame whose stop flag was observed set leaves for `Stopping`; teardown
/// completes into `Closed`, which is final.
pub open spec fn spec_phase_step(phase: Phase, stop_requested: bool) -> Phase {
    match phase {
        Phase::Starting => Phase::Running,
        Phase::Running => if stop_requested {
            Phase::Stopping
        } else {
            Phase::Running
        },
        Phase::Stopping => Phase::Closed,
        Phase::Closed => Phase::Closed,
    }
}

/// Advances the lifecycle by one observation: exactly
/// [`spec_phase_step`].
pub fn phase_step(phase: Phase, stop_requested: bool) -> (r: Phase)
    ensures
        r == spec_phase_step(phase, stop_requested),
{
    match phase {
        Phase::Starting => Phase::Running,
        Phase::Running => if stop_requested {
            Phase::Stopping
        } else {
            Phase::Running
        },
        Phase::Stopping => Phase::Closed,
        Phase::Closed => Phase::Closed,
    }
}

/// The number of frames a run performs, given for each frame whether the
/// callback requested a stop during it: the loop re-checks the flag after
/// every frame and exits on the first request, so every frame up to and
/// including the requesting one runs, and no later one does. With no
/// request, every observed frame runs.
pub open spec fn frames_run(stop_requests: Seq<bool>) -> nat
    decreases stop_requests.len(),
{
    if stop_requests.len() == 0 {
        0
    } else if stop_requests[0] {
        1
    } else {
        (1 + frames_run(stop_requests.skip(1))) as nat
    }
}

/// A run whose first stop request comes during frame `k` (counting from 0)
/// performs exactly `k + 1` frames: the loop neither skips the requesting
/// frame nor runs past it.
pub proof fn lemma_loop_stops_on_first_request(stop_requests: Seq<bool>, k: int)
    requires
        0 <= k < stop_requests.len(),
        stop_requests[k],
        forall|j: int| 0 <= j < k ==> !stop_requests[j],
    ensures
        frames_run(stop_requests) == k + 1,
    decreases k,
{
    if k > 0 {
        assert(!stop_requests[0]);
        assert forall|j: int| 0 <= j < k - 1 implies !stop_requests.skip(1)[j] by {
            assert(stop_requests.skip(1)[j] == stop_requests[j + 1]);
        }
        assert(stop_requests.skip(1)[k - 1]);
        lemma_loop_stops_on_first_request(stop_requests.skip(1), k - 1);
    }
}

/// Replays the loop-control decision on a recorded series of stop requests:
/// exactly [`frames_run`] frames execute before the loop exits.
pub fn count_frames(stop_requests: &Vec<bool>) -> (n: usize)
    ensures
        n == frames_run(stop_requests@),
{
    let total: usize = stop_requests.len();
    let mut n: usize = 0;
    let mut i: usize = 0;
    proof {
        assert(stop_requests@.skip(0) =~= stop_requests@);
    }
    while i < total
        invariant
            total == stop_requests@.len(),
            i <= total,
            n == i,
            frames_run(stop_requests@) == n + frames_run(stop_requests@.skip(i as int)),
            forall|j: int| 0 <= j < i ==> !stop_requests@[j],
        decreases total - i,
    {
        let ghost rest = stop_requests@.skip(i as int);
        proof {
            assert(rest[0] == stop_requests@[i as int]);
            assert(rest.skip(1) =~= stop_requests@.skip(i as int + 1));
        }
        if stop_requests[i] {
            return n + 1;
        }
        i = i + 1;
        n = i;
    }
    proof {
        assert(stop_requests@.skip(total as int) =~= Seq::<bool>::empty());
    }
    n
}

/// The assembled runtime: configuration, run state, and the display
/// surface, each owned for the runtime's whole life.
pub struct App {
    pub config: Config,
    pub state: State,
    pub window: Window,
}

impl App {
    /// Assembles a runtime from a configuration and the consumer end of a
    /// keyboard engine, with a window sized to the detected terminal.
    pub fn config(config: Config, keyboard: Keyboard) -> (r: App)
        requires
            keyboard.wf(),
        ensures
            r.state.wf(),
            r.window.wf(),
            r.config.fps == config.fps,
            r.state.spec_keyboard() == keyboard,
            r.state.spec_step() == 0,
    {
        App { config, state: State::new(keyboard), window: Window::new() }
    }

    /// The display surface.
    pub fn window(&self) -> (r: &Window)
        ensures
            *r == self.window,
    {
        &self.window
    }
}

} // verus!
