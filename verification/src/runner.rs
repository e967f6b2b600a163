use vstd::prelude::*;

verus! {

/// The platform the engine runs on.
#[derive(Debug, Clone, Copy, PartialEq, Eq, Structural)]
pub enum Platform {
    /// A desktop window, whose event loop polls and runs a frame whenever it is idle.
    Native,
    /// A canvas in a web page, whose frames run when the browser asks for a redraw.
    Web,
}

/// How the event loop waits for events.
#[derive(Debug, Clone, Copy, PartialEq, Eq, Structural)]
pub enum ControlFlowMode {
    /// Go round the loop again at once, whether or not an event came.
    Poll,
    /// Sleep until the next event.
    Wait,
}

/// What the runner reads of a window event.
#[derive(Debug, Clone, Copy, PartialEq, Eq, Structural)]
pub enum WindowEventKind {
    /// The user asked to close the window.
    CloseRequested,
    /// The window's inner size became `width` by `height` pixels.
    Resized { width: u32, height: u32 },
    /// The window asked to be drawn.
    RedrawRequested,
    /// Any other event: keyboard, mouse, focus and the like.
    Other,
}

/// What the event loop is to do next.
#[derive(Debug, Clone, Copy, PartialEq, Eq, Structural)]
pub enum RunnerAction {
    /// Nothing.
    Nothing,
    /// Leave the event loop.
    Exit,
    /// Give the engine the new window size.
    Resize { width: u32, height: u32 },
    /// Run one frame of the engine.
    RunFrame,
    /// Ask the window for a redraw, on which a frame will run.
    RequestRedraw,
    /// Hand the event to the engine's input handling.
    HandleInput,
}

/// The answer of the runner when the application is resumed.
#[derive(Debug)]
pub enum Resume<S> {
    /// The engine exists already: nothing is to be done.
    AlreadyRunning,
    /// Create the window and start building the engine for this scene, which the runner
    /// hands over (and no longer holds).
    Launch(S),
}

/// What comes back to the runner from the work it started.
#[derive(Debug)]
pub enum EngineEvent<E> {
    /// The engine has been built.
    EngineReady(E),
    /// Assets have been read.
    AssetsRead(String),
    /// Building the engine failed.
    AsyncError(String),
}

/// The state the application keeps between window-system events: the engine once it has
/// been built, the scene until it is handed to the engine, and the platform.
pub struct EngineRunner<E, S> {
    pub engine: Option<E>,
    pub scene: Option<S>,
    pub platform: Platform,
}

/// How the event loop waits on each platform.
pub open spec fn control_flow_for(platform: Platform) -> ControlFlowMode {
    match platform {
        Platform::Native => ControlFlowMode::Poll,
        Platform::Web => ControlFlowMode::Wait,
    }
}

/// What the runner does with a window event, given whether the engine exists yet.
pub open spec fn window_event_action(
    has_engine: bool,
    platform: Platform,
    event: WindowEventKind,
) -> RunnerAction {
    match event {
        WindowEventKind::CloseRequested => RunnerAction::Exit,
        WindowEventKind::Resized { width, height } => if has_engine {
            RunnerAction::Resize { width, height }
        } else {
            RunnerAction::Nothing
        },
        WindowEventKind::RedrawRequested => if !has_engine {
            RunnerAction::Nothing
        } else if platform == Platform::Web {
            RunnerAction::RunFrame
        } else {
            RunnerAction::HandleInput
        },
        WindowEventKind::Other => if has_engine {
            RunnerAction::HandleInput
        } else {
            RunnerAction::Nothing
        },
    }
}

/// What the runner does when the event loop has gone through the pending events.
pub open spec fn idle_action(has_engine: bool, platform: Platform) -> RunnerAction {
    if !has_engine {
        RunnerAction::Nothing
    } else if platform == Platform::Web {
        RunnerAction::RequestRedraw
    } else {
        RunnerAction::RunFrame
    }
}

/// How a resume changes the runner, and what it answers.
pub open spec fn resumed_post<E, S>(
    before: EngineRunner<E, S>,
    after: EngineRunner<E, S>,
    resume: Resume<S>,
) -> bool {
    &&& after.engine == before.engine
    &&& after.platform == before.platform
    &&& before.engine is Some ==> resume is AlreadyRunning && after.scene == before.scene
    &&& before.engine is None ==> resume == Resume::<S>::Launch(before.scene->Some_0)
        && after.scene is None
}

/// Whether the runner can be resumed: it holds the engine, or the scene to build one for.
pub open spec fn can_resume<E, S>(runner: EngineRunner<E, S>) -> bool {
    runner.engine is Some || runner.scene is Some
}

impl<E, S> EngineRunner<E, S> {
    /// A runner for `scene`, before any engine exists.
    pub fn new(scene: S, platform: Platform) -> (runner: EngineRunner<E, S>)
        ensures
            runner.engine is None,
            runner.scene == Some(scene),
            runner.platform == platform,
    {
        EngineRunner { engine: None, scene: Some(scene), platform }
    }

    /// How the event loop is to wait for events on this runner's platform.
    pub fn control_flow(&self) -> (mode: ControlFlowMode)
        ensures
            mode == control_flow_for(self.platform),
    {
        match self.platform {
            Platform::Native => ControlFlowMode::Poll,
            Platform::Web => ControlFlowMode::Wait,
        }
    }

    /// Whether a frame can run: it can once the engine exists.
    pub fn engine_loop(&self) -> (runs: bool)
        ensures
            runs == self.engine is Some,
    {
        self.engine.is_some()
    }

    /// The application was resumed: unless the engine exists already, the runner hands
    /// out its scene so that the window and the engine can be made for it. A runner that
    /// has handed out its scene and has no engine yet cannot be resumed.
    pub fn resumed(&mut self) -> (resume: Resume<S>)
        requires
            can_resume(*old(self)),
        ensures
            resumed_post(*old(self), *final(self), resume),
    {
        if self.engine.is_some() {
            return Resume::AlreadyRunning;
        }
        let scene = self.scene.take();
        match scene {
            Some(scene) => Resume::Launch(scene),
            None => Resume::AlreadyRunning,
        }
    }

    /// What to do with a window event.
    pub fn window_event(&self, event: WindowEventKind) -> (action: RunnerAction)
        ensures
            action == window_event_action(self.engine is Some, self.platform, event),
    {
        match event {
            WindowEventKind::CloseRequested => RunnerAction::Exit,
            WindowEventKind::Resized { width, height } => {
                if self.engine.is_none() {
                    return RunnerAction::Nothing;
                }
                RunnerAction::Resize { width, height }
            },
            WindowEventKind::RedrawRequested => {
                if self.engine.is_none() {
                    RunnerAction::Nothing
                } else {
                    match self.platform {
                        Platform::Web => RunnerAction::RunFrame,
                        Platform::Native => RunnerAction::HandleInput,
                    }
                }
            },
            WindowEventKind::Other => {
                if self.engine.is_none() {
                    return RunnerAction::Nothing;
                }
                RunnerAction::HandleInput
            },
        }
    }

    /// What to do once the event loop has gone through the pending events: on the web,
    /// ask for a redraw; natively, run a frame; either only once the engine exists.
    pub fn about_to_wait(&self) -> (action: RunnerAction)
        ensures
            action == idle_action(self.engine is Some, self.platform),
    {
        if !self.engine_loop() {
            return RunnerAction::Nothing;
        }
        match self.platform {
            Platform::Web => RunnerAction::RequestRedraw,
            Platform::Native => RunnerAction::RunFrame,
        }
    }

    /// Takes in what came back from the work the runner started. Only a finished engine
    /// is handled: the runner keeps it.
    pub fn user_event(&mut self, event: EngineEvent<E>)
        requires
            event is EngineReady,
        ensures
            final(self).engine == Some(event->EngineReady_0),
            final(self).scene == old(self).scene,
            final(self).platform == old(self).platform,
    {
        match event {
            EngineEvent::EngineReady(engine) => {
                self.engine = Some(engine);
            },
            EngineEvent::AssetsRead(_) => {},
            EngineEvent::AsyncError(_) => {},
        }
    }
}

/// Starts the engine on a scene: the runner that the platform's event loop is to drive,
/// holding the scene and no engine yet.
pub fn engine_entry<E, S>(scene: S, platform: Platform) -> (runner: EngineRunner<E, S>)
    ensures
        runner.engine is None,
        runner.scene == Some(scene),
        runner.platform == platform,
{
    EngineRunner::new(scene, platform)
}

/// The scene is handed out at most once: after a resume that launched the engine build,
/// the runner holds neither scene nor engine, so it cannot be resumed again until the
/// engine is ready; and a runner with an engine never launches.
pub proof fn lemma_scene_handed_out_once<E, S>(
    before: EngineRunner<E, S>,
    after: EngineRunner<E, S>,
    resume: Resume<S>,
)
    requires
        can_resume(before),
        resumed_post(before, after, resume),
    ensures
        resume is Launch ==> !can_resume(after),
        before.engine is Some ==> resume is AlreadyRunning,
{
}

/// No frame runs, no input is handled and no resize reaches the engine before the engine
/// exists: the only thing a window event can lead to then is leaving the loop.
pub proof fn lemma_nothing_runs_without_engine(platform: Platform, event: WindowEventKind)
    ensures
        window_event_action(false, platform, event) == RunnerAction::Nothing
            || window_event_action(false, platform, event) == RunnerAction::Exit,
        idle_action(false, platform) == RunnerAction::Nothing,
{
}

/// Once the engine exists, the idle loop keeps frames coming: natively it runs a frame
/// each time the loop is idle, on the web it asks for a redraw, and the redraw runs a frame.
pub proof fn lemma_engine_keeps_frames_coming(platform: Platform)
    ensures
        platform == Platform::Native ==> idle_action(true, platform) == RunnerAction::RunFrame,
        platform == Platform::Web ==> idle_action(true, platform) == RunnerAction::RequestRedraw
            && window_event_action(true, platform, WindowEventKind::RedrawRequested)
            == RunnerAction::RunFrame,
{
}

/// Once the engine exists, window events reach it the same way on every platform: a
/// resize to `width` by `height` resizes the engine to exactly that size, any other event
/// goes to its input handling, and a redraw request on a native window counts as such
/// an event; closing the window leaves the loop whether or not the engine exists.
pub proof fn lemma_engine_events_on_every_platform(
    platform: Platform,
    has_engine: bool,
    width: u32,
    height: u32,
)
    ensures
        window_event_action(true, platform, WindowEventKind::Resized { width, height })
            == (RunnerAction::Resize { width, height }),
        window_event_action(true, platform, WindowEventKind::Other) == RunnerAction::HandleInput,
        platform == Platform::Native ==> window_event_action(
            true,
            platform,
            WindowEventKind::RedrawRequested,
        ) == RunnerAction::HandleInput,
        window_event_action(has_engine, platform, WindowEventKind::CloseRequested)
            == RunnerAction::Exit,
{
}

} // verus!
