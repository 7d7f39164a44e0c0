//! Configuration and errors of the embedding application.

use vstd::prelude::*;
use vstd::utf8::encode_utf8;
use crate::composition::{
    lemma_tokens_are_never_reused, surface_configuration, zero_area, Compositor, CompositorInput,
    CompositorView, SurfaceConfiguration,
};
use crate::flutter_embedder::{
    c_string, compositor_record, is_first_nul, load_proc_table, nul_free, proc_table_of, AbiSizes,
    EngineLoad, EngineProcTable, FlutterProjectArgs, ENGINE_SUCCESS, FLUTTER_ENGINE_VERSION,
};
use crate::flutter_render_config_vk::{
    renderer_config_of, renderer_ready, FlutterRendererConfigWrapper, RawVkDeviceAndQueue,
    RawVkInstance,
};
use wgpu::TextureFormat;
use winit::dpi::PhysicalSize;

verus! {

/// Name of the directory, below the asset directory, that holds the
/// application's assets.
pub const FLUTTER_ASSETS_DIR: &'static str = "flutter_assets";

/// Name of the ICU data file, below the asset directory.
pub const ICU_DATA_FILE: &'static str = "icudtl.dat";

/// Where the application finds its assets and its engine.
#[derive(Clone, Debug, PartialEq, Eq)]
pub struct AppConfig {
    /// The directory where the flutter assets are located.
    pub asset_dir: String,
    /// The path to the Flutter engine shared library.
    pub flutter_engine_path: String,
}

/// Why a session could not be built, initialized or run.
#[derive(Clone, Debug, PartialEq, Eq)]
pub enum AppError {
    /// Nothing exists at the path.
    PathNoFound(String),
    /// A text to hand to the engine holds a zero byte at this position.
    CStringCreation(usize),
    /// The dynamic loader refused the engine library.
    FlutterEngineLoad(String),
    /// The engine library lacks its entry point.
    FlutterEngineSymbol(String),
    /// The engine's function table lacks the named function.
    FlutterEngineProcTable(String),
    /// The engine answered with this status instead of success.
    FlutterEngineError(i32),
    /// The windowing system could not start or run its event loop.
    EventLoop(String),
    /// The GPU stack is not backed by Vulkan.
    UnsupportedBackend,
}

/// An [`AppError`] with its texts as sequences of characters.
pub enum AppErrorView {
    PathNoFound(Seq<char>),
    CStringCreation(usize),
    FlutterEngineLoad(Seq<char>),
    FlutterEngineSymbol(Seq<char>),
    FlutterEngineProcTable(Seq<char>),
    FlutterEngineError(i32),
    EventLoop(Seq<char>),
    UnsupportedBackend,
}

impl View for AppError {
    type V = AppErrorView;

    open spec fn view(&self) -> AppErrorView {
        match self {
            AppError::PathNoFound(path) => AppErrorView::PathNoFound(path@),
            AppError::CStringCreation(position) => AppErrorView::CStringCreation(*position),
            AppError::FlutterEngineLoad(reason) => AppErrorView::FlutterEngineLoad(reason@),
            AppError::FlutterEngineSymbol(reason) => AppErrorView::FlutterEngineSymbol(reason@),
            AppError::FlutterEngineProcTable(name) => AppErrorView::FlutterEngineProcTable(name@),
            AppError::FlutterEngineError(code) => AppErrorView::FlutterEngineError(*code),
            AppError::EventLoop(reason) => AppErrorView::EventLoop(reason@),
            AppError::UnsupportedBackend => AppErrorView::UnsupportedBackend,
        }
    }
}

/// What the host found where the application's assets should lie.
#[derive(Clone, Debug, PartialEq, Eq)]
pub struct AssetProbe {
    /// The path of the assets: [`FLUTTER_ASSETS_DIR`] below the asset
    /// directory.
    pub assets_path: String,
    /// Something exists at `assets_path`.
    pub assets_exist: bool,
    /// The path of the ICU data: [`ICU_DATA_FILE`] below the asset directory.
    pub icu_data_path: String,
    /// Something exists at `icu_data_path`.
    pub icu_data_exists: bool,
}

/// What the engine's `Initialize` is to be called with.
#[derive(Clone, Debug, PartialEq, Eq)]
pub struct EngineInitRequest {
    /// The version of the engine's interface that the host speaks.
    pub version: usize,
    /// The renderer configuration, with the names that it counts.
    pub renderer_config: FlutterRendererConfigWrapper,
    /// The project arguments.
    pub project_args: FlutterProjectArgs,
}

/// What the windowing system tells a session of its window.
#[derive(Clone, Copy, Debug, PartialEq, Eq)]
pub enum WindowEvent {
    /// The user asked to close the window.
    CloseRequested,
    /// The window has a new size.
    Resized(PhysicalSize<u32>),
    /// The window is to be drawn anew.
    RedrawRequested,
    /// Anything else.
    Other,
}

/// What the host is to do for a session, in the order given.
#[derive(Clone, Copy, Debug, PartialEq, Eq)]
pub enum SessionAction {
    /// Configure the surface.
    ConfigureSurface(SurfaceConfiguration),
    /// Ask the windowing system for a redraw.
    RequestRedraw,
    /// Acquire the surface's next texture, paint it through a view of this
    /// format, submit the work, and hand the texture to the compositor's
    /// `render`; hand it nothing where no texture could be acquired.
    Render(TextureFormat),
    /// Tell the windowing system that a frame is about to be presented.
    PrePresentNotify,
    /// Take the frame in flight from the compositor's `present` and present
    /// it.
    Present,
    /// Call the engine's `Shutdown` on this instance, wait for it to return,
    /// then call `engine_shut_down`.
    ShutdownEngine(usize),
    /// Leave the event loop.
    Exit,
}

/// Where a session stands in its life. A session begins bound: before its
/// engine is loaded and its surface attached there is no session.
#[derive(Clone, Copy, Debug, PartialEq, Eq)]
pub enum SessionState {
    /// The engine's functions are resolved and the surface is attached.
    Bound,
    /// The engine has initialized an instance.
    EngineInitialized,
    /// The engine's instance runs.
    Running,
    /// The engine was asked to shut its instance down.
    ShuttingDown,
    /// The instance is shut down. Nothing follows.
    Closed,
}

/// The state of an [`AppWindowSession`].
pub struct SessionView<T> {
    /// The directory of the application's assets.
    pub asset_dir: Seq<char>,
    /// The path of the engine library.
    pub flutter_engine_path: Seq<char>,
    /// The functions of the engine that were resolved.
    pub engine: EngineProcTable,
    /// The engine's instance: zero until the engine has initialized one, and
    /// again once it was asked to shut it down.
    pub engine_handle: usize,
    /// Where the session stands in its life.
    pub state: SessionState,
    /// Names the session's window.
    pub window_id: u64,
    /// The session's compositor.
    pub compositor: CompositorView<T>,
}

impl<T> SessionView<T> {
    /// The engine has every function that the session needs, there is an
    /// instance exactly while the engine is initialized or runs, and no two
    /// backing stores share a token.
    pub open spec fn wf(self) -> bool {
        &&& self.engine.is_complete()
        &&& self.compositor.wf()
        &&& (self.engine_handle != 0 <==> self.has_instance())
    }

    /// The engine has an instance for this session.
    pub open spec fn has_instance(self) -> bool {
        self.state == SessionState::EngineInitialized || self.state == SessionState::Running
    }

    /// What is to be done once the session is bound: a redraw is asked for,
    /// and the surface is configured, if its size holds a pixel.
    pub open spec fn bind_actions(self) -> Seq<SessionAction> {
        match self.compositor.configuration() {
            Some(configuration) => seq![
                SessionAction::RequestRedraw,
                SessionAction::ConfigureSurface(configuration),
            ],
            None => seq![SessionAction::RequestRedraw],
        }
    }

    /// The state once the engine answered `Initialize` with `status` and
    /// `handle`.
    pub open spec fn engine_initialized(self, status: i32, handle: usize) -> Self {
        if status == ENGINE_SUCCESS {
            SessionView { state: SessionState::EngineInitialized, engine_handle: handle, ..self }
        } else {
            self
        }
    }

    /// The state once the engine answered `RunInitialized` with `status`.
    pub open spec fn engine_running(self, status: i32) -> Self {
        if status == ENGINE_SUCCESS {
            SessionView { state: SessionState::Running, ..self }
        } else {
            self
        }
    }

    /// The instance that a shutdown has the engine shut down, if there is
    /// one.
    pub open spec fn shutdown_request(self) -> Option<usize> {
        if self.has_instance() {
            Some(self.engine_handle)
        } else {
            None
        }
    }

    /// The state after a shutdown was asked for.
    pub open spec fn shut_down(self) -> Self {
        if self.has_instance() {
            SessionView { state: SessionState::ShuttingDown, engine_handle: 0, ..self }
        } else {
            self
        }
    }

    /// The state once the engine has returned from `Shutdown`.
    pub open spec fn engine_shut_down(self) -> Self {
        if self.state == SessionState::ShuttingDown {
            SessionView { state: SessionState::Closed, ..self }
        } else {
            self
        }
    }

    /// The state after an event of the session's window.
    pub open spec fn after_event(self, event: WindowEvent) -> Self {
        if self.state != SessionState::Running {
            self
        } else {
            match event {
                WindowEvent::CloseRequested => self.shut_down(),
                WindowEvent::Resized(new_size) => SessionView {
                    compositor: self.compositor.resized(new_size),
                    ..self
                },
                WindowEvent::RedrawRequested => self,
                WindowEvent::Other => self,
            }
        }
    }

    /// What the host is to do after an event of the session's window.
    pub open spec fn actions_for(self, event: WindowEvent) -> Seq<SessionAction> {
        if self.state != SessionState::Running {
            Seq::empty()
        } else {
            match event {
                WindowEvent::CloseRequested => seq![
                    SessionAction::ShutdownEngine(self.engine_handle),
                    SessionAction::Exit,
                ],
                WindowEvent::Resized(new_size) => if zero_area(new_size) {
                    Seq::empty()
                } else {
                    seq![
                        SessionAction::ConfigureSurface(
                            surface_configuration(self.compositor.surface_format, new_size),
                        ),
                    ]
                },
                WindowEvent::RedrawRequested => match self.compositor.configuration() {
                    Some(configuration) => seq![
                        SessionAction::Render(configuration.view_format),
                        SessionAction::PrePresentNotify,
                        SessionAction::Present,
                    ],
                    None => Seq::empty(),
                },
                WindowEvent::Other => Seq::empty(),
            }
        }
    }
}

/// What can happen to a session once it is bound.
pub enum SessionInput<T> {
    /// The engine answered `Initialize` with this status and instance.
    EngineInitialized { status: i32, handle: usize },
    /// The engine answered `RunInitialized` with this status.
    EngineRunning { status: i32 },
    /// The window of this name had an event.
    Window { window_id: u64, event: WindowEvent },
    /// A shutdown was asked for.
    Shutdown,
    /// The engine returned from `Shutdown`.
    EngineShutDown,
    /// The host or the engine called the session's compositor.
    Compositor(CompositorInput<T>),
}

impl<T> SessionView<T> {
    /// The input can come in this state: the engine answers `Initialize`
    /// only to a bound session, with an instance if it succeeded, and
    /// answers `RunInitialized` only to an initialized one.
    pub open spec fn admits(self, input: SessionInput<T>) -> bool {
        match input {
            SessionInput::EngineInitialized { status, handle } => self.state == SessionState::Bound
                && (status == ENGINE_SUCCESS ==> handle != 0),
            SessionInput::EngineRunning { status } => self.state == SessionState::EngineInitialized,
            _ => true,
        }
    }

    /// The state after the input.
    pub open spec fn step(self, input: SessionInput<T>) -> Self {
        match input {
            SessionInput::EngineInitialized { status, handle } => self.engine_initialized(
                status,
                handle,
            ),
            SessionInput::EngineRunning { status } => self.engine_running(status),
            SessionInput::Window { window_id, event } => if window_id == self.window_id {
                self.after_event(event)
            } else {
                self
            },
            SessionInput::Shutdown => self.shut_down(),
            SessionInput::EngineShutDown => self.engine_shut_down(),
            SessionInput::Compositor(input) => SessionView {
                compositor: self.compositor.step(input),
                ..self
            },
        }
    }

    /// The instance that the host is asked to shut down upon the input, if
    /// it is asked to shut one down.
    pub open spec fn shutdown_asked(self, input: SessionInput<T>) -> Option<usize> {
        match input {
            SessionInput::Window { window_id, event } => if window_id == self.window_id
                && self.actions_for(event).len() > 0 {
                match self.actions_for(event)[0] {
                    SessionAction::ShutdownEngine(handle) => Some(handle),
                    _ => None,
                }
            } else {
                None
            },
            SessionInput::Shutdown => self.shutdown_request(),
            _ => None,
        }
    }

    /// Each of the inputs can come in the state that the inputs before it
    /// lead to.
    pub open spec fn admits_all(self, inputs: Seq<SessionInput<T>>) -> bool
        decreases inputs.len(),
    {
        inputs.len() == 0 || (self.admits(inputs[0]) && self.step(inputs[0]).admits_all(
            inputs.drop_first(),
        ))
    }

    /// The state after the inputs, one after the other.
    pub open spec fn after(self, inputs: Seq<SessionInput<T>>) -> Self
        decreases inputs.len(),
    {
        if inputs.len() == 0 {
            self
        } else {
            self.step(inputs[0]).after(inputs.drop_first())
        }
    }

    /// The instances that the host is asked to shut down over the inputs,
    /// in the order in which it is asked.
    pub open spec fn shutdowns_asked(self, inputs: Seq<SessionInput<T>>) -> Seq<usize>
        decreases inputs.len(),
    {
        if inputs.len() == 0 {
            Seq::empty()
        } else {
            let rest = self.step(inputs[0]).shutdowns_asked(inputs.drop_first());
            match self.shutdown_asked(inputs[0]) {
                Some(handle) => seq![handle] + rest,
                None => rest,
            }
        }
    }

    /// The session was asked to shut down, or is closed.
    pub open spec fn is_over(self) -> bool {
        self.state == SessionState::ShuttingDown || self.state == SessionState::Closed
    }

    /// What the host is to do upon the input. A resize of the compositor
    /// hands the host the configuration to apply, as an event of the window
    /// does.
    pub open spec fn actions_upon(self, input: SessionInput<T>) -> Seq<SessionAction> {
        match input {
            SessionInput::Window { window_id, event } => if window_id == self.window_id {
                self.actions_for(event)
            } else {
                Seq::empty()
            },
            SessionInput::Compositor(CompositorInput::Resize(new_size)) => if zero_area(new_size) {
                Seq::empty()
            } else {
                seq![
                    SessionAction::ConfigureSurface(
                        surface_configuration(self.compositor.surface_format, new_size),
                    ),
                ]
            },
            _ => Seq::empty(),
        }
    }

    /// The configuration that the surface has after the inputs, if it had
    /// the configuration `before` and the host did what it was asked upon
    /// each input.
    pub open spec fn surface_over(
        self,
        inputs: Seq<SessionInput<T>>,
        before: Option<SurfaceConfiguration>,
    ) -> Option<SurfaceConfiguration>
        decreases inputs.len(),
    {
        if inputs.len() == 0 {
            before
        } else {
            self.step(inputs[0]).surface_over(
                inputs.drop_first(),
                surface_after(self.actions_upon(inputs[0]), before),
            )
        }
    }
}

/// The configuration that a surface has once the host has done what it was
/// asked, if it had the configuration `before`: the last one that the host
/// was asked to apply, if there is one.
pub open spec fn surface_after(
    actions: Seq<SessionAction>,
    before: Option<SurfaceConfiguration>,
) -> Option<SurfaceConfiguration>
    decreases actions.len(),
{
    if actions.len() == 0 {
        before
    } else {
        match actions.last() {
            SessionAction::ConfigureSurface(configuration) => Some(configuration),
            _ => surface_after(actions.drop_last(), before),
        }
    }
}

/// `result` is what a session with the given probe of its assets and the
/// given Vulkan stack hands the engine to initialize.
///
/// These conditions are tried in turn, and the first that fails gives the
/// error: the assets exist, the ICU data exists, the GPU stack is backed by
/// Vulkan and its extension names hold no zero byte, the path of the assets
/// holds no zero byte, nor does that of the ICU data. If none fails the
/// request holds the renderer configuration and the project arguments with
/// both paths as C strings.
pub open spec fn init_request_of(
    probe: AssetProbe,
    instance: Option<RawVkInstance>,
    device: Option<RawVkDeviceAndQueue>,
    sizes: AbiSizes,
    result: Result<EngineInitRequest, AppError>,
) -> bool {
    let assets = encode_utf8(probe.assets_path@);
    let icu = encode_utf8(probe.icu_data_path@);
    if !probe.assets_exist {
        result matches Err(error) && error@ == AppErrorView::PathNoFound(probe.assets_path@)
    } else if !probe.icu_data_exists {
        result matches Err(error) && error@ == AppErrorView::PathNoFound(probe.icu_data_path@)
    } else if !renderer_ready(instance, device) {
        &&& result matches Err(error)
        &&& renderer_config_of(
            instance,
            device,
            sizes.renderer_config,
            Err::<FlutterRendererConfigWrapper, AppError>(error),
        )
    } else if !nul_free(assets) {
        &&& result matches Err(AppError::CStringCreation(position))
        &&& is_first_nul(assets, position as int)
    } else if !nul_free(icu) {
        &&& result matches Err(AppError::CStringCreation(position))
        &&& is_first_nul(icu, position as int)
    } else {
        &&& result matches Ok(request)
        &&& request.version == FLUTTER_ENGINE_VERSION
        &&& renderer_config_of(
            instance,
            device,
            sizes.renderer_config,
            Ok::<FlutterRendererConfigWrapper, AppError>(request.renderer_config),
        )
        &&& request.project_args.describes(
            sizes.project_args,
            assets,
            icu,
            compositor_record(sizes.compositor),
        )
    }
}

/// Asking twice for a shutdown is asking once: after the first time there is
/// no instance to shut down, and the session stays as it is. Asking of a
/// session whose engine was never initialized, and which therefore has no
/// instance, changes nothing either.
pub proof fn lemma_shutdown_is_idempotent<T>(session: SessionView<T>)
    requires
        session.wf(),
    ensures
        session.shut_down().wf(),
        session.shut_down().shutdown_request().is_none(),
        session.shut_down().shut_down() == session.shut_down(),
        session.engine_handle == 0 ==> session.shutdown_request().is_none() && session.shut_down()
            == session,
        session.engine_handle != 0 ==> session.shutdown_request() == Some(session.engine_handle)
            && session.shut_down().engine_handle == 0,
{
}

/// An event that gives a running session's window a size without pixels
/// changes nothing and asks for nothing, and so does any event of a session
/// that does not run.
pub proof fn lemma_quiet_events<T>(session: SessionView<T>, event: WindowEvent)
    ensures
        event matches WindowEvent::Resized(size) && zero_area(size) ==> session.after_event(event)
            == session && session.actions_for(event) == Seq::<SessionAction>::empty(),
        session.state != SessionState::Running ==> session.after_event(event) == session
            && session.actions_for(event) == Seq::<SessionAction>::empty(),
{
}

/// A session that is bound, whose engine then initializes and runs, and
/// whose window is then asked to close, passes through the states of its
/// life in order and ends closed, with its instance shut down once.
pub proof fn lemma_life_of_a_session<T>(session: SessionView<T>, handle: usize)
    requires
        session.wf(),
        session.state == SessionState::Bound,
        handle != 0,
    ensures
        ({
            let initialized = session.engine_initialized(ENGINE_SUCCESS, handle);
            let running = initialized.engine_running(ENGINE_SUCCESS);
            let closing = running.after_event(WindowEvent::CloseRequested);
            let closed = closing.engine_shut_down();
            &&& initialized.state == SessionState::EngineInitialized
            &&& running.state == SessionState::Running
            &&& running.actions_for(WindowEvent::CloseRequested) == seq![
                SessionAction::ShutdownEngine(handle),
                SessionAction::Exit,
            ]
            &&& closing.state == SessionState::ShuttingDown
            &&& closed.state == SessionState::Closed
            &&& closed.shutdown_request().is_none()
            &&& closed.wf()
        }),
{
}

/// Whatever happens to a session, be it an answer of the engine, an event
/// of a window, or a call of its compositor, the host is asked to shut the
/// engine's instance down at most once. It is asked exactly once if the session ends
/// shutting down or closed, and never while the session is still bound,
/// initialized or running. A session that is over stays over, and a valid
/// session stays valid.
pub proof fn lemma_shutdown_is_asked_once<T>(session: SessionView<T>, inputs: Seq<SessionInput<T>>)
    requires
        session.wf(),
        session.admits_all(inputs),
    ensures
        session.after(inputs).wf(),
        session.is_over() ==> session.after(inputs).is_over() && session.shutdowns_asked(
            inputs,
        ).len() == 0,
        !session.is_over() && session.after(inputs).is_over() ==> session.shutdowns_asked(
            inputs,
        ).len() == 1,
        !session.after(inputs).is_over() ==> session.shutdowns_asked(inputs).len() == 0,
    decreases inputs.len(),
{
    if inputs.len() > 0 {
        lemma_step_keeps_wf(session, inputs[0]);
        lemma_shutdown_is_asked_once(session.step(inputs[0]), inputs.drop_first());
    }
}

/// The instance that the host is asked to shut down is the one that the
/// engine initialized for the session.
pub proof fn lemma_shutdown_names_the_instance<T>(
    session: SessionView<T>,
    handle: usize,
    inputs: Seq<SessionInput<T>>,
)
    requires
        session.wf(),
        session.state == SessionState::Bound,
        handle != 0,
        session.engine_initialized(ENGINE_SUCCESS, handle).admits_all(inputs),
    ensures
        ({
            let initialized = session.engine_initialized(ENGINE_SUCCESS, handle);
            initialized.shutdowns_asked(inputs) == if initialized.after(inputs).is_over() {
                seq![handle]
            } else {
                Seq::<usize>::empty()
            }
        }),
{
    lemma_instance_is_kept(session.engine_initialized(ENGINE_SUCCESS, handle), inputs);
}

/// A valid session stays valid upon an input that can come in its state.
proof fn lemma_step_keeps_wf<T>(session: SessionView<T>, input: SessionInput<T>)
    requires
        session.wf(),
        session.admits(input),
    ensures
        session.step(input).wf(),
{
    match input {
        SessionInput::Compositor(input) => {
            lemma_tokens_are_never_reused(session.compositor, 0, seq![input]);
            assert(session.compositor.after(seq![input]) == session.compositor.step(input)) by {
                reveal_with_fuel(CompositorView::after, 2);
            }
        },
        _ => {},
    }
}

/// While the engine holds an instance for a session, the session's handle
/// does not change; when the host is asked to shut the instance down, it is
/// this handle that it is given.
proof fn lemma_instance_is_kept<T>(session: SessionView<T>, inputs: Seq<SessionInput<T>>)
    requires
        session.wf(),
        session.has_instance(),
        session.admits_all(inputs),
    ensures
        session.after(inputs).has_instance() ==> session.after(inputs).engine_handle
            == session.engine_handle && session.shutdowns_asked(inputs) == Seq::<usize>::empty(),
        session.after(inputs).is_over() ==> session.shutdowns_asked(inputs) == seq![
            session.engine_handle,
        ],
        session.after(inputs).has_instance() || session.after(inputs).is_over(),
    decreases inputs.len(),
{
    if inputs.len() > 0 {
        let next = session.step(inputs[0]);
        let rest = inputs.drop_first();
        lemma_step_keeps_wf(session, inputs[0]);
        if next.has_instance() {
            lemma_instance_is_kept(next, rest);
        } else {
            lemma_shutdown_is_asked_once(next, rest);
            assert(next.is_over());
            assert(next.shutdowns_asked(rest) =~= Seq::<usize>::empty());
            assert(session.shutdown_asked(inputs[0]) == Some(session.engine_handle));
            assert(session.shutdowns_asked(inputs) =~= seq![session.engine_handle]);
        }
    }
}

/// The surface follows the compositor. Once the host has done what a bound
/// session asks, the surface has the configuration that the compositor
/// holds, and it still has after any event, if the host does what it is
/// asked upon each. A frame is therefore rendered only to a surface that is
/// configured for the size that the window last had.
pub proof fn lemma_surface_follows_compositor<T>(
    session: SessionView<T>,
    event: WindowEvent,
    inputs: Seq<SessionInput<T>>,
)
    ensures
        surface_after(session.bind_actions(), None) == session.compositor.configuration(),
        surface_after(session.actions_for(event), session.compositor.configuration())
            == session.after_event(event).compositor.configuration(),
        session.surface_over(inputs, session.compositor.configuration()) == session.after(
            inputs,
        ).compositor.configuration(),
    decreases inputs.len(),
{
    reveal_with_fuel(surface_after, 4);
    if inputs.len() > 0 {
        match inputs[0] {
            SessionInput::Window { window_id, event: first } => {
                lemma_surface_follows_compositor(session, first, Seq::empty());
            },
            _ => {},
        }
        lemma_surface_follows_compositor(session.step(inputs[0]), event, inputs.drop_first());
    }
}

/// One window with its surface and its engine.
///
/// The host owns the window, the GPU objects and the engine library, and
/// calls the engine. The session decides what is called and when, and
/// records how far the engine came.
#[derive(Debug)]
pub struct AppWindowSession<T> {
    config: AppConfig,
    engine: EngineProcTable,
    engine_handle: usize,
    state: SessionState,
    window_id: u64,
    /// The session's compositor.
    pub compositor: Compositor<T>,
}

impl<T> View for AppWindowSession<T> {
    type V = SessionView<T>;

    closed spec fn view(&self) -> SessionView<T> {
        SessionView {
            asset_dir: self.config.asset_dir@,
            flutter_engine_path: self.config.flutter_engine_path@,
            engine: self.engine,
            engine_handle: self.engine_handle,
            state: self.state,
            window_id: self.window_id,
            compositor: self.compositor@,
        }
    }
}

impl<T> AppWindowSession<T> {
    /// Binds a session to the window `window_id`, whose surface has the
    /// given format and size, once it is known how far loading the engine
    /// came.
    ///
    /// The session is made exactly when the engine was loaded, its entry
    /// point reported success, and its table holds every function that a
    /// session needs. Otherwise the error names what failed first: the path
    /// where nothing lies, the loader's or the entry point's refusal, the
    /// engine's status, or the function that the table lacks.
    pub fn new(
        config: AppConfig,
        window_id: u64,
        load: EngineLoad,
        surface_format: TextureFormat,
        initial_size: PhysicalSize<u32>,
    ) -> (result: Result<Self, AppError>)
        ensures
            match result {
                Ok(session) => {
                    &&& proc_table_of(config.flutter_engine_path@, load) == Ok::<
                        EngineProcTable,
                        AppErrorView,
                    >(session@.engine)
                    &&& session@ == (SessionView::<T> {
                        asset_dir: config.asset_dir@,
                        flutter_engine_path: config.flutter_engine_path@,
                        engine: session@.engine,
                        engine_handle: 0,
                        state: SessionState::Bound,
                        window_id,
                        compositor: CompositorView {
                            surface_format,
                            surface_size: initial_size,
                            pending: None,
                            backing_stores: Seq::empty(),
                            next_token: 0,
                        },
                    })
                    &&& session@.wf()
                },
                Err(error) => proc_table_of(config.flutter_engine_path@, load) == Err::<
                    EngineProcTable,
                    AppErrorView,
                >(error@),
            },
            load matches EngineLoad::Resolved { status, table } && status == ENGINE_SUCCESS
                && table.is_complete() ==> result is Ok,
    {
        let engine = load_proc_table(config.flutter_engine_path.clone(), load)?;
        Ok(
            AppWindowSession {
                config,
                engine,
                engine_handle: 0,
                state: SessionState::Bound,
                window_id,
                compositor: Compositor::new(surface_format, initial_size),
            },
        )
    }

    /// The configuration that the session was made with.
    pub fn config(&self) -> (config: &AppConfig)
        ensures
            config.asset_dir@ == self@.asset_dir,
            config.flutter_engine_path@ == self@.flutter_engine_path,
    {
        &self.config
    }

    /// The functions of the engine that were resolved.
    pub fn engine(&self) -> (engine: EngineProcTable)
        ensures
            engine == self@.engine,
    {
        self.engine
    }

    /// The engine's instance, or zero where there is none.
    pub fn engine_handle(&self) -> (handle: usize)
        ensures
            handle == self@.engine_handle,
    {
        self.engine_handle
    }

    /// Where the session stands in its life.
    pub fn state(&self) -> (state: SessionState)
        ensures
            state == self@.state,
    {
        self.state
    }

    /// Names the session's window.
    pub fn window_id(&self) -> (id: u64)
        ensures
            id == self@.window_id,
    {
        self.window_id
    }

    /// What the host is to do once the session is bound.
    pub fn bind_actions(&self) -> (actions: Vec<SessionAction>)
        ensures
            actions@ == self@.bind_actions(),
    {
        let mut actions: Vec<SessionAction> = Vec::new();
        actions.push(SessionAction::RequestRedraw);
        match self.compositor.configuration() {
            Some(configuration) => {
                actions.push(SessionAction::ConfigureSurface(configuration));
            },
            None => {},
        }
        actions
    }

    /// Decides whether the engine can be initialized, and with what.
    ///
    /// Nothing is asked of the engine here, and the session does not change:
    /// the host calls the engine's `Initialize` with the request, if there
    /// is one, and reports the answer to `engine_initialized`.
    pub fn initialize(
        &self,
        probe: AssetProbe,
        instance: Option<RawVkInstance>,
        device: Option<RawVkDeviceAndQueue>,
        sizes: AbiSizes,
    ) -> (result: Result<EngineInitRequest, AppError>)
        ensures
            init_request_of(probe, instance, device, sizes, result),
            !probe.assets_exist ==> (result matches Err(error) && error@
                == AppErrorView::PathNoFound(probe.assets_path@)),
            probe.assets_exist && !probe.icu_data_exists ==> (result matches Err(error) && error@
                == AppErrorView::PathNoFound(probe.icu_data_path@)),
    {
        if !probe.assets_exist {
            return Err(AppError::PathNoFound(probe.assets_path));
        }
        if !probe.icu_data_exists {
            return Err(AppError::PathNoFound(probe.icu_data_path));
        }
        let renderer_config = match self.compositor.get_flutter_renderer_config(
            instance,
            device,
            sizes.renderer_config,
        ) {
            Ok(wrapper) => wrapper,
            Err(error) => {
                return Err(error);
            },
        };
        let compositor = self.compositor.get_flutter_compositor(sizes.compositor);
        let assets_path = match c_string(probe.assets_path.as_str().as_bytes()) {
            Ok(buffer) => buffer,
            Err(position) => {
                return Err(AppError::CStringCreation(position));
            },
        };
        let icu_data_path = match c_string(probe.icu_data_path.as_str().as_bytes()) {
            Ok(buffer) => buffer,
            Err(position) => {
                return Err(AppError::CStringCreation(position));
            },
        };
        let project_args = FlutterProjectArgs {
            struct_size: sizes.project_args,
            assets_path,
            icu_data_path,
            platform_message_callback: true,
            vm_snapshot_data_size: 0,
            vm_snapshot_instructions_size: 0,
            isolate_snapshot_data_size: 0,
            isolate_snapshot_instructions_size: 0,
            root_isolate_create_callback: true,
            update_semantics_callback: false,
            custom_task_runners: false,
            shutdown_dart_vm_when_done: true,
            vsync_callback: true,
            log_message_callback: true,
            compositor,
        };
        Ok(EngineInitRequest { version: FLUTTER_ENGINE_VERSION, renderer_config, project_args })
    }

    /// Takes the engine's answer to `Initialize`.
    ///
    /// Success moves the session on and records the instance, which is
    /// handed back for the call of `RunInitialized`. Any other status is the
    /// error, and the session stays as it was.
    pub fn engine_initialized(&mut self, status: i32, handle: usize) -> (result: Result<
        usize,
        AppError,
    >)
        requires
            old(self)@.state == SessionState::Bound,
            status == ENGINE_SUCCESS ==> handle != 0,
        ensures
            final(self)@ == old(self)@.engine_initialized(status, handle),
            old(self)@.wf() ==> final(self)@.wf(),
            status == ENGINE_SUCCESS ==> result == Ok::<usize, AppError>(handle),
            status != ENGINE_SUCCESS ==> (result matches Err(error) && error@
                == AppErrorView::FlutterEngineError(status)),
    {
        if status != ENGINE_SUCCESS {
            return Err(AppError::FlutterEngineError(status));
        }
        self.engine_handle = handle;
        self.state = SessionState::EngineInitialized;
        Ok(handle)
    }

    /// Takes the engine's answer to `RunInitialized`.
    ///
    /// Success makes the session run. Any other status is the error, and the
    /// session stays initialized.
    pub fn engine_running(&mut self, status: i32) -> (result: Result<(), AppError>)
        requires
            old(self)@.state == SessionState::EngineInitialized,
        ensures
            final(self)@ == old(self)@.engine_running(status),
            old(self)@.wf() ==> final(self)@.wf(),
            status == ENGINE_SUCCESS ==> result is Ok,
            status != ENGINE_SUCCESS ==> (result matches Err(error) && error@
                == AppErrorView::FlutterEngineError(status)),
    {
        if status != ENGINE_SUCCESS {
            return Err(AppError::FlutterEngineError(status));
        }
        self.state = SessionState::Running;
        Ok(())
    }

    /// Asks for the engine's instance to be shut down.
    ///
    /// While the engine holds an instance for the session, the instance is
    /// handed back: the host calls the engine's `Shutdown` on it, waits for
    /// the call to return, and then calls `engine_shut_down`. The session
    /// forgets the instance at once, so that asking again, or asking of a
    /// session whose engine was never initialized, changes nothing and hands
    /// back nothing.
    pub fn shutdown(&mut self) -> (instance: Option<usize>)
        ensures
            instance == old(self)@.shutdown_request(),
            final(self)@ == old(self)@.shut_down(),
            old(self)@.wf() ==> final(self)@.wf(),
    {
        match self.state {
            SessionState::EngineInitialized | SessionState::Running => {
                let handle = self.engine_handle;
                self.engine_handle = 0;
                self.state = SessionState::ShuttingDown;
                Some(handle)
            },
            _ => None,
        }
    }

    /// Takes note that the engine has returned from `Shutdown`, whatever it
    /// answered: a session that was shutting down is closed.
    pub fn engine_shut_down(&mut self)
        ensures
            final(self)@ == old(self)@.engine_shut_down(),
            old(self)@.wf() ==> final(self)@.wf(),
    {
        match self.state {
            SessionState::ShuttingDown => {
                self.state = SessionState::Closed;
            },
            _ => {},
        }
    }

    /// Takes an event of the session's window and says what the host is to
    /// do.
    ///
    /// Only a running session reacts. A request to close shuts the engine
    /// down and leaves the event loop. A new size that holds a pixel
    /// reconfigures the surface. A redraw renders a frame, notifies the
    /// windowing system, and presents the frame, in this order; a surface
    /// that was never given a size with a pixel has nothing to draw on, and
    /// nothing is asked for.
    pub fn handle_window_event(&mut self, event: WindowEvent) -> (actions: Vec<SessionAction>)
        ensures
            final(self)@ == old(self)@.after_event(event),
            actions@ == old(self)@.actions_for(event),
            old(self)@.wf() ==> final(self)@.wf(),
    {
        let mut actions: Vec<SessionAction> = Vec::new();
        match self.state {
            SessionState::Running => {},
            _ => {
                return actions;
            },
        }
        match event {
            WindowEvent::CloseRequested => {
                let handle = self.engine_handle;
                self.engine_handle = 0;
                self.state = SessionState::ShuttingDown;
                actions.push(SessionAction::ShutdownEngine(handle));
                actions.push(SessionAction::Exit);
            },
            WindowEvent::Resized(new_size) => {
                match self.compositor.resize(new_size) {
                    Some(configuration) => {
                        actions.push(SessionAction::ConfigureSurface(configuration));
                    },
                    None => {},
                }
            },
            WindowEvent::RedrawRequested => {
                match self.compositor.configuration() {
                    Some(configuration) => {
                        actions.push(SessionAction::Render(configuration.view_format));
                        actions.push(SessionAction::PrePresentNotify);
                        actions.push(SessionAction::Present);
                    },
                    None => {},
                }
            },
            WindowEvent::Other => {},
        }
        actions
    }

    /// Takes an event of the window `window_id`. An event of a window that
    /// is not the session's changes nothing and asks for nothing.
    pub fn window_event(&mut self, window_id: u64, event: WindowEvent) -> (actions: Vec<
        SessionAction,
    >)
        ensures
            window_id == old(self)@.window_id ==> final(self)@ == old(self)@.after_event(event)
                && actions@ == old(self)@.actions_for(event),
            window_id != old(self)@.window_id ==> final(self)@ == old(self)@ && actions@
                == Seq::<SessionAction>::empty(),
            old(self)@.wf() ==> final(self)@.wf(),
    {
        if window_id == self.window_id {
            self.handle_window_event(event)
        } else {
            Vec::new()
        }
    }
}

} // verus!
