use flutter_rust_embedder::application::{
    AppConfig, AppError, AppWindowSession, AssetProbe, SessionAction, SessionState, WindowEvent,
    FLUTTER_ASSETS_DIR, ICU_DATA_FILE,
};
use flutter_rust_embedder::composition::{SurfaceConfiguration, TextureUsage};
use flutter_rust_embedder::flutter_embedder::{
    AbiSizes, EngineLoad, EngineProcTable, FlutterCompositor, FlutterProjectArgs,
};
use flutter_rust_embedder::flutter_render_config_vk::{
    create_flutter_renderer_config, RawVkDeviceAndQueue, RawVkInstance,
};
use std::path::Path;
use wgpu::{CompositeAlphaMode, PresentMode, TextureFormat};
use winit::dpi::PhysicalSize;

type Session = AppWindowSession<u32>;

const WINDOW: u64 = 11;

const COMPLETE: EngineProcTable =
    EngineProcTable { initialize: true, run_initialized: true, shutdown: true };

const SIZES: AbiSizes = AbiSizes { project_args: 312, renderer_config: 96, compositor: 56 };

fn config() -> AppConfig {
    AppConfig {
        asset_dir: "/opt/app/data".to_string(),
        flutter_engine_path: "/opt/app/libflutter_engine.so".to_string(),
    }
}

fn loaded() -> EngineLoad {
    EngineLoad::Resolved { status: 0, table: COMPLETE }
}

fn bound() -> Session {
    Session::new(config(), WINDOW, loaded(), TextureFormat::Bgra8Unorm, PhysicalSize::new(640, 480))
        .expect("the session is bound")
}

fn running() -> Session {
    let mut session = bound();
    assert_eq!(session.engine_initialized(0, 0xbeef), Ok(0xbeef));
    assert_eq!(session.engine_running(0), Ok(()));
    session
}

fn probe(assets_exist: bool, icu_data_exists: bool) -> AssetProbe {
    AssetProbe {
        assets_path: "/opt/app/data/flutter_assets".to_string(),
        assets_exist,
        icu_data_path: "/opt/app/data/icudtl.dat".to_string(),
        icu_data_exists,
    }
}

fn raw_instance() -> RawVkInstance {
    RawVkInstance { instance: 1, version: 0, extensions: vec![b"VK_KHR_surface".to_vec()] }
}

fn raw_device() -> RawVkDeviceAndQueue {
    RawVkDeviceAndQueue {
        device: 2,
        physical_device: 3,
        queue: 4,
        queue_family_index: 0,
        extensions: vec![b"VK_KHR_swapchain".to_vec()],
    }
}

fn configuration(width: u32, height: u32) -> SurfaceConfiguration {
    SurfaceConfiguration {
        usage: TextureUsage::RenderAttachment,
        format: TextureFormat::Bgra8Unorm,
        view_format: TextureFormat::Bgra8UnormSrgb,
        alpha_mode: CompositeAlphaMode::Auto,
        width,
        height,
        desired_maximum_frame_latency: 2,
        present_mode: PresentMode::AutoVsync,
    }
}

fn probe_engine(path: &str) -> EngineLoad {
    if Path::new(path).exists() {
        loaded()
    } else {
        EngineLoad::PathMissing
    }
}

#[test]
fn session_is_bound_when_the_engine_loads() {
    let session = bound();
    assert_eq!(session.state(), SessionState::Bound);
    assert_eq!(session.engine(), COMPLETE);
    assert!(session.engine().initialize);
    assert!(session.engine().run_initialized);
    assert!(session.engine().shutdown);
    assert_eq!(session.engine_handle(), 0);
    assert_eq!(session.window_id(), WINDOW);
    assert_eq!(session.config(), &config());
    assert_eq!(session.compositor.surface_size(), PhysicalSize::new(640, 480));
    assert_eq!(session.compositor.surface_format(), TextureFormat::Bgra8Unorm);
    assert!(!session.compositor.has_pending_frame());
}

#[test]
fn missing_engine_path_is_path_not_found() {
    let engine_path = "/nonexistent/dir/libflutter_engine.so";
    let config =
        AppConfig { asset_dir: "/opt/app/data".to_string(), flutter_engine_path: engine_path.to_string() };
    let result = Session::new(
        config,
        WINDOW,
        probe_engine(engine_path),
        TextureFormat::Bgra8Unorm,
        PhysicalSize::new(640, 480),
    );
    assert_eq!(result.err(), Some(AppError::PathNoFound(engine_path.to_string())));
}

#[test]
fn missing_entry_point_is_symbol_not_found() {
    let result = Session::new(
        config(),
        WINDOW,
        EngineLoad::EntryPointMissing("undefined symbol: FlutterEngineGetProcAddresses".to_string()),
        TextureFormat::Bgra8Unorm,
        PhysicalSize::new(640, 480),
    );
    assert_eq!(
        result.err(),
        Some(AppError::FlutterEngineSymbol(
            "undefined symbol: FlutterEngineGetProcAddresses".to_string()
        ))
    );
}

#[test]
fn refused_library_is_a_load_error() {
    let result = Session::new(
        config(),
        WINDOW,
        EngineLoad::LoadFailed("invalid ELF header".to_string()),
        TextureFormat::Bgra8Unorm,
        PhysicalSize::new(640, 480),
    );
    assert_eq!(result.err(), Some(AppError::FlutterEngineLoad("invalid ELF header".to_string())));
}

#[test]
fn entry_point_status_is_kept() {
    for status in [1, 2, 3, -7, i32::MAX, i32::MIN] {
        let result = Session::new(
            config(),
            WINDOW,
            EngineLoad::Resolved { status, table: COMPLETE },
            TextureFormat::Bgra8Unorm,
            PhysicalSize::new(640, 480),
        );
        assert_eq!(result.err(), Some(AppError::FlutterEngineError(status)));
    }
}

#[test]
fn incomplete_table_is_refused_at_load() {
    let tables = [
        (EngineProcTable { initialize: false, ..COMPLETE }, "FlutterEngineInitialize"),
        (EngineProcTable { run_initialized: false, ..COMPLETE }, "FlutterEngineRunInitialized"),
        (EngineProcTable { shutdown: false, ..COMPLETE }, "FlutterEngineShutdown"),
    ];
    for (table, name) in tables {
        let result = Session::new(
            config(),
            WINDOW,
            EngineLoad::Resolved { status: 0, table },
            TextureFormat::Bgra8Unorm,
            PhysicalSize::new(640, 480),
        );
        assert_eq!(result.err(), Some(AppError::FlutterEngineProcTable(name.to_string())));
    }
}

#[test]
fn bound_session_configures_and_asks_for_a_redraw() {
    assert_eq!(
        bound().bind_actions(),
        vec![SessionAction::RequestRedraw, SessionAction::ConfigureSurface(configuration(640, 480))]
    );
    let minimized = Session::new(
        config(),
        WINDOW,
        loaded(),
        TextureFormat::Bgra8Unorm,
        PhysicalSize::new(0, 0),
    )
    .expect("the session is bound");
    assert_eq!(minimized.bind_actions(), vec![SessionAction::RequestRedraw]);
}

#[test]
fn asset_names() {
    assert_eq!(FLUTTER_ASSETS_DIR, "flutter_assets");
    assert_eq!(ICU_DATA_FILE, "icudtl.dat");
}

#[test]
fn missing_assets_are_path_not_found() {
    let session = bound();
    for icu_data_exists in [true, false] {
        assert_eq!(
            session.initialize(
                probe(false, icu_data_exists),
                Some(raw_instance()),
                Some(raw_device()),
                SIZES
            ),
            Err(AppError::PathNoFound("/opt/app/data/flutter_assets".to_string()))
        );
    }
    assert_eq!(session.state(), SessionState::Bound);
    assert_eq!(session.engine_handle(), 0);
}

#[test]
fn missing_icu_data_is_path_not_found() {
    let session = bound();
    assert_eq!(
        session.initialize(probe(true, false), Some(raw_instance()), Some(raw_device()), SIZES),
        Err(AppError::PathNoFound("/opt/app/data/icudtl.dat".to_string()))
    );
    assert_eq!(session.state(), SessionState::Bound);
}

#[test]
fn missing_assets_on_disk_are_path_not_found() {
    let asset_dir = Path::new("/nonexistent/asset/dir");
    let assets_path = asset_dir.join(FLUTTER_ASSETS_DIR);
    let icu_data_path = asset_dir.join(ICU_DATA_FILE);
    let probe = AssetProbe {
        assets_path: assets_path.to_str().expect("the path is text").to_string(),
        assets_exist: assets_path.exists(),
        icu_data_path: icu_data_path.to_str().expect("the path is text").to_string(),
        icu_data_exists: icu_data_path.exists(),
    };
    assert_eq!(
        bound().initialize(probe, Some(raw_instance()), Some(raw_device()), SIZES),
        Err(AppError::PathNoFound(assets_path.to_str().expect("the path is text").to_string()))
    );
}

#[test]
fn initialize_needs_vulkan() {
    assert_eq!(
        bound().initialize(probe(true, true), None, Some(raw_device()), SIZES),
        Err(AppError::UnsupportedBackend)
    );
    assert_eq!(
        bound().initialize(probe(true, true), Some(raw_instance()), None, SIZES),
        Err(AppError::UnsupportedBackend)
    );
}

#[test]
fn path_with_a_zero_byte_is_refused() {
    let mut assets = probe(true, true);
    assets.assets_path = "/opt/app\0/flutter_assets".to_string();
    assert_eq!(
        bound().initialize(assets, Some(raw_instance()), Some(raw_device()), SIZES),
        Err(AppError::CStringCreation(8))
    );
    let mut icu = probe(true, true);
    icu.icu_data_path = "\0".to_string();
    assert_eq!(
        bound().initialize(icu, Some(raw_instance()), Some(raw_device()), SIZES),
        Err(AppError::CStringCreation(0))
    );
}

#[test]
fn errors_of_initialize_come_in_order() {
    let mut broken = probe(false, false);
    broken.assets_path = "a\0".to_string();
    broken.icu_data_path = "\0b".to_string();
    assert_eq!(
        bound().initialize(broken.clone(), None, None, SIZES),
        Err(AppError::PathNoFound("a\0".to_string()))
    );
    broken.assets_exist = true;
    assert_eq!(
        bound().initialize(broken.clone(), None, None, SIZES),
        Err(AppError::PathNoFound("\0b".to_string()))
    );
    broken.icu_data_exists = true;
    assert_eq!(bound().initialize(broken.clone(), None, None, SIZES), Err(AppError::UnsupportedBackend));
    let mut bad_instance = raw_instance();
    bad_instance.extensions = vec![b"abc\0".to_vec()];
    assert_eq!(
        bound().initialize(broken.clone(), Some(bad_instance), Some(raw_device()), SIZES),
        Err(AppError::CStringCreation(3))
    );
    assert_eq!(
        bound().initialize(broken.clone(), Some(raw_instance()), Some(raw_device()), SIZES),
        Err(AppError::CStringCreation(1))
    );
    broken.assets_path = "a".to_string();
    assert_eq!(
        bound().initialize(broken, Some(raw_instance()), Some(raw_device()), SIZES),
        Err(AppError::CStringCreation(0))
    );
}

#[test]
fn initialize_marshals_the_request() {
    let session = bound();
    let request = session
        .initialize(probe(true, true), Some(raw_instance()), Some(raw_device()), SIZES)
        .expect("the engine can be initialized");
    assert_eq!(request.version, 1);
    assert_eq!(
        request.renderer_config,
        create_flutter_renderer_config(Some(raw_instance()), Some(raw_device()), 96)
            .expect("the configuration is built")
    );
    assert_eq!(
        request.project_args,
        FlutterProjectArgs {
            struct_size: 312,
            assets_path: b"/opt/app/data/flutter_assets\0".to_vec(),
            icu_data_path: b"/opt/app/data/icudtl.dat\0".to_vec(),
            platform_message_callback: true,
            vm_snapshot_data_size: 0,
            vm_snapshot_instructions_size: 0,
            isolate_snapshot_data_size: 0,
            isolate_snapshot_instructions_size: 0,
            root_isolate_create_callback: true,
            update_semantics_callback: false,
            custom_task_runners: false,
            shutdown_dart_vm_when_done: true,
            vsync_callback: true,
            log_message_callback: true,
            compositor: FlutterCompositor {
                struct_size: 56,
                create_backing_store_callback: true,
                collect_backing_store_callback: true,
                present_layers_callback: true,
                present_view_callback: false,
                avoid_backing_store_cache: false,
            },
        }
    );
    assert_eq!(session.state(), SessionState::Bound);
    assert_eq!(session.engine_handle(), 0);
}

#[test]
fn engine_answers_move_the_session_on() {
    let mut session = bound();
    assert_eq!(session.engine_initialized(0, 0xbeef), Ok(0xbeef));
    assert_eq!(session.state(), SessionState::EngineInitialized);
    assert_eq!(session.engine_handle(), 0xbeef);
    assert_eq!(session.engine_running(0), Ok(()));
    assert_eq!(session.state(), SessionState::Running);
    assert_eq!(session.engine_handle(), 0xbeef);
}

#[test]
fn failed_initialize_keeps_the_status() {
    for status in [1, 2, 3, -1] {
        let mut session = bound();
        assert_eq!(session.engine_initialized(status, 0), Err(AppError::FlutterEngineError(status)));
        assert_eq!(session.state(), SessionState::Bound);
        assert_eq!(session.engine_handle(), 0);
        assert_eq!(session.shutdown(), None);
    }
}

#[test]
fn failed_run_keeps_the_status_and_the_instance() {
    let mut session = bound();
    assert_eq!(session.engine_initialized(0, 0xbeef), Ok(0xbeef));
    assert_eq!(session.engine_running(2), Err(AppError::FlutterEngineError(2)));
    assert_eq!(session.state(), SessionState::EngineInitialized);
    assert_eq!(session.shutdown(), Some(0xbeef));
    assert_eq!(session.state(), SessionState::ShuttingDown);
}

#[test]
fn shutdown_of_a_session_without_instance_is_a_no_op() {
    let mut session = bound();
    assert_eq!(session.shutdown(), None);
    assert_eq!(session.state(), SessionState::Bound);
    assert_eq!(session.engine_handle(), 0);
    assert_eq!(session.shutdown(), None);
    assert_eq!(session.state(), SessionState::Bound);
}

#[test]
fn shutdown_twice_shuts_down_once() {
    let mut session = running();
    assert_eq!(session.shutdown(), Some(0xbeef));
    assert_eq!(session.state(), SessionState::ShuttingDown);
    assert_eq!(session.engine_handle(), 0);
    assert_eq!(session.shutdown(), None);
    assert_eq!(session.state(), SessionState::ShuttingDown);
    session.engine_shut_down();
    assert_eq!(session.state(), SessionState::Closed);
    assert_eq!(session.shutdown(), None);
    assert_eq!(session.state(), SessionState::Closed);
    session.engine_shut_down();
    assert_eq!(session.state(), SessionState::Closed);
}

#[test]
fn engine_shut_down_closes_only_a_session_that_shuts_down() {
    let mut session = bound();
    session.engine_shut_down();
    assert_eq!(session.state(), SessionState::Bound);
    let mut session = running();
    session.engine_shut_down();
    assert_eq!(session.state(), SessionState::Running);
    assert_eq!(session.engine_handle(), 0xbeef);
}

#[test]
fn close_request_shuts_the_engine_down_and_exits() {
    let mut session = running();
    assert_eq!(
        session.handle_window_event(WindowEvent::CloseRequested),
        vec![SessionAction::ShutdownEngine(0xbeef), SessionAction::Exit]
    );
    assert_eq!(session.state(), SessionState::ShuttingDown);
    assert_eq!(session.engine_handle(), 0);
    assert_eq!(session.shutdown(), None);
    session.engine_shut_down();
    assert_eq!(session.state(), SessionState::Closed);
    assert_eq!(session.handle_window_event(WindowEvent::CloseRequested), vec![]);
    assert_eq!(session.handle_window_event(WindowEvent::RedrawRequested), vec![]);
}

#[test]
fn redraw_renders_notifies_and_presents() {
    let mut session = running();
    assert_eq!(
        session.handle_window_event(WindowEvent::RedrawRequested),
        vec![
            SessionAction::Render(TextureFormat::Bgra8UnormSrgb),
            SessionAction::PrePresentNotify,
            SessionAction::Present
        ]
    );
    assert_eq!(session.state(), SessionState::Running);
    assert_eq!(session.compositor.render(Some(5)), None);
    assert_eq!(session.compositor.present(), Some(5));
    assert_eq!(session.compositor.present(), None);
}

#[test]
fn redraw_of_a_surface_without_pixels_asks_for_nothing() {
    let mut session = Session::new(
        config(),
        WINDOW,
        loaded(),
        TextureFormat::Rgba8Unorm,
        PhysicalSize::new(0, 480),
    )
    .expect("the session is bound");
    assert_eq!(session.engine_initialized(0, 0xbeef), Ok(0xbeef));
    assert_eq!(session.engine_running(0), Ok(()));
    assert_eq!(session.handle_window_event(WindowEvent::RedrawRequested), vec![]);
    session.handle_window_event(WindowEvent::Resized(PhysicalSize::new(640, 480)));
    assert_eq!(
        session.handle_window_event(WindowEvent::RedrawRequested),
        vec![
            SessionAction::Render(TextureFormat::Rgba8UnormSrgb),
            SessionAction::PrePresentNotify,
            SessionAction::Present
        ]
    );
}

#[test]
fn window_resized_to_nothing_and_back() {
    let mut session = running();
    assert_eq!(session.handle_window_event(WindowEvent::Resized(PhysicalSize::new(0, 0))), vec![]);
    assert_eq!(session.compositor.surface_size(), PhysicalSize::new(640, 480));
    assert_eq!(session.compositor.configuration(), Some(configuration(640, 480)));
    assert_eq!(
        session.handle_window_event(WindowEvent::Resized(PhysicalSize::new(800, 600))),
        vec![SessionAction::ConfigureSurface(configuration(800, 600))]
    );
    assert_eq!(session.compositor.surface_size(), PhysicalSize::new(800, 600));
    assert_eq!(session.compositor.configuration(), Some(configuration(800, 600)));
}

#[test]
fn other_events_ask_for_nothing() {
    let mut session = running();
    assert_eq!(session.handle_window_event(WindowEvent::Other), vec![]);
    assert_eq!(session.state(), SessionState::Running);
    assert_eq!(session.engine_handle(), 0xbeef);
}

#[test]
fn a_session_that_does_not_run_ignores_events() {
    let events = [
        WindowEvent::CloseRequested,
        WindowEvent::Resized(PhysicalSize::new(800, 600)),
        WindowEvent::RedrawRequested,
        WindowEvent::Other,
    ];
    for event in events {
        let mut session = bound();
        assert_eq!(session.handle_window_event(event), vec![]);
        assert_eq!(session.state(), SessionState::Bound);
        assert_eq!(session.compositor.surface_size(), PhysicalSize::new(640, 480));
        assert_eq!(session.engine_initialized(0, 9), Ok(9));
        assert_eq!(session.handle_window_event(event), vec![]);
        assert_eq!(session.state(), SessionState::EngineInitialized);
        assert_eq!(session.engine_handle(), 9);
        assert_eq!(session.compositor.surface_size(), PhysicalSize::new(640, 480));
    }
}

#[test]
fn events_of_another_window_are_ignored() {
    let mut session = running();
    assert_eq!(session.window_event(WINDOW + 1, WindowEvent::CloseRequested), vec![]);
    assert_eq!(session.state(), SessionState::Running);
    assert_eq!(
        session.window_event(WINDOW + 1, WindowEvent::Resized(PhysicalSize::new(800, 600))),
        vec![]
    );
    assert_eq!(session.compositor.surface_size(), PhysicalSize::new(640, 480));
    assert_eq!(
        session.window_event(WINDOW, WindowEvent::Resized(PhysicalSize::new(800, 600))),
        vec![SessionAction::ConfigureSurface(configuration(800, 600))]
    );
    assert_eq!(
        session.window_event(WINDOW, WindowEvent::CloseRequested),
        vec![SessionAction::ShutdownEngine(0xbeef), SessionAction::Exit]
    );
    assert_eq!(session.state(), SessionState::ShuttingDown);
}

fn shutdowns_asked(actions: &[SessionAction]) -> Vec<usize> {
    let mut handles = Vec::new();
    for action in actions {
        if let SessionAction::ShutdownEngine(handle) = action {
            handles.push(*handle);
        }
    }
    handles
}

#[test]
fn the_engine_is_shut_down_once_over_a_life() {
    let mut session = bound();
    let mut asked = Vec::new();
    asked.extend(session.shutdown());
    asked.extend(shutdowns_asked(&session.window_event(WINDOW, WindowEvent::CloseRequested)));
    assert_eq!(asked, vec![]);
    assert_eq!(session.engine_initialized(0, 77), Ok(77));
    assert_eq!(session.engine_running(0), Ok(()));
    asked.extend(shutdowns_asked(&session.window_event(WINDOW, WindowEvent::RedrawRequested)));
    asked.extend(shutdowns_asked(&session.window_event(WINDOW + 1, WindowEvent::CloseRequested)));
    assert_eq!(asked, vec![]);
    asked.extend(shutdowns_asked(&session.window_event(WINDOW, WindowEvent::CloseRequested)));
    asked.extend(shutdowns_asked(&session.window_event(WINDOW, WindowEvent::CloseRequested)));
    asked.extend(session.shutdown());
    session.engine_shut_down();
    asked.extend(session.shutdown());
    asked.extend(shutdowns_asked(&session.window_event(WINDOW, WindowEvent::CloseRequested)));
    assert_eq!(asked, vec![77]);
    assert_eq!(session.state(), SessionState::Closed);
}

#[test]
fn valid_configurations_are_bound() {
    let configs = [
        ("/opt/app/data", "/opt/app/libflutter_engine.so"),
        ("data", "flutter_engine.dll"),
        ("C:/workspace/build/data", "C:/libs/flutter/engine/src/out/host_debug/flutter_engine.dll"),
        ("", ""),
    ];
    for (asset_dir, flutter_engine_path) in configs {
        let config = AppConfig {
            asset_dir: asset_dir.to_string(),
            flutter_engine_path: flutter_engine_path.to_string(),
        };
        let session = Session::new(
            config.clone(),
            WINDOW,
            loaded(),
            TextureFormat::Bgra8Unorm,
            PhysicalSize::new(640, 480),
        )
        .expect("the session is bound");
        assert_eq!(session.config(), &config);
        assert_eq!(session.engine(), COMPLETE);
        assert_eq!(session.state(), SessionState::Bound);
    }
}

#[test]
fn the_surface_follows_the_compositor() {
    let mut session = Session::new(
        config(),
        WINDOW,
        loaded(),
        TextureFormat::Bgra8Unorm,
        PhysicalSize::new(0, 0),
    )
    .expect("the session is bound");
    let mut surface = None;
    let mut apply = |actions: Vec<SessionAction>, surface: &mut Option<SurfaceConfiguration>| {
        for action in actions {
            if let SessionAction::ConfigureSurface(configuration) = action {
                *surface = Some(configuration);
            }
        }
    };
    apply(session.bind_actions(), &mut surface);
    assert_eq!(surface, None);
    assert_eq!(session.engine_initialized(0, 3), Ok(3));
    assert_eq!(session.engine_running(0), Ok(()));
    let events = [
        (WindowEvent::RedrawRequested, None),
        (WindowEvent::Resized(PhysicalSize::new(0, 600)), None),
        (WindowEvent::Resized(PhysicalSize::new(800, 600)), Some(configuration(800, 600))),
        (WindowEvent::RedrawRequested, Some(configuration(800, 600))),
        (WindowEvent::Resized(PhysicalSize::new(800, 0)), Some(configuration(800, 600))),
        (WindowEvent::Other, Some(configuration(800, 600))),
        (WindowEvent::Resized(PhysicalSize::new(1, 1)), Some(configuration(1, 1))),
        (WindowEvent::Resized(PhysicalSize::new(0, 0)), Some(configuration(1, 1))),
        (WindowEvent::CloseRequested, Some(configuration(1, 1))),
        (WindowEvent::Resized(PhysicalSize::new(5, 5)), Some(configuration(1, 1))),
    ];
    for (event, expected) in events {
        apply(session.window_event(WINDOW, event), &mut surface);
        assert_eq!(surface, expected);
        assert_eq!(session.compositor.configuration(), expected);
    }
}
