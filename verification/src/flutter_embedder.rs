//! The engine's interface as plain values: where the engine library lies,
//! which of its functions were resolved, and the byte strings it is handed.

use vstd::prelude::*;
use crate::application::{AppError, AppErrorView};

verus! {

/// The version of the engine's interface that the host speaks.
pub const FLUTTER_ENGINE_VERSION: usize = 1;

/// The status with which the engine reports success.
pub const ENGINE_SUCCESS: i32 = 0;

/// Where a debug build of the engine lies.
pub const FLUTTER_ENGINE_JIT_PATH: &'static str =
    "C:/libs/flutter/engine/src/out/host_debug/flutter_engine.dll";

/// Where a release build of the engine lies.
pub const FLUTTER_ENGINE_AOT_PATH: &'static str =
    "C:/libs/flutter/engine/src/out/host_release/flutter_engine.dll";

/// Name of the table entry that initializes an engine instance.
pub const INITIALIZE_ENTRY: &'static str = "FlutterEngineInitialize";

/// Name of the table entry that runs an initialized engine instance.
pub const RUN_INITIALIZED_ENTRY: &'static str = "FlutterEngineRunInitialized";

/// Name of the table entry that shuts an engine instance down.
pub const SHUTDOWN_ENTRY: &'static str = "FlutterEngineShutdown";

/// Which build of the engine to load.
#[derive(Clone, Copy, Debug, PartialEq, Eq)]
pub enum FlutterEngineMode {
    /// The debug build, which compiles the application as it runs.
    JIT,
    /// The release build, which runs a compiled application.
    AOT,
}

impl FlutterEngineMode {
    /// The path of the engine library of this mode.
    pub open spec fn spec_path(self) -> Seq<char> {
        match self {
            FlutterEngineMode::JIT => FLUTTER_ENGINE_JIT_PATH@,
            FlutterEngineMode::AOT => FLUTTER_ENGINE_AOT_PATH@,
        }
    }

    /// The path of the engine library of this mode.
    pub fn path(self) -> (path: &'static str)
        ensures
            path@ == self.spec_path(),
    {
        match self {
            FlutterEngineMode::JIT => FLUTTER_ENGINE_JIT_PATH,
            FlutterEngineMode::AOT => FLUTTER_ENGINE_AOT_PATH,
        }
    }
}

/// Decides whether the engine library of `mode` can be loaded, given whether
/// anything exists at its path: the path to load, or the error that names
/// the path where nothing lies.
pub fn load_flutter_engine(mode: FlutterEngineMode, engine_found: bool) -> (result: Result<
    String,
    AppError,
>)
    ensures
        match result {
            Ok(path) => engine_found && path@ == mode.spec_path(),
            Err(error) => !engine_found && error@ == AppErrorView::PathNoFound(mode.spec_path()),
        },
{
    let path = mode.path().to_owned();
    if engine_found {
        Ok(path)
    } else {
        Err(AppError::PathNoFound(path))
    }
}

/// Which of the functions that a session needs the engine's table resolved.
#[derive(Clone, Copy, Debug, PartialEq, Eq)]
pub struct EngineProcTable {
    /// The table holds the function that initializes an instance.
    pub initialize: bool,
    /// The table holds the function that runs an initialized instance.
    pub run_initialized: bool,
    /// The table holds the function that shuts an instance down.
    pub shutdown: bool,
}

impl EngineProcTable {
    /// Every function that a session needs is there.
    pub open spec fn is_complete(self) -> bool {
        self.initialize && self.run_initialized && self.shutdown
    }

    /// The name of the first needed function that the table lacks.
    pub open spec fn missing_entry(self) -> Option<Seq<char>> {
        if !self.initialize {
            Some(INITIALIZE_ENTRY@)
        } else if !self.run_initialized {
            Some(RUN_INITIALIZED_ENTRY@)
        } else if !self.shutdown {
            Some(SHUTDOWN_ENTRY@)
        } else {
            None
        }
    }
}

/// How far loading the engine library came.
#[derive(Clone, Debug, PartialEq, Eq)]
pub enum EngineLoad {
    /// Nothing exists at the engine's path.
    PathMissing,
    /// The dynamic loader refused the file, for the reason given.
    LoadFailed(String),
    /// The library was loaded and lacks the entry point that fills the table.
    EntryPointMissing(String),
    /// The entry point ran, answered with `status` and left `table`.
    Resolved { status: i32, table: EngineProcTable },
}

/// What loading the engine at `engine_path` comes to, once it is known how
/// far it came.
pub open spec fn proc_table_of(engine_path: Seq<char>, load: EngineLoad) -> Result<
    EngineProcTable,
    AppErrorView,
> {
    match load {
        EngineLoad::PathMissing => Err(AppErrorView::PathNoFound(engine_path)),
        EngineLoad::LoadFailed(reason) => Err(AppErrorView::FlutterEngineLoad(reason@)),
        EngineLoad::EntryPointMissing(reason) => Err(AppErrorView::FlutterEngineSymbol(reason@)),
        EngineLoad::Resolved { status, table } => if status != ENGINE_SUCCESS {
            Err(AppErrorView::FlutterEngineError(status))
        } else {
            match table.missing_entry() {
                Some(name) => Err(AppErrorView::FlutterEngineProcTable(name)),
                None => Ok(table),
            }
        },
    }
}

/// Judges an attempt to load the engine at `engine_path`.
///
/// The table is handed out only if the file was there, the loader took it,
/// its entry point was found and reported success, and the table holds every
/// function that a session needs. Otherwise the error says which of these
/// failed first.
pub fn load_proc_table(engine_path: String, load: EngineLoad) -> (result: Result<
    EngineProcTable,
    AppError,
>)
    ensures
        match result {
            Ok(table) => proc_table_of(engine_path@, load) == Ok::<EngineProcTable, AppErrorView>(
                table,
            ),
            Err(error) => proc_table_of(engine_path@, load) == Err::<EngineProcTable, AppErrorView>(
                error@,
            ),
        },
        result is Ok ==> result->Ok_0.is_complete(),
{
    match load {
        EngineLoad::PathMissing => Err(AppError::PathNoFound(engine_path)),
        EngineLoad::LoadFailed(reason) => Err(AppError::FlutterEngineLoad(reason)),
        EngineLoad::EntryPointMissing(reason) => Err(AppError::FlutterEngineSymbol(reason)),
        EngineLoad::Resolved { status, table } => {
            if status != ENGINE_SUCCESS {
                Err(AppError::FlutterEngineError(status))
            } else if !table.initialize {
                Err(AppError::FlutterEngineProcTable(INITIALIZE_ENTRY.to_owned()))
            } else if !table.run_initialized {
                Err(AppError::FlutterEngineProcTable(RUN_INITIALIZED_ENTRY.to_owned()))
            } else if !table.shutdown {
                Err(AppError::FlutterEngineProcTable(SHUTDOWN_ENTRY.to_owned()))
            } else {
                Ok(table)
            }
        },
    }
}

/// The sizes of the records that the engine is handed, as its interface lays
/// them out. Each record is stamped with its size, by which the engine tells
/// the versions of its interface apart.
#[derive(Clone, Copy, Debug, PartialEq, Eq)]
pub struct AbiSizes {
    /// Size of the project arguments.
    pub project_args: usize,
    /// Size of the Vulkan renderer configuration.
    pub renderer_config: usize,
    /// Size of the compositor record.
    pub compositor: usize,
}

/// The record through which the engine asks the host to allocate, release
/// and composite: which of its callbacks the host registers.
#[derive(Clone, Copy, Debug, PartialEq, Eq)]
pub struct FlutterCompositor {
    /// The size of the record as the engine's interface lays it out.
    pub struct_size: usize,
    /// The host makes backing stores for the engine.
    pub create_backing_store_callback: bool,
    /// The host releases backing stores for the engine.
    pub collect_backing_store_callback: bool,
    /// The host composites the layers of a frame.
    pub present_layers_callback: bool,
    /// The host composites the layers of a frame of one of several views.
    pub present_view_callback: bool,
    /// The engine is not to keep backing stores for later frames.
    pub avoid_backing_store_cache: bool,
}

/// The compositor record of this host: stamped with `struct_size`, with the
/// three callbacks that a single view needs, and with the engine free to
/// keep backing stores.
pub open spec fn compositor_record(struct_size: usize) -> FlutterCompositor {
    FlutterCompositor {
        struct_size,
        create_backing_store_callback: true,
        collect_backing_store_callback: true,
        present_layers_callback: true,
        present_view_callback: false,
        avoid_backing_store_cache: false,
    }
}

/// What the engine is told of the application when it is initialized.
#[derive(Clone, Debug, PartialEq, Eq)]
pub struct FlutterProjectArgs {
    /// The size of the record as the engine's interface lays it out.
    pub struct_size: usize,
    /// The path of the application's assets, as a C string.
    pub assets_path: Vec<u8>,
    /// The path of the ICU data file, as a C string.
    pub icu_data_path: Vec<u8>,
    /// The host takes the messages that the application sends it.
    pub platform_message_callback: bool,
    /// Size of the snapshot of the VM's data that the host supplies.
    pub vm_snapshot_data_size: usize,
    /// Size of the snapshot of the VM's instructions that the host supplies.
    pub vm_snapshot_instructions_size: usize,
    /// Size of the snapshot of the isolate's data that the host supplies.
    pub isolate_snapshot_data_size: usize,
    /// Size of the snapshot of the isolate's instructions that the host
    /// supplies.
    pub isolate_snapshot_instructions_size: usize,
    /// The host is told when the root isolate was made.
    pub root_isolate_create_callback: bool,
    /// The host takes updates of the semantics tree.
    pub update_semantics_callback: bool,
    /// The host supplies task runners of its own.
    pub custom_task_runners: bool,
    /// The engine shuts the VM down with its last instance.
    pub shutdown_dart_vm_when_done: bool,
    /// The host paces the engine's frames.
    pub vsync_callback: bool,
    /// The host takes the engine's log messages.
    pub log_message_callback: bool,
    /// The compositor record.
    pub compositor: FlutterCompositor,
}

impl FlutterProjectArgs {
    /// These are the arguments of this host for the given paths: stamped
    /// with `struct_size`, with the paths as C strings, the callbacks for
    /// platform messages, the root isolate, vsync and log messages, no
    /// snapshot and no task runner of the host's, and the VM shut down with
    /// the engine.
    pub open spec fn describes(
        &self,
        struct_size: usize,
        assets_path: Seq<u8>,
        icu_data_path: Seq<u8>,
        compositor: FlutterCompositor,
    ) -> bool {
        &&& self.struct_size == struct_size
        &&& self.assets_path@ == assets_path.push(0u8)
        &&& self.icu_data_path@ == icu_data_path.push(0u8)
        &&& self.platform_message_callback
        &&& self.vm_snapshot_data_size == 0
        &&& self.vm_snapshot_instructions_size == 0
        &&& self.isolate_snapshot_data_size == 0
        &&& self.isolate_snapshot_instructions_size == 0
        &&& self.root_isolate_create_callback
        &&& !self.update_semantics_callback
        &&& !self.custom_task_runners
        &&& self.shutdown_dart_vm_when_done
        &&& self.vsync_callback
        &&& self.log_message_callback
        &&& self.compositor == compositor
    }
}

/// No byte of `bytes` is zero.
pub open spec fn nul_free(bytes: Seq<u8>) -> bool {
    forall|i: int| 0 <= i < bytes.len() ==> bytes[i] != 0u8
}

/// `position` is where the first zero byte of `bytes` stands.
pub open spec fn is_first_nul(bytes: Seq<u8>, position: int) -> bool {
    &&& 0 <= position < bytes.len()
    &&& bytes[position] == 0u8
    &&& forall|i: int| 0 <= i < position ==> bytes[i] != 0u8
}

/// Turns `bytes` into a C string: the same bytes followed by one zero byte.
///
/// A C string ends at its first zero byte, so bytes that hold one cannot be
/// handed over whole: they are refused with the position of that byte.
pub fn c_string(bytes: &[u8]) -> (result: Result<Vec<u8>, usize>)
    ensures
        match result {
            Ok(buffer) => nul_free(bytes@) && buffer@ == bytes@.push(0u8),
            Err(position) => is_first_nul(bytes@, position as int),
        },
{
    let mut buffer: Vec<u8> = Vec::new();
    let mut i: usize = 0;
    while i < bytes.len()
        invariant
            i <= bytes.len(),
            buffer@ == bytes@.take(i as int),
            forall|j: int| 0 <= j < i ==> bytes[j] != 0u8,
        decreases bytes.len() - i,
    {
        let byte: u8 = bytes[i];
        if byte == 0 {
            return Err(i);
        }
        buffer.push(byte);
        proof {
            assert(bytes@.take(i as int + 1) == bytes@.take(i as int).push(byte));
        }
        i += 1;
    }
    proof {
        assert(bytes@.take(i as int) == bytes@);
    }
    buffer.push(0);
    Ok(buffer)
}

} // verus!
