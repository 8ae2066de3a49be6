//! The device context: what is created once at startup, in which order, and
//! how the device's diagnostics are classified.

use crate::render::descriptor_heap::ObjectId;
use vstd::prelude::*;

verus! {

/// The feature level the device must support: 12.2.
pub const FEATURE_LEVEL_12_2: i32 = 0xc200;

/// The factory is created for debugging.
pub const CREATE_FACTORY_DEBUG: u32 = 1;

/// Adapters are ordered by performance, the fastest first.
pub const GPU_PREFERENCE_HIGH_PERFORMANCE: i32 = 2;

/// Command lists that the queue executes directly.
pub const COMMAND_LIST_TYPE_DIRECT: i32 = 0;

/// The device context: factory, device, the one command queue and the one
/// command allocator.
#[derive(Clone, Copy, Debug, PartialEq, Eq, Structural)]
pub struct Gpu {
    pub factory: ObjectId,
    pub device: ObjectId,
    pub queue: ObjectId,
    pub command_allocator: ObjectId,
}

/// One device call of the initialization.
#[derive(Clone, Copy, Debug, PartialEq, Eq, Structural)]
pub enum InitStep {
    /// Get the debug interface and enable the debug layer.
    EnableDebugLayer { gpu_based_validation: bool },
    /// Create the factory with `flags`.
    CreateFactory { flags: u32 },
    /// Take the software adapter.
    EnumWarpAdapter,
    /// Take adapter `index` in the order of `preference`.
    EnumAdapterByGpuPreference { index: u32, preference: i32 },
    /// Create the device on the adapter.
    CreateDevice { feature_level: i32 },
    /// Register the callback that logs the device's diagnostics.
    RegisterMessageCallback,
    /// Create the command queue.
    CreateCommandQueue { list_type: i32 },
    /// Create the command allocator.
    CreateCommandAllocator { list_type: i32 },
}

/// Why the device context could not be created.
#[derive(Clone, Copy, Debug, PartialEq, Eq, Structural)]
pub enum InitializationError {
    /// The device call `step` failed with result code `code`.
    DeviceCall { step: InitStep, code: i32 },
    /// The device accepted the diagnostics callback and gave it no cookie.
    CallbackNotRegistered,
}

/// How severe a diagnostic is for the log.
#[derive(Clone, Copy, Debug, PartialEq, Eq, Structural)]
pub enum LogLevel {
    Error,
    Warn,
    Info,
}

/// The area of the device a diagnostic comes from.
#[derive(Clone, Copy, Debug, PartialEq, Eq, Structural)]
pub enum MessageCategory {
    ApplicationDefined,
    Miscellaneous,
    Initialization,
    Cleanup,
    Compilation,
    StateCreation,
    StateSetting,
    StateGetting,
    ResourceManipulation,
    Execution,
    Shader,
    Unknown,
}

/// How a diagnostic of the device is logged.
#[derive(Clone, Copy, Debug, PartialEq, Eq, Structural)]
pub struct DebugMessage {
    /// The level it is logged at.
    pub level: LogLevel,
    /// Whether it reports corruption, which the log line says in words.
    pub corruption: bool,
    /// The area it comes from.
    pub category: MessageCategory,
    /// The device's number of the message.
    pub id: i32,
}

/// The steps of the initialization, in order: with the debug layer, enable
/// it first and create the factory for debugging; take the software adapter
/// or the fastest one; create the device; with the debug layer, register the
/// diagnostics callback; create queue and allocator for direct command
/// lists.
pub open spec fn spec_init_steps(use_warp: bool, enable_debug_layer: bool) -> Seq<InitStep> {
    let debug = if enable_debug_layer {
        seq![InitStep::EnableDebugLayer { gpu_based_validation: true }]
    } else {
        Seq::<InitStep>::empty()
    };
    let factory = seq![
        InitStep::CreateFactory {
            flags: if enable_debug_layer {
                CREATE_FACTORY_DEBUG
            } else {
                0
            },
        },
    ];
    let adapter = if use_warp {
        seq![InitStep::EnumWarpAdapter]
    } else {
        seq![
            InitStep::EnumAdapterByGpuPreference {
                index: 0,
                preference: GPU_PREFERENCE_HIGH_PERFORMANCE,
            },
        ]
    };
    let device = seq![InitStep::CreateDevice { feature_level: FEATURE_LEVEL_12_2 }];
    let callback = if enable_debug_layer {
        seq![InitStep::RegisterMessageCallback]
    } else {
        Seq::<InitStep>::empty()
    };
    let rest = seq![
        InitStep::CreateCommandQueue { list_type: COMMAND_LIST_TYPE_DIRECT },
        InitStep::CreateCommandAllocator { list_type: COMMAND_LIST_TYPE_DIRECT },
    ];
    debug + factory + adapter + device + callback + rest
}

/// The category with the device's number `category`.
pub open spec fn spec_message_category(category: i32) -> MessageCategory {
    if category == 0 {
        MessageCategory::ApplicationDefined
    } else if category == 1 {
        MessageCategory::Miscellaneous
    } else if category == 2 {
        MessageCategory::Initialization
    } else if category == 3 {
        MessageCategory::Cleanup
    } else if category == 4 {
        MessageCategory::Compilation
    } else if category == 5 {
        MessageCategory::StateCreation
    } else if category == 6 {
        MessageCategory::StateSetting
    } else if category == 7 {
        MessageCategory::StateGetting
    } else if category == 8 {
        MessageCategory::ResourceManipulation
    } else if category == 9 {
        MessageCategory::Execution
    } else if category == 10 {
        MessageCategory::Shader
    } else {
        MessageCategory::Unknown
    }
}

/// The log level for the device's severity number: corruption (0) and error
/// (1) are errors, warning (2) is a warning, everything else is
/// information.
pub open spec fn spec_log_level(severity: i32) -> LogLevel {
    if severity == 0 || severity == 1 {
        LogLevel::Error
    } else if severity == 2 {
        LogLevel::Warn
    } else {
        LogLevel::Info
    }
}

impl MessageCategory {
    /// The category's name in the log.
    pub fn name(self) -> (name: &'static str)
        ensures
            name@ == match self {
                MessageCategory::ApplicationDefined => "Application Defined"@,
                MessageCategory::Miscellaneous => "Miscellaneous"@,
                MessageCategory::Initialization => "Initialization"@,
                MessageCategory::Cleanup => "Cleanup"@,
                MessageCategory::Compilation => "Compilation"@,
                MessageCategory::StateCreation => "State Creation"@,
                MessageCategory::StateSetting => "State Setting"@,
                MessageCategory::StateGetting => "State Getting"@,
                MessageCategory::ResourceManipulation => "Resource Manipulation"@,
                MessageCategory::Execution => "Execution"@,
                MessageCategory::Shader => "Shader"@,
                MessageCategory::Unknown => "Unknown"@,
            },
    {
        match self {
            MessageCategory::ApplicationDefined => "Application Defined",
            MessageCategory::Miscellaneous => "Miscellaneous",
            MessageCategory::Initialization => "Initialization",
            MessageCategory::Cleanup => "Cleanup",
            MessageCategory::Compilation => "Compilation",
            MessageCategory::StateCreation => "State Creation",
            MessageCategory::StateSetting => "State Setting",
            MessageCategory::StateGetting => "State Getting",
            MessageCategory::ResourceManipulation => "Resource Manipulation",
            MessageCategory::Execution => "Execution",
            MessageCategory::Shader => "Shader",
            MessageCategory::Unknown => "Unknown",
        }
    }
}

impl DebugMessage {
    /// What the log line starts with, before the category.
    pub fn prefix(&self) -> (prefix: &'static str)
        ensures
            prefix@ == if self.corruption {
                "D3D12 Corruption "@
            } else {
                "D3D12 "@
            },
    {
        if self.corruption {
            "D3D12 Corruption "
        } else {
            "D3D12 "
        }
    }
}

impl Gpu {
    /// The device calls that create the device context, in order.
    pub fn init_steps(use_warp: bool, enable_debug_layer: bool) -> (steps: Vec<InitStep>)
        ensures
            steps@ == spec_init_steps(use_warp, enable_debug_layer),
    {
        let mut steps: Vec<InitStep> = Vec::new();
        let mut factory_flags: u32 = 0;
        if enable_debug_layer {
            steps.push(InitStep::EnableDebugLayer { gpu_based_validation: true });
            factory_flags = CREATE_FACTORY_DEBUG;
        }
        steps.push(InitStep::CreateFactory { flags: factory_flags });
        if use_warp {
            steps.push(InitStep::EnumWarpAdapter);
        } else {
            steps.push(
                InitStep::EnumAdapterByGpuPreference {
                    index: 0,
                    preference: GPU_PREFERENCE_HIGH_PERFORMANCE,
                },
            );
        }
        steps.push(InitStep::CreateDevice { feature_level: FEATURE_LEVEL_12_2 });
        if enable_debug_layer {
            steps.push(InitStep::RegisterMessageCallback);
        }
        steps.push(InitStep::CreateCommandQueue { list_type: COMMAND_LIST_TYPE_DIRECT });
        steps.push(InitStep::CreateCommandAllocator { list_type: COMMAND_LIST_TYPE_DIRECT });
        proof {
            assert(steps@ =~= spec_init_steps(use_warp, enable_debug_layer));
        }
        steps
    }

    /// Judges the result code of the device call `step`: a negative code is
    /// a failure, and ends the initialization.
    pub fn check_step(step: InitStep, code: i32) -> (checked: Result<(), InitializationError>)
        ensures
            code >= 0 ==> checked == Ok::<(), InitializationError>(()),
            code < 0 ==> checked == Err::<(), InitializationError>(
                InitializationError::DeviceCall { step, code },
            ),
    {
        if code < 0 {
            Err(InitializationError::DeviceCall { step, code })
        } else {
            Ok(())
        }
    }

    /// Judges the cookie the device gave for the diagnostics callback: zero
    /// means the callback is not registered.
    pub fn check_callback_cookie(cookie: u32) -> (checked: Result<(), InitializationError>)
        ensures
            cookie != 0 ==> checked == Ok::<(), InitializationError>(()),
            cookie == 0 ==> checked == Err::<(), InitializationError>(
                InitializationError::CallbackNotRegistered,
            ),
    {
        if cookie == 0 {
            Err(InitializationError::CallbackNotRegistered)
        } else {
            Ok(())
        }
    }

    /// The device context of the objects that the steps of `init_steps`
    /// created.
    pub fn new(
        factory: ObjectId,
        device: ObjectId,
        queue: ObjectId,
        command_allocator: ObjectId,
    ) -> (gpu: Self)
        ensures
            gpu == (Gpu { factory, device, queue, command_allocator }),
    {
        Gpu { factory, device, queue, command_allocator }
    }
}

/// Classifies a diagnostic of the device, given by the device's numbers for
/// its category and severity and by its message number.
pub fn log_debug_layer_message(category: i32, severity: i32, id: i32) -> (message: DebugMessage)
    ensures
        message == (DebugMessage {
            level: spec_log_level(severity),
            corruption: severity == 0,
            category: spec_message_category(category),
            id,
        }),
{
    let category = if category == 0 {
        MessageCategory::ApplicationDefined
    } else if category == 1 {
        MessageCategory::Miscellaneous
    } else if category == 2 {
        MessageCategory::Initialization
    } else if category == 3 {
        MessageCategory::Cleanup
    } else if category == 4 {
        MessageCategory::Compilation
    } else if category == 5 {
        MessageCategory::StateCreation
    } else if category == 6 {
        MessageCategory::StateSetting
    } else if category == 7 {
        MessageCategory::StateGetting
    } else if category == 8 {
        MessageCategory::ResourceManipulation
    } else if category == 9 {
        MessageCategory::Execution
    } else if category == 10 {
        MessageCategory::Shader
    } else {
        MessageCategory::Unknown
    };
    if severity == 0 {
        DebugMessage { level: LogLevel::Error, corruption: true, category, id }
    } else if severity == 1 {
        DebugMessage { level: LogLevel::Error, corruption: false, category, id }
    } else if severity == 2 {
        DebugMessage { level: LogLevel::Warn, corruption: false, category, id }
    } else {
        DebugMessage { level: LogLevel::Info, corruption: false, category, id }
    }
}

} // verus!
