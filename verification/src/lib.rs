//! Build-time compilation of declarative hook descriptors into paired
//! native and host binding artifacts, and the runtime address machinery
//! they rely on: thunk-chasing address resolution, the executable identity
//! cache, and the virtual-dispatch-table extractor with its per-identity
//! cache.
pub mod address;
pub mod assembly_utils;
pub mod codec;
pub mod config_codegen;
pub mod csharp;
pub mod ensure_layout;
pub mod hook_parse;
pub mod hook_assignment;
pub mod hook_codegen;
pub mod hook_evaluation;
pub mod identity;
pub mod riri_hook;
pub mod interleave;
pub mod logger;
pub mod mod_package;
pub mod memory;
pub mod platform;
pub mod timestamp;
pub mod utils;
pub mod vtable;
pub mod resolver;
