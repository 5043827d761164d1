//! Warm WebAssembly instances: linear memories that can be grown, captured and
//! put back, and instances that are reset to a captured state instead of being
//! built again.

pub mod api_instance;
pub mod api_store;
pub mod cow;
pub mod error;
pub mod grow;
pub mod instance;
pub mod instance_laws;
pub mod kept_memory;
pub mod memory;
pub mod memory_laws;
pub mod memory_type;
pub mod mmap;
pub mod mmap_pool;
pub mod module;
pub mod owned_memory;
pub mod shared_memory;
pub mod snapshot;
pub mod store;
pub mod subscription;
pub mod sys_instance;
pub mod table;
pub mod text;
pub mod transport;
pub mod units;
pub mod vm_memory;
pub mod wasm_mmap;
pub mod zero;
