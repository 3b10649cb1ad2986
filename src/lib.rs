//! A bounded, thread-safe object pool: handles borrow reusable instances and
//! give them back to the pool when they are dropped.

mod free_stack;
mod memory_manager;

pub use free_stack::FreeStack;
pub use memory_manager::idle_or_default;
pub use memory_manager::MemoryBlock;
pub use memory_manager::MemoryManager;
