//! A verified model of a small kernel's interrupt-dispatch core: the legacy
//! interrupt controllers, the vector table, the scancode queue that bridges
//! interrupt context and task context, the cooperative executor it feeds, and
//! the interrupt-safe log sink.
//!
//! Hardware itself (port reads, table activation, end-of-interrupt writes) is
//! outside the verified boundary; the library works on plain values that a
//! thin unverified shell hands in and carries out.

pub mod executor;
pub mod framebuffer;
pub mod interrupts;
pub mod kernel;
pub mod level;
pub mod logger;
pub mod mutex;
pub mod pic;
pub mod queue;
pub mod task;

pub use level::LevelFilter;
pub use level::convert_level;
