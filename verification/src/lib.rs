//! Dynamic binding core for the OmniMIDI KDMAPI driver.
//!
//! The library locates the driver module, resolves its four entry points,
//! validates that the driver is ready, and exposes a small lifecycle wrapper
//! (`start`, `forward_data`, `stop`) guarded by an initialization flag. The
//! platform work itself (module loading, symbol resolution, the driver calls)
//! is performed by the host: the core is a state machine that hands the host
//! one action at a time and consumes the outcome as an event.

pub mod binding;
pub mod diagnostic;
pub mod resolver;

pub use binding::Action;
pub use binding::Binding;
pub use binding::EntryPoints;
pub use binding::Event;
pub use binding::Phase;
pub use binding::SendCommand;
pub use binding::StepOutcome;
pub use binding::TerminateCommand;
pub use diagnostic::Diagnostic;
pub use diagnostic::Symbol;
pub use resolver::build_fallback_path;
pub use resolver::directory_from_buffer;
pub use resolver::module_file_name;
