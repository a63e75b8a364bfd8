//! Retrieval of a host machine identifier (UUID) as reported by the
//! operating system's own tooling.
//!
//! The library separates the verified logic — decoding captured command
//! output, extracting the identifier token from the Windows query format,
//! and dispatching over the supported platforms — from the act of spawning
//! an external process, which callers supply through the [`CommandRunner`]
//! trait.

pub mod decode;
pub mod error;
pub mod laws;
pub mod machineid;
pub mod text;

pub use error::MachineIdError;
pub use machineid::get;
pub use machineid::get_via_linux_shell;
pub use machineid::get_via_macos_shell;
pub use machineid::get_via_windows_shell;
pub use machineid::transform_windows_output;
pub use machineid::CommandRunner;
pub use machineid::Platform;
