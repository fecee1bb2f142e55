//! Builds a package's bundled C/C++ sources through CMake and links it
//! against the libraries that sibling packages have already published to a
//! shared artifact registry.
//!
//! `Config` gathers a package's settings and generates its CMake
//! description. A build is a session: `Config::build` returns the first
//! `Action`, and each `Event` handed to `Config::step` yields the next one,
//! so that the file system, the registry and CMake stay with the caller.

pub mod config;
pub mod descriptor;
pub mod laws;
pub mod paths;
pub mod registry;
pub mod scaffold;
pub mod session;

pub use config::{Config, ConfigError, LinkType};
pub use registry::{Registry, RegistryEntry};
pub use scaffold::{skeleton, Skeleton};
pub use session::{Action, Event, SessionError, ToolInvocation};
