//! Verified core of the Pumpkin WebAssembly plugin host: signature sections of
//! plugin binaries, the sandbox and socket policy granted to plugins, the
//! routing of their event subscriptions, the command tree that they build and
//! the argument values they read, the flattened NBT trees they exchange, and
//! the value conversions at the plugin boundary.

pub mod text;
pub mod leb128;
pub mod sections;
pub mod crypto;
pub mod signature;
pub mod market;
pub mod socket_policy;
pub mod sandbox;
pub mod loader;
pub mod commands;
pub mod events;
pub mod conversions;
pub mod bridge;
pub mod logging;
pub mod locale;
pub mod nbt;
pub mod command_args;
