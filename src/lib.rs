//! Naming engine for JNI exports: reads the `jni` marker attribute on
//! functions and modules and rewrites exported functions to the
//! `Java_<package>_<class>_<method>` symbol convention.
//!
//! Declarations are modelled by the parts the engine reads and writes
//! (`FnDecl`, `ModDecl`, `Item`); attribute arguments arrive as the source
//! text of their tokens. The module pass only rewrites the markers of the
//! functions directly inside; each function is renamed by its own pass.

pub mod attr;
pub mod dispatch;
pub mod function;
pub mod game;
pub mod module;
pub mod pipeline;
pub mod prefix;
pub mod text;

pub use attr::{get_value, needs_fallback, JniError};
pub use dispatch::{jni, Item};
pub use function::{proc_fun, FnDecl, FnProcessor, Meta, Visibility};
pub use module::{is_jni_path, mark_children, proc_mod, Child, ModDecl};
pub use pipeline::{expand_fn, expand_module};
pub use prefix::{resolve_prefix, EnvironmentCache};
pub use text::{dots_to_underscores, str_eq};
