//! Lifecycle management for system-wide input hooks.
//!
//! A hook is a scarce, fallible, stateful operating-system resource: a
//! callback registered with the OS so it is invoked for qualifying input
//! events, and later deregistered. This crate owns the part of that story
//! that can be checked: the hook state machine (set / unset transitions,
//! idempotent release, at-most-once handle surrender), the builder that
//! accumulates configuration before committing, and the identity value
//! types the machine operates on (module and thread identities).
//!
//! The OS entry points themselves (registration, removal, identity
//! lookup) are outside collaborators. An embedding layer performs them
//! and hands their outcomes to this crate as plain values; every function
//! here states in its contract what it does with each possible outcome.

mod hook_state;
mod keyboard_ll_hook;
mod module;
mod mouse_ll_hook;
mod sys_error;
mod thread_id;
mod wh;
mod windows_hook;
mod windows_hook_builder;

pub use hook_state::HookState;
pub use keyboard_ll_hook::KeyboardLLHook;
pub use module::Module;
pub use mouse_ll_hook::MouseLLHook;
pub use sys_error::SysError;
pub use thread_id::ThreadId;
pub use wh::WH;
pub use windows_hook::WindowsHook;
pub use windows_hook_builder::WindowsHookBuilder;
