//! A global allocator adapter for mimalloc.
//!
//! The library states, and proves, how each of the runtime's four allocator
//! hooks (allocate, allocate zeroed, deallocate, resize) is translated into a
//! call of mimalloc's C interface: which entry point is used and with which
//! size and alignment. The calls themselves go through raw pointers and are
//! made by the thin `GlobalAlloc` impl that links mimalloc in.
//!
//! It also holds the rule for mimalloc's hardening modes: a build may choose
//! at most one of them.

pub mod adapter;
pub mod hardening;
pub mod request;

pub use adapter::{ForeignCall, MiMalloc};
pub use hardening::{select_mode, ConfigError, HardeningMode, ModeOptions};
pub use request::AllocRequest;
