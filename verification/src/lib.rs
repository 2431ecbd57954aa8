//! An allocator facade: a thin, panic-free adapter between callers that
//! describe memory requests as (size, alignment) layouts and a backend
//! allocation engine that provides the raw allocate / deallocate /
//! reallocate / usable-size primitives.
//!
//! The adapter normalizes the degenerate requests that most backends refuse
//! to handle — zero-size allocations, null pointers, and resizes across the
//! zero boundary — before delegating to the backend. All zero-size
//! allocations share one fixed sentinel address that is never handed to the
//! backend.

pub mod backend;
pub mod facade;
pub mod layout;
pub mod model;

pub use facade::SnMalloc;
pub use layout::Layout;
