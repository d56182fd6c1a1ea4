//! A native bridge that lets a host process drive an OS-level application
//! window through a narrow boundary: configuration data is marshaled from
//! plain values into validated native ones, and the OS event loop is reduced
//! to a small lifecycle (start, running, shutdown) that a caller can reason
//! about without touching OS event primitives.
//!
//! The OS work itself (creating the window, waiting for events, printing)
//! happens outside this library; everything here is the decision logic,
//! verified: UTF-8 validation of the window title, pass-through of the
//! window geometry, the event-dispatch policy of the host loop, and the
//! controller that ties them into one lifecycle.

pub mod config;
pub mod controller;
pub mod events;
pub mod greeting;
pub mod utf8;
