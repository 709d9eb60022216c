//! A bridge between a tick-driven host and an asynchronous multiworld client.
//!
//! Commands travel from the host thread to a network writer task, and events
//! travel from a network reader task back to the host thread, each through a
//! bounded FIFO channel. The decisions of the background tasks and of the
//! connection sequence are pure step functions, so that their contracts can be
//! stated and proved here while the runtime that drives them lives outside.
pub mod bridge;
pub mod factory;
pub mod protocol;
pub mod session;
pub mod tasks;
