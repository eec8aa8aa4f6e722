//! Toggle notifications for a details element.
//!
//! Every mutation of the element's `open` attribute bumps a per-element
//! counter and queues a notification that captures the new counter value.
//! When the owning window later runs its queued tasks, a notification fires
//! the `toggle` event only if its target still exists and its captured value
//! still equals the element's counter, so a burst of mutations yields a
//! single event for the latest one.

pub mod element;
pub mod window;
pub mod laws;
