//! Verified core of a one-time graphics bootstrap sequence.
//!
//! The library covers the decision logic that stands up a rendering context:
//! validating required capability names against the available ones, selecting
//! a physical device whose queue families cover graphics and presentation,
//! deriving the swapchain parameters from the surface capabilities, and
//! tracking the ordered creation and reverse-ordered teardown of the objects.
//! The driver calls themselves are performed by an unverified shell that
//! feeds this library plain values and obeys its decisions.

pub mod capability;
pub mod context;
pub mod device;
pub mod error;
pub mod messenger;
pub mod orchestrator;
