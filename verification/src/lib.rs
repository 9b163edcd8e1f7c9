//! Bring-up and resource-lifetime protocol of a discrete GPU on a
//! hot-pluggable bus, as a verified state machine.
//!
//! The crate decides; its caller acts. Every hardware operation is handed out
//! as a [`resource::Action`], and its outcome comes back as an event.
//!
//! - [`identity`]: which devices the driver claims.
//! - [`counter`]: the source of auxiliary device ids.
//! - [`resource`]: what a probe acquires, and what the caller is asked to do.
//! - [`slot`]: the probe/unbind state machine of one device.
//! - [`driver`]: all devices together, and the invariant that no two of them
//!   use the same auxiliary id.
//! - [`trace`]: what whole probes and unbinds come to.
//! - [`gem`]: driver data of graphics-memory objects.

pub mod counter;
pub mod identity;
pub mod resource;
pub mod slot;
pub mod driver;
pub mod gem;
pub mod trace;
