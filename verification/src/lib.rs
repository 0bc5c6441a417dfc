//! Translation of native windowing-backend input events into a canonical,
//! backend-independent input event model.
//!
//! The translator is a pure function: each native event, together with the
//! logical window extents, is mapped to zero, one, or two canonical events.
//! Positions are carried as exact rational scalars, so the centre-origin
//! coordinate transform, the wheel scaling and the controller-axis
//! normalization are all stated and proved exactly.

pub mod convert;
pub mod events;
pub mod laws;
pub mod native;
pub mod scalar;
