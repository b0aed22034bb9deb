//! A counter shown on a UI surface and raised by one button.
//!
//! The library holds the decisions: what one button activation does to the
//! counter, how a weak back-reference to the live surface is resolved, and
//! the small life cycle of the surface (idle, then running). Rendering and the
//! event loop itself belong to the UI toolkit that drives these functions.
pub mod error;
pub mod counter;
pub mod surface;
pub mod registry;
pub mod laws;

pub use error::AppError;
pub use counter::{increment, resolve};
pub use surface::{Event, Phase, Surface};
pub use registry::{Registry, WeakHandle};
