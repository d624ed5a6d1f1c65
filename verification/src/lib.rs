//! Verified core of a rapier-style picking backend.
//!
//! Once per interaction tick, the library resolves which scene object each
//! on-screen pointer is pointing at: for every pointer with a known location it
//! selects the eligible cameras, follows the ray the camera projects for that
//! pointer, and reports the nearest accepted, front-facing surface as a hit
//! event.  Surfaces facing away from the viewer are skipped by re-casting past
//! them, bounded by a fixed retry budget.
//!
//! The geometry itself (viewport-to-world projection and ray-versus-shape
//! intersection) is the job of outside collaborators working in floating
//! point.  The library models their answers as plain data: a projected ray is
//! the ordered list of surfaces it would meet, nearest first, and the caster
//! picks from that list exactly as the intersection engine would.  Everything
//! that decides — camera eligibility, the collision filter, the backface
//! retry loop, and event emission — is verified here.

pub mod caster;
pub mod filter;
pub mod laws;
pub mod pass;
pub mod select;
pub mod types;
