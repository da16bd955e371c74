//! Verified core of a set of small GPU rendering examples.
//!
//! The crate holds the host-side logic those examples share: the byte-layout
//! arithmetic for the packed records they upload to the GPU, the meshes they
//! draw, the rotation schedule of the animated triangle, and the window
//! session state machine that decides when the swap surface must be
//! reconfigured and when a frame may be rendered.  Everything that talks to
//! the GPU or the window system lives outside this crate and only consumes
//! the plain values produced here.

pub mod layout;
pub mod mesh;
pub mod records;
pub mod rotation;
pub mod session;
