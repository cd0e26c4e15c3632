//! Mouse picking and scene planning for a rigid-body sandbox.
//!
//! The library holds the exact, integer part of the work: turning a cursor
//! position and a viewport into a normalized-device-coordinate pick point,
//! deciding when a cast is made or dropped, planning the starting scene, and
//! turning collision events into debug colours. The floating-point
//! unprojection through the camera matrices, and everything that talks to the
//! game engine, stand outside it.
pub mod events;
pub mod pick;
pub mod scene;
