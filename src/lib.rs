//! Verified core of a small real-time scene: the index topology of a revolved
//! surface mesh, the integer pattern behind an animated procedural texture, the
//! fixed-cadence texture refresh clock, the per-frame phase machine and the
//! decisions of the background streaming driver.
pub mod clock;
pub mod driver;
pub mod frame;
pub mod interface;
pub mod mesh;
pub mod texture;
