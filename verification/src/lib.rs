//! First-person rendering demo core: camera orientation, movement, and
//! light-to-shader uniform synchronisation.
//!
//! All scalar quantities are fixed-point integers in thousandths ("milli"
//! units): angles are millidegrees, distances are milli world units, and
//! colour strengths are milli intensities. The rendering front end converts
//! between these and the GPU's floating-point values at the boundary, and
//! performs the GL calls that the library describes as data.

pub mod camera;
pub mod helper;
pub mod light;
pub mod mesh;
pub mod object;
pub mod renderer;
pub mod shader;
pub mod vec3;
