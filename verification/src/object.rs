pub mod cube;
pub mod directional_light;
pub mod light;
