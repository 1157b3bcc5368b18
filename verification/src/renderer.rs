pub mod texture;
