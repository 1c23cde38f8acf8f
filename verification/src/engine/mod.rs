pub mod state;
pub mod texture;
