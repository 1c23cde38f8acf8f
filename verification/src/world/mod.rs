pub mod building;
pub mod planet;
