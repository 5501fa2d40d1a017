pub mod color;
pub mod engine;
pub mod num;
pub mod orbit;
pub mod power;
pub mod render;
