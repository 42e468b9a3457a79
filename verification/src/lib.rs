pub mod container;
pub mod fixed;
pub mod nibbles;
pub mod size;
