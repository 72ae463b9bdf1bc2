pub mod node;
pub mod process;
