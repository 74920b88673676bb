pub mod arm;
pub mod thumb;
