pub mod base;
pub mod v2;
