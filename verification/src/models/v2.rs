pub mod berry;
pub mod common;
pub mod resource;
