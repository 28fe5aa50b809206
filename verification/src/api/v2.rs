pub mod berry;
pub mod client;
pub mod endpoint;
pub mod resource;
