pub mod blob;
pub mod digest;
pub mod greeting;
pub mod lifecycle;
pub mod model;
pub mod records;
pub mod routes;
pub mod service;
pub mod state;
