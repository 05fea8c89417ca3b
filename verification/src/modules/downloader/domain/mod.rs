pub mod entities;
pub mod errors;
pub mod ports;
pub mod value_objects;
pub mod version;
