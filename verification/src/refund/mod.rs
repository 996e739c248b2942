pub mod aggregate;
pub mod events;
pub mod value_objects;
