pub mod entity;
pub mod events;
pub mod value_objects;
