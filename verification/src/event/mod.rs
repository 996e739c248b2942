pub mod aggregate;
pub mod events;
pub mod repository;
pub mod ticket_category;
pub mod value_objects;
