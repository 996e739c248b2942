pub mod domain_event;
pub mod errors;
pub mod identifier;
pub mod text;
pub mod time;
pub mod value_objects;
