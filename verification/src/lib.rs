pub mod shared;
pub mod domain;
pub mod infrastructure;
pub mod application;
