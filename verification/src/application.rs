pub mod dto;
pub mod store;
pub mod account_service;
pub mod customer_service;
pub mod atomicity;
pub mod jwt_service;
pub mod pix_service;
