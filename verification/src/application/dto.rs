pub mod account_dto;
pub mod customer_dto;
pub mod pix_key_dto;
