pub mod values;
pub mod ids;
pub mod enums;
pub mod customer;
pub mod account;
pub mod pix_key;
