pub mod text;
pub mod cpf;
pub mod cnpj;
pub mod email;
pub mod phone;
