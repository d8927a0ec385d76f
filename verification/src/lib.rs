pub mod account;
pub mod codec;
pub mod counter;
pub mod cpi_engine;
pub mod cpi_lever;
pub mod cpi_secure_proxy;
pub mod cpi_secure_vault;
pub mod error;
pub mod init;
pub mod pubkey;
pub mod spl_token_example;
pub mod system;
