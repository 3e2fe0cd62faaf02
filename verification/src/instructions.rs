pub mod init;
pub mod purchase;
pub mod transfer_funds;
pub mod whitelist;
