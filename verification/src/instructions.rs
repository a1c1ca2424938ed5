//! The handlers of the pool's operations, one per file.

pub mod deposit;
pub mod init;
pub mod swap;
pub mod update;
pub mod withdraw;
