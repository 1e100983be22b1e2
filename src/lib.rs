//! Secret decryption and interrupt-safe workspace handling for bootstrapping
//! a machine configuration.

pub mod error;
pub mod passphrase;
pub mod envelope;
pub mod workspace;
pub mod log;
pub mod panic;
