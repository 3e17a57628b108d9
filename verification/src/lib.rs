pub mod assoc;
pub mod db;
pub mod ethcore;
pub mod hashing;
pub mod hex_text;
pub mod primitives;
pub mod rpc;
pub mod rpc_types;
pub mod runtime;
pub mod signature;
pub mod state;
pub mod transaction;
