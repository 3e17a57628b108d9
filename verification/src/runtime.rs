//! What the RPC handlers share: the chain database behind a lock.
use vstd::prelude::*;
use std::sync::{Arc, RwLock};
use crate::db::HashMapEthDB;

verus! {

/// `std::sync::RwLock`, the lock that the database is shared behind.
#[verifier::external_type_specification]
#[verifier::external_body]
#[verifier::reject_recursive_types(T)]
pub struct ExRwLock<T: ?Sized>(RwLock<T>);

/// The state shared by the RPC handlers.
#[derive(Clone)]
pub struct Runtime {
    pub eth_db: Arc<RwLock<HashMapEthDB>>,
}

} // verus!
