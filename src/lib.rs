use vstd::prelude::*;

use std::sync::atomic::AtomicI64;

pub mod api;
pub mod counter;
pub mod middleware;
pub mod model;
pub mod store;

use crate::counter::new_request_counter;
use crate::store::DbPool;

verus! {

/// How many connections a pool holds where nothing else is asked for.
pub const DEFAULT_POOL_SIZE: u32 = 10;

/// What every request handler shares: the count of completed requests and the
/// pool of connections to the contact store.
pub struct State {
    pub counter: AtomicI64,
    pub db: DbPool,
}

/// The shared state over an opened, prepared pool: the request count starts
/// anew and the pool is kept as given.
pub fn create_state(db: DbPool) -> (r: State)
    ensures
        r.db == db,
{
    State { counter: new_request_counter(), db }
}

} // verus!
