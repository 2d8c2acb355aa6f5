use vstd::prelude::*;

verus! {

/// Why a pool could not hand out a connection.
#[derive(Debug)]
pub struct PoolError {
    pub reason: String,
}

/// A shared pool of connections to one database file.
///
/// The pool keeps no count of the connections it has handed out: each `get`
/// hands out a connection of its own whenever the pool is sized above zero,
/// and a pool sized zero has nothing to hand out.
#[derive(Debug)]
pub struct ConnectionPool {
    pub db_path: String,
    pub max_size: u32,
}

/// One connection taken from a `ConnectionPool`.
#[derive(Debug)]
pub struct DBConnection {
    pub db_path: String,
}

/// The description a pool gives when it has no connection to hand out.
pub open spec fn no_connection_reason() -> Seq<char> {
    "connection pool has no connections"@
}

/// What taking a connection from `pool` yields: a connection to the pool's
/// database, or the pool's error when it holds no connection.
pub open spec fn pool_get_outcome(pool: ConnectionPool) -> Result<Seq<char>, Seq<char>> {
    if pool.max_size == 0 {
        Err(no_connection_reason())
    } else {
        Ok(pool.db_path@)
    }
}

impl ConnectionPool {
    pub fn new(db_path: String, max_size: u32) -> (r: ConnectionPool)
        ensures
            r.db_path == db_path,
            r.max_size == max_size,
    {
        ConnectionPool { db_path, max_size }
    }

    /// Takes one connection from the pool.
    pub fn get(&self) -> (r: Result<DBConnection, PoolError>)
        ensures
            match r {
                Ok(c) => pool_get_outcome(*self) == Ok::<Seq<char>, Seq<char>>(c.db_path@),
                Err(e) => pool_get_outcome(*self) == Err::<Seq<char>, Seq<char>>(e.reason@),
            },
    {
        if self.max_size == 0 {
            let reason = String::from_str("connection pool has no connections");
            proof {
                reveal_strlit("connection pool has no connections");
            }
            Err(PoolError { reason })
        } else {
            Ok(DBConnection { db_path: self.db_path.clone() })
        }
    }
}

} // verus!
