use std::sync::Arc;
use vstd::prelude::*;
use crate::errors::{ErrorCode, WorkspaceError};
use crate::pool::{pool_get_outcome, ConnectionPool, DBConnection};

verus! {

/// The identity capability: who is signed in, and with which token.
pub trait WorkspaceUser: Send + Sync {
    fn user_id(&self) -> Result<String, WorkspaceError>;

    fn token(&self) -> Result<String, WorkspaceError>;
}

/// The persistence capability: a connection pool shared by every controller.
pub trait WorkspaceDatabase: Send + Sync {
    /// The shared pool; implementations hand out the same pool on each call.
    fn db_pool(&self) -> Result<Arc<ConnectionPool>, WorkspaceError>;

    /// Takes one connection from the pool that `db_pool` hands out: an
    /// accessor error comes back unchanged, a pool failure as an internal
    /// error carrying the pool's description.
    ///
    /// Implementations must not override this method: every backend gets the
    /// same error handling from it.
    fn db_connection(&self) -> (r: Result<DBConnection, WorkspaceError>)
        ensures
            exists|pool: Result<Arc<ConnectionPool>, WorkspaceError>|
                call_ensures(Self::db_pool, (self,), pool) && connection_view(r)
                    == connection_outcome(pool),
    {
        let pool = self.db_pool();
        let r = connection_from_pool(pool);
        proof {
            assert(connection_view(r) == connection_outcome(pool));
        }
        r
    }
}

/// Both capabilities at once.
pub trait WorkspaceDeps: WorkspaceUser + WorkspaceDatabase {}

/// A connection attempt seen as values: the database path of the connection,
/// or the kind and context of the error.
pub open spec fn connection_view(r: Result<DBConnection, WorkspaceError>) -> Result<
    Seq<char>,
    (ErrorCode, Seq<char>),
> {
    match r {
        Ok(c) => Ok(c.db_path@),
        Err(e) => Err((e.code, e.msg@)),
    }
}

/// What a connection attempt yields once the pool accessor has answered:
/// its error unchanged, or what the pool hands out, a pool failure becoming
/// an internal error whose context is the pool's own description.
pub open spec fn connection_outcome(pool: Result<Arc<ConnectionPool>, WorkspaceError>) -> Result<
    Seq<char>,
    (ErrorCode, Seq<char>),
> {
    match pool {
        Err(e) => Err((e.code, e.msg@)),
        Ok(p) => match pool_get_outcome(*p) {
            Ok(path) => Ok(path),
            Err(reason) => Err((ErrorCode::Internal, reason)),
        },
    }
}

/// Takes one connection from the outcome of a pool accessor.
pub fn connection_from_pool(pool: Result<Arc<ConnectionPool>, WorkspaceError>) -> (r: Result<
    DBConnection,
    WorkspaceError,
>)
    ensures
        connection_view(r) == connection_outcome(pool),
{
    match pool {
        Err(e) => Err(e),
        Ok(p) => match p.get() {
            Ok(conn) => Ok(conn),
            Err(e) => Err(WorkspaceError::internal().context(e.reason)),
        },
    }
}

} // verus!
