use vstd::prelude::*;

verus! {

/// Figures that describe the database in use.
pub struct Database {
    pub max_connections: i32,
    pub active_connections: i32,
    pub version: String,
}

/// A read-only health snapshot.
pub struct Status {
    pub database: Database,
}

impl Clone for Database {
    fn clone(&self) -> (r: Self)
        ensures
            r == *self,
    {
        Database {
            max_connections: self.max_connections,
            active_connections: self.active_connections,
            version: self.version.clone(),
        }
    }
}

impl Clone for Status {
    fn clone(&self) -> (r: Self)
        ensures
            r == *self,
    {
        Status { database: self.database.clone() }
    }
}

} // verus!
