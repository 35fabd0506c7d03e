use vstd::prelude::*;

use crate::error::DomainError;
use crate::repository::{
    first_at, lemma_index_of_first, lemma_lookup_absent, lookup, models, StatusRepository,
    UserRepository,
};
use crate::status::{Database, Status};
use crate::user::{User, UserModel};

verus! {

/// Users kept in a list, in the order they were saved.
///
/// Every operation works on exclusive access to the list, and every value
/// handed out is a copy.
pub struct MemoryUserRepository {
    users: Vec<User>,
}

impl MemoryUserRepository {
    /// An empty store.
    pub fn new() -> (r: Self)
        ensures
            r.users().len() == 0,
            r.infallible(),
    {
        MemoryUserRepository { users: Vec::new() }
    }

    /// The position of the first record carrying `id`, if any.
    fn position(&self, id: u32) -> (r: Option<usize>)
        ensures
            match r {
                Some(i) => first_at(self.users(), id, i as int),
                None => lookup(self.users(), id) is None,
            },
    {
        let mut i: usize = 0;
        while i < self.users.len()
            invariant
                i <= self.users@.len(),
                forall|j: int| 0 <= j < i ==> #[trigger] self.users@[j].id != id,
            decreases self.users@.len() - i,
        {
            if self.users[i].id == id {
                return Some(i);
            }
            i = i + 1;
        }
        proof {
            assert forall|j: int| 0 <= j < self.users().len() implies #[trigger] self.users()[j].id
                != id by {
                assert(self.users@[j].id != id);
            }
            lemma_lookup_absent(self.users(), id);
        }
        None
    }

    /// A copy of `user`, field by field.
    fn clone_user(&self, user: &User) -> (r: User)
        ensures
            r == *user,
    {
        User::new(user.id, user.name.clone(), user.email.clone())
    }
}

impl UserRepository for MemoryUserRepository {
    closed spec fn users(&self) -> Seq<UserModel> {
        models(self.users@)
    }

    open spec fn infallible(&self) -> bool {
        true
    }

    fn save_user(&mut self, user: &User) -> (r: Result<User, DomainError>) {
        let copy = self.clone_user(user);
        self.users.push(copy);
        proof {
            assert(models(self.users@) =~= models(old(self).users@).push(user@));
        }
        Ok(self.clone_user(user))
    }

    fn get_user_by_id(&self, id: u32) -> (r: Option<User>) {
        match self.position(id) {
            Some(i) => {
                proof {
                    lemma_index_of_first(self.users(), id, i as int);
                }
                Some(self.clone_user(&self.users[i]))
            },
            None => None,
        }
    }

    fn delete_user(&mut self, id: u32) -> (r: Result<User, DomainError>) {
        match self.position(id) {
            Some(i) => {
                proof {
                    lemma_index_of_first(self.users(), id, i as int);
                }
                let user = self.users.remove(i);
                proof {
                    assert(models(self.users@) =~= models(old(self).users@).remove(i as int));
                }
                Ok(user)
            },
            None => Err(DomainError::NotFound),
        }
    }

    fn list_users(&self) -> (r: Vec<User>) {
        let mut out: Vec<User> = Vec::new();
        let mut i: usize = 0;
        while i < self.users.len()
            invariant
                i <= self.users@.len(),
                out@ =~= self.users@.subrange(0, i as int),
            decreases self.users@.len() - i,
        {
            out.push(self.clone_user(&self.users[i]));
            i = i + 1;
        }
        proof {
            assert(out@ =~= self.users@);
        }
        out
    }

    fn get_last_user(&self) -> (r: Option<User>) {
        let n = self.users.len();
        if n == 0 {
            None
        } else {
            Some(self.clone_user(&self.users[n - 1]))
        }
    }

    fn update_user(&mut self, user: &User) -> (r: Result<User, DomainError>) {
        match self.position(user.id) {
            Some(i) => {
                proof {
                    lemma_index_of_first(self.users(), user.id, i as int);
                }
                let copy = self.clone_user(user);
                self.users.set(i, copy);
                proof {
                    assert(models(self.users@) =~= models(old(self).users@).update(
                        i as int,
                        user@,
                    ));
                }
                Ok(self.clone_user(user))
            },
            None => Err(DomainError::NotFound),
        }
    }

    fn drop_database(&mut self) -> (r: Result<(), DomainError>) {
        self.users.clear();
        Ok(())
    }
}

/// A fixed health snapshot, for use without a database.
pub struct MemoryStatusRepository {
    status: Status,
}

impl MemoryStatusRepository {
    /// A store that reports 100 allowed connections, 10 in use, version 1.0.0.
    pub fn new() -> (r: Self)
        ensures
            r.status().database.max_connections == 100,
            r.status().database.active_connections == 10,
            r.status().database.version@ == "1.0.0"@,
    {
        MemoryStatusRepository {
            status: Status {
                database: Database {
                    max_connections: 100,
                    active_connections: 10,
                    version: "1.0.0".to_string(),
                },
            },
        }
    }

    /// The snapshot this store reports.
    pub closed spec fn status(&self) -> Status {
        self.status
    }
}

impl StatusRepository for MemoryStatusRepository {
    fn get_status(&self, _database_name: &str) -> (r: Result<Status, DomainError>)
        ensures
            r == Ok::<Status, DomainError>(self.status()),
    {
        Ok(self.status.clone())
    }
}

} // verus!
