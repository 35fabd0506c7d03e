use vstd::prelude::*;

use crate::error::DomainError;
use crate::status::Status;
use crate::user::{User, UserModel};

verus! {

/// `i` is the first position of `users` whose record carries `id`.
pub open spec fn first_at(users: Seq<UserModel>, id: u32, i: int) -> bool {
    &&& 0 <= i < users.len()
    &&& users[i].id == id
    &&& forall|j: int| 0 <= j < i ==> #[trigger] users[j].id != id
}

/// The first position of a record carrying `id`, or -1 when there is none.
pub open spec fn index_of(users: Seq<UserModel>, id: u32) -> int {
    if exists|i: int| first_at(users, id, i) {
        choose|i: int| first_at(users, id, i)
    } else {
        -1
    }
}

/// The first record carrying `id`, if any.
pub open spec fn lookup(users: Seq<UserModel>, id: u32) -> Option<UserModel> {
    if index_of(users, id) >= 0 {
        Some(users[index_of(users, id)])
    } else {
        None
    }
}

/// Identifiers rise strictly from the first record to the last.
pub open spec fn ids_increasing(users: Seq<UserModel>) -> bool {
    forall|i: int, j: int| 0 <= i < j < users.len() ==> users[i].id < users[j].id
}

/// The models of a list of users, in order.
pub open spec fn models(v: Seq<User>) -> Seq<UserModel> {
    v.map_values(|u: User| u@)
}

/// The model of an optional user.
pub open spec fn model_of(u: Option<User>) -> Option<UserModel> {
    match u {
        Some(u) => Some(u@),
        None => None,
    }
}

/// The model of the value an operation returned.
pub open spec fn result_model(r: Result<User, DomainError>) -> Result<UserModel, DomainError> {
    match r {
        Ok(u) => Ok(u@),
        Err(e) => Err(e),
    }
}

/// The outcome of saving `user`: it is appended, or the store refused the
/// write and nothing changed.
pub open spec fn saved(
    before: Seq<UserModel>,
    after: Seq<UserModel>,
    infallible: bool,
    user: UserModel,
    r: Result<UserModel, DomainError>,
) -> bool {
    match r {
        Ok(u) => u == user && after == before.push(user),
        Err(e) => e is Storage && !infallible && after == before,
    }
}

/// The outcome of deleting `id`: the first matching record is removed and
/// handed back, or nothing changed and the error says why.
pub open spec fn deleted(
    before: Seq<UserModel>,
    after: Seq<UserModel>,
    infallible: bool,
    id: u32,
    r: Result<UserModel, DomainError>,
) -> bool {
    match r {
        Ok(u) => lookup(before, id) == Some(u) && after == before.remove(index_of(before, id)),
        Err(e) => after == before && match e {
            DomainError::NotFound => lookup(before, id) is None,
            DomainError::Storage(_) => !infallible,
            DomainError::Validation => false,
        },
    }
}

/// The outcome of replacing the record that carries `user.id` with `user`.
pub open spec fn updated(
    before: Seq<UserModel>,
    after: Seq<UserModel>,
    infallible: bool,
    user: UserModel,
    r: Result<UserModel, DomainError>,
) -> bool {
    match r {
        Ok(u) => u == user && lookup(before, user.id) is Some && after == before.update(
            index_of(before, user.id),
            user,
        ),
        Err(e) => after == before && match e {
            DomainError::NotFound => lookup(before, user.id) is None,
            DomainError::Storage(_) => !infallible,
            DomainError::Validation => false,
        },
    }
}

/// Storage of user records, whatever the backend.
///
/// A backend whose writes cannot fail is `infallible`; on such a backend every
/// write succeeds exactly when its target exists.
pub trait UserRepository {
    /// The records held, in the order they were saved.
    spec fn users(&self) -> Seq<UserModel>;

    /// Holds of a backend whose operations never fail for storage reasons.
    spec fn infallible(&self) -> bool;

    /// Appends a copy of `user` and returns it.
    fn save_user(&mut self, user: &User) -> (r: Result<User, DomainError>)
        ensures
            final(self).infallible() == old(self).infallible(),
            saved(old(self).users(), final(self).users(), old(self).infallible(), user@, result_model(r)),
    ;

    /// A copy of the first record carrying `id`.
    fn get_user_by_id(&self, id: u32) -> (r: Option<User>)
        ensures
            model_of(r) == lookup(self.users(), id),
    ;

    /// Removes the first record carrying `id` and returns it.
    fn delete_user(&mut self, id: u32) -> (r: Result<User, DomainError>)
        ensures
            final(self).infallible() == old(self).infallible(),
            deleted(old(self).users(), final(self).users(), old(self).infallible(), id, result_model(r)),
    ;

    /// Copies of all records, in order.
    fn list_users(&self) -> (r: Vec<User>)
        ensures
            models(r@) == self.users(),
    ;

    /// A copy of the most recently saved record.
    fn get_last_user(&self) -> (r: Option<User>)
        ensures
            model_of(r) == (if self.users().len() == 0 {
                None
            } else {
                Some(self.users().last())
            }),
    ;

    /// Replaces the first record carrying `user.id` with a copy of `user`.
    fn update_user(&mut self, user: &User) -> (r: Result<User, DomainError>)
        ensures
            final(self).infallible() == old(self).infallible(),
            updated(old(self).users(), final(self).users(), old(self).infallible(), user@, result_model(r)),
    ;

    /// Removes every record.
    fn drop_database(&mut self) -> (r: Result<(), DomainError>)
        ensures
            final(self).infallible() == old(self).infallible(),
            r is Ok ==> final(self).users().len() == 0,
            r is Err ==> !old(self).infallible() && final(self).users() == old(self).users(),
    ;
}

/// A source of health snapshots of the store.
pub trait StatusRepository {
    /// The current snapshot for the database `database_name`.
    fn get_status(&self, database_name: &str) -> (r: Result<Status, DomainError>)
        ensures
            r is Err ==> r->Err_0 is Storage,
    ;
}

/// The first record carrying `id` is the one at `i`, whatever `choose` picks.
pub proof fn lemma_index_of_first(users: Seq<UserModel>, id: u32, i: int)
    requires
        first_at(users, id, i),
    ensures
        index_of(users, id) == i,
        lookup(users, id) == Some(users[i]),
{
    let k = choose|k: int| first_at(users, id, k);
    assert(first_at(users, id, k));
    if k < i {
        assert(users[k].id != id);
    } else if i < k {
        assert(users[i].id != id);
    }
}

/// With no record carrying `id`, the lookup finds nothing.
pub proof fn lemma_lookup_absent(users: Seq<UserModel>, id: u32)
    requires
        forall|j: int| 0 <= j < users.len() ==> #[trigger] users[j].id != id,
    ensures
        index_of(users, id) == -1,
        lookup(users, id) is None,
{
    assert(!exists|i: int| first_at(users, id, i));
}

/// A record carrying `id` at `i` means the lookup finds one, at `i` or before.
pub proof fn lemma_lookup_present(users: Seq<UserModel>, id: u32, i: int)
    requires
        0 <= i < users.len(),
        users[i].id == id,
    ensures
        0 <= index_of(users, id) <= i,
        lookup(users, id) is Some,
    decreases i,
{
    if exists|j: int| 0 <= j < i && #[trigger] users[j].id == id {
        let j = choose|j: int| 0 <= j < i && #[trigger] users[j].id == id;
        lemma_lookup_present(users, id, j);
    } else {
        assert(first_at(users, id, i));
        lemma_index_of_first(users, id, i);
    }
}

} // verus!
