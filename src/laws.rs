//! Properties that hold across operations, stated over the models that the
//! use cases' contracts speak of.
use vstd::prelude::*;

use crate::error::DomainError;
use crate::repository::{
    deleted, first_at, ids_increasing, index_of, lemma_index_of_first, lemma_lookup_absent,
    lookup,
};
use crate::service::candidate;
use crate::use_cases::{created, next_id, replaced};
use crate::user::{email_valid, UserModel};

verus! {

/// Every identifier in the store is below `id`.
pub open spec fn all_below(users: Seq<UserModel>, id: u32) -> bool {
    forall|i: int| 0 <= i < users.len() ==> #[trigger] users[i].id < id
}

/// The identifiers are 0, 1, 2, ... in order.
pub open spec fn ids_consecutive(users: Seq<UserModel>) -> bool {
    forall|i: int| 0 <= i < users.len() ==> #[trigger] users[i].id == i
}

proof fn lemma_last_is_largest(users: Seq<UserModel>)
    requires
        ids_increasing(users),
        users.len() > 0,
    ensures
        forall|i: int| 0 <= i < users.len() ==> #[trigger] users[i].id <= users.last().id,
{
    assert forall|i: int| 0 <= i < users.len() implies #[trigger] users[i].id <= users.last().id by {
        if i < users.len() - 1 {
            assert(users[i].id < users[users.len() - 1].id);
        }
    }
}

/// A new identifier exceeds every identifier already in an ordered store.
proof fn lemma_next_id_above(users: Seq<UserModel>)
    requires
        ids_increasing(users),
        next_id(users) is Some,
    ensures
        all_below(users, next_id(users)->0),
{
    if users.len() > 0 {
        lemma_last_is_largest(users);
    }
}

/// With identifiers in rising order, no identifier occurs twice.
proof fn lemma_unique_ids(users: Seq<UserModel>, i: int, j: int)
    requires
        ids_increasing(users),
        0 <= i < users.len(),
        0 <= j < users.len(),
        i != j,
    ensures
        users[i].id != users[j].id,
{
    if i < j {
        assert(users[i].id < users[j].id);
    } else {
        assert(users[j].id < users[i].id);
    }
}

/// Creating a user with a well-formed email and then reading its identifier
/// gives back that user with the name and email supplied. On a store that
/// cannot fail, the creation succeeds.
pub proof fn create_then_read(
    before: Seq<UserModel>,
    after: Seq<UserModel>,
    infallible: bool,
    name: Seq<char>,
    email: Seq<char>,
    r: Result<UserModel, DomainError>,
)
    requires
        ids_increasing(before),
        next_id(before) is Some,
        email_valid(email),
        created(before, after, infallible, name, email, r),
    ensures
        infallible ==> r is Ok,
        r is Ok ==> lookup(after, r->Ok_0.id) == Some(r->Ok_0),
        r is Ok ==> r->Ok_0.name == name && r->Ok_0.email == email,
{
    let id = next_id(before)->0;
    let m = candidate(id, name, email);
    if r is Ok {
        lemma_next_id_above(before);
        assert(after == before.push(m));
        assert forall|j: int| 0 <= j < before.len() implies #[trigger] after[j].id != id by {
            assert(before[j].id < id);
        }
        assert(first_at(after, id, before.len() as int));
        lemma_index_of_first(after, id, before.len() as int);
    }
}

/// Creating a user with an email that lacks `@` or `.` fails with
/// `Validation` and leaves the store as it was.
pub proof fn create_rejects_malformed_email(
    before: Seq<UserModel>,
    after: Seq<UserModel>,
    infallible: bool,
    name: Seq<char>,
    email: Seq<char>,
    r: Result<UserModel, DomainError>,
)
    requires
        !email_valid(email),
        created(before, after, infallible, name, email, r),
    ensures
        r == Err::<UserModel, DomainError>(DomainError::Validation),
        after == before,
{
}

/// A created user's identifier exceeds every identifier already stored, the
/// first one on an empty store is 0, and a store numbered 0, 1, 2, ... stays
/// so. The rising order of identifiers is kept.
pub proof fn create_assigns_increasing_ids(
    before: Seq<UserModel>,
    after: Seq<UserModel>,
    infallible: bool,
    name: Seq<char>,
    email: Seq<char>,
    r: Result<UserModel, DomainError>,
)
    requires
        ids_increasing(before),
        created(before, after, infallible, name, email, r),
        r is Ok,
    ensures
        all_below(before, r->Ok_0.id),
        before.len() == 0 ==> r->Ok_0.id == 0,
        ids_consecutive(before) ==> r->Ok_0.id == before.len() && ids_consecutive(after),
        ids_increasing(after),
{
    lemma_next_id_above(before);
    let id = next_id(before)->0;
    assert(after == before.push(candidate(id, name, email)));
    if ids_consecutive(before) && before.len() > 0 {
        assert(before.last().id == before.len() - 1);
    }
    assert forall|i: int, j: int| 0 <= i < j < after.len() implies after[i].id < after[j].id by {
        if j < before.len() {
            assert(before[i].id < before[j].id);
        } else {
            assert(before[i].id < id);
        }
    }
}

/// Deleting an identifier that no user carries fails, with `NotFound` unless
/// the store itself failed;
/// deleting one that a user carries removes it, so that reading it afterwards
/// finds nothing. On a store that cannot fail, the deletion then succeeds.
pub proof fn delete_then_read(
    before: Seq<UserModel>,
    after: Seq<UserModel>,
    infallible: bool,
    id: u32,
    r: Result<UserModel, DomainError>,
)
    requires
        ids_increasing(before),
        deleted(before, after, infallible, id, r),
    ensures
        lookup(before, id) is None ==> r is Err && after == before,
        infallible && lookup(before, id) is None ==> r == Err::<UserModel, DomainError>(
            DomainError::NotFound,
        ),
        infallible && lookup(before, id) is Some ==> r is Ok,
        r is Ok ==> lookup(after, id) is None,
        ids_increasing(after),
{
    if r is Ok {
        let k = index_of(before, id);
        assert(first_at(before, id, k));
        assert(after == before.remove(k));
        assert forall|j: int| 0 <= j < after.len() implies #[trigger] after[j].id != id by {
            if j < k {
                lemma_unique_ids(before, j, k);
            } else {
                lemma_unique_ids(before, j + 1, k);
            }
        }
        lemma_lookup_absent(after, id);
        assert forall|i: int, j: int| 0 <= i < j < after.len() implies after[i].id
            < after[j].id by {
            if j < k {
                assert(before[i].id < before[j].id);
            } else if i < k {
                assert(before[i].id < before[j + 1].id);
            } else {
                assert(before[i + 1].id < before[j + 1].id);
            }
        }
    }
}

/// Updating an identifier that no user carries fails, with `NotFound` unless
/// the store itself failed;
/// updating one that a user carries makes a later read give the new values.
/// On a store that cannot fail, the update then succeeds.
pub proof fn update_then_read(
    before: Seq<UserModel>,
    after: Seq<UserModel>,
    infallible: bool,
    id: u32,
    name: Seq<char>,
    email: Seq<char>,
    r: Result<UserModel, DomainError>,
)
    requires
        email_valid(email),
        replaced(before, after, infallible, id, name, email, r),
    ensures
        lookup(before, id) is None ==> r is Err && after == before,
        infallible && lookup(before, id) is None ==> r == Err::<UserModel, DomainError>(
            DomainError::NotFound,
        ),
        infallible && lookup(before, id) is Some ==> r is Ok,
        r is Ok ==> lookup(after, id) == Some(candidate(id, name, email)),
        ids_increasing(before) ==> ids_increasing(after),
{
    if r is Ok {
        let k = index_of(before, id);
        assert(first_at(before, id, k));
        assert(after == before.update(k, candidate(id, name, email)));
        assert(first_at(after, id, k));
        lemma_index_of_first(after, id, k);
    }
}

} // verus!
