use vstd::prelude::*;

use crate::dto::{
    response_model, response_models, response_option, CreateUserDto, UpdateUserDto,
    UserResponseDto,
};
use crate::error::DomainError;
use crate::repository::{deleted, lookup, model_of, saved, updated};
use crate::service::{candidate, UserService};
use crate::user::{email_valid, User, UserModel};

verus! {

/// The identifier that follows the most recent record `last`: 0 when there
/// is none, and none once `last` holds the largest identifier.
pub open spec fn id_after(last: Option<UserModel>) -> Option<u32> {
    match last {
        None => Some(0),
        Some(u) => if u.id < u32::MAX {
            Some((u.id + 1) as u32)
        } else {
            None
        },
    }
}

/// The identifier a new user receives in a store holding `users`.
pub open spec fn next_id(users: Seq<UserModel>) -> Option<u32> {
    id_after(if users.len() == 0 {
        None
    } else {
        Some(users.last())
    })
}

/// The record to store for a new user, given the most recent record `last`:
/// a malformed email is refused first, then an identifier space that is
/// used up.
pub fn next_user(last: Option<User>, name: String, email: String) -> (r: Result<User, DomainError>)
    ensures
        !email_valid(email@) ==> r == Err::<User, DomainError>(DomainError::Validation),
        email_valid(email@) ==> match id_after(model_of(last)) {
            None => r is Err && r->Err_0 is Storage,
            Some(id) => r is Ok && r->Ok_0@ == candidate(id, name@, email@),
        },
{
    let id: u32 = match last {
        None => 0,
        Some(u) => {
            if u.id == u32::MAX {
                return match User::validated(u.id, name, email) {
                    Ok(_) => Err(DomainError::Storage("No user identifier is left".to_string())),
                    Err(e) => Err(e),
                };
            }
            u.id + 1
        },
    };
    User::validated(id, name, email)
}

/// The outcome of creating a user named `name` with email `email`: a
/// malformed email is refused, then a store whose identifiers are used up;
/// otherwise the user is saved under the next identifier.
pub open spec fn created(
    before: Seq<UserModel>,
    after: Seq<UserModel>,
    infallible: bool,
    name: Seq<char>,
    email: Seq<char>,
    r: Result<UserModel, DomainError>,
) -> bool {
    if !email_valid(email) {
        r == Err::<UserModel, DomainError>(DomainError::Validation) && after == before
    } else {
        match next_id(before) {
            None => r is Err && r->Err_0 is Storage && after == before,
            Some(id) => saved(before, after, infallible, candidate(id, name, email), r),
        }
    }
}

/// The outcome of replacing the user carrying `id` with `name` and `email`:
/// a malformed email is refused before the store is consulted.
pub open spec fn replaced(
    before: Seq<UserModel>,
    after: Seq<UserModel>,
    infallible: bool,
    id: u32,
    name: Seq<char>,
    email: Seq<char>,
    r: Result<UserModel, DomainError>,
) -> bool {
    if !email_valid(email) {
        r == Err::<UserModel, DomainError>(DomainError::Validation) && after == before
    } else {
        updated(before, after, infallible, candidate(id, name, email), r)
    }
}

/// Creates a user under the next free identifier.
pub struct CreateUserUseCase<S: UserService> {
    service: S,
}

impl<S: UserService> CreateUserUseCase<S> {
    /// A use case that works through `service`.
    pub fn new(service: S) -> (r: Self)
        ensures
            r.users() == service.users(),
            r.infallible() == service.infallible(),
    {
        CreateUserUseCase { service }
    }

    /// The records held by the underlying store.
    pub closed spec fn users(&self) -> Seq<UserModel> {
        self.service.users()
    }

    /// Holds when the underlying store never fails for storage reasons.
    pub closed spec fn infallible(&self) -> bool {
        self.service.infallible()
    }

    /// Gives the service back.
    pub fn into_service(self) -> (r: S)
        ensures
            r.users() == self.users(),
            r.infallible() == self.infallible(),
    {
        self.service
    }

    /// Stores `dto` under the next identifier and returns the stored user.
    ///
    /// A malformed email fails with `Validation` and leaves the store as it
    /// was; so does a store whose identifiers are used up, with `Storage`.
    pub fn execute(&mut self, dto: CreateUserDto) -> (r: Result<UserResponseDto, DomainError>)
        ensures
            final(self).infallible() == old(self).infallible(),
            created(
                old(self).users(),
                final(self).users(),
                old(self).infallible(),
                dto.name@,
                dto.email@,
                response_model(r),
            ),
    {
        let last = self.service.get_last_user();
        let user = match next_user(last, dto.name, dto.email) {
            Ok(user) => user,
            Err(e) => return Err(e),
        };
        match self.service.create_user(user.id, user.name, user.email) {
            Ok(user) => Ok(UserResponseDto::new(user.id, user.name, user.email)),
            Err(e) => Err(e),
        }
    }
}

/// Reads one user.
pub struct GetUserUseCase<S: UserService> {
    service: S,
}

impl<S: UserService> GetUserUseCase<S> {
    /// A use case that works through `service`.
    pub fn new(service: S) -> (r: Self)
        ensures
            r.users() == service.users(),
    {
        GetUserUseCase { service }
    }

    /// The records held by the underlying store.
    pub closed spec fn users(&self) -> Seq<UserModel> {
        self.service.users()
    }

    /// Gives the service back.
    pub fn into_service(self) -> (r: S)
        ensures
            r.users() == self.users(),
    {
        self.service
    }

    /// The first user carrying `id`, if any.
    pub fn execute(&self, id: u32) -> (r: Option<UserResponseDto>)
        ensures
            response_option(r) == lookup(self.users(), id),
    {
        match self.service.find_user_by_id(id) {
            Some(user) => Some(UserResponseDto::new(user.id, user.name, user.email)),
            None => None,
        }
    }
}

/// Reads every user.
pub struct GetAllUsersUseCase<S: UserService> {
    service: S,
}

impl<S: UserService> GetAllUsersUseCase<S> {
    /// A use case that works through `service`.
    pub fn new(service: S) -> (r: Self)
        ensures
            r.users() == service.users(),
    {
        GetAllUsersUseCase { service }
    }

    /// The records held by the underlying store.
    pub closed spec fn users(&self) -> Seq<UserModel> {
        self.service.users()
    }

    /// Gives the service back.
    pub fn into_service(self) -> (r: S)
        ensures
            r.users() == self.users(),
    {
        self.service
    }

    /// All users, in the order the store keeps them.
    pub fn execute(&self) -> (r: Vec<UserResponseDto>)
        ensures
            response_models(r@) == self.users(),
    {
        let all = self.service.list_all_users();
        let mut out: Vec<UserResponseDto> = Vec::new();
        let mut i: usize = 0;
        while i < all.len()
            invariant
                i <= all@.len(),
                out@.len() == i,
                forall|j: int| 0 <= j < i ==> (#[trigger] out@[j])@ == all@[j]@,
            decreases all@.len() - i,
        {
            let user = &all[i];
            out.push(UserResponseDto::new(user.id, user.name.clone(), user.email.clone()));
            i = i + 1;
        }
        proof {
            assert(response_models(out@) =~= all@.map_values(|u: User| u@));
        }
        out
    }
}

/// Deletes one user.
pub struct RemoveUserUseCase<S: UserService> {
    service: S,
}

impl<S: UserService> RemoveUserUseCase<S> {
    /// A use case that works through `service`.
    pub fn new(service: S) -> (r: Self)
        ensures
            r.users() == service.users(),
            r.infallible() == service.infallible(),
    {
        RemoveUserUseCase { service }
    }

    /// The records held by the underlying store.
    pub closed spec fn users(&self) -> Seq<UserModel> {
        self.service.users()
    }

    /// Holds when the underlying store never fails for storage reasons.
    pub closed spec fn infallible(&self) -> bool {
        self.service.infallible()
    }

    /// Gives the service back.
    pub fn into_service(self) -> (r: S)
        ensures
            r.users() == self.users(),
            r.infallible() == self.infallible(),
    {
        self.service
    }

    /// Removes the first user carrying `id` and returns it.
    pub fn execute(&mut self, id: u32) -> (r: Result<UserResponseDto, DomainError>)
        ensures
            final(self).infallible() == old(self).infallible(),
            deleted(
                old(self).users(),
                final(self).users(),
                old(self).infallible(),
                id,
                response_model(r),
            ),
    {
        match self.service.remove_user(id) {
            Ok(user) => Ok(UserResponseDto::new(user.id, user.name, user.email)),
            Err(e) => Err(e),
        }
    }
}

/// Replaces one user.
pub struct UpdateUserUseCase<S: UserService> {
    service: S,
}

impl<S: UserService> UpdateUserUseCase<S> {
    /// A use case that works through `service`.
    pub fn new(service: S) -> (r: Self)
        ensures
            r.users() == service.users(),
            r.infallible() == service.infallible(),
    {
        UpdateUserUseCase { service }
    }

    /// The records held by the underlying store.
    pub closed spec fn users(&self) -> Seq<UserModel> {
        self.service.users()
    }

    /// Holds when the underlying store never fails for storage reasons.
    pub closed spec fn infallible(&self) -> bool {
        self.service.infallible()
    }

    /// Gives the service back.
    pub fn into_service(self) -> (r: S)
        ensures
            r.users() == self.users(),
            r.infallible() == self.infallible(),
    {
        self.service
    }

    /// Replaces the user carrying `dto.id` with the values in `dto`.
    pub fn execute(&mut self, dto: UpdateUserDto) -> (r: Result<UserResponseDto, DomainError>)
        ensures
            final(self).infallible() == old(self).infallible(),
            replaced(
                old(self).users(),
                final(self).users(),
                old(self).infallible(),
                dto.id,
                dto.name@,
                dto.email@,
                response_model(r),
            ),
    {
        match self.service.update_user(dto.id, dto.name, dto.email) {
            Ok(user) => Ok(UserResponseDto::new(user.id, user.name, user.email)),
            Err(e) => Err(e),
        }
    }
}

} // verus!
