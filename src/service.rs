use vstd::prelude::*;

use crate::error::DomainError;
use crate::repository::{
    deleted, lookup, result_model, model_of, models, saved, updated, StatusRepository, UserRepository,
};
use crate::status::Status;
use crate::user::{email_valid, User, UserModel};

verus! {

/// The record a create or update builds from its arguments.
pub open spec fn candidate(id: u32, name: Seq<char>, email: Seq<char>) -> UserModel {
    UserModel { id, name, email }
}

/// User operations with the domain rules applied before storage is touched.
pub trait UserService {
    /// The records held by the underlying store.
    spec fn users(&self) -> Seq<UserModel>;

    /// Holds when the underlying store never fails for storage reasons.
    spec fn infallible(&self) -> bool;

    /// Stores a new user with identifier `id`, provided the email is well formed.
    fn create_user(&mut self, id: u32, name: String, email: String) -> (r: Result<
        User,
        DomainError,
    >)
        ensures
            final(self).infallible() == old(self).infallible(),
            !email_valid(email@) ==> r == Err::<User, DomainError>(DomainError::Validation)
                && final(self).users() == old(self).users(),
            email_valid(email@) ==> saved(
                old(self).users(),
                final(self).users(),
                old(self).infallible(),
                candidate(id, name@, email@),
                result_model(r),
            ),
    ;

    /// The first record carrying `id`.
    fn find_user_by_id(&self, id: u32) -> (r: Option<User>)
        ensures
            model_of(r) == lookup(self.users(), id),
    ;

    /// Removes the first record carrying `id` and returns it.
    fn remove_user(&mut self, id: u32) -> (r: Result<User, DomainError>)
        ensures
            final(self).infallible() == old(self).infallible(),
            deleted(old(self).users(), final(self).users(), old(self).infallible(), id, result_model(r)),
    ;

    /// All records, in order.
    fn list_all_users(&self) -> (r: Vec<User>)
        ensures
            models(r@) == self.users(),
    ;

    /// The most recently saved record.
    fn get_last_user(&self) -> (r: Option<User>)
        ensures
            model_of(r) == (if self.users().len() == 0 {
                None
            } else {
                Some(self.users().last())
            }),
    ;

    /// Replaces the record carrying `id`, provided the new email is well formed.
    fn update_user(&mut self, id: u32, name: String, email: String) -> (r: Result<
        User,
        DomainError,
    >)
        ensures
            final(self).infallible() == old(self).infallible(),
            !email_valid(email@) ==> r == Err::<User, DomainError>(DomainError::Validation)
                && final(self).users() == old(self).users(),
            email_valid(email@) ==> updated(
                old(self).users(),
                final(self).users(),
                old(self).infallible(),
                candidate(id, name@, email@),
                result_model(r),
            ),
    ;
}

/// The user service over a repository of type `R`.
pub struct UserServiceImpl<R: UserRepository> {
    repository: R,
}

impl<R: UserRepository> UserServiceImpl<R> {
    /// A service that works on `repository`.
    pub fn new(repository: R) -> (r: Self)
        ensures
            r.users() == repository.users(),
            r.infallible() == repository.infallible(),
    {
        UserServiceImpl { repository }
    }

    /// Gives the repository back.
    pub fn into_repository(self) -> (r: R)
        ensures
            r.users() == self.users(),
            r.infallible() == self.infallible(),
    {
        self.repository
    }
}

impl<R: UserRepository> UserService for UserServiceImpl<R> {
    closed spec fn users(&self) -> Seq<UserModel> {
        self.repository.users()
    }

    closed spec fn infallible(&self) -> bool {
        self.repository.infallible()
    }

    fn create_user(&mut self, id: u32, name: String, email: String) -> (r: Result<
        User,
        DomainError,
    >) {
        match User::validated(id, name, email) {
            Ok(user) => self.repository.save_user(&user),
            Err(e) => Err(e),
        }
    }

    fn find_user_by_id(&self, id: u32) -> (r: Option<User>) {
        self.repository.get_user_by_id(id)
    }

    fn remove_user(&mut self, id: u32) -> (r: Result<User, DomainError>) {
        self.repository.delete_user(id)
    }

    fn list_all_users(&self) -> (r: Vec<User>) {
        self.repository.list_users()
    }

    fn get_last_user(&self) -> (r: Option<User>) {
        self.repository.get_last_user()
    }

    fn update_user(&mut self, id: u32, name: String, email: String) -> (r: Result<
        User,
        DomainError,
    >) {
        match User::validated(id, name, email) {
            Ok(user) => self.repository.update_user(&user),
            Err(e) => Err(e),
        }
    }
}

/// Health snapshots of the store in use.
pub trait StatusService {
    /// The current snapshot for the database `database_name`.
    fn get_status(&self, database_name: &str) -> (r: Result<Status, DomainError>)
        ensures
            r is Err ==> r->Err_0 is Storage,
    ;
}

/// The status service over a repository of type `R`.
pub struct StatusServiceImpl<R: StatusRepository> {
    repository: R,
}

impl<R: StatusRepository> StatusServiceImpl<R> {
    /// A service that reports what `repository` reports.
    pub fn new(repository: R) -> (r: Self)
        ensures
            r.repository() == repository,
    {
        StatusServiceImpl { repository }
    }

    /// The repository the snapshots come from.
    pub closed spec fn repository(&self) -> R {
        self.repository
    }
}

impl<R: StatusRepository> StatusService for StatusServiceImpl<R> {
    fn get_status(&self, database_name: &str) -> (r: Result<Status, DomainError>)
        ensures
            call_ensures(R::get_status, (&self.repository(), database_name), r),
    {
        self.repository.get_status(database_name)
    }
}

} // verus!
