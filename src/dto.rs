use vstd::prelude::*;

use crate::error::DomainError;
use crate::user::UserModel;

verus! {

/// What a caller supplies to create a user.
#[derive(Debug)]
pub struct CreateUserDto {
    pub name: String,
    pub email: String,
}

/// What a caller supplies to replace a user.
#[derive(Debug)]
pub struct UpdateUserDto {
    pub id: u32,
    pub name: String,
    pub email: String,
}

/// A user as handed back to callers.
#[derive(Debug)]
pub struct UserResponseDto {
    pub id: u32,
    pub name: String,
    pub email: String,
}

impl View for UserResponseDto {
    type V = UserModel;

    open spec fn view(&self) -> UserModel {
        UserModel { id: self.id, name: self.name@, email: self.email@ }
    }
}

impl UserResponseDto {
    /// A response built from its parts.
    pub fn new(id: u32, name: String, email: String) -> (r: Self)
        ensures
            r.id == id,
            r.name == name,
            r.email == email,
    {
        UserResponseDto { id, name, email }
    }
}

/// The model of a use case's result.
pub open spec fn response_model(r: Result<UserResponseDto, DomainError>) -> Result<
    UserModel,
    DomainError,
> {
    match r {
        Ok(d) => Ok(d@),
        Err(e) => Err(e),
    }
}

/// The model of an optional response.
pub open spec fn response_option(r: Option<UserResponseDto>) -> Option<UserModel> {
    match r {
        Some(d) => Some(d@),
        None => None,
    }
}

/// The models of a list of responses, in order.
pub open spec fn response_models(v: Seq<UserResponseDto>) -> Seq<UserModel> {
    v.map_values(|d: UserResponseDto| d@)
}

} // verus!
