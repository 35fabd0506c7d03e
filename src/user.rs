use vstd::prelude::*;

use crate::error::DomainError;

verus! {

/// What a `User` denotes: its identifier, name and email as plain values.
pub struct UserModel {
    pub id: u32,
    pub name: Seq<char>,
    pub email: Seq<char>,
}

/// An email is well formed when it holds both an `@` and a `.`.
pub open spec fn email_valid(email: Seq<char>) -> bool {
    email.contains('@') && email.contains('.')
}

/// A stored user record.
///
/// Two users compare equal when their names and emails agree; the identifier
/// takes no part in the comparison.
#[derive(Debug)]
pub struct User {
    pub name: String,
    pub id: u32,
    pub email: String,
}

impl View for User {
    type V = UserModel;

    open spec fn view(&self) -> UserModel {
        UserModel { id: self.id, name: self.name@, email: self.email@ }
    }
}

/// Whether `c` occurs in `s`, read one character at a time.
fn has_char(s: &str, c: char) -> (r: bool)
    ensures
        r == s@.contains(c),
{
    let n = s.unicode_len();
    let mut i: usize = 0;
    while i < n
        invariant
            n == s@.len(),
            i <= n,
            forall|j: int| 0 <= j < i ==> s@[j] != c,
        decreases n - i,
    {
        if s.get_char(i) == c {
            return true;
        }
        i = i + 1;
    }
    false
}

impl User {
    /// Builds a user from its parts; no check is made on the email.
    pub fn new(id: u32, name: String, email: String) -> (r: User)
        ensures
            r.id == id,
            r.name == name,
            r.email == email,
    {
        User { id, name, email }
    }

    /// Whether the email holds both an `@` and a `.`.
    pub fn validate_email(&self) -> (r: bool)
        ensures
            r == email_valid(self.email@),
    {
        has_char(self.email.as_str(), '@') && has_char(self.email.as_str(), '.')
    }

    /// Builds a user from its parts, provided the email is well formed.
    pub fn validated(id: u32, name: String, email: String) -> (r: Result<User, DomainError>)
        ensures
            email_valid(email@) ==> r == Ok::<User, DomainError>(User { id, name, email }),
            !email_valid(email@) ==> r == Err::<User, DomainError>(DomainError::Validation),
    {
        let user = User::new(id, name, email);
        if user.validate_email() {
            Ok(user)
        } else {
            Err(DomainError::Validation)
        }
    }
}

impl Clone for User {
    fn clone(&self) -> (r: Self)
        ensures
            r == *self,
    {
        User { name: self.name.clone(), id: self.id, email: self.email.clone() }
    }
}

impl PartialEq for User {
    fn eq(&self, other: &User) -> (r: bool) {
        self.name == other.name && self.email == other.email
    }
}

impl vstd::std_specs::cmp::PartialEqSpecImpl for User {
    open spec fn obeys_eq_spec() -> bool {
        true
    }

    open spec fn eq_spec(&self, other: &User) -> bool {
        self.name@ == other.name@ && self.email@ == other.email@
    }
}

} // verus!
