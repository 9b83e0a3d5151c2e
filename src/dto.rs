use vstd::prelude::*;
use crate::store::{StoreError, argon2_verifies, email_is_valid, hash_new_password, is_email, phc_parses};

verus! {

/// The body of a login request.
#[derive(Debug, Clone)]
pub struct LoginRequest {
    pub email: String,
    pub password: String,
}

/// The body of a sign-up request.
#[derive(Debug, Clone)]
pub struct NewUser {
    pub email: String,
    pub password: String,
}

/// Fewest characters a new password may have.
pub const MIN_PASSWORD_CHARS: usize = 8;

/// Whether a sign-up may go ahead: an email address and a password of at
/// least eight characters.
pub open spec fn new_user_valid(email: Seq<char>, password: Seq<char>) -> bool {
    is_email(email) && password.len() >= MIN_PASSWORD_CHARS
}

impl NewUser {
    /// Checks a sign-up request before anything is stored.
    pub fn validate(&self) -> (r: Result<(), StoreError>)
        ensures
            r is Ok <==> new_user_valid(self.email@, self.password@),
            r is Err ==> r->Err_0 is InvalidInput,
    {
        if !email_is_valid(self.email.as_str()) {
            return Err(StoreError::InvalidInput(String::from_str("email: invalid email address")));
        }
        if self.password.as_str().unicode_len() < MIN_PASSWORD_CHARS {
            return Err(StoreError::InvalidInput(String::from_str("password: Password must be at least 8 characters")));
        }
        Ok(())
    }

    /// Checks a sign-up request and hashes its password for storage: the PHC
    /// string to store, under which the password verifies; `InvalidInput`
    /// when the request is refused, or `HashError` when hashing fails.
    pub fn hash_for_storage(&self) -> (r: Result<String, StoreError>)
        ensures
            !new_user_valid(self.email@, self.password@) ==> r is Err && r->Err_0 is InvalidInput,
            new_user_valid(self.email@, self.password@) ==> r is Ok || r->Err_0 is HashError,
            r is Ok ==> phc_parses(r->Ok_0@) && argon2_verifies(self.password@, r->Ok_0@),
    {
        match self.validate() {
            Err(e) => Err(e),
            Ok(()) => hash_new_password(self.password.as_str()),
        }
    }
}

/// The settings of a user as they are shown.
#[derive(Debug, Clone)]
pub struct UserSettingsDto {
    pub fullname: Option<String>,
    pub email: String,
    pub provider: String,
}

/// A change of user settings; each field that is present is changed.
#[derive(Debug, Clone)]
pub struct UserSettingsUpdateDto {
    pub name: Option<String>,
    pub email: Option<String>,
    pub current_password: Option<String>,
    pub new_password: Option<String>,
}

/// The body of a request that creates or renames a project.
#[derive(Debug, Clone)]
pub struct CreateOrUpdateProject {
    pub name: String,
    pub description: Option<String>,
}

/// Most characters a project name may have.
pub const MAX_PROJECT_NAME_CHARS: usize = 255;

impl CreateOrUpdateProject {
    /// Checks that the name has between one and 255 characters.
    pub fn validate(&self) -> (r: Result<(), StoreError>)
        ensures
            r is Ok <==> 1 <= self.name@.len() <= MAX_PROJECT_NAME_CHARS,
            r is Err ==> r->Err_0 is InvalidInput,
    {
        let n = self.name.as_str().unicode_len();
        if n < 1 || n > MAX_PROJECT_NAME_CHARS {
            return Err(StoreError::InvalidInput(String::from_str("name: Name is required")));
        }
        Ok(())
    }
}

} // verus!
