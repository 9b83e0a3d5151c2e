use vstd::prelude::*;
use argon2::{PasswordHash, PasswordHasher, PasswordVerifier};
use argon2::password_hash::rand_core::{OsRng, RngCore};

verus! {

/// Failures of the account and project store.
#[derive(Debug, Clone, PartialEq, Eq)]
pub enum StoreError {
    HashError(String),
    /// A database failure, with the driver's message.
    SqlxError(String),
    UserNotFound,
    ProjectNotFound,
    UserDataNotFound(String),
    MalformedStoreHash,
    IncorrectPassword,
    FailedProjectCreation,
    FailedGetAccount,
    FailedUpdateAccount,
    MissingCurrentPassword,
    InvalidCurrentPassword,
    SessionError,
    InvalidInput(String),
}

/// The HTTP status with which each store failure is answered.
pub open spec fn store_status(e: StoreError) -> u16 {
    match e {
        StoreError::UserNotFound
        | StoreError::IncorrectPassword
        | StoreError::InvalidCurrentPassword
        | StoreError::SessionError => 401,
        StoreError::UserDataNotFound(_)
        | StoreError::ProjectNotFound
        | StoreError::FailedGetAccount
        | StoreError::FailedUpdateAccount
        | StoreError::MissingCurrentPassword
        | StoreError::MalformedStoreHash
        | StoreError::FailedProjectCreation
        | StoreError::InvalidInput(_) => 400,
        StoreError::HashError(_) | StoreError::SqlxError(_) => 500,
    }
}

impl StoreError {
    /// The HTTP status code of this failure.
    pub fn status_code(&self) -> (r: u16)
        ensures
            r == store_status(*self),
    {
        match self {
            StoreError::UserNotFound
            | StoreError::IncorrectPassword
            | StoreError::InvalidCurrentPassword
            | StoreError::SessionError => 401,
            StoreError::UserDataNotFound(_)
            | StoreError::ProjectNotFound
            | StoreError::FailedGetAccount
            | StoreError::FailedUpdateAccount
            | StoreError::MissingCurrentPassword
            | StoreError::MalformedStoreHash
            | StoreError::FailedProjectCreation
            | StoreError::InvalidInput(_) => 400,
            StoreError::HashError(_) | StoreError::SqlxError(_) => 500,
        }
    }
}

/// Whether a stored password hash parses as a PHC string.
pub uninterp spec fn phc_parses(stored: Seq<char>) -> bool;

/// Whether Argon2 accepts a password against a parsed PHC hash string.
pub uninterp spec fn argon2_verifies(password: Seq<char>, stored: Seq<char>) -> bool;

/// Relies on `password_hash::PasswordHash::new`, which parses the PHC string
/// (`None` when it does not parse), and on `PasswordVerifier::verify_password`
/// of `argon2::Argon2::default()`, which recomputes the hash of the password
/// with the salt and parameters of the stored string and compares. The
/// memory cost that the stored string names is allocated; where the
/// allocation fails, the process aborts.
#[verifier::external_body]
fn argon2_check(password: &str, stored: &str) -> (r: Option<bool>)
    ensures
        r is None <==> !phc_parses(stored@),
        r is Some ==> r->Some_0 == argon2_verifies(password@, stored@),
{
    match PasswordHash::new(stored) {
        Ok(parsed) => Some(argon2::Argon2::default().verify_password(password.as_bytes(), &parsed).is_ok()),
        Err(_) => None,
    }
}

/// Whether a password matches the hash that the lookup of an account found.
pub open spec fn credentials_accepted(lookup: Result<String, StoreError>, password: Seq<char>) -> bool {
    match lookup {
        Ok(h) => phc_parses(h@) && argon2_verifies(password, h@),
        Err(_) => false,
    }
}

/// What checking a password against the lookup of an account yields.
pub open spec fn authentication(lookup: Result<String, StoreError>, password: Seq<char>) -> Result<bool, StoreError> {
    match lookup {
        Err(e) => Err(e),
        Ok(h) => if !phc_parses(h@) {
            Err(StoreError::MalformedStoreHash)
        } else if argon2_verifies(password, h@) {
            Ok(true)
        } else {
            Err(StoreError::IncorrectPassword)
        },
    }
}

/// Checks `password` against the stored hash that the lookup of the account
/// returned (its failure, such as `UserNotFound`, is passed on).
pub fn authenticate_user(lookup: Result<String, StoreError>, password: &str) -> (r: Result<bool, StoreError>)
    ensures
        r == authentication(lookup, password@),
        r is Ok <==> credentials_accepted(lookup, password@),
{
    match lookup {
        Err(e) => Err(e),
        Ok(h) => match argon2_check(password, h.as_str()) {
            None => Err(StoreError::MalformedStoreHash),
            Some(true) => Ok(true),
            Some(false) => Err(StoreError::IncorrectPassword),
        },
    }
}

/// A stored account.
#[derive(Debug, Clone)]
pub struct Account {
    pub name: String,
    pub email: String,
    pub password: String,
}

/// The settings of an account that its owner may read.
#[derive(Debug, Clone)]
pub struct AccountSettings {
    pub name: Option<String>,
    pub email: String,
}

/// A change of account settings; a new password takes the current one.
#[derive(Debug, Clone)]
pub struct AccountUpdateRequest {
    pub name: Option<String>,
    pub email: String,
    pub current_password: Option<String>,
    pub new_password: Option<String>,
}

/// A change of a project; the timestamp is in milliseconds since the epoch.
#[derive(Debug, Clone)]
pub struct UpdateProject {
    pub name: Option<String>,
    pub description: Option<String>,
    pub update_timestamp: i64,
}

/// Whether a text is an email address by the HTML5 rules.
pub uninterp spec fn is_email(s: Seq<char>) -> bool;

/// Relies on `validator::ValidateEmail::validate_email`: the HTML5 email
/// rules; an empty text, or one without `@`, is refused.
#[verifier::external_body]
pub(crate) fn email_is_valid(s: &str) -> (r: bool)
    ensures
        r == is_email(s@),
        r ==> s@.len() > 0 && s@.contains('@'),
{
    validator::ValidateEmail::validate_email(&s)
}

/// A text without its leading and trailing whitespace.
pub uninterp spec fn trimmed(s: Seq<char>) -> Seq<char>;

/// Relies on `str::trim`: the text without leading and trailing whitespace.
#[verifier::external_body]
fn trim_text(s: &str) -> (r: &str)
    ensures
        r@ == trimmed(s@),
        r@.len() <= s@.len(),
{
    s.trim()
}

/// Whether a project with this owner and name may be stored: the owner is an
/// email address and the name is not empty.
pub open spec fn project_fields_valid(user_email: Seq<char>, name: Seq<char>) -> bool {
    is_email(user_email) && name.len() >= 1
}

/// Checks the fields of a project before it is stored.
pub fn validate_project_fields(user_email: &str, name: &str) -> (r: Result<(), StoreError>)
    ensures
        r is Ok <==> project_fields_valid(user_email@, name@),
        r is Err ==> r->Err_0 is InvalidInput,
{
    if !email_is_valid(user_email) {
        return Err(StoreError::InvalidInput(String::from_str("user_email: invalid email address")));
    }
    if name.unicode_len() < 1 {
        return Err(StoreError::InvalidInput(String::from_str("name: Project must have a name")));
    }
    Ok(())
}

/// What a change of account settings asks of the store.
#[derive(Debug, Clone)]
pub enum AccountEdit {
    /// Only the name and the email change.
    NameAndEmail,
    /// The password changes too, once the current one is verified.
    WithPassword { current_password: String, new_password: String },
}

/// Decides how a change of account settings is carried out. A new password
/// that is absent or only whitespace leaves the password as it is; otherwise
/// the current password must be given.
pub fn plan_account_edit(request: &AccountUpdateRequest) -> (r: Result<AccountEdit, StoreError>)
    ensures
        match request.new_password {
            None => r matches Ok(AccountEdit::NameAndEmail),
            Some(np) => if trimmed(np@).len() == 0 {
                r matches Ok(AccountEdit::NameAndEmail)
            } else {
                match request.current_password {
                    None => r == Err::<AccountEdit, StoreError>(StoreError::MissingCurrentPassword),
                    Some(cp) => r matches Ok(AccountEdit::WithPassword { current_password, new_password })
                        && current_password@ == cp@ && new_password@ == np@,
                }
            },
        },
{
    match &request.new_password {
        None => Ok(AccountEdit::NameAndEmail),
        Some(np) => {
            if trim_text(np.as_str()).is_empty() {
                return Ok(AccountEdit::NameAndEmail);
            }
            match &request.current_password {
                None => Err(StoreError::MissingCurrentPassword),
                Some(cp) => Ok(AccountEdit::WithPassword { current_password: cp.clone(), new_password: np.clone() }),
            }
        },
    }
}

/// Relies on `argon2::Argon2::default().hash_password` with a salt of
/// sixteen bytes drawn through `OsRng::try_fill_bytes` and encoded by
/// `SaltString::encode_b64`: a failure of the operating system's random
/// source or of the hasher comes back as its error text. The salt is random;
/// what holds of every hash that comes back is that it is a PHC string under
/// which Argon2 accepts the password.
#[verifier::external_body]
pub(crate) fn hash_password(password: &str) -> (r: Result<String, String>)
    ensures
        r is Ok ==> phc_parses(r->Ok_0@) && argon2_verifies(password@, r->Ok_0@),
{
    let mut bytes = [0u8; argon2::password_hash::Salt::RECOMMENDED_LENGTH];
    OsRng.try_fill_bytes(&mut bytes).map_err(|e| e.to_string())?;
    let salt = argon2::password_hash::SaltString::encode_b64(&bytes).map_err(|e| e.to_string())?;
    argon2::Argon2::default().hash_password(password.as_bytes(), &salt).map(|h| h.to_string()).map_err(|e| e.to_string())
}

/// Hashes a new password for storage: a PHC string under which the password
/// verifies, or `HashError` with the hasher's message.
pub fn hash_new_password(password: &str) -> (r: Result<String, StoreError>)
    ensures
        r is Ok ==> phc_parses(r->Ok_0@) && argon2_verifies(password@, r->Ok_0@),
        r is Err ==> r->Err_0 is HashError,
{
    match hash_password(password) {
        Ok(h) => Ok(h),
        Err(msg) => Err(StoreError::HashError(msg)),
    }
}

} // verus!
