//! Users: the sign-up request, the stored user, the hashing of passwords,
//! and the use case that creates a user over a store.

use std::sync::Arc;
use vstd::prelude::*;
use vstd::string::StringSliceAdditionalSpecFns;
use vstd::utf8::encode_utf8;
use argon2::PasswordHasher;
use crate::errors::{CustomError, CustomErrorView};
use crate::errors::outcome_view;

verus! {

/// How a user signs in.
#[derive(Debug, Clone, Copy, PartialEq, Eq, Structural)]
pub enum LoginType {
    /// With an email address and a password.
    Email,
}

impl LoginType {
    /// The name under which the way of signing in is stored.
    pub open spec fn name(self) -> Seq<char> {
        match self {
            LoginType::Email => "email"@,
        }
    }

    /// The name under which the way of signing in is stored.
    pub fn as_str(&self) -> (name: &'static str)
        ensures
            name@ == self.name(),
    {
        match self {
            LoginType::Email => "email",
        }
    }
}

/// A request to sign up.
#[derive(Debug, PartialEq)]
pub struct NewUser {
    email: String,
    password: String,
    password_confirm: String,
    nickname: String,
    login_type: LoginType,
}

/// Mathematical view of a request to sign up.
pub struct NewUserView {
    pub email: Seq<char>,
    pub password: Seq<char>,
    pub password_confirm: Seq<char>,
    pub nickname: Seq<char>,
    pub login_type: LoginType,
}

/// A user as it is stored. The password is stored hashed.
#[derive(Debug, PartialEq)]
pub struct User {
    email: String,
    password: String,
    nickname: String,
    login_type: String,
}

/// Mathematical view of a stored user.
pub struct UserView {
    pub email: Seq<char>,
    pub password: Seq<char>,
    pub nickname: Seq<char>,
    pub login_type: Seq<char>,
}

impl View for NewUser {
    type V = NewUserView;

    closed spec fn view(&self) -> NewUserView {
        NewUserView {
            email: self.email@,
            password: self.password@,
            password_confirm: self.password_confirm@,
            nickname: self.nickname@,
            login_type: self.login_type,
        }
    }
}

impl View for User {
    type V = UserView;

    closed spec fn view(&self) -> UserView {
        UserView {
            email: self.email@,
            password: self.password@,
            nickname: self.nickname@,
            login_type: self.login_type@,
        }
    }
}

impl NewUserView {
    /// The user that this request asks for: the same email, password and
    /// nickname, and the stored name of the way of signing in.
    pub open spec fn entity(self) -> UserView {
        UserView {
            email: self.email,
            password: self.password,
            nickname: self.nickname,
            login_type: self.login_type.name(),
        }
    }
}

impl Clone for User {
    fn clone(&self) -> (copy: Self)
        ensures
            copy == *self,
    {
        User {
            email: self.email.clone(),
            password: self.password.clone(),
            nickname: self.nickname.clone(),
            login_type: self.login_type.clone(),
        }
    }
}

impl User {
    /// Puts the given fields together.
    pub fn new(email: String, password: String, nickname: String, login_type: String) -> (user: Self)
        ensures
            user@ == (UserView {
                email: email@,
                password: password@,
                nickname: nickname@,
                login_type: login_type@,
            }),
    {
        User { email, password, nickname, login_type }
    }

    /// The email address.
    pub fn get_email(&self) -> (email: &String)
        ensures
            email@ == self@.email,
    {
        &self.email
    }

    /// The password, as it is stored.
    pub fn get_password(&self) -> (password: &String)
        ensures
            password@ == self@.password,
    {
        &self.password
    }

    /// The nickname.
    pub fn get_nickname(&self) -> (nickname: &String)
        ensures
            nickname@ == self@.nickname,
    {
        &self.nickname
    }

    /// The stored name of the way of signing in.
    pub fn get_login_type(&self) -> (login_type: &String)
        ensures
            login_type@ == self@.login_type,
    {
        &self.login_type
    }
}

impl NewUser {
    /// Puts the given fields together.
    pub fn new(
        email: String,
        password: String,
        password_confirm: String,
        nickname: String,
        login_type: LoginType,
    ) -> (request: Self)
        ensures
            request@ == (NewUserView {
                email: email@,
                password: password@,
                password_confirm: password_confirm@,
                nickname: nickname@,
                login_type,
            }),
    {
        NewUser { email, password, password_confirm, nickname, login_type }
    }

    /// The password of the request.
    pub fn password(&self) -> (password: &str)
        ensures
            password@ == self@.password,
    {
        self.password.as_str()
    }

    /// Replaces the password of the request; nothing else changes.
    pub fn set_password(&mut self, password: String)
        ensures
            final(self)@ == (NewUserView { password: password@, ..old(self)@ }),
    {
        self.password = password;
    }

    /// The user that this request asks for.
    pub fn to_entity(&self) -> (user: User)
        ensures
            user@ == self@.entity(),
    {
        User::new(
            self.email.clone(),
            self.password.clone(),
            self.nickname.clone(),
            self.login_type.as_str().to_string(),
        )
    }
}

/// `argon2::password_hash::Error`: why a password could not be hashed.
/// Declared so that it can stand in signatures; its contents stay hidden
/// from the verifier.
#[verifier::external_type_specification]
#[verifier::external_body]
pub struct ExPasswordHashError(argon2::password_hash::Error);

/// The Argon2id hash of a password under a salt, as a string in the PHC
/// format: what `Argon2::default().hash_password` of the crate `argon2`
/// returns for the password and the salt, or `None` where it returns an
/// error. The salt is given in the alphabet of the PHC format.
pub uninterp spec fn argon2id_phc(password: Seq<u8>, salt: Seq<char>) -> Option<Seq<char>>;

/// A fresh random salt in the alphabet of the PHC format:
/// `SaltString::generate` of `argon2::password_hash`, over the operating
/// system's random number generator. Nothing is claimed of the value.
#[verifier::external_body]
fn random_salt() -> String {
    let salt = argon2::password_hash::SaltString::generate(
        &mut argon2::password_hash::rand_core::OsRng,
    );
    salt.as_str().to_owned()
}

/// `Argon2::default().hash_password` of the crate `argon2`, with the salt
/// parsed by `Salt::from_b64` and the hash written out as a PHC string.
/// The result is a function of the password and the salt alone, which
/// [`argon2id_phc`] names; an error of the parsing or of the hashing comes
/// back as it is.
#[verifier::external_body]
fn argon2id(password: &[u8], salt: &str) -> (r: Result<String, argon2::password_hash::Error>)
    ensures
        match r {
            Ok(hash) => argon2id_phc(password@, salt@) == Some(hash@),
            Err(_) => argon2id_phc(password@, salt@) is None,
        },
{
    let salt = argon2::password_hash::Salt::from_b64(salt)?;
    let hash = argon2::Argon2::default().hash_password(password, salt)?;
    Ok(hash.to_string())
}

/// Hashes the password under the given salt. The same password and salt
/// give the same hash, so a stored hash can be reproduced.
pub fn hash_password_fixed(password: &[u8], salt: &str) -> (r: Result<
    String,
    argon2::password_hash::Error,
>)
    ensures
        hashed_under(password@, salt@, r),
{
    argon2id(password, salt)
}

/// Whether `outcome` is what hashing the password under the salt gives:
/// the hash, or an error where there is none.
pub open spec fn hashed_under(
    password: Seq<u8>,
    salt: Seq<char>,
    outcome: Result<String, argon2::password_hash::Error>,
) -> bool {
    hash_view(outcome) == argon2id_phc(password, salt)
}

/// Hashes the password under a fresh random salt. Whatever comes back is
/// the outcome of hashing this password under some salt.
pub fn hash_password(password: &[u8]) -> (r: Result<String, argon2::password_hash::Error>)
    ensures
        exists|salt: Seq<char>| #[trigger] hashed_under(password@, salt, r),
{
    let salt = random_salt();
    hash_password_fixed(password, salt.as_str())
}

/// Hashes the password of a sign-up under a fresh random salt. Whatever
/// comes back is the outcome of hashing the bytes of this password under
/// some salt.
pub fn _hash_password(password: &str) -> (r: Result<String, argon2::password_hash::Error>)
    ensures
        exists|salt: Seq<char>| #[trigger] hashed_under(password.spec_bytes(), salt, r),
{
    hash_password(password.as_bytes())
}

/// The view of the outcome of a hashing: the hash, if there is one.
pub open spec fn hash_view(hashed: Result<String, argon2::password_hash::Error>) -> Option<
    Seq<char>,
> {
    match hashed {
        Ok(hash) => Some(hash@),
        Err(_) => None,
    }
}

/// The user to store for a request, once the hashing of its password has
/// ended: the request with the hash in place of the password, or, where
/// the hashing failed, the error that reports it.
pub open spec fn user_to_store(request: NewUserView, hashed: Option<Seq<char>>) -> Result<
    UserView,
    CustomErrorView,
> {
    match hashed {
        Some(hash) => Ok((NewUserView { password: hash, ..request }).entity()),
        None => Err(CustomErrorView::Unexpected("failed to hashing password"@)),
    }
}

/// Puts the outcome of the hashing into the request and turns it into the
/// user to store. A failed hashing is reported as unexpected, whatever its
/// cause.
pub fn with_hashed_password(new_user: NewUser, hashed: Result<String, argon2::password_hash::Error>) -> (r:
    Result<User, CustomError>)
    ensures
        match r {
            Ok(user) => user_to_store(new_user@, hash_view(hashed)) == Ok::<
                UserView,
                CustomErrorView,
            >(user@),
            Err(e) => user_to_store(new_user@, hash_view(hashed)) == Err::<
                UserView,
                CustomErrorView,
            >(e@),
        },
{
    match hashed {
        Ok(hash) => {
            let mut new_user = new_user;
            new_user.set_password(hash);
            Ok(new_user.to_entity())
        },
        Err(_) => Err(CustomError::Unexpected("failed to hashing password".to_string())),
    }
}

/// A store that can save users.
pub trait SaveUserRepo {
    /// Saves the user and returns the id of the new user.
    fn save_user(&self, user: User) -> Result<i32, CustomError>;
}

/// The use case of creating a user.
pub trait CreateUserUsecase {
    /// Creates the user that the request asks for and returns its id.
    fn create_user(&self, new_user: NewUser) -> Result<i32, CustomError>;
}

/// The use case of creating a user over a shared store.
pub struct CreateUserUsecaseImpl<T: SaveUserRepo> {
    repository: Arc<T>,
}

/// What creating a user answers once the hashing of the password has
/// ended: where it gave a hash, an answer of the store to the user with that
/// hash in place of the password; where it failed, the error that reports
/// the failure.
pub open spec fn created_with<T: SaveUserRepo>(
    repository: T,
    request: NewUserView,
    hashed: Option<Seq<char>>,
    answer: Result<i32, CustomError>,
) -> bool {
    match user_to_store(request, hashed) {
        Ok(expected) => exists|user: User|
            user@ == expected && #[trigger] call_ensures(T::save_user, (&repository, user), answer),
        Err(e) => outcome_view(answer) == Err::<i32, CustomErrorView>(e),
    }
}

/// What creating a user may answer: for some salt, what it answers once
/// the password of the request has been hashed under that salt.
pub open spec fn created_as_asked<T: SaveUserRepo>(
    repository: T,
    request: NewUserView,
    answer: Result<i32, CustomError>,
) -> bool {
    exists|salt: Seq<char>|
        created_with(
            repository,
            request,
            #[trigger] argon2id_phc(encode_utf8(request.password), salt),
            answer,
        )
}

impl<T: SaveUserRepo> CreateUserUsecaseImpl<T> {
    /// The store behind this use case.
    pub closed spec fn repository(&self) -> T {
        *self.repository
    }

    /// The use case over the given store.
    pub fn new(repository: Arc<T>) -> (usecase: Self)
        ensures
            usecase.repository() == *repository,
    {
        Self { repository }
    }
}

impl<T: SaveUserRepo> CreateUserUsecase for CreateUserUsecaseImpl<T> {
    fn create_user(&self, new_user: NewUser) -> (answer: Result<i32, CustomError>)
        ensures
            created_as_asked(self.repository(), new_user@, answer),
    {
        _create_user(&*self.repository, new_user)
    }
}

/// Creates a user: hashes the password of the request under a fresh random
/// salt, puts the hash in place of the password and has the store save the
/// user.
pub fn _create_user<T: SaveUserRepo>(repository: &T, new_user: NewUser) -> (answer: Result<
    i32,
    CustomError,
>)
    ensures
        created_as_asked(*repository, new_user@, answer),
{
    let hashed = _hash_password(new_user.password());
    let ghost salt = choose|salt: Seq<char>| #[trigger]
        hashed_under(encode_utf8(new_user@.password), salt, hashed);
    let answer = match with_hashed_password(new_user, hashed) {
        Ok(user) => repository.save_user(user),
        Err(e) => Err(e),
    };
    assert(created_with(
        *repository,
        new_user@,
        argon2id_phc(encode_utf8(new_user@.password), salt),
        answer,
    ));
    answer
}

} // verus!
