use vstd::prelude::*;
use vstd::utf8::encode_utf8;
use crate::error::Error;
use crate::hasher::{argon2_verdict, digest_of, hashable, Hasher};
use crate::id::Id;
use crate::policy::{can_act_on_user, may_act_on_user};
use crate::tokeniser::{issuance, now_seconds, Claims, Tokeniser};

verus! {

/// Message of a refused read of another user's record.
pub const VIEW_DENIED: &'static str = "Unauthorised - Only the given user can view their account";

/// Message of a refused update of another user's record.
pub const UPDATE_DENIED: &'static str = "Unauthorised - Only the given user can update their account";

/// Message of a refused deletion of another user's record.
pub const DELETE_DENIED: &'static str = "Unauthorised - Only the given user can delete their account";

/// A user as it is shown: the password digest is never part of it.
#[derive(Debug)]
pub struct User {
    pub id: Id,
    pub email: String,
    pub name: Option<String>,
}

/// A registration; as a stored row, `password` holds the digest.
#[derive(Debug)]
pub struct UserCreate {
    pub id: Id,
    pub email: String,
    pub password: String,
    pub name: Option<String>,
}

/// A partial update of the user `id`: only the fields given change.
#[derive(Debug)]
pub struct UserUpdate {
    pub id: Id,
    pub email: Option<String>,
    pub password: Option<String>,
    pub name: Option<String>,
}

/// The credentials of a login.
#[derive(Debug)]
pub struct UserLogin {
    pub email: String,
    pub password: String,
}

/// A copy of an optional string.
fn copy_text(o: &Option<String>) -> (r: Option<String>)
    ensures
        r == *o,
{
    match o {
        Some(s) => Some(s.clone()),
        None => None,
    }
}

/// The outcome of a login whose email lookup found `found` (the user's id
/// and stored digest), for the candidate password `password`. An unknown
/// email and a wrong password give the same `NotFound`.
pub open spec fn login_outcome(found: Option<(Id, String)>, password: Seq<u8>) -> Result<Id, Error> {
    match found {
        None => Err(Error::NotFound),
        Some((id, digest)) => match argon2_verdict(digest@, password) {
            None => Err(Error::Hasher),
            Some(true) => Ok(id),
            Some(false) => Err(Error::NotFound),
        },
    }
}

impl User {
    /// The row to store for a registration: the same fields, with the
    /// password replaced by its digest under the process salt.
    pub fn create(hasher: &Hasher, user: &UserCreate) -> (r: Result<UserCreate, Error>)
        ensures
            r is Ok <==> hashable(encode_utf8(user.password@), hasher.salt_bytes()),
            r matches Ok(row) ==> {
                &&& row.id == user.id
                &&& row.email == user.email
                &&& row.name == user.name
                &&& row.password@ == digest_of(encode_utf8(user.password@), hasher.salt_bytes())
            },
            r matches Err(e) ==> e == Error::Hasher,
    {
        let password = hasher.generate(user.password.as_str())?;
        Ok(UserCreate {
            id: user.id,
            email: user.email.clone(),
            password,
            name: copy_text(&user.name),
        })
    }

    /// Whether `admin_id` may read the record `user_id`; on success, the id
    /// of the record to fetch.
    pub fn read(admin_id: &Id, user_id: &Id) -> (r: Result<Id, Error>)
        ensures
            r == if may_act_on_user(Some(*admin_id), *user_id) {
                Ok::<Id, Error>(*user_id)
            } else {
                Err(Error::Unauthorized(VIEW_DENIED))
            },
    {
        if !can_act_on_user(Some(*admin_id), *user_id) {
            return Err(Error::Unauthorized(VIEW_DENIED));
        }
        Ok(*user_id)
    }

    /// The change to store for an update by `admin_id`: refused unless the
    /// caller owns the record; a new password is replaced by its digest.
    pub fn update(hasher: &Hasher, admin_id: &Id, user: &UserUpdate) -> (r: Result<UserUpdate, Error>)
        ensures
            !may_act_on_user(Some(*admin_id), user.id) ==> r == Err::<UserUpdate, Error>(
                Error::Unauthorized(UPDATE_DENIED),
            ),
            may_act_on_user(Some(*admin_id), user.id) ==> match user.password {
                None => r is Ok,
                Some(p) => (r is Ok <==> hashable(encode_utf8(p@), hasher.salt_bytes())),
            },
            r matches Ok(row) ==> {
                &&& row.id == user.id
                &&& row.email == user.email
                &&& row.name == user.name
                &&& row.password is Some <==> user.password is Some
                &&& row.password matches Some(d) ==> d@ == digest_of(
                    encode_utf8(user.password->0@),
                    hasher.salt_bytes(),
                )
            },
            r matches Err(e) ==> e == Error::Unauthorized(UPDATE_DENIED) || e == Error::Hasher,
    {
        if !can_act_on_user(Some(*admin_id), user.id) {
            return Err(Error::Unauthorized(UPDATE_DENIED));
        }
        let password = match &user.password {
            Some(p) => Some(hasher.generate(p.as_str())?),
            None => None,
        };
        Ok(UserUpdate {
            id: user.id,
            email: copy_text(&user.email),
            password,
            name: copy_text(&user.name),
        })
    }

    /// Whether `admin_id` may delete the record `user_id`; on success, the id
    /// of the record to delete.
    pub fn delete(admin_id: &Id, user_id: &Id) -> (r: Result<Id, Error>)
        ensures
            r == if may_act_on_user(Some(*admin_id), *user_id) {
                Ok::<Id, Error>(*user_id)
            } else {
                Err(Error::Unauthorized(DELETE_DENIED))
            },
    {
        if !can_act_on_user(Some(*admin_id), *user_id) {
            return Err(Error::Unauthorized(DELETE_DENIED));
        }
        Ok(*user_id)
    }

    /// Whether an update or a deletion changed the record: exactly one row.
    /// A second deletion of the same user changes nothing and is no error.
    pub fn changed(affected: usize) -> (r: bool)
        ensures
            r == (affected == 1),
    {
        affected == 1
    }

    /// The identity a login resolves to, given what the lookup by email found.
    pub fn authenticate(hasher: &Hasher, found: Option<(Id, String)>, user: &UserLogin) -> (r: Result<
        Id,
        Error,
    >)
        ensures
            r == login_outcome(found, encode_utf8(user.password@)),
            forall|salt: Seq<u8>|
                found is Some && hashable(encode_utf8(user.password@), salt) && #[trigger] digest_of(
                    encode_utf8(user.password@),
                    salt,
                ) == (found->0).1@ ==> r == Ok::<Id, Error>((found->0).0),
    {
        match found {
            None => Err(Error::NotFound),
            Some((id, digest)) => {
                if hasher.verify(digest.as_str(), user.password.as_str())? {
                    Ok(id)
                } else {
                    Err(Error::NotFound)
                }
            },
        }
    }

    /// A login at the clock reading `now`, with token id `jti`: the claims of
    /// a session token for the user that the lookup by email found, when the
    /// password matches.
    pub fn login_at(
        tokeniser: &Tokeniser,
        hasher: &Hasher,
        found: Option<(Id, String)>,
        user: &UserLogin,
        now: i64,
        jti: Id,
    ) -> (r: Result<Claims, Error>)
        ensures
            login_outcome(found, encode_utf8(user.password@)) matches Err(e) ==> r == Err::<
                Claims,
                Error,
            >(e),
            login_outcome(found, encode_utf8(user.password@)) matches Ok(id) ==> issuance(
                r,
                tokeniser.issuer_view(),
                id,
                now,
                jti,
            ),
            forall|salt: Seq<u8>|
                found is Some && hashable(encode_utf8(user.password@), salt) && #[trigger] digest_of(
                    encode_utf8(user.password@),
                    salt,
                ) == (found->0).1@ ==> issuance(r, tokeniser.issuer_view(), (found->0).0, now, jti),
    {
        let id = User::authenticate(hasher, found, user)?;
        tokeniser.claims_at(id, now, jti)
    }

    /// A login now: what `login_at` gives for the clock reading and a fresh
    /// random token id.
    pub fn login(tokeniser: &Tokeniser, hasher: &Hasher, found: Option<(Id, String)>, user: &UserLogin) -> (r:
        Result<Claims, Error>)
        ensures
            login_outcome(found, encode_utf8(user.password@)) matches Err(e) ==> r == Err::<
                Claims,
                Error,
            >(e),
            login_outcome(found, encode_utf8(user.password@)) matches Ok(id) ==> exists|
                now: i64,
                jti: Id,
            | #[trigger] issuance(r, tokeniser.issuer_view(), id, now, jti),
            forall|salt: Seq<u8>|
                found is Some && hashable(encode_utf8(user.password@), salt) && #[trigger] digest_of(
                    encode_utf8(user.password@),
                    salt,
                ) == (found->0).1@ ==> exists|now: i64, jti: Id|
                    #[trigger] issuance(r, tokeniser.issuer_view(), (found->0).0, now, jti),
    {
        let now = now_seconds();
        let jti = Id::new_v4();
        User::login_at(tokeniser, hasher, found, user, now, jti)
    }
}

} // verus!
