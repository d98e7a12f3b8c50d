use vstd::prelude::*;
use crate::error::Error;
use crate::group::{Group, GroupCreate};
use crate::hasher::{digest_of, hashable, Hasher};
use crate::id::Id;
use crate::policy::{authenticated, may_act_on_user, require_authenticated};
use crate::user::{User, UserUpdate, DELETE_DENIED, UPDATE_DENIED, VIEW_DENIED};
use crate::user_group::UserGroupCreate;

verus! {

/// Message of an anonymous read of a user.
pub const VIEW_USERS: &'static str = "Unauthorised - Must be logged in to view users";

/// Message of an anonymous read of a group.
pub const VIEW_GROUPS: &'static str = "Unauthorised - Must be logged in to view groups";

/// Message of an anonymous update of a user.
pub const UPDATE_USER: &'static str = "Unauthorised - Must be logged in to update user";

/// Message of an anonymous deletion of a user.
pub const DELETE_USER: &'static str = "Unauthorised - Must be logged in to delete user";

/// Message of an anonymous creation of a group.
pub const CREATE_GROUPS: &'static str = "Unauthorised - Must be logged in to create groups";

/// Message of an anonymous update of a group.
pub const UPDATE_GROUP: &'static str = "Unauthorised - Must be logged in to update group";

/// Message of an anonymous deletion of a group.
pub const DELETE_GROUP: &'static str = "Unauthorised - Must be logged in to delete group";

/// The read operations of the service, each deciding for an optional caller
/// what may be fetched.
pub struct Query;

/// The write operations of the service, each deciding for an optional caller
/// what may be stored.
pub struct Mutation;

/// The result of an operation on the user `target` that needs a caller who
/// owns it.
pub open spec fn owner_only(caller: Option<Id>, target: Id, anonymous: &'static str, denied: &'static str) -> Result<
    Id,
    Error,
> {
    match caller {
        None => Err(Error::Unauthenticated(anonymous)),
        Some(u) => if may_act_on_user(Some(u), target) {
            Ok(target)
        } else {
            Err(Error::Unauthorized(denied))
        },
    }
}

impl Query {
    /// Reading the user `user_id`: the id of the record to fetch.
    pub fn user(caller: Option<Id>, user_id: Id) -> (r: Result<Id, Error>)
        ensures
            r == owner_only(caller, user_id, VIEW_USERS, VIEW_DENIED),
    {
        let admin_id = require_authenticated(caller, VIEW_USERS)?;
        User::read(&admin_id, &user_id)
    }

    /// Reading a group: the caller, whose memberships decide what is visible.
    pub fn group(caller: Option<Id>) -> (r: Result<Id, Error>)
        ensures
            r == authenticated(caller, VIEW_GROUPS),
    {
        require_authenticated(caller, VIEW_GROUPS)
    }
}

impl Mutation {
    /// Updating a user: the change to store, with a new password replaced
    /// by its digest.
    pub fn update_user(hasher: &Hasher, caller: Option<Id>, user: &UserUpdate) -> (r: Result<
        UserUpdate,
        Error,
    >)
        ensures
            owner_only(caller, user.id, UPDATE_USER, UPDATE_DENIED) matches Err(e) ==> r == Err::<
                UserUpdate,
                Error,
            >(e),
            owner_only(caller, user.id, UPDATE_USER, UPDATE_DENIED) is Ok ==> match user.password {
                None => r is Ok,
                Some(p) => (r is Ok <==> hashable(
                    vstd::utf8::encode_utf8(p@),
                    hasher.salt_bytes(),
                )),
            },
            r matches Ok(row) ==> {
                &&& row.id == user.id
                &&& row.email == user.email
                &&& row.name == user.name
                &&& row.password is Some <==> user.password is Some
                &&& row.password matches Some(d) ==> d@ == digest_of(
                    vstd::utf8::encode_utf8(user.password->0@),
                    hasher.salt_bytes(),
                )
            },
            r matches Err(e) ==> e == Error::Unauthenticated(UPDATE_USER) || e
                == Error::Unauthorized(UPDATE_DENIED) || e == Error::Hasher,
    {
        let admin_id = require_authenticated(caller, UPDATE_USER)?;
        User::update(hasher, &admin_id, user)
    }

    /// Deleting the user `user_id`: the id of the record to delete.
    pub fn delete_user(caller: Option<Id>, user_id: Id) -> (r: Result<Id, Error>)
        ensures
            r == owner_only(caller, user_id, DELETE_USER, DELETE_DENIED),
    {
        let admin_id = require_authenticated(caller, DELETE_USER)?;
        User::delete(&admin_id, &user_id)
    }

    /// Creating a group: the group row and the creator's membership row,
    /// to store together.
    pub fn create_group(caller: Option<Id>, group: &GroupCreate) -> (r: Result<
        (GroupCreate, UserGroupCreate),
        Error,
    >)
        ensures
            caller is None ==> r == Err::<(GroupCreate, UserGroupCreate), Error>(
                Error::Unauthenticated(CREATE_GROUPS),
            ),
            caller matches Some(u) ==> r matches Ok(rows) && rows.0.stored() == group.stored()
                && rows.1.user_id == u && rows.1.group_id == group.id && rows.1.added_at
                == group.created_at,
    {
        let user_id = require_authenticated(caller, CREATE_GROUPS)?;
        Ok(Group::create(&user_id, group))
    }

    /// Updating a group: the caller, whose memberships decide whether the
    /// change applies.
    pub fn update_group(caller: Option<Id>) -> (r: Result<Id, Error>)
        ensures
            r == authenticated(caller, UPDATE_GROUP),
    {
        require_authenticated(caller, UPDATE_GROUP)
    }

    /// Deleting a group: the caller, whose memberships decide whether the
    /// deletion applies.
    pub fn delete_group(caller: Option<Id>) -> (r: Result<Id, Error>)
        ensures
            r == authenticated(caller, DELETE_GROUP),
    {
        require_authenticated(caller, DELETE_GROUP)
    }
}

} // verus!
