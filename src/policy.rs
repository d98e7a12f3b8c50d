use vstd::prelude::*;
use crate::error::Error;
use crate::id::Id;

verus! {

/// The owner-only rule: an identity may act on a user record exactly when it
/// is that record's own identity.
pub open spec fn may_act_on_user(caller: Option<Id>, target: Id) -> bool {
    caller == Some(target)
}

/// Whether `caller` may read, update or delete the user record `target`.
pub fn can_act_on_user(caller: Option<Id>, target: Id) -> (r: bool)
    ensures
        r == may_act_on_user(caller, target),
{
    match caller {
        Some(c) => c == target,
        None => false,
    }
}

/// The caller's identity, or `Unauthenticated` with the operation's message.
pub open spec fn authenticated(caller: Option<Id>, message: &'static str) -> Result<Id, Error> {
    match caller {
        Some(u) => Ok(u),
        None => Err(Error::Unauthenticated(message)),
    }
}

/// The identity of the caller, or `Unauthenticated` with the operation's message.
pub fn require_authenticated(caller: Option<Id>, message: &'static str) -> (r: Result<Id, Error>)
    ensures
        r == authenticated(caller, message),
{
    match caller {
        Some(u) => Ok(u),
        None => Err(Error::Unauthenticated(message)),
    }
}

/// An identity always may act on its own record; another identity, or none, never may.
pub proof fn lemma_owner_only(u: Id, v: Id)
    ensures
        may_act_on_user(Some(u), u),
        u != v ==> !may_act_on_user(Some(u), v),
        !may_act_on_user(None, v),
{
}

} // verus!
