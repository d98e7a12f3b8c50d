use vstd::prelude::*;
use crate::group::{sees, visible, Group};
use crate::id::Id;

verus! {

/// A stored membership: `user_id` belongs to `group_id` since `added_at`
/// (microseconds since the Unix epoch).
#[derive(Debug)]
pub struct UserGroup {
    pub id: Id,
    pub added_at: i64,
    pub user_id: Id,
    pub group_id: Id,
}

/// A membership to store.
#[derive(Debug)]
pub struct UserGroupCreate {
    pub id: Id,
    pub added_at: i64,
    pub user_id: Id,
    pub group_id: Id,
}

impl UserGroupCreate {
    /// The membership as it reads once stored.
    pub open spec fn stored(self) -> UserGroup {
        UserGroup {
            id: self.id,
            added_at: self.added_at,
            user_id: self.user_id,
            group_id: self.group_id,
        }
    }
}

/// Some membership in `memberships` binds `user` to `group`.
pub open spec fn member_of(memberships: Seq<UserGroup>, user: Id, group: Id) -> bool {
    exists|i: int|
        0 <= i < memberships.len() && (#[trigger] memberships[i]).user_id == user
            && memberships[i].group_id == group
}

impl UserGroup {
    /// The membership to store that binds `user_id` to `group_id` from
    /// `added_at`, under a fresh random id.
    pub fn add(user_id: &Id, group_id: &Id, added_at: &i64) -> (r: UserGroupCreate)
        ensures
            r.user_id == *user_id,
            r.group_id == *group_id,
            r.added_at == *added_at,
    {
        UserGroupCreate { id: Id::new_v4(), added_at: *added_at, user_id: *user_id, group_id: *group_id }
    }

    /// The groups among `groups` that `user_id` belongs to, in their order.
    pub fn read_groups(user_id: &Id, groups: &Vec<Group>, memberships: &Vec<UserGroup>) -> (r: Vec<
        Group,
    >)
        ensures
            r@ == visible(groups@, memberships@, *user_id),
            forall|g: Group| r@.contains(g) <==> sees(groups@, memberships@, *user_id, g),
    {
        Group::read_all(user_id, groups, memberships)
    }

    /// Whether `memberships` binds `user_id` to `group_id`.
    pub fn is_member(memberships: &Vec<UserGroup>, user_id: &Id, group_id: &Id) -> (r: bool)
        ensures
            r == member_of(memberships@, *user_id, *group_id),
    {
        let mut i: usize = 0;
        while i < memberships.len()
            invariant
                i <= memberships.len(),
                forall|j: int|
                    0 <= j < i ==> !((#[trigger] memberships@[j]).user_id == *user_id
                        && memberships@[j].group_id == *group_id),
            decreases memberships.len() - i,
        {
            if memberships[i].user_id == *user_id && memberships[i].group_id == *group_id {
                return true;
            }
            i = i + 1;
        }
        false
    }
}

} // verus!
