use vstd::prelude::*;
use crate::error::Error;
use crate::id::Id;
use crate::user_group::{member_of, UserGroup, UserGroupCreate};

verus! {

/// A stored group; `created_at` is in microseconds since the Unix epoch.
#[derive(Debug)]
pub struct Group {
    pub id: Id,
    pub name: String,
    pub created_at: i64,
}

/// A group to create.
#[derive(Debug)]
pub struct GroupCreate {
    pub id: Id,
    pub name: String,
    pub created_at: i64,
}

/// A partial update of the group `id`: only the fields given change.
#[derive(Debug)]
pub struct GroupUpdate {
    pub id: Id,
    pub name: Option<String>,
}

impl GroupCreate {
    /// The group as it reads once stored.
    pub open spec fn stored(self) -> Group {
        Group { id: self.id, name: self.name, created_at: self.created_at }
    }
}

/// The groups among `groups` that `user` is a member of, in their order.
pub open spec fn visible(groups: Seq<Group>, memberships: Seq<UserGroup>, user: Id) -> Seq<Group> {
    groups.filter(|g: Group| member_of(memberships, user, g.id))
}

/// `user` sees `g`: it is stored, and `user` is a member of it.
pub open spec fn sees(groups: Seq<Group>, memberships: Seq<UserGroup>, user: Id, g: Group) -> bool {
    groups.contains(g) && member_of(memberships, user, g.id)
}

impl Group {
    /// A copy of the group.
    pub fn copy(&self) -> (r: Group)
        ensures
            r == *self,
    {
        Group { id: self.id, name: self.name.clone(), created_at: self.created_at }
    }

    /// The rows to store, together in one transaction, when `user_id`
    /// creates `group`: the group itself, and the creator's membership from
    /// the creation instant.
    pub fn create(user_id: &Id, group: &GroupCreate) -> (r: (GroupCreate, UserGroupCreate))
        ensures
            r.0.id == group.id,
            r.0.name == group.name,
            r.0.created_at == group.created_at,
            r.1.user_id == *user_id,
            r.1.group_id == group.id,
            r.1.added_at == group.created_at,
    {
        let membership = UserGroup::add(user_id, &group.id, &group.created_at);
        (GroupCreate { id: group.id, name: group.name.clone(), created_at: group.created_at }, membership)
    }

    /// Whether a creation succeeded: exactly one group row and one
    /// membership row were stored.
    pub fn created(groups_inserted: usize, memberships_inserted: usize) -> (r: bool)
        ensures
            r == (groups_inserted == 1 && memberships_inserted == 1),
    {
        groups_inserted == 1 && memberships_inserted == 1
    }

    /// Whether an update or a deletion changed the group: exactly one row.
    pub fn changed(affected: usize) -> (r: bool)
        ensures
            r == (affected == 1),
    {
        affected == 1
    }

    /// The group `group_id` as `user_id` may read it, given the stored group
    /// of that id (if any) and the stored memberships; `NotFound` when it is
    /// absent or `user_id` is no member.
    pub fn read(user_id: &Id, group_id: &Id, found: Option<Group>, memberships: &Vec<UserGroup>) -> (r:
        Result<Group, Error>)
        ensures
            r == (match found {
                Some(g) => if g.id == *group_id && member_of(memberships@, *user_id, *group_id) {
                    Ok(g)
                } else {
                    Err(Error::NotFound)
                },
                None => Err(Error::NotFound),
            }),
    {
        match found {
            Some(g) => {
                if g.id == *group_id && UserGroup::is_member(memberships, user_id, group_id) {
                    Ok(g)
                } else {
                    Err(Error::NotFound)
                }
            },
            None => Err(Error::NotFound),
        }
    }

    /// The groups among `groups` that `user_id` is a member of, in their order.
    pub fn read_all(user_id: &Id, groups: &Vec<Group>, memberships: &Vec<UserGroup>) -> (r: Vec<Group>)
        ensures
            r@ == visible(groups@, memberships@, *user_id),
            forall|g: Group| r@.contains(g) <==> sees(groups@, memberships@, *user_id, g),
    {
        let mut r: Vec<Group> = Vec::new();
        let mut i: usize = 0;
        while i < groups.len()
            invariant
                i <= groups.len(),
                r@ == visible(groups@.subrange(0, i as int), memberships@, *user_id),
                forall|g: Group|
                    r@.contains(g) <==> (groups@.subrange(0, i as int).contains(g) && member_of(
                        memberships@,
                        *user_id,
                        g.id,
                    )),
            decreases groups.len() - i,
        {
            let g = &groups[i];
            let ghost before = r@;
            let member = UserGroup::is_member(memberships, user_id, &g.id);
            if member {
                r.push(g.copy());
            }
            proof {
                let seen = groups@.subrange(0, i as int);
                let next = groups@.subrange(0, i + 1);
                assert(next == seen.push(groups@[i as int]));
                seen.lemma_filter_push(
                    groups@[i as int],
                    |g: Group| member_of(memberships@, *user_id, g.id),
                );
                assert forall|h: Group|
                    r@.contains(h) <==> (next.contains(h) && member_of(
                        memberships@,
                        *user_id,
                        h.id,
                    )) by {
                    assert(before.contains(h) <==> (seen.contains(h) && member_of(
                        memberships@,
                        *user_id,
                        h.id,
                    )));
                    if r@.contains(h) {
                        let k = choose|k: int| 0 <= k < r@.len() && r@[k] == h;
                        if k < before.len() {
                            assert(before[k] == h);
                            assert(before.contains(h));
                            let j = choose|j: int| 0 <= j < seen.len() && seen[j] == h;
                            assert(next[j] == h);
                        } else {
                            assert(next[i as int] == h);
                        }
                    }
                    if next.contains(h) && member_of(memberships@, *user_id, h.id) {
                        let j = choose|j: int| 0 <= j < next.len() && next[j] == h;
                        if j < i {
                            assert(seen[j] == h);
                            assert(seen.contains(h));
                            let k = choose|k: int| 0 <= k < before.len() && before[k] == h;
                            assert(r@[k] == h);
                        } else {
                            assert(r@[before.len() as int] == h);
                        }
                    }
                }
            }
            i = i + 1;
        }
        proof {
            assert(groups@.subrange(0, groups@.len() as int) == groups@);
        }
        r
    }

    /// Whether `user_id` may change the group of `group.id`: only a member may.
    pub fn update(user_id: &Id, group: &GroupUpdate, memberships: &Vec<UserGroup>) -> (r: bool)
        ensures
            r == member_of(memberships@, *user_id, group.id),
    {
        UserGroup::is_member(memberships, user_id, &group.id)
    }

    /// Whether `user_id` may delete the group `group_id`: only a member may.
    pub fn delete(user_id: &Id, group_id: &Id, memberships: &Vec<UserGroup>) -> (r: bool)
        ensures
            r == member_of(memberships@, *user_id, *group_id),
    {
        UserGroup::is_member(memberships, user_id, group_id)
    }
}

/// Once the rows of a creation by `u1` are stored, `u1` sees the new group
/// and a user `u2` who was never added to it does not.
pub proof fn lemma_creator_sees_group(
    groups: Seq<Group>,
    memberships: Seq<UserGroup>,
    u1: Id,
    u2: Id,
    g: GroupCreate,
    m: UserGroupCreate,
)
    requires
        m.user_id == u1,
        m.group_id == g.id,
        u1 != u2,
        !member_of(memberships, u2, g.id),
    ensures
        sees(groups.push(g.stored()), memberships.push(m.stored()), u1, g.stored()),
        forall|h: Group|
            h.id == g.id ==> !sees(groups.push(g.stored()), memberships.push(m.stored()), u2, h),
{
    let gs = groups.push(g.stored());
    let ms = memberships.push(m.stored());
    assert(gs[groups.len() as int] == g.stored());
    assert(ms[memberships.len() as int] == m.stored());
    assert(member_of(ms, u1, g.id));
    assert forall|h: Group| h.id == g.id implies !sees(gs, ms, u2, h) by {
        if member_of(ms, u2, h.id) {
            let i = choose|i: int|
                0 <= i < ms.len() && (#[trigger] ms[i]).user_id == u2 && ms[i].group_id == h.id;
            assert(i < memberships.len());
            assert(memberships[i] == ms[i]);
        }
    }
}

} // verus!
