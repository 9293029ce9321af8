//! The testing lesson: a store of users kept by id, listed by a handler
//! that the lesson's tests exercise.
use vstd::prelude::*;
use std::collections::HashMap;

verus! {

broadcast use vstd::std_specs::hash::group_hash_axioms;

/// A user of the store.
#[derive(Debug, Clone, PartialEq, Eq)]
pub struct User {
    pub username: String,
    pub password: String,
}

impl User {
    /// A copy of the user, field for field.
    pub fn duplicate(&self) -> (r: User)
        ensures
            r == *self,
    {
        User { username: self.username.clone(), password: self.password.clone() }
    }
}

/// The users, each under its id.
#[derive(Debug)]
pub struct UserStore {
    users: HashMap<u64, User>,
}

impl View for UserStore {
    type V = Map<u64, User>;

    closed spec fn view(&self) -> Map<u64, User> {
        self.users@
    }
}

impl UserStore {
    /// An empty store.
    pub fn new() -> (r: UserStore)
        ensures
            r@ == Map::<u64, User>::empty(),
    {
        UserStore { users: HashMap::new() }
    }

    /// Stores `user` under `id`, in place of any user stored there before.
    pub fn insert(&mut self, id: u64, user: User)
        ensures
            final(self)@ == old(self)@.insert(id, user),
    {
        self.users.insert(id, user);
    }

    /// Every stored user, once per id: the list holds the users stored under
    /// the ids of some ordering of the ids, each id once (the map's own order).
    pub fn list_users(&self) -> (r: Vec<User>)
        ensures
            exists|ids: Seq<u64>| #[trigger] lists_users_of(r@, ids, self@),
    {
        let mut out: Vec<User> = Vec::new();
        let ghost ids = vstd::std_specs::iter::IteratorSpec::remaining(
            &vstd::std_specs::hash::spec_keys_iter(&self.users),
        ).unref();
        for k in it: self.users.keys()
            invariant
                it.seq().unref() == ids,
                ids.to_set() == self.users@.dom(),
                ids.no_duplicates(),
                out@.len() == it.index(),
                forall|j: int| 0 <= j < it.index() ==> out@[j] == self.users@[#[trigger] ids[j]],
        {
            assert(ids[it.index() as int] == *k);
            assert(ids.to_set().contains(*k));
            match self.users.get(k) {
                Some(u) => out.push(u.duplicate()),
                None => {
                    assert(false);
                },
            }
        }
        assert(lists_users_of(out@, ids, self@));
        out
    }
}

/// `listed` holds, in order, the users that `users` stores under `ids`, and
/// `ids` names every stored id exactly once.
pub open spec fn lists_users_of(listed: Seq<User>, ids: Seq<u64>, users: Map<u64, User>) -> bool {
    &&& ids.no_duplicates()
    &&& ids.to_set() == users.dom()
    &&& listed.len() == ids.len()
    &&& forall|j: int| 0 <= j < ids.len() ==> listed[j] == users[#[trigger] ids[j]]
}

/// A listing holds one user per stored id, and a user stored under an id
/// is among the users listed afterwards.
pub proof fn law_stored_user_is_listed(
    listed: Seq<User>,
    ids: Seq<u64>,
    users: Map<u64, User>,
    id: u64,
    user: User,
)
    requires
        lists_users_of(listed, ids, users.insert(id, user)),
    ensures
        listed.len() == users.insert(id, user).dom().len(),
        listed.contains(user),
{
    ids.unique_seq_to_set();
    let stored = users.insert(id, user);
    assert(stored.dom().contains(id));
    assert(ids.to_set().contains(id));
    let j = choose|j: int| 0 <= j < ids.len() && ids[j] == id;
    assert(listed[j] == stored[ids[j]]);
}

/// The health check always answers 200.
pub fn health_handler() -> (r: u16)
    ensures
        r == 200,
{
    200
}

} // verus!
