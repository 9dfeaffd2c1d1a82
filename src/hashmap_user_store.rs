use vstd::prelude::*;

use crate::data_stores::{UserStore, UserStoreError};
use crate::domain::{Email, User, UserRecord};
use crate::password_hash::{argon2_accepts, compute_password_hash, password_fits, verify_password_hash};

verus! {

/// A user directory held in memory.
pub struct HashMapUserStore {
    users: Vec<UserRecord>,
    model: Ghost<Map<Seq<char>, (Seq<char>, bool)>>,
}

impl HashMapUserStore {
    pub fn new() -> (r: HashMapUserStore)
        ensures
            r.wf(),
            r.users() == Map::<Seq<char>, (Seq<char>, bool)>::empty(),
    {
        HashMapUserStore { users: Vec::new(), model: Ghost(Map::empty()) }
    }

    /// The position of `email`'s account, if any.
    fn find(&self, email: &Email) -> (r: Option<usize>)
        requires
            self.wf(),
        ensures
            r matches Some(i) ==> i < self.users@.len() && self.users@[i as int].email@ == email@,
            r is None ==> !self.users().contains_key(email@),
    {
        let mut i: usize = 0;
        while i < self.users.len()
            invariant
                self.wf(),
                i <= self.users@.len(),
                forall|k: int| 0 <= k < i ==> (#[trigger] self.users@[k]).email@ != email@,
            decreases self.users@.len() - i,
        {
            if self.users[i].email.same_as(email) {
                return Some(i);
            }
            i = i + 1;
        }
        None
    }
}

impl Default for HashMapUserStore {
    fn default() -> (r: HashMapUserStore)
        ensures
            r.wf(),
            r.users() == Map::<Seq<char>, (Seq<char>, bool)>::empty(),
    {
        HashMapUserStore::new()
    }
}

impl UserStore for HashMapUserStore {
    /// Each account is stored once, and the model maps each address to its
    /// stored hash and flag.
    closed spec fn wf(&self) -> bool {
        &&& forall|i: int|
            0 <= i < self.users@.len() ==> {
                &&& self.model@.contains_key(#[trigger] self.users@[i].email@)
                &&& self.model@[self.users@[i].email@] == (
                    self.users@[i].password_hash@,
                    self.users@[i].requires_2fa,
                )
            }
        &&& forall|k: Seq<char>| #[trigger]
            self.model@.contains_key(k) ==> exists|i: int|
                0 <= i < self.users@.len() && #[trigger] self.users@[i].email@ == k
        &&& forall|i: int, j: int|
            0 <= i < self.users@.len() && 0 <= j < self.users@.len() && i != j ==> (
            #[trigger] self.users@[i]).email@ != (#[trigger] self.users@[j]).email@
    }

    open spec fn available(&self) -> bool {
        true
    }

    closed spec fn users(&self) -> Map<Seq<char>, (Seq<char>, bool)> {
        self.model@
    }

    fn insert(&mut self, user: User) -> (r: Result<(), UserStoreError>)
        ensures
            !old(self).users().contains_key(user.email@) && password_fits(user.password@) ==> r is Ok,
    {
        if self.find(&user.email).is_some() {
            return Err(UserStoreError::UserAlreadyExists);
        }
        let hash = match compute_password_hash(&user.password) {
            Some(h) => h,
            None => return Err(UserStoreError::UnexpectedError),
        };
        let ghost old_users = self.users@;
        let ghost key = user.email@;
        let ghost value = (hash@, user.requires_2fa);
        let record = UserRecord { email: user.email, password_hash: hash, requires_2fa: user.requires_2fa };
        self.users.push(record);
        self.model = Ghost(self.model@.insert(key, value));
        assert(self.users@[old_users.len() as int].email@ == key);
        assert forall|k: Seq<char>| #[trigger] self.model@.contains_key(k) implies exists|i: int|
            0 <= i < self.users@.len() && #[trigger] self.users@[i].email@ == k by {
            if k != key {
                let i = choose|i: int| 0 <= i < old_users.len() && #[trigger] old_users[i].email@ == k;
                assert(self.users@[i].email@ == k);
            }
        }
        assert(self.users()[key] == value);
        Ok(())
    }

    fn get(&self, email: &Email) -> (r: Result<UserRecord, UserStoreError>)
        ensures
            r is Ok <==> self.users().contains_key(email@),
            r is Err ==> r == Err::<UserRecord, UserStoreError>(UserStoreError::UserNotFound),
    {
        match self.find(email) {
            Some(i) => {
                let record = &self.users[i];
                Ok(
                    UserRecord {
                        email: record.email.clone(),
                        password_hash: record.password_hash.clone(),
                        requires_2fa: record.requires_2fa,
                    },
                )
            },
            None => Err(UserStoreError::UserNotFound),
        }
    }

    fn validate(&self, email: &Email, password: &str) -> (r: Result<(), UserStoreError>)
        ensures
            r is Ok <==> self.users().contains_key(email@) && argon2_accepts(
                password@,
                self.users()[email@].0,
            ),
            r == Err::<(), UserStoreError>(UserStoreError::UserNotFound) <==> !self.users().contains_key(email@),
            self.users().contains_key(email@) && !argon2_accepts(password@, self.users()[email@].0)
                ==> r == Err::<(), UserStoreError>(UserStoreError::InvalidCredentials),
    {
        match self.find(email) {
            Some(i) => {
                if verify_password_hash(self.users[i].password_hash.as_str(), password) {
                    Ok(())
                } else {
                    Err(UserStoreError::InvalidCredentials)
                }
            },
            None => Err(UserStoreError::UserNotFound),
        }
    }
}

} // verus!
