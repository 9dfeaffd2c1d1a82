use vstd::prelude::*;

use crate::data_stores::{
    challenge_expiry, challenge_expiry_at, LoginAttemptId, TwoFACode, TwoFACodeStore,
    TwoFACodeStoreError,
};
use crate::domain::Email;

verus! {

struct CodeEntry {
    email: Email,
    login_attempt_id: LoginAttemptId,
    code: TwoFACode,
    expires_at: u64,
}

spec fn entry_view(e: CodeEntry) -> (Seq<char>, Seq<char>, u64) {
    (e.login_attempt_id@, e.code@, e.expires_at)
}

/// A challenge store held in memory; a challenge lapses at the moment
/// recorded with it.
pub struct HashmapTwoFACodeStore {
    codes: Vec<CodeEntry>,
    model: Ghost<Map<Seq<char>, (Seq<char>, Seq<char>, u64)>>,
}

impl HashmapTwoFACodeStore {
    pub fn new() -> (r: HashmapTwoFACodeStore)
        ensures
            r.wf(),
            r.codes() == Map::<Seq<char>, (Seq<char>, Seq<char>, u64)>::empty(),
    {
        HashmapTwoFACodeStore { codes: Vec::new(), model: Ghost(Map::empty()) }
    }

    /// The position of `email`'s challenge, if any.
    fn find(&self, email: &Email) -> (r: Option<usize>)
        requires
            self.wf(),
        ensures
            r matches Some(i) ==> i < self.codes@.len() && self.codes@[i as int].email@ == email@,
            r is None ==> !self.codes().contains_key(email@),
    {
        let mut i: usize = 0;
        while i < self.codes.len()
            invariant
                self.wf(),
                i <= self.codes@.len(),
                forall|k: int| 0 <= k < i ==> (#[trigger] self.codes@[k]).email@ != email@,
            decreases self.codes@.len() - i,
        {
            if self.codes[i].email.same_as(email) {
                return Some(i);
            }
            i = i + 1;
        }
        None
    }

    /// Drops the entry at `i`.
    fn remove_at(&mut self, i: usize)
        requires
            old(self).wf(),
            i < old(self).codes@.len(),
        ensures
            final(self).wf(),
            final(self).codes() == old(self).codes().remove(old(self).codes@[i as int].email@),
    {
        let ghost old_codes = self.codes@;
        let ghost key = old_codes[i as int].email@;
        self.codes.remove(i);
        self.model = Ghost(self.model@.remove(key));
        assert forall|j: int| 0 <= j < self.codes@.len() implies #[trigger] self.codes@[j]
            == old_codes[if j < i { j } else { j + 1 }] by {}
        assert forall|j: int| 0 <= j < self.codes@.len() implies {
            &&& self.model@.contains_key(#[trigger] self.codes@[j].email@)
            &&& self.model@[self.codes@[j].email@] == entry_view(self.codes@[j])
        } by {
            let m = if j < i { j } else { j + 1 };
            assert(old_codes[m].email@ != key);
        }
        assert forall|k: Seq<char>| #[trigger] self.model@.contains_key(k) implies exists|j: int|
            0 <= j < self.codes@.len() && #[trigger] self.codes@[j].email@ == k by {
            let m = choose|m: int| 0 <= m < old_codes.len() && #[trigger] old_codes[m].email@ == k;
            let j = if m < i { m } else { m - 1 };
            assert(self.codes@[j] == old_codes[m]);
        }
        assert forall|a: int, b: int|
            0 <= a < self.codes@.len() && 0 <= b < self.codes@.len() && a != b implies (
            #[trigger] self.codes@[a]).email@ != (#[trigger] self.codes@[b]).email@ by {
            let ma = if a < i { a } else { a + 1 };
            let mb = if b < i { b } else { b + 1 };
            assert(old_codes[ma].email@ != old_codes[mb].email@);
        }
    }
}

impl Default for HashmapTwoFACodeStore {
    fn default() -> (r: HashmapTwoFACodeStore)
        ensures
            r.wf(),
            r.codes() == Map::<Seq<char>, (Seq<char>, Seq<char>, u64)>::empty(),
    {
        HashmapTwoFACodeStore::new()
    }
}

impl TwoFACodeStore for HashmapTwoFACodeStore {
    /// Each address has one entry, and the model maps it to that entry.
    closed spec fn wf(&self) -> bool {
        &&& forall|i: int|
            0 <= i < self.codes@.len() ==> {
                &&& self.model@.contains_key(#[trigger] self.codes@[i].email@)
                &&& self.model@[self.codes@[i].email@] == entry_view(self.codes@[i])
            }
        &&& forall|k: Seq<char>| #[trigger]
            self.model@.contains_key(k) ==> exists|i: int|
                0 <= i < self.codes@.len() && #[trigger] self.codes@[i].email@ == k
        &&& forall|i: int, j: int|
            0 <= i < self.codes@.len() && 0 <= j < self.codes@.len() && i != j ==> (
            #[trigger] self.codes@[i]).email@ != (#[trigger] self.codes@[j]).email@
    }

    open spec fn available(&self) -> bool {
        true
    }

    closed spec fn codes(&self) -> Map<Seq<char>, (Seq<char>, Seq<char>, u64)> {
        self.model@
    }

    fn add_code(
        &mut self,
        email: Email,
        login_attempt_id: LoginAttemptId,
        code: TwoFACode,
        now: u64,
    ) -> (r: Result<(), TwoFACodeStoreError>)
        ensures
            r is Ok,
    {
        if let Some(i) = self.find(&email) {
            self.remove_at(i);
        }
        let ghost mid = self.model@;
        let ghost old_codes = self.codes@;
        let ghost key = email@;
        let entry = CodeEntry { email, login_attempt_id, code, expires_at: challenge_expiry_at(now) };
        let ghost value = entry_view(entry);
        self.codes.push(entry);
        self.model = Ghost(mid.insert(key, value));
        assert(self.codes@[old_codes.len() as int].email@ == key);
        assert forall|k: Seq<char>| #[trigger] self.model@.contains_key(k) implies exists|i: int|
            0 <= i < self.codes@.len() && #[trigger] self.codes@[i].email@ == k by {
            if k != key {
                let i = choose|i: int| 0 <= i < old_codes.len() && #[trigger] old_codes[i].email@ == k;
                assert(self.codes@[i].email@ == k);
            }
        }
        assert(self.codes() =~= old(self).codes().insert(
            key,
            (login_attempt_id@, code@, challenge_expiry(now)),
        ));
        Ok(())
    }

    fn remove_code(&mut self, email: &Email) -> (r: Result<(), TwoFACodeStoreError>)
        ensures
            r is Ok,
    {
        match self.find(email) {
            Some(i) => self.remove_at(i),
            None => {
                assert(self.codes() =~= old(self).codes().remove(email@));
            },
        }
        Ok(())
    }

    fn get_code(&self, email: &Email, now: u64) -> (r: Result<
        (LoginAttemptId, TwoFACode),
        TwoFACodeStoreError,
    >)
        ensures
            r is Ok <==> self.codes().contains_key(email@) && now < self.codes()[email@].2,
            r is Err ==> r == Err::<(LoginAttemptId, TwoFACode), TwoFACodeStoreError>(
                TwoFACodeStoreError::LoginAttemptIdNotFound,
            ),
    {
        match self.find(email) {
            Some(i) => {
                let entry = &self.codes[i];
                if now < entry.expires_at {
                    Ok((entry.login_attempt_id.clone(), entry.code.clone()))
                } else {
                    Err(TwoFACodeStoreError::LoginAttemptIdNotFound)
                }
            },
            None => Err(TwoFACodeStoreError::LoginAttemptIdNotFound),
        }
    }
}

} // verus!
