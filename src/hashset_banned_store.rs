use vstd::prelude::*;

use crate::data_stores::{BannedTokenStore, BannedTokenStoreError};

verus! {

/// A revocation list held in memory.
pub struct HashsetBannedTokenStore {
    banned_tokens: Vec<String>,
}

impl HashsetBannedTokenStore {
    pub fn new() -> (r: HashsetBannedTokenStore)
        ensures
            r.wf(),
            r.banned() == Set::<Seq<char>>::empty(),
    {
        let r = HashsetBannedTokenStore { banned_tokens: Vec::new() };
        assert(r.banned() =~= Set::<Seq<char>>::empty());
        r
    }
}

impl Default for HashsetBannedTokenStore {
    fn default() -> (r: HashsetBannedTokenStore)
        ensures
            r.wf(),
            r.banned() == Set::<Seq<char>>::empty(),
    {
        HashsetBannedTokenStore::new()
    }
}

impl BannedTokenStore for HashsetBannedTokenStore {
    closed spec fn wf(&self) -> bool {
        true
    }

    open spec fn available(&self) -> bool {
        true
    }

    closed spec fn banned(&self) -> Set<Seq<char>> {
        Set::new(|t: Seq<char>| exists|i: int| 0 <= i < self.banned_tokens@.len() && #[trigger] self.banned_tokens@[i]@ == t)
    }

    fn ban_token(&mut self, token: &str) -> (r: Result<(), BannedTokenStoreError>)
        ensures
            r is Ok,
    {
        if !self.is_token_banned(token) {
            let ghost old_tokens = self.banned_tokens@;
            self.banned_tokens.push(token.to_string());
            assert(self.banned_tokens@[old_tokens.len() as int]@ == token@);
            assert forall|t: Seq<char>| #[trigger] old(self).banned().contains(t) implies self.banned().contains(t) by {
                let i = choose|i: int| 0 <= i < old_tokens.len() && #[trigger] old_tokens[i]@ == t;
                assert(self.banned_tokens@[i]@ == t);
            }
            assert(self.banned() =~= old(self).banned().insert(token@));
        } else {
            assert(self.banned() =~= old(self).banned().insert(token@));
        }
        Ok(())
    }

    fn is_token_banned(&self, token: &str) -> (r: bool) {
        let wanted = token.to_string();
        let mut i: usize = 0;
        while i < self.banned_tokens.len()
            invariant
                i <= self.banned_tokens@.len(),
                wanted@ == token@,
                forall|k: int| 0 <= k < i ==> (#[trigger] self.banned_tokens@[k])@ != token@,
            decreases self.banned_tokens@.len() - i,
        {
            if self.banned_tokens[i] == wanted {
                assert(self.banned().contains(token@));
                return true;
            }
            i = i + 1;
        }
        false
    }
}

} // verus!
