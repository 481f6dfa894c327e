//! The revoked-token registry: session tokens that must no longer be
//! accepted. Membership is permanent — nothing ever removes a token.

use vstd::prelude::*;
use crate::domain::errors::BannedTokenStoreError;

verus! {

/// The set image of a backing sequence of tokens.
pub open spec fn token_set(s: Seq<String>) -> Set<Seq<char>>
    decreases s.len(),
{
    if s.len() == 0 {
        Set::empty()
    } else {
        token_set(s.drop_last()).insert(s.last()@)
    }
}

proof fn lemma_token_set_absent(s: Seq<String>, t: Seq<char>)
    requires
        forall|i: int| 0 <= i < s.len() ==> (#[trigger] s[i])@ != t,
    ensures
        !token_set(s).contains(t),
    decreases s.len(),
{
    if s.len() > 0 {
        assert forall|i: int| 0 <= i < s.drop_last().len() implies (#[trigger] s.drop_last()[i])@
            != t by {
            assert(s.drop_last()[i] == s[i]);
        }
        lemma_token_set_absent(s.drop_last(), t);
        assert(s.last()@ != t);
    }
}

proof fn lemma_token_set_member(s: Seq<String>, i: int)
    requires
        0 <= i < s.len(),
    ensures
        token_set(s).contains(s[i]@),
    decreases s.len(),
{
    if i == s.len() - 1 {
        assert(s.last() == s[i]);
    } else {
        lemma_token_set_member(s.drop_last(), i);
        assert(s.drop_last()[i] == s[i]);
    }
}

proof fn lemma_token_set_push(s: Seq<String>, t: String)
    ensures
        token_set(s.push(t)) == token_set(s).insert(t@),
{
    assert(s.push(t).drop_last() =~= s);
    assert(s.push(t).last() == t);
}

/// The in-memory revoked-token registry: the tokens live in a vector
/// without duplicates, which realizes the token set that the
/// contracts speak of.
#[derive(Debug)]
pub struct HashSetBannedTokenStore {
    banned_tokens: Vec<String>,
}

impl View for HashSetBannedTokenStore {
    type V = Set<Seq<char>>;

    closed spec fn view(&self) -> Set<Seq<char>> {
        token_set(self.banned_tokens@)
    }
}

impl HashSetBannedTokenStore {
    /// An empty registry.
    pub fn new() -> (r: Self)
        ensures
            r@ == Set::<Seq<char>>::empty(),
    {
        HashSetBannedTokenStore { banned_tokens: Vec::new() }
    }

    /// The position of `token`, if it is in the registry.
    fn find_index(&self, token: &String) -> (r: Option<usize>)
        ensures
            match r {
                Some(i) => i < self.banned_tokens@.len() && (self.banned_tokens@[i as int])@
                    == token@,
                None => forall|i: int|
                    0 <= i < self.banned_tokens@.len() ==> (#[trigger] self.banned_tokens@[i])@
                        != token@,
            },
    {
        let mut i: usize = 0;
        while i < self.banned_tokens.len()
            invariant
                i <= self.banned_tokens@.len(),
                forall|j: int| 0 <= j < i ==> (#[trigger] self.banned_tokens@[j])@ != token@,
            decreases self.banned_tokens@.len() - i,
        {
            if self.banned_tokens[i] == *token {
                return Some(i);
            }
            i += 1;
        }
        None
    }

    /// Revocation: adds the token to the registry. Revoking a token
    /// that is already revoked succeeds silently and changes nothing.
    pub fn store(&mut self, token: String) -> (r: Result<(), BannedTokenStoreError>)
        ensures
            r == Ok::<(), BannedTokenStoreError>(()),
            final(self)@ == old(self)@.insert(token@),
    {
        match self.find_index(&token) {
            Some(i) => {
                proof {
                    lemma_token_set_member(self.banned_tokens@, i as int);
                    assert(old(self)@.insert(token@) =~= old(self)@);
                }
            },
            None => {
                let ghost s0 = self.banned_tokens@;
                self.banned_tokens.push(token);
                proof {
                    lemma_token_set_push(s0, self.banned_tokens@.last());
                }
            },
        }
        Ok(())
    }

    /// Pure membership test: whether the token has been revoked.
    pub fn contains(&self, token: String) -> (r: Result<bool, BannedTokenStoreError>)
        ensures
            r == Ok::<bool, BannedTokenStoreError>(self@.contains(token@)),
    {
        match self.find_index(&token) {
            Some(i) => {
                proof {
                    lemma_token_set_member(self.banned_tokens@, i as int);
                }
                Ok(true)
            },
            None => {
                proof {
                    lemma_token_set_absent(self.banned_tokens@, token@);
                }
                Ok(false)
            },
        }
    }
}

impl Default for HashSetBannedTokenStore {
    /// The default registry is empty.
    fn default() -> (r: Self)
        ensures
            r@ == Set::<Seq<char>>::empty(),
    {
        HashSetBannedTokenStore::new()
    }
}

} // verus!
