//! The pending-challenge store: at most one two-factor challenge per
//! email. A new challenge for an email unconditionally replaces the
//! old one — last login wins, and a superseded challenge becomes
//! unverifiable.

use vstd::prelude::*;
use crate::domain::email::Email;
use crate::domain::errors::TwoFACodeStoreError;
use crate::domain::two_fa::LoginAttemptId;
use crate::domain::two_fa::TwoFACode;

verus! {

/// Mathematical image of one pending challenge.
pub struct ChallengeView {
    pub attempt_id: Seq<char>,
    pub code: Seq<char>,
}

/// One pending challenge of the store.
#[derive(Debug)]
struct ChallengeEntry {
    email: Email,
    attempt_id: LoginAttemptId,
    code: TwoFACode,
}

impl View for ChallengeEntry {
    type V = ChallengeView;

    closed spec fn view(&self) -> ChallengeView {
        ChallengeView { attempt_id: self.attempt_id@, code: self.code@ }
    }
}

/// The challenge image of a backing sequence of entries: challenges
/// keyed by email.
spec fn challenge_map(s: Seq<ChallengeEntry>) -> Map<Seq<char>, ChallengeView>
    decreases s.len(),
{
    if s.len() == 0 {
        Map::empty()
    } else {
        challenge_map(s.drop_last()).insert(s.last().email@, s.last()@)
    }
}

/// No two entries of the sequence share an email.
spec fn entry_emails_unique(s: Seq<ChallengeEntry>) -> bool {
    forall|i: int, j: int|
        0 <= i < j < s.len() ==> (#[trigger] s[i]).email@ != (#[trigger] s[j]).email@
}

proof fn lemma_challenge_map_absent(s: Seq<ChallengeEntry>, e: Seq<char>)
    requires
        forall|i: int| 0 <= i < s.len() ==> (#[trigger] s[i]).email@ != e,
    ensures
        !challenge_map(s).contains_key(e),
    decreases s.len(),
{
    if s.len() > 0 {
        assert forall|i: int| 0 <= i < s.drop_last().len() implies (#[trigger] s.drop_last()[i]).email@
            != e by {
            assert(s.drop_last()[i] == s[i]);
        }
        lemma_challenge_map_absent(s.drop_last(), e);
        assert(s.last().email@ != e);
    }
}

proof fn lemma_entry_emails_unique_drop_last(s: Seq<ChallengeEntry>)
    requires
        entry_emails_unique(s),
        s.len() > 0,
    ensures
        entry_emails_unique(s.drop_last()),
{
    assert forall|i: int, j: int| 0 <= i < j < s.drop_last().len() implies (
    #[trigger] s.drop_last()[i]).email@ != (#[trigger] s.drop_last()[j]).email@ by {
        assert(s.drop_last()[i] == s[i]);
        assert(s.drop_last()[j] == s[j]);
    }
}

proof fn lemma_challenge_map_at(s: Seq<ChallengeEntry>, i: int)
    requires
        entry_emails_unique(s),
        0 <= i < s.len(),
    ensures
        challenge_map(s).contains_key(s[i].email@),
        challenge_map(s)[s[i].email@] == s[i]@,
    decreases s.len(),
{
    if i == s.len() - 1 {
        assert(s.last() == s[i]);
    } else {
        lemma_entry_emails_unique_drop_last(s);
        lemma_challenge_map_at(s.drop_last(), i);
        assert(s.drop_last()[i] == s[i]);
        assert(s[i].email@ != s.last().email@);
    }
}

proof fn lemma_challenge_map_push(s: Seq<ChallengeEntry>, c: ChallengeEntry)
    ensures
        challenge_map(s.push(c)) == challenge_map(s).insert(c.email@, c@),
{
    assert(s.push(c).drop_last() =~= s);
    assert(s.push(c).last() == c);
}

proof fn lemma_challenge_map_remove(s: Seq<ChallengeEntry>, i: int)
    requires
        entry_emails_unique(s),
        0 <= i < s.len(),
    ensures
        entry_emails_unique(s.remove(i)),
        challenge_map(s.remove(i)) == challenge_map(s).remove(s[i].email@),
    decreases s.len(),
{
    assert forall|k: int, l: int| 0 <= k < l < s.remove(i).len() implies (
    #[trigger] s.remove(i)[k]).email@ != (#[trigger] s.remove(i)[l]).email@ by {
        assert(s.remove(i)[k] == if k < i { s[k] } else { s[k + 1] });
        assert(s.remove(i)[l] == if l < i { s[l] } else { s[l + 1] });
    }
    if i == s.len() - 1 {
        assert(s.remove(i) =~= s.drop_last());
        lemma_entry_emails_unique_drop_last(s);
        assert forall|k: int| 0 <= k < s.drop_last().len() implies (#[trigger] s.drop_last()[k]).email@
            != s[i].email@ by {
            assert(s.drop_last()[k] == s[k]);
        }
        lemma_challenge_map_absent(s.drop_last(), s[i].email@);
        assert(challenge_map(s).remove(s[i].email@) =~= challenge_map(s.drop_last()));
    } else {
        lemma_entry_emails_unique_drop_last(s);
        lemma_challenge_map_remove(s.drop_last(), i);
        assert(s.remove(i).drop_last() =~= s.drop_last().remove(i));
        assert(s.remove(i).last() == s.last());
        assert(s.drop_last()[i] == s[i]);
        assert(s[i].email@ != s.last().email@);
        assert(challenge_map(s.drop_last()).remove(s[i].email@).insert(s.last().email@, s.last()@)
            =~= challenge_map(s.drop_last()).insert(s.last().email@, s.last()@).remove(
            s[i].email@,
        ));
    }
}

/// The in-memory pending-challenge store: the entries live in a
/// vector whose emails are pairwise distinct, which realizes the
/// email-keyed map that the contracts speak of.
#[derive(Debug)]
pub struct HashmapTwoFACodeStore {
    codes: Vec<ChallengeEntry>,
}

impl View for HashmapTwoFACodeStore {
    type V = Map<Seq<char>, ChallengeView>;

    closed spec fn view(&self) -> Map<Seq<char>, ChallengeView> {
        challenge_map(self.codes@)
    }
}

impl HashmapTwoFACodeStore {
    /// The store's invariant: at most one pending challenge per email.
    pub closed spec fn wf(&self) -> bool {
        entry_emails_unique(self.codes@)
    }

    /// An empty store.
    pub fn new() -> (r: Self)
        ensures
            r.wf(),
            r@ == Map::<Seq<char>, ChallengeView>::empty(),
    {
        HashmapTwoFACodeStore { codes: Vec::new() }
    }

    /// The position of the challenge for `email`, if any.
    fn find_index(&self, email: &Email) -> (r: Option<usize>)
        ensures
            match r {
                Some(i) => i < self.codes@.len() && (self.codes@[i as int]).email@ == email@,
                None => forall|i: int|
                    0 <= i < self.codes@.len() ==> (#[trigger] self.codes@[i]).email@ != email@,
            },
    {
        let mut i: usize = 0;
        while i < self.codes.len()
            invariant
                i <= self.codes@.len(),
                forall|j: int| 0 <= j < i ==> (#[trigger] self.codes@[j]).email@ != email@,
            decreases self.codes@.len() - i,
        {
            if self.codes[i].email == *email {
                return Some(i);
            }
            i += 1;
        }
        None
    }

    /// Records the challenge for `email`, unconditionally replacing
    /// any challenge that was pending for that email.
    pub fn add_code(&mut self, email: Email, attempt_id: LoginAttemptId, code: TwoFACode) -> (r:
        Result<(), TwoFACodeStoreError>)
        requires
            old(self).wf(),
        ensures
            final(self).wf(),
            r == Ok::<(), TwoFACodeStoreError>(()),
            final(self)@ == old(self)@.insert(
                email@,
                (ChallengeView { attempt_id: attempt_id@, code: code@ }),
            ),
    {
        let ghost m0 = self@;
        let ghost e0 = email@;
        let ghost sorig = self.codes@;
        match self.find_index(&email) {
            Some(i) => {
                proof {
                    lemma_challenge_map_remove(self.codes@, i as int);
                }
                let ghost s1 = self.codes@.remove(i as int);
                self.codes.remove(i);
                let entry = ChallengeEntry { email, attempt_id, code };
                self.codes.push(entry);
                proof {
                    lemma_challenge_map_push(s1, self.codes@.last());
                    assert forall|k: int| 0 <= k < s1.len() implies (#[trigger] s1[k]).email@
                        != e0 by {
                        assert(s1[k] == if k < i { sorig[k] } else { sorig[k + 1] });
                    }
                    assert forall|k: int, l: int| 0 <= k < l < self.codes@.len() implies (
                    #[trigger] self.codes@[k]).email@ != (#[trigger] self.codes@[l]).email@ by {
                        assert(self.codes@[k] == s1[k]);
                        if l < self.codes@.len() - 1 {
                            assert(self.codes@[l] == s1[l]);
                        } else {
                            assert(self.codes@[l].email@ == e0);
                        }
                    }
                    assert(self@ =~= m0.insert(e0, self.codes@.last()@));
                }
                Ok(())
            },
            None => {
                proof {
                    lemma_challenge_map_absent(self.codes@, email@);
                }
                let ghost s0 = self.codes@;
                let entry = ChallengeEntry { email, attempt_id, code };
                self.codes.push(entry);
                proof {
                    lemma_challenge_map_push(s0, self.codes@.last());
                    assert forall|k: int, l: int| 0 <= k < l < self.codes@.len() implies (
                    #[trigger] self.codes@[k]).email@ != (#[trigger] self.codes@[l]).email@ by {
                        assert(self.codes@[k] == s0[k]);
                        if l < self.codes@.len() - 1 {
                            assert(self.codes@[l] == s0[l]);
                        }
                    }
                }
                Ok(())
            },
        }
    }

    /// A copy of the pending pair for `email`, or
    /// `LoginAttemptIdNotFound` when no challenge is pending.
    pub fn get_code(&self, email: &Email) -> (r: Result<
        (LoginAttemptId, TwoFACode),
        TwoFACodeStoreError,
    >)
        requires
            self.wf(),
        ensures
            self@.contains_key(email@) ==> (r matches Ok(p) && p.0@ == self@[email@].attempt_id
                && p.1@ == self@[email@].code),
            !self@.contains_key(email@) ==> r == Err::<
                (LoginAttemptId, TwoFACode),
                TwoFACodeStoreError,
            >(TwoFACodeStoreError::LoginAttemptIdNotFound),
    {
        match self.find_index(email) {
            Some(i) => {
                proof {
                    lemma_challenge_map_at(self.codes@, i as int);
                }
                Ok((self.codes[i].attempt_id.clone(), self.codes[i].code.clone()))
            },
            None => {
                proof {
                    lemma_challenge_map_absent(self.codes@, email@);
                }
                Err(TwoFACodeStoreError::LoginAttemptIdNotFound)
            },
        }
    }

    /// Destroys the pending challenge for `email`, or reports
    /// `LoginAttemptIdNotFound` when none is pending.
    pub fn remove_code(&mut self, email: &Email) -> (r: Result<(), TwoFACodeStoreError>)
        requires
            old(self).wf(),
        ensures
            final(self).wf(),
            old(self)@.contains_key(email@) ==> r == Ok::<(), TwoFACodeStoreError>(())
                && final(self)@ == old(self)@.remove(email@),
            !old(self)@.contains_key(email@) ==> r == Err::<(), TwoFACodeStoreError>(
                TwoFACodeStoreError::LoginAttemptIdNotFound,
            ) && final(self)@ == old(self)@,
    {
        match self.find_index(email) {
            Some(i) => {
                proof {
                    lemma_challenge_map_at(self.codes@, i as int);
                    lemma_challenge_map_remove(self.codes@, i as int);
                }
                self.codes.remove(i);
                Ok(())
            },
            None => {
                proof {
                    lemma_challenge_map_absent(self.codes@, email@);
                }
                Err(TwoFACodeStoreError::LoginAttemptIdNotFound)
            },
        }
    }
}

impl Default for HashmapTwoFACodeStore {
    /// The default store is empty.
    fn default() -> (r: Self)
        ensures
            r.wf(),
            r@ == Map::<Seq<char>, ChallengeView>::empty(),
    {
        HashmapTwoFACodeStore::new()
    }
}

} // verus!
