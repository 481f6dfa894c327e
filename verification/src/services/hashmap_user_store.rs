//! The account directory: one record per email, emails unique.
//!
//! The store is modelled as a map from email to account record. The
//! check-and-insert of [`HashmapUserStore::add_user`] is one critical
//! section of the caller's lock, so of two concurrent signups with the
//! same email exactly one can succeed.

use vstd::prelude::*;
use crate::domain::email::Email;
use crate::domain::errors::UserStoreError;
use crate::domain::password::Password;
use crate::domain::user::User;
use crate::domain::user::UserView;

verus! {

/// The directory image of a backing sequence of records: accounts
/// keyed by email.
pub open spec fn directory_map(s: Seq<User>) -> Map<Seq<char>, UserView>
    decreases s.len(),
{
    if s.len() == 0 {
        Map::empty()
    } else {
        directory_map(s.drop_last()).insert(s.last()@.email, s.last()@)
    }
}

/// No two records of the sequence share an email.
pub open spec fn emails_unique(s: Seq<User>) -> bool {
    forall|i: int, j: int|
        0 <= i < j < s.len() ==> (#[trigger] s[i])@.email != (#[trigger] s[j])@.email
}

/// What `add_user` returns: the insert fails exactly when the email
/// already has an account.
pub open spec fn spec_add_user_result(m: Map<Seq<char>, UserView>, u: UserView) -> Result<
    (),
    UserStoreError,
> {
    if m.contains_key(u.email) {
        Err(UserStoreError::UserAlreadyExists)
    } else {
        Ok(())
    }
}

/// The directory after `add_user`: unchanged on failure, extended by
/// the new record on success.
pub open spec fn spec_add_user_next(m: Map<Seq<char>, UserView>, u: UserView) -> Map<
    Seq<char>,
    UserView,
> {
    if m.contains_key(u.email) {
        m
    } else {
        m.insert(u.email, u)
    }
}

/// What `validate_user` returns: the email is looked up first, so a
/// missing account takes precedence over a password mismatch.
pub open spec fn spec_validate_user(
    m: Map<Seq<char>, UserView>,
    e: Seq<char>,
    p: Seq<char>,
) -> Result<(), UserStoreError> {
    if !m.contains_key(e) {
        Err(UserStoreError::UserNotFound)
    } else if m[e].password != p {
        Err(UserStoreError::InvalidCredentials)
    } else {
        Ok(())
    }
}

proof fn lemma_directory_map_absent(s: Seq<User>, e: Seq<char>)
    requires
        forall|i: int| 0 <= i < s.len() ==> (#[trigger] s[i])@.email != e,
    ensures
        !directory_map(s).contains_key(e),
    decreases s.len(),
{
    if s.len() > 0 {
        assert forall|i: int| 0 <= i < s.drop_last().len() implies (#[trigger] s.drop_last()[i])@.email
            != e by {
            assert(s.drop_last()[i] == s[i]);
        }
        lemma_directory_map_absent(s.drop_last(), e);
        assert(s.last()@.email != e);
    }
}

proof fn lemma_emails_unique_drop_last(s: Seq<User>)
    requires
        emails_unique(s),
        s.len() > 0,
    ensures
        emails_unique(s.drop_last()),
{
    assert forall|i: int, j: int| 0 <= i < j < s.drop_last().len() implies (#[trigger] s.drop_last()[i])@.email
        != (#[trigger] s.drop_last()[j])@.email by {
        assert(s.drop_last()[i] == s[i]);
        assert(s.drop_last()[j] == s[j]);
    }
}

proof fn lemma_directory_map_at(s: Seq<User>, i: int)
    requires
        emails_unique(s),
        0 <= i < s.len(),
    ensures
        directory_map(s).contains_key(s[i]@.email),
        directory_map(s)[s[i]@.email] == s[i]@,
    decreases s.len(),
{
    if i == s.len() - 1 {
        assert(s.last() == s[i]);
    } else {
        lemma_emails_unique_drop_last(s);
        lemma_directory_map_at(s.drop_last(), i);
        assert(s.drop_last()[i] == s[i]);
        assert(s[i]@.email != s.last()@.email);
    }
}

proof fn lemma_directory_map_push(s: Seq<User>, u: User)
    ensures
        directory_map(s.push(u)) == directory_map(s).insert(u@.email, u@),
{
    assert(s.push(u).drop_last() =~= s);
    assert(s.push(u).last() == u);
}

/// The in-memory account directory: the records live in a vector
/// whose emails are pairwise distinct, which realizes the email-keyed
/// map that the contracts speak of.
#[derive(Debug)]
pub struct HashmapUserStore {
    users: Vec<User>,
}

impl View for HashmapUserStore {
    type V = Map<Seq<char>, UserView>;

    closed spec fn view(&self) -> Map<Seq<char>, UserView> {
        directory_map(self.users@)
    }
}

impl HashmapUserStore {
    /// The store's invariant: one record per email.
    pub closed spec fn wf(&self) -> bool {
        emails_unique(self.users@)
    }

    /// An empty directory.
    pub fn new() -> (r: Self)
        ensures
            r.wf(),
            r@ == Map::<Seq<char>, UserView>::empty(),
    {
        HashmapUserStore { users: Vec::new() }
    }

    /// The position of the record for `email`, if any.
    fn find_index(&self, email: &Email) -> (r: Option<usize>)
        ensures
            match r {
                Some(i) => i < self.users@.len() && (self.users@[i as int])@.email == email@,
                None => forall|i: int|
                    0 <= i < self.users@.len() ==> (#[trigger] self.users@[i])@.email != email@,
            },
    {
        let mut i: usize = 0;
        while i < self.users.len()
            invariant
                i <= self.users@.len(),
                forall|j: int| 0 <= j < i ==> (#[trigger] self.users@[j])@.email != email@,
            decreases self.users@.len() - i,
        {
            if self.users[i].email == *email {
                return Some(i);
            }
            i += 1;
        }
        None
    }

    /// Check-and-insert in one critical section: adds the record when
    /// its email has no account yet, and otherwise reports
    /// `UserAlreadyExists` and leaves the directory unchanged.
    pub fn add_user(&mut self, user: User) -> (r: Result<(), UserStoreError>)
        requires
            old(self).wf(),
        ensures
            final(self).wf(),
            r == spec_add_user_result(old(self)@, user@),
            final(self)@ == spec_add_user_next(old(self)@, user@),
    {
        match self.find_index(&user.email) {
            Some(i) => {
                proof {
                    lemma_directory_map_at(self.users@, i as int);
                }
                Err(UserStoreError::UserAlreadyExists)
            },
            None => {
                proof {
                    lemma_directory_map_absent(self.users@, user.email@);
                }
                let ghost s0 = self.users@;
                self.users.push(user);
                proof {
                    lemma_directory_map_push(s0, self.users@.last());
                    assert forall|i: int, j: int| 0 <= i < j < self.users@.len() implies (
                    #[trigger] self.users@[i])@.email != (#[trigger] self.users@[j])@.email by {
                        if j < self.users@.len() - 1 {
                            assert(self.users@[i] == s0[i]);
                            assert(self.users@[j] == s0[j]);
                        } else {
                            assert(self.users@[i] == s0[i]);
                        }
                    }
                }
                Ok(())
            },
        }
    }

    /// A copy of the record for `email`, or `UserNotFound` when the
    /// email has no account.
    pub fn get_user(&self, email: &Email) -> (r: Result<User, UserStoreError>)
        requires
            self.wf(),
        ensures
            self@.contains_key(email@) ==> (r matches Ok(u) && u@ == self@[email@] && u@.email
                == email@),
            !self@.contains_key(email@) ==> r == Err::<User, UserStoreError>(
                UserStoreError::UserNotFound,
            ),
    {
        match self.find_index(email) {
            Some(i) => {
                proof {
                    lemma_directory_map_at(self.users@, i as int);
                }
                Ok(self.users[i].clone())
            },
            None => {
                proof {
                    lemma_directory_map_absent(self.users@, email@);
                }
                Err(UserStoreError::UserNotFound)
            },
        }
    }

    /// Credential check: `UserNotFound` when the email has no account,
    /// `InvalidCredentials` when the stored password differs from the
    /// submitted one, success otherwise.
    pub fn validate_user(&self, email: &Email, password: &Password) -> (r: Result<
        (),
        UserStoreError,
    >)
        requires
            self.wf(),
        ensures
            r == spec_validate_user(self@, email@, password@),
    {
        match self.find_index(email) {
            Some(i) => {
                proof {
                    lemma_directory_map_at(self.users@, i as int);
                }
                if self.users[i].password == *password {
                    Ok(())
                } else {
                    Err(UserStoreError::InvalidCredentials)
                }
            },
            None => {
                proof {
                    lemma_directory_map_absent(self.users@, email@);
                }
                Err(UserStoreError::UserNotFound)
            },
        }
    }
}

impl Default for HashmapUserStore {
    /// The default directory is empty.
    fn default() -> (r: Self)
        ensures
            r.wf(),
            r@ == Map::<Seq<char>, UserView>::empty(),
    {
        HashmapUserStore::new()
    }
}

} // verus!
