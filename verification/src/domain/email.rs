//! Validated email addresses.

use vstd::prelude::*;
use vstd::string::StrSliceExecFns;

verus! {

/// A string is an acceptable email address when it contains an `'@'`
/// sign; such a string is necessarily non-empty.
pub open spec fn email_ok(s: Seq<char>) -> bool {
    s.contains('@')
}

/// A validated email address; the wrapped string always satisfies
/// [`email_ok`]. Values are created by [`Email::parse`] and never
/// mutated.
#[derive(Debug, Hash)]
pub struct Email(String);

impl View for Email {
    type V = Seq<char>;

    closed spec fn view(&self) -> Seq<char> {
        self.0@
    }
}

/// Whether the characters of `s` include `c`.
fn str_contains_char(s: &str, c: char) -> (r: bool)
    ensures
        r == s@.contains(c),
{
    let n = s.unicode_len();
    let mut i: usize = 0;
    while i < n
        invariant
            n == s@.len(),
            i <= n,
            forall|j: int| 0 <= j < i ==> s@[j] != c,
        decreases n - i,
    {
        if s.get_char(i) == c {
            assert(s@.contains(c)) by {
                assert(s@[i as int] == c);
            }
            return true;
        }
        i += 1;
    }
    false
}

impl Email {
    /// Validates a raw string as an email address: succeeds exactly when
    /// the string contains `'@'`, and wraps the string unchanged.
    pub fn parse(e: String) -> (r: Result<Email, String>)
        ensures
            r matches Ok(v) ==> v@ == e@ && email_ok(e@),
            r is Err <==> !email_ok(e@),
            r matches Err(m) ==> m@ == "not valid email - missing @"@,
    {
        if !str_contains_char(e.as_str(), '@') {
            return Err("not valid email - missing @".to_owned());
        }
        Ok(Email(e))
    }

    /// The address as a string slice.
    pub fn as_str(&self) -> (r: &str)
        ensures
            r@ == self@,
    {
        self.0.as_str()
    }

    /// Every parsed address contains an `'@'` sign.
    pub open spec fn wf(&self) -> bool {
        email_ok(self@)
    }
}

impl Clone for Email {
    /// The clone carries the same address.
    fn clone(&self) -> (r: Self)
        ensures
            r == *self,
    {
        Email(self.0.clone())
    }
}

impl PartialEq for Email {
    fn eq(&self, other: &Email) -> (r: bool) {
        self.0 == other.0
    }
}

impl vstd::std_specs::cmp::PartialEqSpecImpl for Email {
    open spec fn obeys_eq_spec() -> bool {
        true
    }

    open spec fn eq_spec(&self, other: &Email) -> bool {
        self@ == other@
    }
}

} // verus!
