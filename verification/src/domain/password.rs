//! Validated passwords.

use vstd::prelude::*;
use vstd::utf8::encode_utf8;

verus! {

/// A string is an acceptable password when its UTF-8 encoding is at
/// least eight bytes long.
pub open spec fn password_ok(s: Seq<char>) -> bool {
    encode_utf8(s).len() >= 8
}

/// A validated password; the wrapped string always satisfies
/// [`password_ok`]. Values are created by [`Password::parse`] and never
/// mutated.
#[derive(Debug, Hash)]
pub struct Password(String);

impl View for Password {
    type V = Seq<char>;

    closed spec fn view(&self) -> Seq<char> {
        self.0@
    }
}

impl Password {
    /// Validates a raw string as a password: succeeds exactly when the
    /// string is at least eight bytes long, and wraps it unchanged.
    pub fn parse(e: String) -> (r: Result<Password, String>)
        ensures
            r matches Ok(v) ==> v@ == e@ && password_ok(e@),
            r is Err <==> !password_ok(e@),
            r matches Err(m) ==> m@ == "Password too short"@,
    {
        if e.as_str().as_bytes().len() < 8 {
            return Err("Password too short".to_owned());
        }
        Ok(Password(e))
    }

    /// The password as a string slice.
    pub fn as_str(&self) -> (r: &str)
        ensures
            r@ == self@,
    {
        self.0.as_str()
    }

    /// Every parsed password is at least eight bytes long.
    pub open spec fn wf(&self) -> bool {
        password_ok(self@)
    }
}

impl Clone for Password {
    /// The clone carries the same password.
    fn clone(&self) -> (r: Self)
        ensures
            r == *self,
    {
        Password(self.0.clone())
    }
}

impl PartialEq for Password {
    fn eq(&self, other: &Password) -> (r: bool) {
        self.0 == other.0
    }
}

impl vstd::std_specs::cmp::PartialEqSpecImpl for Password {
    open spec fn obeys_eq_spec() -> bool {
        true
    }

    open spec fn eq_spec(&self, other: &Password) -> bool {
        self@ == other@
    }
}

} // verus!
